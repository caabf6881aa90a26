use vstd::prelude::*;
use std::sync::Arc;
use url::Url;
use crate::database::crawl::{Crawl, ToCrawlId};

verus! {

/// What a fetched page holds, as far as the crawler cares.
#[derive(Debug, Clone, Copy, PartialEq, Eq, Structural)]
pub enum PageKind {
    Html,
    PlainText,
    NonSearchable,
    Unknown,
}

impl PageKind {
    /// Whether the crawler reads and keeps the body of such a page.
    pub open spec fn is_searchable_spec(self) -> bool {
        self == PageKind::Html || self == PageKind::PlainText
    }

    /// Whether the crawler reads and keeps the body of such a page: it
    /// does for HTML and plain text.
    pub fn is_searchable(&self) -> (r: bool)
        ensures
            r == self.is_searchable_spec(),
    {
        match self {
            PageKind::Html | PageKind::PlainText => true,
            PageKind::NonSearchable | PageKind::Unknown => false,
        }
    }
}

/// A page about to be recorded: its URL, its compressed body if kept, the
/// page it was found on, its depth, its crawl and its kind.
pub struct PageDraft<T: ToCrawlId> {
    pub url: Arc<Url>,
    pub html: Arc<Option<Vec<u8>>>,
    pub father: Option<Arc<PagePromise<T>>>,
    pub depth: usize,
    pub crawl: Arc<T>,
    pub page_kind: PageKind,
}

impl<T: ToCrawlId> PageDraft<T> {
    /// A draft with these fields.
    pub fn new(
        url: Arc<Url>,
        html: Option<Vec<u8>>,
        father: Option<Arc<PagePromise<T>>>,
        depth: usize,
        crawl: Arc<T>,
        page_kind: PageKind,
    ) -> (r: Self)
        ensures
            r.url == url,
            *r.html == html,
            r.father == father,
            r.depth == depth,
            r.crawl == crawl,
            r.page_kind == page_kind,
    {
        Self { url, html: Arc::new(html), father, depth, crawl, page_kind }
    }
}

/// A page that was recorded under `id`.
#[derive(Debug)]
pub struct PagePromise<T: ToCrawlId> {
    pub id: i64,
    pub url: Arc<Url>,
    pub father: Option<Arc<PagePromise<T>>>,
    pub depth: usize,
    pub crawl: Arc<T>,
    pub page_kind: PageKind,
}

impl<T: ToCrawlId> PagePromise<T> {
    /// The record of `draft`, stored under `id`: every field but the body
    /// carries over.
    pub fn from_inserted(id: i64, draft: PageDraft<T>) -> (r: Self)
        ensures
            r.id == id,
            r.url == draft.url,
            r.father == draft.father,
            r.depth == draft.depth,
            r.crawl == draft.crawl,
            r.page_kind == draft.page_kind,
    {
        PagePromise {
            id,
            url: draft.url,
            father: draft.father,
            depth: draft.depth,
            crawl: draft.crawl,
            page_kind: draft.page_kind,
        }
    }

    /// The id of the page the draft was found on, if any.
    pub fn father_id(&self) -> (r: Option<i64>)
        ensures
            r == (match self.father {
                Some(f) => Some(f.id),
                None => None,
            }),
    {
        match &self.father {
            Some(f) => Some(f.id),
            None => None,
        }
    }
}

impl<T: ToCrawlId> PageDraft<T> {
    /// The id of the page the draft was found on, if any.
    pub fn father_id(&self) -> (r: Option<i64>)
        ensures
            r == (match self.father {
                Some(f) => Some(f.id),
                None => None,
            }),
    {
        match &self.father {
            Some(f) => Some(f.id),
            None => None,
        }
    }
}

/// A finished page.
pub struct Page<Moment> {
    pub id: i64,
    pub url: Arc<Url>,
    pub father: Option<Arc<Page<Moment>>>,
    pub depth: usize,
    pub crawl: Arc<Crawl<Moment>>,
    pub page_kind: PageKind,
}

/// The promises of the pages of one batch: the i-th insertion result goes
/// with the i-th draft, an id making the draft's promise and an error
/// staying as it is; where one list is longer, its extra items are
/// dropped.
pub fn pair_inserted_pages<T: ToCrawlId, E>(
    results: Vec<Result<i64, E>>,
    drafts: Vec<PageDraft<T>>,
) -> (r: Vec<Result<PagePromise<T>, E>>)
    ensures
        r@.len() == if results@.len() <= drafts@.len() {
            results@.len()
        } else {
            drafts@.len()
        },
        forall|i: int|
            0 <= i < r@.len() ==> match (#[trigger] r@[i], results@[i]) {
                (Ok(p), Ok(id)) => p.id == id && p.url == drafts@[i].url && p.father == drafts@[i].father
                    && p.depth == drafts@[i].depth && p.crawl == drafts@[i].crawl && p.page_kind
                    == drafts@[i].page_kind,
                (Err(e1), Err(e2)) => e1 == e2,
                _ => false,
            },
{
    let mut results = results;
    let mut drafts = drafts;
    let ghost all_results = results@;
    let ghost all_drafts = drafts@;
    let n: usize = if results.len() <= drafts.len() {
        results.len()
    } else {
        drafts.len()
    };
    results.truncate(n);
    drafts.truncate(n);
    let mut out: Vec<Result<PagePromise<T>, E>> = Vec::new();
    // pairs are taken from the back, then put back in order
    let mut reversed: Vec<Result<PagePromise<T>, E>> = Vec::new();
    while results.len() > 0
        invariant
            results@.len() == drafts@.len(),
            results@.len() + reversed@.len() == n,
            n <= all_results.len(),
            n <= all_drafts.len(),
            forall|i: int| 0 <= i < results@.len() ==> results@[i] == all_results[i],
            forall|i: int| 0 <= i < drafts@.len() ==> drafts@[i] == all_drafts[i],
            forall|j: int|
                0 <= j < reversed@.len() ==> {
                    let i = n - 1 - j;
                    match (#[trigger] reversed@[j], all_results[i]) {
                        (Ok(p), Ok(id)) => p.id == id && p.url == all_drafts[i].url && p.father
                            == all_drafts[i].father && p.depth == all_drafts[i].depth && p.crawl
                            == all_drafts[i].crawl && p.page_kind == all_drafts[i].page_kind,
                        (Err(e1), Err(e2)) => e1 == e2,
                        _ => false,
                    }
                },
        decreases results@.len(),
    {
        let result = results.pop().unwrap();
        let draft = drafts.pop().unwrap();
        let paired = match result {
            Ok(id) => Ok(PagePromise::from_inserted(id, draft)),
            Err(e) => Err(e),
        };
        reversed.push(paired);
    }
    while reversed.len() > 0
        invariant
            reversed@.len() + out@.len() == n,
            n <= all_results.len(),
            n <= all_drafts.len(),
            forall|j: int|
                0 <= j < reversed@.len() ==> {
                    let i = n - 1 - j;
                    match (#[trigger] reversed@[j], all_results[i]) {
                        (Ok(p), Ok(id)) => p.id == id && p.url == all_drafts[i].url && p.father
                            == all_drafts[i].father && p.depth == all_drafts[i].depth && p.crawl
                            == all_drafts[i].crawl && p.page_kind == all_drafts[i].page_kind,
                        (Err(e1), Err(e2)) => e1 == e2,
                        _ => false,
                    }
                },
            forall|i: int|
                0 <= i < out@.len() ==> match (#[trigger] out@[i], all_results[i]) {
                    (Ok(p), Ok(id)) => p.id == id && p.url == all_drafts[i].url && p.father
                        == all_drafts[i].father && p.depth == all_drafts[i].depth && p.crawl
                        == all_drafts[i].crawl && p.page_kind == all_drafts[i].page_kind,
                    (Err(e1), Err(e2)) => e1 == e2,
                    _ => false,
                },
        decreases reversed@.len(),
    {
        let ghost before = reversed@;
        let paired = reversed.pop().unwrap();
        proof {
            assert(paired == before[before.len() - 1]);
        }
        out.push(paired);
    }
    out
}

/// The first row a query returned, if it returned any.
pub fn first_row<Row>(rows: Vec<Row>) -> (r: Option<Row>)
    ensures
        match r {
            Some(row) => rows@.len() > 0 && row == rows@[0],
            None => rows@.len() == 0,
        },
{
    let mut rows = rows;
    if rows.len() == 0 {
        None
    } else {
        Some(rows.remove(0))
    }
}

} // verus!
