use vstd::prelude::*;
use vstd::utf8::{encode_utf8, encode_utf8_decode_utf8};
use std::sync::Arc;
use url::Url;
use crate::database::crawl::ToCrawlId;
use crate::database::page::{PageDraft, PageKind, PagePromise};
use crate::net::net_error::NetError;
use crate::utils::compress::{Compress, compress_spec, zstd_decoded};
use crate::utils::errors::Result;

verus! {

/// Whether two texts are the same.
fn same_text(a: &str, b: &str) -> (r: bool)
    ensures
        r == (a@ == b@),
{
    let x = a.as_bytes();
    let y = b.as_bytes();
    proof {
        encode_utf8_decode_utf8(a@);
        encode_utf8_decode_utf8(b@);
    }
    if x.len() != y.len() {
        return false;
    }
    let mut i: usize = 0;
    while i < x.len()
        invariant
            x@ == encode_utf8(a@),
            y@ == encode_utf8(b@),
            x@.len() == y@.len(),
            i <= x@.len(),
            forall|j: int| 0 <= j < i ==> x@[j] == y@[j],
        decreases x.len() - i,
    {
        if x[i] != y[i] {
            return false;
        }
        i = i + 1;
    }
    proof {
        assert(x@ =~= y@);
    }
    true
}

/// The kind of a page whose `Content-Type` header is `content_type`.
pub open spec fn page_kind_spec(content_type: Option<Seq<char>>) -> PageKind {
    match content_type {
        Some(t) => if t == "text/html"@ || t == "text/xhtml+xml"@ {
            PageKind::Html
        } else if t == "text/plain"@ || t == "text/markdown"@ {
            PageKind::PlainText
        } else {
            PageKind::NonSearchable
        },
        None => PageKind::Unknown,
    }
}

/// What the crawler does with an answer.
#[derive(Debug, Clone, Copy, PartialEq, Eq, Structural)]
pub enum BodyPlan {
    /// Read the body, and keep it, compressed, in a page of this kind.
    Read(PageKind),
    /// Record a page of this kind without its body.
    Skip(PageKind),
}

/// The crawler's decisions on fetched pages.
pub struct Crawler;

impl Crawler {
    /// The kind of a page whose `Content-Type` header is `content_type`:
    /// HTML for `text/html` and `text/xhtml+xml`, plain text for
    /// `text/plain` and `text/markdown`, not searchable for any other type,
    /// and unknown where there is no readable header.
    pub fn page_kind_for(content_type: Option<&str>) -> (r: PageKind)
        ensures
            r == page_kind_spec(
                match content_type {
                    Some(t) => Some(t@),
                    None => None,
                },
            ),
    {
        match content_type {
            Some(t) => {
                if same_text(t, "text/html") || same_text(t, "text/xhtml+xml") {
                    PageKind::Html
                } else if same_text(t, "text/plain") || same_text(t, "text/markdown") {
                    PageKind::PlainText
                } else {
                    PageKind::NonSearchable
                }
            },
            None => PageKind::Unknown,
        }
    }

    /// What to do with an answer: an answer whose status is not a success
    /// is refused; otherwise the body is read for HTML and plain text, and
    /// skipped for other kinds.
    pub fn plan_for_answer(status_is_success: bool, content_type: Option<&str>) -> (r: core::result::Result<BodyPlan, NetError>)
        ensures
            !status_is_success ==> r is Err && r->Err_0 is SiteReturnedNotSuccess,
            status_is_success ==> ({
                let kind = page_kind_spec(
                    match content_type {
                        Some(t) => Some(t@),
                        None => None,
                    },
                );
                r is Ok && r->Ok_0 == if kind.is_searchable_spec() {
                    BodyPlan::Read(kind)
                } else {
                    BodyPlan::Skip(kind)
                }
            }),
    {
        if !status_is_success {
            return Err(NetError::SiteReturnedNotSuccess);
        }
        let kind = Crawler::page_kind_for(content_type);
        if kind.is_searchable() {
            Ok(BodyPlan::Read(kind))
        } else {
            Ok(BodyPlan::Skip(kind))
        }
    }

    /// The draft of a page whose body was read: the body, compressed, in a
    /// page of `page_kind`; where the body could not be read, a page of
    /// unknown kind without a body. The error is that of the compression.
    pub fn draft_with_body<T: ToCrawlId>(
        url: Arc<Url>,
        body: Option<String>,
        father: Option<Arc<PagePromise<T>>>,
        depth: usize,
        crawl: Arc<T>,
        page_kind: PageKind,
    ) -> (r: Result<PageDraft<T>>)
        ensures
            match body {
                None => r is Ok && *r->Ok_0.html == None::<Vec<u8>> && r->Ok_0.page_kind
                    == PageKind::Unknown,
                Some(text) => match r {
                    Ok(d) => d.page_kind == page_kind && (*d.html) is Some && compress_spec(text@)
                        == Some((*d.html)->Some_0@) && zstd_decoded((*d.html)->Some_0@) == Some(
                        encode_utf8(text@),
                    ),
                    Err(e) => compress_spec(text@) is None && e is IoError,
                },
            },
            r is Ok ==> r->Ok_0.url == url && r->Ok_0.father == father && r->Ok_0.depth == depth
                && r->Ok_0.crawl == crawl,
    {
        match body {
            Some(text) => {
                match text.compress() {
                    Ok(compressed) => Ok(
                        PageDraft::new(url, Some(compressed), father, depth, crawl, page_kind),
                    ),
                    Err(e) => Err(e),
                }
            },
            None => Ok(PageDraft::new(url, None, father, depth, crawl, PageKind::Unknown)),
        }
    }

    /// The draft of a page whose body is not kept.
    pub fn draft_without_body<T: ToCrawlId>(
        url: Arc<Url>,
        father: Option<Arc<PagePromise<T>>>,
        depth: usize,
        crawl: Arc<T>,
        page_kind: PageKind,
    ) -> (r: PageDraft<T>)
        ensures
            r.url == url,
            *r.html == None::<Vec<u8>>,
            r.father == father,
            r.depth == depth,
            r.crawl == crawl,
            r.page_kind == page_kind,
    {
        PageDraft::new(url, None, father, depth, crawl, page_kind)
    }
}

/// A page is kept with its body exactly when the answer was a success and
/// its kind is HTML or plain text; every other successful answer is
/// recorded without its body.
pub proof fn lemma_body_read_iff_searchable(content_type: Option<Seq<char>>)
    ensures
        page_kind_spec(content_type).is_searchable_spec() <==> (content_type is Some && (
        content_type->Some_0 == "text/html"@ || content_type->Some_0 == "text/xhtml+xml"@
            || content_type->Some_0 == "text/plain"@ || content_type->Some_0 == "text/markdown"@)),
{
}

/// A page's kind is unknown exactly when it has no readable `Content-Type`;
/// a present type is HTML for `text/html` and `text/xhtml+xml` only, plain
/// text for `text/plain` and `text/markdown` only, and any other present
/// type makes the page not searchable.
pub proof fn lemma_page_kind_by_content_type(content_type: Option<Seq<char>>)
    ensures
        page_kind_spec(content_type) == PageKind::Unknown <==> content_type is None,
        page_kind_spec(content_type) == PageKind::Html <==> (content_type is Some && (
        content_type->Some_0 == "text/html"@ || content_type->Some_0 == "text/xhtml+xml"@)),
        page_kind_spec(content_type) == PageKind::PlainText <==> (content_type is Some
            && content_type->Some_0 != "text/html"@ && content_type->Some_0 != "text/xhtml+xml"@ && (
        content_type->Some_0 == "text/plain"@ || content_type->Some_0 == "text/markdown"@)),
        page_kind_spec(content_type) == PageKind::NonSearchable <==> (content_type is Some
            && content_type->Some_0 != "text/html"@ && content_type->Some_0 != "text/xhtml+xml"@
            && content_type->Some_0 != "text/plain"@ && content_type->Some_0 != "text/markdown"@),
{
}

} // verus!
