use vstd::prelude::*;
use chrono::NaiveDateTime;
use crate::utils::wrappers::{url_domain_of, url_parsed, url_parses, url_serialized, WebUrl};

verus! {

#[verifier::external_type_specification]
#[verifier::external_body]
pub struct ExNaiveDateTime(chrono::NaiveDateTime);

#[verifier::external_type_specification]
#[verifier::external_body]
pub struct ExChronoParseError(chrono::format::ParseError);

/// Whether `NaiveDateTime::parse_from_str` accepts the text in the form
/// `fmt`.
pub uninterp spec fn naive_parses(text: Seq<char>, fmt: Seq<char>) -> bool;

/// `NaiveDateTime::parse_from_str`: succeeds exactly on the texts in the
/// form `fmt` that name a valid date and time. Of the parsed value nothing
/// is stated: Verus does not see inside a `NaiveDateTime`.
#[verifier::external_body]
fn naive_parse_from_str(text: &str, fmt: &str) -> (r: Result<NaiveDateTime, chrono::format::ParseError>)
    ensures
        r is Ok <==> naive_parses(text@, fmt@),
{
    NaiveDateTime::parse_from_str(text, fmt)
}

/// The form in which a moment is stored: `%Y-%m-%d %H:%M:%S`.
pub open spec fn stored_moment_format() -> Seq<char> {
    "%Y-%m-%d %H:%M:%S"@
}

/// Reads a moment stored in the form `%Y-%m-%d %H:%M:%S`, as a date and
/// time without a time zone.
pub fn parse_stored_moment(text: &str) -> (r: Result<NaiveDateTime, chrono::format::ParseError>)
    ensures
        r is Ok <==> naive_parses(text@, stored_moment_format()),
{
    naive_parse_from_str(text, "%Y-%m-%d %H:%M:%S")
}

/// A crawl about to be recorded: its name, how deep it goes, where it
/// starts and when it started (`Moment` is the type of a point in time).
#[derive(Debug, Clone)]
pub struct CrawlDraft<Moment> {
    pub name: Option<String>,
    pub depth: usize,
    pub root_url: WebUrl,
    pub started_at: Moment,
}

impl<Moment> CrawlDraft<Moment> {
    /// A draft with these fields.
    pub fn new(name: Option<String>, depth: usize, root_url: WebUrl, started_at: Moment) -> (r: Self)
        ensures
            r == (CrawlDraft { name, depth, root_url, started_at }),
    {
        Self { name, depth, root_url, started_at }
    }
}

/// A crawl that was recorded under `id` and has not finished yet.
#[derive(Debug, Clone)]
pub struct CrawlPromise<Moment> {
    pub id: i64,
    pub inner: CrawlDraft<Moment>,
}

/// A finished crawl.
#[derive(Debug, Clone)]
pub struct Crawl<Moment> {
    pub id: i64,
    pub name: Option<String>,
    pub depth: usize,
    pub root_url: WebUrl,
    pub started_at: Moment,
    pub finished_at: Moment,
}

impl<Moment> CrawlPromise<Moment> {
    /// The record of `draft`, stored under `id`.
    pub fn from_inserted(id: i64, draft: CrawlDraft<Moment>) -> (r: Self)
        ensures
            r == (CrawlPromise { id, inner: draft }),
    {
        CrawlPromise { id, inner: draft }
    }

    /// What recording `draft` gave: the record under the id it was given,
    /// or the failure as it is.
    pub fn from_insert_result<E>(inserted: Result<i64, E>, draft: CrawlDraft<Moment>) -> (r: Result<Self, E>)
        ensures
            match inserted {
                Ok(id) => r == Ok::<Self, E>(CrawlPromise { id, inner: draft }),
                Err(e) => r == Err::<Self, E>(e),
            },
    {
        match inserted {
            Ok(id) => Ok(CrawlPromise::from_inserted(id, draft)),
            Err(e) => Err(e),
        }
    }

    /// The crawl, finished at `finished_at`: every field of the draft and
    /// the id carry over.
    pub fn into_crawl(self, finished_at: Moment) -> (r: Crawl<Moment>)
        ensures
            r == (Crawl {
                id: self.id,
                name: self.inner.name,
                depth: self.inner.depth,
                root_url: self.inner.root_url,
                started_at: self.inner.started_at,
                finished_at,
            }),
    {
        Crawl {
            id: self.id,
            name: self.inner.name,
            depth: self.inner.depth,
            root_url: self.inner.root_url,
            started_at: self.inner.started_at,
            finished_at,
        }
    }
}

/// The record that a row of the `crawls` table holds: its id, name and
/// depth, its root URL parsed from the stored text, and the moment it
/// started; an error where the stored text is not a URL.
pub fn crawl_from_row<Moment>(id: i64, name: Option<String>, depth: usize, root_url: &str, started_at: Moment) -> (r: Result<CrawlPromise<Moment>, url::ParseError>)
    ensures
        match r {
            Ok(p) => url_parses(root_url@) && p.id == id && p.inner.name == name && p.inner.depth == depth
                && p.inner.started_at == started_at && p.inner.root_url.url() == url_parsed(root_url@)
                && p.inner.root_url.text() == url_serialized(root_url@)
                && p.inner.root_url.domain() == url_domain_of(root_url@),
            Err(_) => !url_parses(root_url@),
        },
{
    match WebUrl::parse(root_url) {
        Ok(url) => Ok(CrawlPromise::from_inserted(id, CrawlDraft::new(name, depth, url, started_at))),
        Err(e) => Err(e),
    }
}

/// Something that belongs to a recorded crawl.
pub trait ToCrawlId {
    /// The id of the crawl.
    spec fn crawl_id_of(&self) -> i64;

    /// The id of the crawl.
    fn crawl_id(&self) -> (r: i64)
        ensures
            r == self.crawl_id_of(),
    ;
}

impl<Moment> ToCrawlId for CrawlPromise<Moment> {
    open spec fn crawl_id_of(&self) -> i64 {
        self.id
    }

    fn crawl_id(&self) -> (r: i64) {
        self.id
    }
}

impl<Moment> ToCrawlId for Crawl<Moment> {
    open spec fn crawl_id_of(&self) -> i64 {
        self.id
    }

    fn crawl_id(&self) -> (r: i64) {
        self.id
    }
}

/// A crawl keeps its id from the moment it is recorded to the moment it
/// finishes.
pub proof fn lemma_crawl_keeps_its_id<Moment>(promise: CrawlPromise<Moment>, finished_at: Moment)
    ensures
        (Crawl {
            id: promise.id,
            name: promise.inner.name,
            depth: promise.inner.depth,
            root_url: promise.inner.root_url,
            started_at: promise.inner.started_at,
            finished_at,
        }).crawl_id_of() == promise.crawl_id_of(),
{
}

} // verus!
