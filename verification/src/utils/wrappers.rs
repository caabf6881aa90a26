use vstd::prelude::*;
use url::Url;

verus! {

#[verifier::external_type_specification]
#[verifier::external_body]
pub struct ExUrl(url::Url);

#[verifier::external_type_specification]
#[verifier::external_body]
pub struct ExUrlParseError(url::ParseError);

#[verifier::external_type_specification]
#[verifier::external_body]
pub struct ExAnyhowError(anyhow::Error);

/// `Url::clone`: the clone is the same URL (the derived `Clone` copies
/// every field).
pub assume_specification[ <Url as std::clone::Clone>::clone ](link: &Url) -> (r: Url)
    ensures
        r == *link,
;

/// Whether `Url::parse` accepts the text.
pub uninterp spec fn url_parses(text: Seq<char>) -> bool;

/// The URL that `Url::parse` makes of the text, where it accepts it.
pub uninterp spec fn url_parsed(text: Seq<char>) -> Url;

/// The serialization (`Url::as_str`) of the URL that `Url::parse` makes of
/// the text.
pub uninterp spec fn url_serialized(text: Seq<char>) -> Seq<char>;

/// The domain (`Url::domain`) of the URL that `Url::parse` makes of the
/// text: `None` where its host is not a domain name (no host, or an IP
/// address).
pub uninterp spec fn url_domain_of(text: Seq<char>) -> Option<Seq<char>>;

/// The text of an optional string.
pub open spec fn opt_text(o: Option<String>) -> Option<Seq<char>> {
    match o {
        Some(s) => Some(s@),
        None => None,
    }
}

/// `Url::parse`, with the parsed URL's serialization (`as_str`) and domain
/// (`domain`) read off as plain values: succeeds exactly on the texts that
/// the URL grammar accepts, with the URL that the grammar makes of the
/// text.
#[verifier::external_body]
pub(crate) fn url_parse(text: &str) -> (r: Result<(Url, String, Option<String>), url::ParseError>)
    ensures
        match r {
            Ok(parts) => url_parses(text@) && parts.0 == url_parsed(text@) && parts.1@
                == url_serialized(text@) && opt_text(parts.2) == url_domain_of(text@),
            Err(_) => !url_parses(text@),
        },
{
    let url = Url::parse(text)?;
    let serialization = url.as_str().to_string();
    let domain = url.domain().map(|d| d.to_string());
    Ok((url, serialization, domain))
}

/// A parsed URL, with the parts the crawler's logic reads held as plain
/// values: its serialization and its domain.
#[derive(Debug, Clone)]
pub struct WebUrl {
    url: Url,
    text: String,
    domain: Option<String>,
}

impl WebUrl {
    /// The URL itself.
    pub closed spec fn url(&self) -> Url {
        self.url
    }

    /// The URL's serialization.
    pub closed spec fn text(&self) -> Seq<char> {
        self.text@
    }

    /// The URL's domain, where its host is a domain name.
    pub closed spec fn domain(&self) -> Option<Seq<char>> {
        opt_text(self.domain)
    }

    /// Parses `input` as a URL: `Ok` exactly where the URL grammar accepts
    /// it, with the parsed URL, its serialization and its domain.
    pub fn parse(input: &str) -> (r: Result<WebUrl, url::ParseError>)
        ensures
            match r {
                Ok(w) => url_parses(input@) && w.url() == url_parsed(input@) && w.text()
                    == url_serialized(input@) && w.domain() == url_domain_of(input@),
                Err(_) => !url_parses(input@),
            },
    {
        match url_parse(input) {
            Ok((url, text, domain)) => Ok(WebUrl { url, text, domain }),
            Err(e) => Err(e),
        }
    }

    /// The URL itself.
    pub fn as_url(&self) -> (r: &Url)
        ensures
            *r == self.url(),
    {
        &self.url
    }

    /// The URL's serialization.
    pub fn as_str(&self) -> (r: &str)
        ensures
            r@ == self.text(),
    {
        self.text.as_str()
    }

    /// The URL's domain, where its host is a domain name.
    pub fn domain_str(&self) -> (r: Option<&str>)
        ensures
            match r {
                Some(d) => self.domain() == Some(d@),
                None => self.domain() is None,
            },
    {
        match &self.domain {
            Some(d) => Some(d.as_str()),
            None => None,
        }
    }

    /// The URL, taken out.
    pub fn into_url(self) -> (r: Url)
        ensures
            r == self.url(),
    {
        self.url
    }
}

/// `anyhow::Error::from` on a URL parse error.
#[verifier::external_body]
fn anyhow_from_parse_error(e: url::ParseError) -> anyhow::Error {
    anyhow::Error::from(e)
}

/// A transparent wrapper, through which the library gives its own
/// methods to a type of another crate.
#[derive(Clone, Debug)]
pub struct W<T>(pub T);

impl<T> W<T> {
    /// Wraps a value.
    pub fn new(value: T) -> (r: Self)
        ensures
            r.0 == value,
    {
        W(value)
    }

    /// The wrapped value.
    pub fn inner(&self) -> (r: &T)
        ensures
            *r == self.0,
    {
        &self.0
    }

    /// The wrapped value, mutably.
    pub fn inner_mut(&mut self) -> (r: &mut T)
        ensures
            *r == old(self).0,
            *final(self) == W(*final(r)),
    {
        &mut self.0
    }

    /// Unwraps the value.
    pub fn into_inner(self) -> (r: T)
        ensures
            r == self.0,
    {
        self.0
    }
}

impl<T> core::ops::Deref for W<T> {
    type Target = T;

    /// The wrapped value.
    fn deref(&self) -> (r: &T)
        ensures
            *r == self.0,
    {
        &self.0
    }
}

/// Parsing a text into a URL.
pub trait ToUrlStr {
    fn to_url(&self) -> Result<Url, anyhow::Error>;
}

impl ToUrlStr for str {
    /// Parses the text as a URL: `Ok` exactly where the URL grammar
    /// accepts it, with the URL that the grammar makes of the text.
    fn to_url(&self) -> (r: Result<Url, anyhow::Error>)
        ensures
            r is Ok <==> url_parses(self@),
            r is Ok ==> r->Ok_0 == url_parsed(self@),
    {
        match url_parse(self) {
            Ok((url, _, _)) => Ok(url),
            Err(e) => Err(anyhow_from_parse_error(e)),
        }
    }
}

} // verus!
