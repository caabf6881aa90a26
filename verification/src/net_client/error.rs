use vstd::prelude::*;

verus! {

/// What can go wrong when the HTTP client fetches a page.
#[derive(Debug)]
pub enum ClientError {
    /// The URL has no domain.
    NoDomain,
    /// The HTTP client failed.
    ReqwestError(reqwest::Error),
    /// The site answered with a status that is not a success.
    SiteReturnedNotSuccess,
}

} // verus!
