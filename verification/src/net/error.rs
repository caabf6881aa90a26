use vstd::prelude::*;
use url::Url;

verus! {

/// What can go wrong when the request sender resolves a domain or sends
/// a request.
#[derive(Debug)]
pub enum NetError {
    /// The DNS resolver failed.
    DNSResolverError(trust_dns_resolver::error::ResolveError),
    /// A domain resolved to no IP address.
    IPFromDnsResoveNotFound(String),
    /// The URL has no domain.
    NoDomain(Url),
    /// The HTTP client failed.
    ReqwestError(reqwest::Error),
}

} // verus!
