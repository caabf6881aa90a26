use vstd::prelude::*;

verus! {

#[verifier::external_type_specification]
#[verifier::external_body]
pub struct ExResolveError(trust_dns_resolver::error::ResolveError);

#[verifier::external_type_specification]
#[verifier::external_body]
pub struct ExReqwestError(reqwest::Error);

/// What can go wrong when a page is fetched over the network.
#[derive(Debug)]
pub enum NetError {
    /// The DNS resolver failed.
    DNSResolverError(trust_dns_resolver::error::ResolveError),
    /// A domain resolved to no IP address.
    IPFromDnsResoveNotFound(String),
    /// The URL has no domain.
    NoDomain,
    /// The HTTP client failed.
    ReqwestError(reqwest::Error),
    /// The site answered with a status that is not a success.
    SiteReturnedNotSuccess,
}

} // verus!
