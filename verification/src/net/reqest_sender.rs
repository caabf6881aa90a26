use vstd::prelude::*;
use crate::net::limiter_table::{RateLimiterTable, domain_key, domain_key_spec, empty_entries, limiter_before, prepared_limiters};
use crate::net::rate_limiter::{RateLimiter, WaitStep, wait_step_fits, wait_step_spec};
use crate::net::net_error::NetError;
use crate::utils::wrappers::WebUrl;

verus! {

/// The part of the request sender that decides: one rate limiter per
/// domain, kept under the XXH3 hash of the domain, all with the same
/// interval.
pub struct ReqSender {
    rate_limiting_interval_ms: u64,
    rate_lims: RateLimiterTable,
}

impl ReqSender {
    /// The limiters, by key.
    pub closed spec fn limiters(&self) -> Map<u64, (u64, u64)> {
        self.rate_lims.entries()
    }

    /// The interval of the sender's limiters, in milliseconds.
    pub closed spec fn interval(&self) -> u64 {
        self.rate_limiting_interval_ms
    }

    /// The sender's state is consistent: every limiter was made with the
    /// sender's interval.
    pub closed spec fn wf(&self) -> bool {
        &&& self.rate_lims.wf()
        &&& self.rate_lims.interval() == self.rate_limiting_interval_ms
    }

    /// A sender with no limiter yet, whose limiters will let one request
    /// per domain pass every `interval_ms` milliseconds.
    pub fn new(interval_ms: u64) -> (c: Self)
        ensures
            c.wf(),
            c.limiters() == empty_entries(),
            c.interval() == interval_ms,
    {
        ReqSender { rate_limiting_interval_ms: interval_ms, rate_lims: RateLimiterTable::new(interval_ms) }
    }

    /// The interval of the sender's limiters, in milliseconds.
    pub fn rate_limiting_interval_ms(&self) -> (r: u64)
        ensures
            r == self.interval(),
    {
        self.rate_limiting_interval_ms
    }

    /// Whether a limiter is kept under `hash_to_check`.
    pub fn check_rate_limiter_hash(&self, hash_to_check: u64) -> (r: bool)
        ensures
            r == self.limiters().contains_key(hash_to_check),
    {
        self.rate_lims.contains(hash_to_check)
    }

    /// Whether a limiter is kept for `domain_to_check`.
    pub fn check_rate_limiter_domain(&self, domain_to_check: &str) -> (r: bool)
        ensures
            r == self.limiters().contains_key(domain_key_spec(domain_to_check@)),
    {
        self.check_rate_limiter_hash(domain_key(domain_to_check))
    }

    /// The limiter kept under `hash`, if any.
    pub fn get_rate_limiter_hash(&self, hash: u64) -> (r: Option<RateLimiter>)
        ensures
            match r {
                Some(l) => self.limiters().contains_key(hash) && self.limiters()[hash] == l@,
                None => !self.limiters().contains_key(hash),
            },
    {
        self.rate_lims.get(hash)
    }

    /// The limiter kept for `domain`, if any.
    pub fn get_rate_limiter_domain(&self, domain: &str) -> (r: Option<RateLimiter>)
        ensures
            match r {
                Some(l) => self.limiters().contains_key(domain_key_spec(domain@))
                    && self.limiters()[domain_key_spec(domain@)] == l@,
                None => !self.limiters().contains_key(domain_key_spec(domain@)),
            },
    {
        self.get_rate_limiter_hash(domain_key(domain))
    }

    /// Puts a fresh limiter under `hash`, replacing any limiter kept there.
    pub fn add_rate_limiter_hash(&mut self, hash: u64)
        requires
            old(self).wf(),
        ensures
            final(self).wf(),
            final(self).interval() == old(self).interval(),
            final(self).limiters() == old(self).limiters().insert(hash, (0u64, old(self).interval())),
    {
        self.rate_lims.add(hash);
    }

    /// Puts a fresh limiter for `domain`, replacing any limiter kept for
    /// it, and returns the key it is kept under.
    pub fn add_rate_limiter_domain(&mut self, domain: &str) -> (r: u64)
        requires
            old(self).wf(),
        ensures
            r == domain_key_spec(domain@),
            final(self).wf(),
            final(self).interval() == old(self).interval(),
            final(self).limiters() == old(self).limiters().insert(r, (0u64, old(self).interval())),
    {
        let hash = domain_key(domain);
        self.add_rate_limiter_hash(hash);
        hash
    }

    /// Prepares a request to a URL whose domain is `domain`: a URL with no
    /// domain is refused; otherwise the key of the domain's limiter is
    /// returned, a fresh limiter being added only where none is kept.
    pub fn request_key(&mut self, domain: Option<&str>) -> (r: Result<u64, NetError>)
        requires
            old(self).wf(),
        ensures
            final(self).wf(),
            final(self).interval() == old(self).interval(),
            match domain {
                None => r is Err && r->Err_0 is NoDomain && final(self).limiters() == old(
                    self,
                ).limiters(),
                Some(d) => r == Ok::<u64, NetError>(domain_key_spec(d@)) && final(self).limiters()
                    == prepared_limiters(old(self).limiters(), old(self).interval(), domain_key_spec(d@)),
            },
    {
        match domain {
            Some(domain) => {
                let hash = domain_key(domain);
                if !self.check_rate_limiter_hash(hash) {
                    self.add_rate_limiter_hash(hash);
                }
                Ok(hash)
            },
            None => Err(NetError::NoDomain),
        }
    }

    /// Prepares a request to `target`: [`ReqSender::request_key`] of the URL's
    /// domain. A URL whose host is not a domain name is refused.
    pub fn make_request(&mut self, target: &WebUrl) -> (r: Result<u64, NetError>)
        requires
            old(self).wf(),
        ensures
            final(self).wf(),
            final(self).interval() == old(self).interval(),
            match target.domain() {
                Some(d) => r == Ok::<u64, NetError>(domain_key_spec(d)) && final(self).limiters()
                    == prepared_limiters(old(self).limiters(), old(self).interval(), domain_key_spec(d)),
                None => r is Err && r->Err_0 is NoDomain && final(self).limiters() == old(self).limiters(),
            },
    {
        self.request_key(target.domain_str())
    }

    /// One round of waiting, at time `now_ms`, on the limiter kept under
    /// `key` (a fresh one is added first where none is kept).
    pub fn wait_step(&mut self, key: u64, now_ms: u64) -> (step: WaitStep)
        requires
            old(self).wf(),
            wait_step_fits(limiter_before(old(self).limiters(), old(self).interval(), key), now_ms),
        ensures
            final(self).wf(),
            final(self).interval() == old(self).interval(),
            ({
                let before = limiter_before(old(self).limiters(), old(self).interval(), key);
                &&& step == wait_step_spec(before, now_ms).1
                &&& final(self).limiters() == old(self).limiters().insert(
                    key,
                    wait_step_spec(before, now_ms).0,
                )
            }),
    {
        self.rate_lims.wait_step(key, now_ms)
    }
}

} // verus!
