use vstd::prelude::*;
use dashmap::DashMap;
use vstd::utf8::encode_utf8;
use vstd::pervasive::unreached;
use crate::net::rate_limiter::{RateLimiter, WaitStep, wait_step_fits, wait_step_spec};

verus! {

#[verifier::external_type_specification]
#[verifier::external_body]
#[verifier::reject_recursive_types(K)]
#[verifier::reject_recursive_types(V)]
#[verifier::reject_recursive_types(S)]
pub struct ExDashMap<K, V, S>(DashMap<K, V, S>);

/// What a table of rate limiters holds: for each key, the limiter's
/// `(next free slot, interval)`.
pub uninterp spec fn limiter_entries(m: DashMap<u64, RateLimiter>) -> Map<u64, (u64, u64)>;

/// The 64-bit XXH3 hash (seed 0) of `bytes`.
pub uninterp spec fn xxh3_64_hash(bytes: Seq<u8>) -> u64;

/// `xxhash_rust::xxh3::xxh3_64`: the 64-bit XXH3 hash of the bytes.
#[verifier::external_body]
fn xxh3_64_of(bytes: &[u8]) -> (r: u64)
    ensures
        r == xxh3_64_hash(bytes@),
{
    xxhash_rust::xxh3::xxh3_64(bytes)
}

/// The key under which the limiter of a domain is kept: the XXH3 hash of
/// the domain's UTF-8 bytes.
pub open spec fn domain_key_spec(domain: Seq<char>) -> u64 {
    xxh3_64_hash(encode_utf8(domain))
}

/// The key under which the limiter of `domain` is kept.
pub fn domain_key(domain: &str) -> (r: u64)
    ensures
        r == domain_key_spec(domain@),
{
    xxh3_64_of(domain.as_bytes())
}

/// A table with no limiter in it.
pub open spec fn empty_entries() -> Map<u64, (u64, u64)> {
    Map::empty()
}

/// `DashMap::new`: the new map holds nothing.
#[verifier::external_body]
fn dashmap_new() -> (r: DashMap<u64, RateLimiter>)
    ensures
        limiter_entries(r) == empty_entries(),
{
    DashMap::new()
}

/// `DashMap::contains_key`: whether the map holds the key.
#[verifier::external_body]
fn dashmap_contains_key(m: &DashMap<u64, RateLimiter>, key: u64) -> (r: bool)
    ensures
        r == limiter_entries(*m).contains_key(key),
{
    m.contains_key(&key)
}

/// `DashMap::insert`: the key now maps to the value, every other entry
/// stays as it was.
#[verifier::external_body]
fn dashmap_insert(m: &mut DashMap<u64, RateLimiter>, key: u64, value: RateLimiter)
    ensures
        limiter_entries(*final(m)) == limiter_entries(*old(m)).insert(key, value@),
{
    m.insert(key, value);
}

/// `DashMap::get`, copying the value out of the guard it returns: the
/// value stored under the key, if there is one.
#[verifier::external_body]
fn dashmap_get(m: &DashMap<u64, RateLimiter>, key: u64) -> (r: Option<RateLimiter>)
    ensures
        match r {
            Some(v) => limiter_entries(*m).contains_key(key) && limiter_entries(*m)[key] == v@,
            None => !limiter_entries(*m).contains_key(key),
        },
{
    match m.get(&key) {
        Some(guard) => Some(*guard.value()),
        None => None,
    }
}

/// The limiters after a request under `key` was prepared: a fresh limiter
/// with `interval` is added where none is kept under `key`; a limiter kept
/// there stays as it is.
pub open spec fn prepared_limiters(limiters: Map<u64, (u64, u64)>, interval: u64, key: u64) -> Map<
    u64,
    (u64, u64),
> {
    if limiters.contains_key(key) {
        limiters
    } else {
        limiters.insert(key, (0u64, interval))
    }
}

/// The limiter a wait step under `key` acts on: the one kept there, or a
/// fresh one with `interval` where none is kept.
pub open spec fn limiter_before(limiters: Map<u64, (u64, u64)>, interval: u64, key: u64) -> (u64, u64) {
    if limiters.contains_key(key) {
        limiters[key]
    } else {
        (0u64, interval)
    }
}

/// Requests under one key share one limiter: after a request has been
/// prepared, the key has a limiter; preparing another request under the
/// same key changes nothing, so the state of that limiter (and with it
/// the spacing it enforces) carries over; and the limiters of other keys
/// are never touched.
pub proof fn lemma_prepared_limiters_shared(limiters: Map<u64, (u64, u64)>, interval: u64, key: u64, other: u64)
    ensures
        prepared_limiters(limiters, interval, key).contains_key(key),
        prepared_limiters(prepared_limiters(limiters, interval, key), interval, key)
            == prepared_limiters(limiters, interval, key),
        limiters.contains_key(key) ==> prepared_limiters(limiters, interval, key)[key] == limiters[key],
        other != key ==> (prepared_limiters(limiters, interval, key).contains_key(other)
            == limiters.contains_key(other)),
        other != key && limiters.contains_key(other) ==> prepared_limiters(limiters, interval, key)[other]
            == limiters[other],
{
}

/// A table of rate limiters, one per key, all created with the same
/// interval.
pub struct RateLimiterTable {
    interval_ms: u64,
    limiters: DashMap<u64, RateLimiter>,
}

impl RateLimiterTable {
    /// The limiters of the table, by key.
    pub closed spec fn entries(&self) -> Map<u64, (u64, u64)> {
        limiter_entries(self.limiters)
    }

    /// The interval every new limiter of the table is made with.
    pub closed spec fn interval(&self) -> u64 {
        self.interval_ms
    }

    /// Every limiter of the table was made with the table's interval.
    pub closed spec fn wf(&self) -> bool {
        forall|k: u64| #[trigger] self.entries().contains_key(k) ==> self.entries()[k].1 == self.interval()
    }

    /// An empty table whose limiters will let a request pass every
    /// `interval_ms` milliseconds.
    pub fn new(interval_ms: u64) -> (t: Self)
        ensures
            t.wf(),
            t.entries() == empty_entries(),
            t.interval() == interval_ms,
    {
        RateLimiterTable { interval_ms, limiters: dashmap_new() }
    }

    /// The interval every new limiter of the table is made with.
    pub fn interval_ms(&self) -> (r: u64)
        ensures
            r == self.interval(),
    {
        self.interval_ms
    }

    /// Whether the table holds a limiter for `key`.
    pub fn contains(&self, key: u64) -> (r: bool)
        ensures
            r == self.entries().contains_key(key),
    {
        dashmap_contains_key(&self.limiters, key)
    }

    /// The limiter held for `key`, if any.
    pub fn get(&self, key: u64) -> (r: Option<RateLimiter>)
        ensures
            match r {
                Some(l) => self.entries().contains_key(key) && self.entries()[key] == l@,
                None => !self.entries().contains_key(key),
            },
    {
        dashmap_get(&self.limiters, key)
    }

    /// Puts a fresh limiter under `key`, replacing any limiter held there.
    pub fn add(&mut self, key: u64)
        requires
            old(self).wf(),
        ensures
            final(self).wf(),
            final(self).entries() == old(self).entries().insert(key, (0u64, old(self).interval())),
            final(self).interval() == old(self).interval(),
    {
        let limiter = RateLimiter::new(self.interval_ms);
        dashmap_insert(&mut self.limiters, key, limiter);
        proof {
            assert forall|k: u64| #[trigger] self.entries().contains_key(k) implies self.entries()[k].1
                == self.interval() by {
                if k != key {
                    assert(old(self).entries().contains_key(k));
                }
            }
        }
    }

    /// Makes sure a limiter is held for `key`: a fresh one is added only
    /// where none is held, and a limiter already held is kept as it is.
    pub fn ensure(&mut self, key: u64)
        requires
            old(self).wf(),
        ensures
            final(self).wf(),
            final(self).entries() == prepared_limiters(old(self).entries(), old(self).interval(), key),
            final(self).entries().contains_key(key),
            final(self).interval() == old(self).interval(),
    {
        if !self.contains(key) {
            self.add(key);
        }
    }

    /// One wait step, at time `now_ms`, on the limiter held for `key`
    /// (a fresh one is added first where none is held). Every other
    /// limiter stays as it was.
    pub fn wait_step(&mut self, key: u64, now_ms: u64) -> (step: WaitStep)
        requires
            old(self).wf(),
            wait_step_fits(limiter_before(old(self).entries(), old(self).interval(), key), now_ms),
        ensures
            final(self).wf(),
            ({
                let before = limiter_before(old(self).entries(), old(self).interval(), key);
                &&& step == wait_step_spec(before, now_ms).1
                &&& final(self).entries() == old(self).entries().insert(
                    key,
                    wait_step_spec(before, now_ms).0,
                )
            }),
            final(self).interval() == old(self).interval(),
    {
        self.ensure(key);
        let found = self.get(key);
        match found {
            Some(limiter) => {
                let mut limiter = limiter;
                let step = limiter.wait_step(now_ms);
                dashmap_insert(&mut self.limiters, key, limiter);
                proof {
                    assert(self.entries() =~= old(self).entries().insert(key, limiter@));
                }
                step
            },
            None => unreached(),
        }
    }
}

} // verus!
