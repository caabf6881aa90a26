use vstd::prelude::*;

verus! {

/// What a caller of [`RateLimiter::wait_step`] is told to do.
#[derive(Debug, Clone, Copy, PartialEq, Eq, Structural)]
pub enum WaitStep {
    /// The slot was free: the request may go now, and the slot has moved on.
    Proceed,
    /// The slot is not free yet: sleep this many milliseconds, then ask again.
    Sleep(u64),
}

/// A time-slot rate limiter.
///
/// Time is counted in milliseconds from a start chosen by the owner. A
/// request passes only once the clock has reached the next free slot; the
/// slot then moves one interval past the moment the request passed.
#[derive(Debug, Clone, Copy)]
pub struct RateLimiter {
    next_allowed_ms: u64,
    interval_ms: u64,
}

/// The state after one wait step of a limiter in state `(next, interval)`
/// asked at time `now`, and what the caller is told.
pub open spec fn wait_step_spec(state: (u64, u64), now: u64) -> ((u64, u64), WaitStep) {
    let (next, interval) = state;
    if now >= next {
        (((now + interval) as u64, interval), WaitStep::Proceed)
    } else {
        (state, WaitStep::Sleep((next - now) as u64))
    }
}

/// Whether a wait step at `now` can be taken without the slot arithmetic
/// leaving the `u64` range.
pub open spec fn wait_step_fits(state: (u64, u64), now: u64) -> bool {
    now >= state.0 ==> now + state.1 <= u64::MAX
}

impl View for RateLimiter {
    /// `(next free slot, interval)`, both in milliseconds.
    type V = (u64, u64);

    closed spec fn view(&self) -> (u64, u64) {
        (self.next_allowed_ms, self.interval_ms)
    }
}

impl RateLimiter {
    /// A limiter whose first slot is free from the start of its clock.
    pub fn new(interval_ms: u64) -> (r: Self)
        ensures
            r@ == (0u64, interval_ms),
    {
        RateLimiter { next_allowed_ms: 0, interval_ms }
    }

    /// The interval between two passing requests, in milliseconds.
    pub fn interval_ms(&self) -> (r: u64)
        ensures
            r == self@.1,
    {
        self.interval_ms
    }

    /// The next moment at which a request may pass, in milliseconds.
    pub fn next_allowed_ms(&self) -> (r: u64)
        ensures
            r == self@.0,
    {
        self.next_allowed_ms
    }

    /// One round of waiting, asked at time `now_ms`: either the request
    /// passes and the slot moves to `now_ms + interval`, or the caller is
    /// told how long to sleep before asking again, and nothing changes.
    pub fn wait_step(&mut self, now_ms: u64) -> (step: WaitStep)
        requires
            wait_step_fits(old(self)@, now_ms),
        ensures
            (final(self)@, step) == wait_step_spec(old(self)@, now_ms),
    {
        if now_ms >= self.next_allowed_ms {
            self.next_allowed_ms = now_ms + self.interval_ms;
            WaitStep::Proceed
        } else {
            WaitStep::Sleep(self.next_allowed_ms - now_ms)
        }
    }
}

/// Two requests that pass one after the other are at least one interval
/// apart (refused steps in between leave the limiter unchanged, see
/// [`lemma_sleeping_the_named_time_suffices`]).
pub proof fn lemma_passes_are_spaced(state: (u64, u64), first: u64, second: u64)
    requires
        wait_step_fits(state, first),
        wait_step_spec(state, first).1 == WaitStep::Proceed,
        wait_step_spec(wait_step_spec(state, first).0, second).1 == WaitStep::Proceed,
    ensures
        second >= first + state.1,
        wait_step_spec(state, first).0 == ((first + state.1) as u64, state.1),
{
}

/// The limiter's state before step `k` of a run that starts in `state` and
/// asks at the moments `times`.
pub open spec fn state_before(state: (u64, u64), times: Seq<u64>, k: nat) -> (u64, u64)
    decreases k,
{
    if k == 0 {
        state
    } else {
        wait_step_spec(state_before(state, times, (k - 1) as nat), times[k - 1]).0
    }
}

/// What step `k` of that run is told.
pub open spec fn step_at(state: (u64, u64), times: Seq<u64>, k: nat) -> WaitStep {
    wait_step_spec(state_before(state, times, k), times[k as int]).1
}

/// No step of the run leaves the `u64` range.
pub open spec fn run_fits(state: (u64, u64), times: Seq<u64>) -> bool {
    forall|k: nat| k < times.len() ==> #[trigger] wait_step_fits(state_before(state, times, k), times[k as int])
}

/// A run never changes the interval.
proof fn lemma_interval_kept(state: (u64, u64), times: Seq<u64>, k: nat)
    ensures
        state_before(state, times, k).1 == state.1,
    decreases k,
{
    if k > 0 {
        lemma_interval_kept(state, times, (k - 1) as nat);
    }
}

/// After a request passed at step `i`, the free slot never falls below
/// one interval past the moment it passed.
proof fn lemma_slot_stays_after_pass(state: (u64, u64), times: Seq<u64>, i: nat, k: nat)
    requires
        run_fits(state, times),
        i < k <= times.len(),
        step_at(state, times, i) == WaitStep::Proceed,
    ensures
        state_before(state, times, k).0 >= times[i as int] + state.1,
    decreases k,
{
    lemma_interval_kept(state, times, i);
    assert(wait_step_fits(state_before(state, times, i), times[i as int]));
    if k > i + 1 {
        let j = (k - 1) as nat;
        lemma_slot_stays_after_pass(state, times, i, j);
        lemma_interval_kept(state, times, j);
        assert(wait_step_fits(state_before(state, times, j), times[j as int]));
    }
}

/// In any run of a limiter, every two requests that pass are at least one
/// interval apart: if steps `i < j` both pass, the moment of step `j` is at
/// least the moment of step `i` plus the interval.
pub proof fn lemma_every_two_passes_are_spaced(state: (u64, u64), times: Seq<u64>, i: nat, j: nat)
    requires
        run_fits(state, times),
        i < j < times.len(),
        step_at(state, times, i) == WaitStep::Proceed,
        step_at(state, times, j) == WaitStep::Proceed,
    ensures
        times[j as int] >= times[i as int] + state.1,
{
    lemma_slot_stays_after_pass(state, times, i, j);
}

/// A refused step leaves the limiter as it was, and sleeping exactly the
/// time it names makes the next step pass.
pub proof fn lemma_sleeping_the_named_time_suffices(state: (u64, u64), now: u64, ms: u64)
    requires
        wait_step_spec(state, now).1 == WaitStep::Sleep(ms),
    ensures
        wait_step_spec(state, now).0 == state,
        ms > 0,
        wait_step_spec(state, (now + ms) as u64).1 == WaitStep::Proceed,
{
}

/// A step taken earlier than the free slot is always refused, and a step
/// taken at or after it always passes.
pub proof fn lemma_pass_iff_slot_reached(state: (u64, u64), now: u64)
    ensures
        (wait_step_spec(state, now).1 == WaitStep::Proceed) <==> now >= state.0,
{
}

} // verus!
