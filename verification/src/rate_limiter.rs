//! Admission control: a token bucket kept as a single theoretical arrival
//! time, advanced lazily on each call.
//!
//! The limiter reads no clock. Every call takes the current time in
//! nanoseconds since an origin of the caller's choosing (the limiter's
//! creation, say), so that a decision is a function of the limiter's state
//! and that reading alone. Whoever shares a limiter among concurrent callers
//! guards it with one lock, held for the call and never across a sleep.

use vstd::prelude::*;
use vstd::string::*;
use crate::error::{Error, ErrorView};

verus! {

/// Nanoseconds in a second.
pub const NANOS_PER_SECOND: u64 = 1_000_000_000;

/// Nanoseconds in a minute.
pub const NANOS_PER_MINUTE: u64 = 60_000_000_000;

/// Proof that one request was admitted. It is not released: the budget it
/// used comes back with time.
#[derive(Debug)]
pub struct RateLimitPermit {
    _private: (),
}

/// An admitted request and how long it has to wait before it proceeds.
#[derive(Debug)]
pub struct Admission {
    pub permit: RateLimitPermit,
    /// Nanoseconds to sleep before the request is issued.
    pub wait_nanos: u64,
}

/// How late the theoretical arrival time may lie after `now` for a request
/// to be admitted at once: the time in which a bucket of `capacity` tokens,
/// less the one asked for, is refilled.
pub open spec fn tolerance(capacity: int, interval: int) -> int {
    (capacity - 1) * interval
}

/// Whether a request at `now` is admitted at once.
pub open spec fn admits(capacity: int, interval: int, tat: int, now: int) -> bool {
    tat <= now + tolerance(capacity, interval)
}

/// The earliest time, from `now` on, at which a request is admitted.
pub open spec fn grant_time(capacity: int, interval: int, tat: int, now: int) -> int {
    if admits(capacity, interval, tat, now) {
        now
    } else {
        tat - tolerance(capacity, interval)
    }
}

/// The theoretical arrival time after a request made at `now` was admitted,
/// at once or after its wait.
pub open spec fn next_tat(interval: int, tat: int, now: int) -> int {
    if tat > now {
        tat + interval
    } else {
        now + interval
    }
}

/// The burst that a budget of `requests_per_minute` allows: one second's
/// worth, rounded up.
pub open spec fn burst_per_minute(requests_per_minute: int) -> int {
    (requests_per_minute + 59) / 60
}

/// Token bucket rate limiter.
#[derive(Debug)]
pub struct RateLimiter {
    capacity: u32,
    interval: u64,
    window: u64,
    tat: u64,
}

impl RateLimiter {
    /// Tokens that the bucket holds when full.
    pub closed spec fn spec_capacity(&self) -> int {
        self.capacity as int
    }

    /// Nanoseconds in which one token is refilled.
    pub closed spec fn spec_interval(&self) -> int {
        self.interval as int
    }

    /// The theoretical arrival time: the time from which the bucket, left
    /// alone, is full again.
    pub closed spec fn spec_tat(&self) -> int {
        self.tat as int
    }

    #[verifier::type_invariant]
    spec fn well_formed(&self) -> bool {
        &&& self.capacity >= 1
        &&& self.interval >= 1
        &&& self.window == self.capacity * self.interval
    }

    /// The latest time at which [`RateLimiter::try_acquire`] may be called:
    /// later, the time of a full refill would not fit in 64 bits.
    pub open spec fn horizon(&self) -> int {
        u64::MAX - self.spec_capacity() * self.spec_interval()
    }

    /// Whether the state after a request at `now` fits in 64 bits.
    pub open spec fn can_acquire(&self, now: int) -> bool {
        next_tat(self.spec_interval(), self.spec_tat(), now) <= u64::MAX
    }

    /// What a budget is refused with, if it is refused: a capacity or an
    /// interval of zero, or a full refill that takes longer than 64 bits of
    /// nanoseconds hold.
    pub open spec fn budget_fault(capacity: u32, interval_nanos: u64) -> Option<ErrorView> {
        if capacity == 0 || interval_nanos == 0 {
            Some(ErrorView::ConfigError("Rate and capacity must be greater than 0"@))
        } else if capacity * interval_nanos > u64::MAX {
            Some(ErrorView::ConfigError("Refill time of the bucket is too long"@))
        } else {
            None
        }
    }

    /// A limiter of `capacity` tokens, one refilled every `interval_nanos`,
    /// full at first.
    pub fn with_budget(capacity: u32, interval_nanos: u64) -> (r: Result<RateLimiter, Error>)
        ensures
            r is Ok <==> Self::budget_fault(capacity, interval_nanos) is None,
            r matches Ok(l) ==> l.spec_capacity() == capacity && l.spec_interval()
                == interval_nanos && l.spec_tat() == 0,
            r matches Err(e) ==> Self::budget_fault(capacity, interval_nanos) == Some(e@),
    {
        if capacity == 0 || interval_nanos == 0 {
            return Err(Error::ConfigError("Rate and capacity must be greater than 0".to_owned()));
        }
        match (capacity as u64).checked_mul(interval_nanos) {
            Some(window) => Ok(RateLimiter { capacity, interval: interval_nanos, window, tat: 0 }),
            None => Err(Error::ConfigError("Refill time of the bucket is too long".to_owned())),
        }
    }

    /// Create new rate limiter for `requests_per_minute`, with a burst of one
    /// second's worth of requests.
    pub fn new(requests_per_minute: u32) -> (r: Self)
        requires
            requests_per_minute > 0,
        ensures
            r.spec_capacity() == burst_per_minute(requests_per_minute as int),
            r.spec_interval() == NANOS_PER_MINUTE / (requests_per_minute as u64),
            r.spec_tat() == 0,
    {
        let capacity: u32 = ((requests_per_minute as u64 + 59) / 60) as u32;
        let interval: u64 = NANOS_PER_MINUTE / (requests_per_minute as u64);
        proof {
            let c = capacity as int;
            let i = interval as int;
            let n = requests_per_minute as int;
            assert(c * 60 <= n + 59);
            assert(c >= 1);
            assert(i >= 1) by (nonlinear_arith)
                requires
                    i == 60_000_000_000int / n,
                    0 < n <= 4294967295,
            ;
            assert(i * n <= 60_000_000_000) by (nonlinear_arith)
                requires
                    i == 60_000_000_000int / n,
                    n > 0,
            ;
            assert(c * i <= 60_000_000_000) by (nonlinear_arith)
                requires
                    c * 60 <= n + 59,
                    i * n <= 60_000_000_000,
                    0 <= i <= 60_000_000_000,
                    c >= 0,
                    n > 0,
            ;
        }
        RateLimiter { capacity, interval, window: capacity as u64 * interval, tat: 0 }
    }

    /// Create rate limiter for `requests_per_second`, which is also the burst.
    /// More than a request per nanosecond is no rate that the limiter can
    /// keep: the interval between tokens would round to zero.
    pub fn per_second(requests_per_second: u32) -> (r: Self)
        requires
            0 < requests_per_second <= NANOS_PER_SECOND,
        ensures
            r.spec_capacity() == requests_per_second,
            r.spec_interval() == NANOS_PER_SECOND / (requests_per_second as u64),
            r.spec_tat() == 0,
    {
        let interval: u64 = NANOS_PER_SECOND / (requests_per_second as u64);
        proof {
            let i = interval as int;
            let n = requests_per_second as int;
            assert(i * n <= 1_000_000_000) by (nonlinear_arith)
                requires
                    i == 1_000_000_000int / n,
                    n > 0,
            ;
            assert(n * i == i * n) by (nonlinear_arith);
            assert(i >= 1) by (nonlinear_arith)
                requires
                    i == 1_000_000_000int / n,
                    0 < n <= 1_000_000_000,
            ;
        }
        RateLimiter {
            capacity: requests_per_second,
            interval,
            window: requests_per_second as u64 * interval,
            tat: 0,
        }
    }

    /// Tokens that the bucket holds when full.
    pub fn capacity(&self) -> (r: u32)
        ensures
            r == self.spec_capacity(),
            r >= 1,
    {
        proof {
            use_type_invariant(self);
        }
        self.capacity
    }

    /// Nanoseconds in which one token is refilled.
    pub fn interval_nanos(&self) -> (r: u64)
        ensures
            r == self.spec_interval(),
            r >= 1,
    {
        proof {
            use_type_invariant(self);
        }
        self.interval
    }

    /// The latest time at which [`RateLimiter::try_acquire`] may be called.
    pub fn latest_time(&self) -> (r: u64)
        ensures
            r == self.horizon(),
    {
        proof {
            use_type_invariant(self);
        }
        u64::MAX - self.window
    }

    /// Whether [`RateLimiter::acquire`] may be called at `now`.
    pub fn fits(&self, now: u64) -> (r: bool)
        ensures
            r == self.can_acquire(now as int),
    {
        let base = if self.tat > now { self.tat } else { now };
        base <= u64::MAX - self.interval
    }

    /// Try to acquire permission at once: the request at `now` is admitted
    /// if a token is there, and refused if not. A refusal changes nothing.
    pub fn try_acquire(&mut self, now: u64) -> (r: Option<RateLimitPermit>)
        requires
            now <= old(self).horizon(),
        ensures
            final(self).spec_capacity() == old(self).spec_capacity(),
            final(self).spec_interval() == old(self).spec_interval(),
            r is Some <==> admits(
                old(self).spec_capacity(),
                old(self).spec_interval(),
                old(self).spec_tat(),
                now as int,
            ),
            r is Some ==> final(self).spec_tat() == next_tat(
                old(self).spec_interval(),
                old(self).spec_tat(),
                now as int,
            ),
            r is None ==> final(self).spec_tat() == old(self).spec_tat(),
    {
        proof {
            use_type_invariant(&*self);
            assert((self.capacity - 1) * self.interval == self.capacity * self.interval
                - self.interval) by (nonlinear_arith);
        }
        let tolerance = self.window - self.interval;
        if self.tat <= now + tolerance {
            self.tat = if self.tat > now { self.tat + self.interval } else { now + self.interval };
            Some(RateLimitPermit { _private: () })
        } else {
            None
        }
    }

    /// Acquire permission, waiting if needed: the request at `now` is
    /// admitted at the earliest time at which a token is there, and told how
    /// long that is from now. Its token is taken at once, before the wait,
    /// so that no later caller is admitted in its place.
    pub fn acquire(&mut self, now: u64) -> (r: Admission)
        requires
            old(self).can_acquire(now as int),
        ensures
            final(self).spec_capacity() == old(self).spec_capacity(),
            final(self).spec_interval() == old(self).spec_interval(),
            now + r.wait_nanos == grant_time(
                old(self).spec_capacity(),
                old(self).spec_interval(),
                old(self).spec_tat(),
                now as int,
            ),
            final(self).spec_tat() == next_tat(
                old(self).spec_interval(),
                old(self).spec_tat(),
                now as int,
            ),
    {
        proof {
            use_type_invariant(&*self);
            assert((self.capacity - 1) * self.interval == self.capacity * self.interval
                - self.interval) by (nonlinear_arith);
        }
        let tolerance = self.window - self.interval;
        let wait_nanos: u64 = if self.tat > now && self.tat - now > tolerance {
            self.tat - now - tolerance
        } else {
            0
        };
        self.tat = if self.tat > now { self.tat + self.interval } else { now + self.interval };
        Admission { permit: RateLimitPermit { _private: () }, wait_nanos }
    }
}

/// The theoretical arrival time after the first `k` of a run of `acquire`
/// calls made at `times`, on a limiter that starts full.
pub open spec fn tat_after(interval: int, times: Seq<int>, k: int) -> int
    decreases k,
{
    if k <= 0 {
        0
    } else {
        next_tat(interval, tat_after(interval, times, k - 1), times[k - 1])
    }
}

/// The time at which call number `k` of the run is admitted.
pub open spec fn granted_at(capacity: int, interval: int, times: Seq<int>, k: int) -> int {
    grant_time(capacity, interval, tat_after(interval, times, k), times[k])
}

/// Every admitted request moves the theoretical arrival time on by at least
/// one interval.
proof fn lemma_tat_grows(interval: int, times: Seq<int>, i: int, j: int)
    requires
        interval >= 1,
        0 <= i <= j,
    ensures
        tat_after(interval, times, j) >= tat_after(interval, times, i) + (j - i) * interval,
    decreases j - i,
{
    if i < j {
        lemma_tat_grows(interval, times, i, j - 1);
        assert((j - i) * interval == (j - 1 - i) * interval + interval) by (nonlinear_arith);
    } else {
        assert((j - i) * interval == 0) by (nonlinear_arith)
            requires
                j == i,
        ;
    }
}

/// The rate is kept over every window: of a run of `acquire` calls, those
/// numbered `i` to `j` are `j - i + 1` requests, and the time between the
/// admission of the first and of the last of them is at least that of
/// refilling as many tokens as they are more than the capacity.
pub proof fn lemma_window_bound(capacity: int, interval: int, times: Seq<int>, i: int, j: int)
    requires
        capacity >= 1,
        interval >= 1,
        0 <= i <= j < times.len(),
    ensures
        (j - i + 1 - capacity) * interval <= granted_at(capacity, interval, times, j) - granted_at(
            capacity,
            interval,
            times,
            i,
        ),
{
    let tol = tolerance(capacity, interval);
    let gi = granted_at(capacity, interval, times, i);
    let gj = granted_at(capacity, interval, times, j);
    assert(tol >= 0) by (nonlinear_arith)
        requires
            tol == (capacity - 1) * interval,
            capacity >= 1,
            interval >= 1,
    ;
    assert((j - i + 1 - capacity) * interval == (j - i) * interval - tol) by (nonlinear_arith)
        requires
            tol == (capacity - 1) * interval,
    ;
    if i == j {
        assert((j - i) * interval == 0) by (nonlinear_arith)
            requires
                j == i,
        ;
    } else {
        lemma_tat_grows(interval, times, i + 1, j);
        assert((j - i) * interval == (j - (i + 1)) * interval + interval) by (nonlinear_arith);
        assert(tat_after(interval, times, i + 1) == next_tat(
            interval,
            tat_after(interval, times, i),
            times[i],
        ));
    }
}

/// Within any window shorter than the refill interval no more requests are
/// admitted than the bucket holds.
pub proof fn lemma_burst_within_capacity(
    capacity: int,
    interval: int,
    times: Seq<int>,
    i: int,
    j: int,
)
    requires
        capacity >= 1,
        interval >= 1,
        0 <= i <= j < times.len(),
        granted_at(capacity, interval, times, j) - granted_at(capacity, interval, times, i)
            < interval,
    ensures
        j - i + 1 <= capacity,
{
    lemma_window_bound(capacity, interval, times, i, j);
    assert(j - i + 1 - capacity <= 0) by (nonlinear_arith)
        requires
            (j - i + 1 - capacity) * interval < interval,
            interval >= 1,
    ;
}

/// Within any window shorter than the time of a full refill fewer than twice
/// the capacity are admitted: a full bucket, and what is refilled meanwhile.
pub proof fn lemma_window_within_twice_capacity(
    capacity: int,
    interval: int,
    times: Seq<int>,
    i: int,
    j: int,
)
    requires
        capacity >= 1,
        interval >= 1,
        0 <= i <= j < times.len(),
        granted_at(capacity, interval, times, j) - granted_at(capacity, interval, times, i)
            < capacity * interval,
    ensures
        j - i + 1 < 2 * capacity,
{
    lemma_window_bound(capacity, interval, times, i, j);
    assert(j - i + 1 - capacity < capacity) by (nonlinear_arith)
        requires
            (j - i + 1 - capacity) * interval < capacity * interval,
            interval >= 1,
    ;
}

/// One call of a limiter, with the time at which it is made.
pub enum Call {
    /// [`RateLimiter::try_acquire`]
    Try { now: int },
    /// [`RateLimiter::acquire`]
    Acquire { now: int },
}

impl Call {
    pub open spec fn now(self) -> int {
        match self {
            Call::Try { now } => now,
            Call::Acquire { now } => now,
        }
    }
}

/// Whether a call that finds the theoretical arrival time at `tat` is
/// admitted: an `acquire` always, a `try_acquire` where a token is there.
pub open spec fn call_admitted(capacity: int, interval: int, tat: int, call: Call) -> bool {
    call is Acquire || admits(capacity, interval, tat, call.now())
}

/// The theoretical arrival time after the first `k` of a run of calls, on a
/// limiter that starts full. A refused call leaves it as it was.
pub open spec fn state_after(capacity: int, interval: int, calls: Seq<Call>, k: int) -> int
    decreases k,
{
    if k <= 0 {
        0
    } else {
        let tat = state_after(capacity, interval, calls, k - 1);
        if call_admitted(capacity, interval, tat, calls[k - 1]) {
            next_tat(interval, tat, calls[k - 1].now())
        } else {
            tat
        }
    }
}

/// Whether call number `k` of the run is admitted.
pub open spec fn admitted(capacity: int, interval: int, calls: Seq<Call>, k: int) -> bool {
    call_admitted(capacity, interval, state_after(capacity, interval, calls, k), calls[k])
}

/// The time at which call number `k` of the run is admitted, if it is.
pub open spec fn admission_time(capacity: int, interval: int, calls: Seq<Call>, k: int) -> int {
    grant_time(capacity, interval, state_after(capacity, interval, calls, k), calls[k].now())
}

/// How many of the calls numbered `lo` up to, not including, `hi` are admitted.
pub open spec fn admitted_between(
    capacity: int,
    interval: int,
    calls: Seq<Call>,
    lo: int,
    hi: int,
) -> int
    decreases hi - lo,
{
    if hi <= lo {
        0
    } else {
        admitted_between(capacity, interval, calls, lo, hi - 1) + if admitted(
            capacity,
            interval,
            calls,
            hi - 1,
        ) {
            1int
        } else {
            0int
        }
    }
}

/// Every admitted call moves the theoretical arrival time on by at least one
/// interval, and a refused one does not move it back.
proof fn lemma_state_grows(capacity: int, interval: int, calls: Seq<Call>, i: int, j: int)
    requires
        interval >= 1,
        0 <= i <= j,
    ensures
        state_after(capacity, interval, calls, j) >= state_after(capacity, interval, calls, i)
            + admitted_between(capacity, interval, calls, i, j) * interval,
    decreases j - i,
{
    if i < j {
        lemma_state_grows(capacity, interval, calls, i, j - 1);
        let before = admitted_between(capacity, interval, calls, i, j - 1);
        assert((before + 1) * interval == before * interval + interval) by (nonlinear_arith);
    } else {
        assert(admitted_between(capacity, interval, calls, i, j) * interval == 0)
            by (nonlinear_arith)
            requires
                admitted_between(capacity, interval, calls, i, j) == 0,
        ;
    }
}

/// The rate is kept over every window, however `acquire` and `try_acquire`
/// are mixed: between the admission of call `i` and that of a later call `j`
/// at least the time passes in which as many tokens are refilled as the
/// calls admitted from `i` to `j` are more than the capacity.
pub proof fn lemma_rate_is_kept(capacity: int, interval: int, calls: Seq<Call>, i: int, j: int)
    requires
        capacity >= 1,
        interval >= 1,
        0 <= i < j < calls.len(),
        admitted(capacity, interval, calls, i),
        admitted(capacity, interval, calls, j),
    ensures
        (admitted_between(capacity, interval, calls, i, j + 1) - capacity) * interval
            <= admission_time(capacity, interval, calls, j) - admission_time(
            capacity,
            interval,
            calls,
            i,
        ),
{
    let tol = tolerance(capacity, interval);
    let middle = admitted_between(capacity, interval, calls, i + 1, j);
    let count = admitted_between(capacity, interval, calls, i, j + 1);
    lemma_state_grows(capacity, interval, calls, i + 1, j);
    lemma_count_splits(capacity, interval, calls, i, j);
    assert(tol >= 0) by (nonlinear_arith)
        requires
            tol == (capacity - 1) * interval,
            capacity >= 1,
            interval >= 1,
    ;
    assert((count - capacity) * interval == middle * interval + interval - tol)
        by (nonlinear_arith)
        requires
            count == middle + 2,
            tol == (capacity - 1) * interval,
    ;
    assert(state_after(capacity, interval, calls, i + 1) == next_tat(
        interval,
        state_after(capacity, interval, calls, i),
        calls[i].now(),
    ));
}

/// The admitted calls from `i` to `j`, both admitted, are the two and those
/// between them.
proof fn lemma_count_splits(capacity: int, interval: int, calls: Seq<Call>, i: int, j: int)
    requires
        0 <= i < j,
        admitted(capacity, interval, calls, i),
        admitted(capacity, interval, calls, j),
    ensures
        admitted_between(capacity, interval, calls, i, j + 1) == admitted_between(
            capacity,
            interval,
            calls,
            i + 1,
            j,
        ) + 2,
{
    lemma_count_drops_first(capacity, interval, calls, i, j);
}

proof fn lemma_count_drops_first(capacity: int, interval: int, calls: Seq<Call>, i: int, hi: int)
    requires
        i < hi,
    ensures
        admitted_between(capacity, interval, calls, i, hi) == admitted_between(
            capacity,
            interval,
            calls,
            i + 1,
            hi,
        ) + if admitted(capacity, interval, calls, i) {
            1int
        } else {
            0int
        },
    decreases hi - i,
{
    if hi - 1 > i {
        lemma_count_drops_first(capacity, interval, calls, i, hi - 1);
    } else {
        assert(admitted_between(capacity, interval, calls, i, i) == 0);
        assert(admitted_between(capacity, interval, calls, i + 1, hi) == 0);
    }
}

/// A full bucket holds exactly its capacity: of a run of `try_acquire` calls
/// at one and the same time on a limiter that starts full, the first
/// `capacity` are admitted and every later one is refused.
pub proof fn lemma_burst_is_the_capacity(
    capacity: int,
    interval: int,
    calls: Seq<Call>,
    now: int,
    k: int,
)
    requires
        capacity >= 1,
        interval >= 1,
        now >= 0,
        0 <= k < calls.len(),
        forall|i: int| 0 <= i < calls.len() ==> calls[i] == (Call::Try { now }),
    ensures
        admitted(capacity, interval, calls, k) <==> k < capacity,
        state_after(capacity, interval, calls, k) == if k == 0 {
            0
        } else if k < capacity {
            now + k * interval
        } else {
            now + capacity * interval
        },
    decreases k,
{
    if k > 0 {
        lemma_burst_is_the_capacity(capacity, interval, calls, now, k - 1);
        let before = state_after(capacity, interval, calls, k - 1);
        assert((k - 1) * interval + interval == k * interval) by (nonlinear_arith);
        assert(k - 1 < capacity ==> (k - 1) * interval <= (capacity - 1) * interval)
            by (nonlinear_arith)
            requires
                interval >= 1,
        ;
        assert(0 <= (k - 1) * interval) by (nonlinear_arith)
            requires
                k >= 1,
                interval >= 1,
        ;
        assert(capacity * interval == (capacity - 1) * interval + interval) by (nonlinear_arith);
        assert(k < capacity ==> k * interval <= (capacity - 1) * interval) by (nonlinear_arith)
            requires
                interval >= 1,
        ;
    } else {
        assert(0 <= (capacity - 1) * interval) by (nonlinear_arith)
            requires
                capacity >= 1,
                interval >= 1,
        ;
    }
}

} // verus!
