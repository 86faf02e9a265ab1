//! Bounded, classified retries with exponential backoff.
//!
//! The executor decides; the caller performs. After every attempt the caller
//! reports how it ended and receives what to do next: hand the response back,
//! surface the error, or wait and try again.

use vstd::prelude::*;
use vstd::arithmetic::power2::{pow2, lemma_pow2_unfold, lemma_pow2_strictly_increases, lemma2_to64_rest, lemma2_to64};
use crate::error::{Error, ErrorView, FailureKind};

verus! {

/// Base delay after a timed-out attempt, in milliseconds.
pub const TIMEOUT_BASE_MS: u64 = 100;

/// Base delay after a failed connection, in milliseconds.
pub const CONNECT_BASE_MS: u64 = 500;

/// The largest number of retries for which every backoff delay fits in 64 bits.
pub const MAX_RETRIES: u32 = 56;

/// How one attempt of the wrapped operation ended.
#[derive(Debug, Clone, Copy, PartialEq, Eq, Structural)]
pub enum AttemptOutcome {
    Success,
    /// The attempt timed out.
    Timeout,
    /// The connection could not be established.
    ConnectFailure,
    /// A protocol or validation failure that repeating cannot mend.
    Fatal,
}

impl AttemptOutcome {
    /// How a failed request counts: a timeout as a timeout, a failed
    /// connection as one, anything else as fatal.
    pub open spec fn of_failure(kind: FailureKind) -> AttemptOutcome {
        match kind {
            FailureKind::Timeout => AttemptOutcome::Timeout,
            FailureKind::Connect => AttemptOutcome::ConnectFailure,
            FailureKind::Other => AttemptOutcome::Fatal,
        }
    }

    /// The outcome of an attempt that failed in transit.
    pub fn from_failure(kind: FailureKind) -> (r: AttemptOutcome)
        ensures
            r == Self::of_failure(kind),
    {
        match kind {
            FailureKind::Timeout => AttemptOutcome::Timeout,
            FailureKind::Connect => AttemptOutcome::ConnectFailure,
            FailureKind::Other => AttemptOutcome::Fatal,
        }
    }
}

/// What the caller does after an attempt.
#[derive(Debug, Clone, Copy, PartialEq, Eq, Structural)]
pub enum RetryDecision {
    /// The attempt succeeded: return its response.
    Return,
    /// Give up: surface the attempt's own error, unwrapped.
    Surface,
    /// Wait this long, then make a fresh attempt.
    Backoff { millis: u64 },
}

/// The delay before the attempt that follows attempt number `attempt`.
pub open spec fn backoff_ms(base: nat, attempt: nat) -> nat {
    base * pow2((attempt - 1) as nat)
}

/// The decision after attempt number `attempt` (counted from 1) ended with
/// `outcome`, under a policy that allows `max_attempts` attempts.
pub open spec fn decide(enabled: bool, max_attempts: nat, attempt: nat, outcome: AttemptOutcome)
    -> RetryDecision
{
    if outcome == AttemptOutcome::Success {
        RetryDecision::Return
    } else if !enabled || attempt >= max_attempts {
        RetryDecision::Surface
    } else {
        match outcome {
            AttemptOutcome::Timeout => RetryDecision::Backoff {
                millis: backoff_ms(TIMEOUT_BASE_MS as nat, attempt) as u64,
            },
            AttemptOutcome::ConnectFailure => RetryDecision::Backoff {
                millis: backoff_ms(CONNECT_BASE_MS as nat, attempt) as u64,
            },
            _ => RetryDecision::Surface,
        }
    }
}

/// Every delay that a policy within [`MAX_RETRIES`] can ask for fits in 64 bits.
pub proof fn lemma_backoff_fits(base: nat, attempt: nat)
    requires
        base <= CONNECT_BASE_MS,
        1 <= attempt <= MAX_RETRIES,
    ensures
        backoff_ms(base, attempt) <= u64::MAX,
{
    let e = (attempt - 1) as nat;
    lemma2_to64_rest();
    if e < 55 {
        lemma_pow2_strictly_increases(e, 55);
    }
    assert(base * pow2(e) <= 500 * 0x80000000000000) by (nonlinear_arith)
        requires
            base <= 500,
            pow2(e) <= 0x80000000000000,
    ;
}

/// `base * 2^(attempt-1)` milliseconds.
pub fn backoff_delay(base: u64, attempt: u32) -> (d: u64)
    requires
        base <= CONNECT_BASE_MS,
        1 <= attempt <= MAX_RETRIES,
    ensures
        d == backoff_ms(base as nat, attempt as nat),
{
    let mut d: u64 = base;
    let mut i: u32 = 1;
    proof {
        lemma2_to64();
        assert(base * 1 == base) by (nonlinear_arith);
    }
    while i < attempt
        invariant
            1 <= i <= attempt <= MAX_RETRIES,
            base <= CONNECT_BASE_MS,
            d == backoff_ms(base as nat, i as nat),
        decreases attempt - i,
    {
        proof {
            lemma_backoff_fits(base as nat, (i + 1) as nat);
            lemma_pow2_unfold(i as nat);
            assert(base * (2 * pow2((i - 1) as nat)) == 2 * (base * pow2((i - 1) as nat)))
                by (nonlinear_arith);
        }
        d = d * 2;
        i = i + 1;
    }
    d
}

/// Whether retries are made at all, and how many beyond the first attempt.
#[derive(Debug, Clone, Copy, PartialEq, Eq, Structural)]
pub struct RetryPolicy {
    enabled: bool,
    max_retries: u32,
}

impl RetryPolicy {
    /// Attempts allowed per call: one, plus the retries when they are enabled.
    pub open spec fn max_attempts(self) -> nat {
        if self.spec_enabled() {
            (self.spec_max_retries() + 1) as nat
        } else {
            1
        }
    }

    pub closed spec fn spec_enabled(&self) -> bool {
        self.enabled
    }

    pub closed spec fn spec_max_retries(&self) -> nat {
        self.max_retries as nat
    }

    #[verifier::type_invariant]
    spec fn within_limit(self) -> bool {
        self.max_retries <= MAX_RETRIES
    }

    /// A policy of `max_retries` retries beyond the first attempt. More than
    /// [`MAX_RETRIES`] is a configuration error: the delay before a later
    /// attempt would not fit in 64 bits of milliseconds.
    pub fn new(enabled: bool, max_retries: u32) -> (r: Result<RetryPolicy, Error>)
        ensures
            max_retries <= MAX_RETRIES ==> r is Ok && r.unwrap().spec_enabled() == enabled
                && r.unwrap().spec_max_retries() == max_retries,
            max_retries > MAX_RETRIES ==> r is Err && r.unwrap_err()@ == ErrorView::ConfigError(
                "Maximum retries must not exceed 56"@,
            ),
    {
        if max_retries > MAX_RETRIES {
            Err(Error::ConfigError("Maximum retries must not exceed 56".to_owned()))
        } else {
            Ok(RetryPolicy { enabled, max_retries })
        }
    }

    pub fn enabled(&self) -> (r: bool)
        ensures
            r == self.spec_enabled(),
    {
        self.enabled
    }

    pub fn max_retries(&self) -> (r: u32)
        ensures
            r == self.spec_max_retries(),
            r <= MAX_RETRIES,
    {
        proof {
            use_type_invariant(self);
        }
        self.max_retries
    }
}

/// The retry state of one call: the policy and the attempts made so far.
#[derive(Debug, Clone, Copy, PartialEq, Eq, Structural)]
pub struct RetryExecutor {
    policy: RetryPolicy,
    attempts: u32,
}

impl RetryExecutor {
    pub closed spec fn policy(self) -> RetryPolicy {
        self.policy
    }

    /// Attempts reported so far.
    pub closed spec fn spec_attempts(self) -> nat {
        self.attempts as nat
    }

    #[verifier::type_invariant]
    spec fn bounded(self) -> bool {
        self.attempts <= self.policy.max_attempts() && self.policy.max_retries <= MAX_RETRIES
    }

    /// An executor for one call: no attempt made yet.
    pub fn new(policy: RetryPolicy) -> (r: RetryExecutor)
        ensures
            r.policy() == policy,
            r.spec_attempts() == 0,
    {
        proof {
            use_type_invariant(policy);
        }
        RetryExecutor { policy, attempts: 0 }
    }

    /// Attempts reported so far; never more than the policy allows.
    pub fn attempts(&self) -> (r: u32)
        ensures
            r == self.spec_attempts(),
            r <= self.policy().max_attempts(),
    {
        proof {
            use_type_invariant(self);
        }
        self.attempts
    }

    /// Records that one more attempt ended with `outcome` and says what to do
    /// next. The attempt is counted unless the policy's attempts were already
    /// used up, in which case a failure surfaces as it does on the last one.
    pub fn on_outcome(&mut self, outcome: AttemptOutcome) -> (d: RetryDecision)
        ensures
            final(self).policy() == old(self).policy(),
            final(self).spec_attempts() == if old(self).spec_attempts() < old(
                self,
            ).policy().max_attempts() {
                old(self).spec_attempts() + 1
            } else {
                old(self).spec_attempts()
            },
            d == decide(
                old(self).policy().spec_enabled(),
                old(self).policy().max_attempts(),
                final(self).spec_attempts(),
                outcome,
            ),
    {
        proof {
            use_type_invariant(&*self);
        }
        let max_attempts: u32 = if self.policy.enabled { self.policy.max_retries + 1 } else { 1 };
        if self.attempts < max_attempts {
            self.attempts = self.attempts + 1;
        }
        let attempt = self.attempts;
        match outcome {
            AttemptOutcome::Success => RetryDecision::Return,
            AttemptOutcome::Timeout => {
                if !self.policy.enabled || attempt >= max_attempts {
                    RetryDecision::Surface
                } else {
                    RetryDecision::Backoff { millis: backoff_delay(TIMEOUT_BASE_MS, attempt) }
                }
            },
            AttemptOutcome::ConnectFailure => {
                if !self.policy.enabled || attempt >= max_attempts {
                    RetryDecision::Surface
                } else {
                    RetryDecision::Backoff { millis: backoff_delay(CONNECT_BASE_MS, attempt) }
                }
            },
            AttemptOutcome::Fatal => RetryDecision::Surface,
        }
    }
}

/// What a call made of a scripted operation.
#[derive(Debug, Clone, PartialEq, Eq)]
pub struct RetryReport {
    /// Attempts made.
    pub attempts: u32,
    /// The delays slept between attempts, in order, in milliseconds.
    pub delays: Vec<u64>,
    /// Whether the last attempt succeeded.
    pub succeeded: bool,
}

/// Attempts that a call makes of an operation whose `k`-th attempt ends with
/// `script[k]`, counted from attempt number `done + 1`. The call stops at the
/// first decision that is not a backoff, or where the script ends.
pub open spec fn attempts_from(policy: RetryPolicy, script: Seq<AttemptOutcome>, done: nat) -> nat
    decreases script.len() - done,
{
    if done >= script.len() {
        done
    } else if decide(policy.spec_enabled(), policy.max_attempts(), done + 1, script[done as int])
        is Backoff {
        attempts_from(policy, script, done + 1)
    } else {
        done + 1
    }
}

/// The delays slept before attempts `done + 2 ..`, with the same stopping rule.
pub open spec fn delays_from(policy: RetryPolicy, script: Seq<AttemptOutcome>, done: nat) -> Seq<
    u64,
>
    decreases script.len() - done,
{
    if done >= script.len() {
        Seq::empty()
    } else {
        match decide(policy.spec_enabled(), policy.max_attempts(), done + 1, script[done as int]) {
            RetryDecision::Backoff { millis } => seq![millis] + delays_from(
                policy,
                script,
                done + 1,
            ),
            _ => Seq::empty(),
        }
    }
}

proof fn lemma_attempts_from_bounded(policy: RetryPolicy, script: Seq<AttemptOutcome>, done: nat)
    requires
        done <= script.len(),
        done < policy.max_attempts() || done == script.len(),
        done <= policy.max_attempts(),
    ensures
        done <= attempts_from(policy, script, done) <= script.len(),
        attempts_from(policy, script, done) <= policy.max_attempts(),
    decreases script.len() - done,
{
    if done < script.len() {
        if decide(policy.spec_enabled(), policy.max_attempts(), done + 1, script[done as int])
            is Backoff {
            lemma_attempts_from_bounded(policy, script, done + 1);
        }
    }
}

/// A call never makes more attempts than its policy allows, nor more than
/// the operation has outcomes to give.
pub proof fn lemma_attempts_bounded(policy: RetryPolicy, script: Seq<AttemptOutcome>)
    ensures
        attempts_from(policy, script, 0) <= policy.max_attempts(),
        attempts_from(policy, script, 0) <= script.len(),
{
    lemma_attempts_from_bounded(policy, script, 0);
}

/// With retries disabled a call makes exactly one attempt, whatever its outcome.
pub proof fn lemma_disabled_single_attempt(policy: RetryPolicy, script: Seq<AttemptOutcome>)
    requires
        !policy.spec_enabled(),
        script.len() >= 1,
    ensures
        attempts_from(policy, script, 0) == 1,
        delays_from(policy, script, 0) == Seq::<u64>::empty(),
{
}

/// A fatal failure ends the call at once: no later attempt, no delay after it.
pub proof fn lemma_fatal_stops(policy: RetryPolicy, script: Seq<AttemptOutcome>, done: nat)
    requires
        done < script.len(),
        script[done as int] == AttemptOutcome::Fatal,
    ensures
        attempts_from(policy, script, done) == done + 1,
        delays_from(policy, script, done) == Seq::<u64>::empty(),
{
}

/// Runs a call against a scripted operation: `script[k]` is how its `k`-th
/// attempt ends. Nothing is slept; the delays are reported instead.
pub fn run_script(policy: RetryPolicy, script: &Vec<AttemptOutcome>) -> (r: RetryReport)
    requires
        script.len() <= u32::MAX,
    ensures
        r.attempts == attempts_from(policy, script@, 0),
        r.delays@ == delays_from(policy, script@, 0),
        r.succeeded == (r.attempts >= 1 && script@[r.attempts - 1] == AttemptOutcome::Success),
        r.attempts <= policy.max_attempts(),
        r.attempts <= script.len(),
{
    let mut executor = RetryExecutor::new(policy);
    let mut delays: Vec<u64> = Vec::new();
    let mut done: usize = 0;
    let mut succeeded = false;
    while done < script.len()
        invariant_except_break
            executor.policy() == policy,
            executor.spec_attempts() == done,
            done < policy.max_attempts() || done == script.len(),
            !succeeded,
            done >= 1 ==> script@[done - 1] != AttemptOutcome::Success,
            attempts_from(policy, script@, 0) == attempts_from(policy, script@, done as nat),
            delays_from(policy, script@, 0) == delays@ + delays_from(
                policy,
                script@,
                done as nat,
            ),
        invariant
            done <= script.len() <= u32::MAX,
            done <= policy.max_attempts(),
        ensures
            done <= script.len(),
            done == attempts_from(policy, script@, 0),
            delays@ == delays_from(policy, script@, 0),
            succeeded == (done >= 1 && script@[done - 1] == AttemptOutcome::Success),
            done <= policy.max_attempts(),
        decreases script.len() - done,
    {
        let outcome = script[done];
        let decision = executor.on_outcome(outcome);
        done = done + 1;
        match decision {
            RetryDecision::Backoff { millis } => {
                proof {
                    assert(delays@.push(millis) + delays_from(policy, script@, done as nat)
                        =~= delays@ + (seq![millis] + delays_from(policy, script@, done as nat)));
                }
                delays.push(millis);
            },
            RetryDecision::Return => {
                succeeded = true;
                proof {
                    assert(delays@ + Seq::<u64>::empty() =~= delays@);
                }
                break;
            },
            RetryDecision::Surface => {
                proof {
                    assert(delays@ + Seq::<u64>::empty() =~= delays@);
                }
                break;
            },
        }
    }
    proof {
        assert(delays@ + Seq::<u64>::empty() =~= delays@);
    }
    RetryReport { attempts: done as u32, delays, succeeded }
}

} // verus!
