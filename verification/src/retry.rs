//! Bounded-retry engine with exponential backoff.
//!
//! One "try apply" operation is attempted up to a budget of times; a delay
//! is taken before every attempt, the first included, so a freshly spawned
//! process has time to reach a stable state. The delay before attempt `k`
//! is `min(initial * 2^(k-1), cap)`.
//!
//! The engine itself is pure: [`retry_decide`] says, for one attempt's
//! outcome, whether to stop and with what terminal result, and
//! [`run_retries`] drives a whole schedule over a sequence of outcomes.
//! The caller performs the actual waiting and the operation between
//! decisions.

use vstd::arithmetic::power2::{lemma_pow2_pos, lemma_pow2_unfold, pow2};
use vstd::prelude::*;

verus! {

/// Outcome of a single "try apply" attempt.
#[derive(Clone, Copy, Debug, PartialEq, Eq, Structural)]
pub enum AttemptOutcome {
    /// Constraints fully applied; no further attempt is wanted.
    Success,
    /// Not yet applicable (process not ready, or replaced by a child that
    /// has not appeared); worth another attempt.
    NotReady,
    /// An unexpected failure of the platform call.
    Error,
}

/// Terminal result of a whole retry schedule.
#[derive(Clone, Copy, Debug, PartialEq, Eq, Structural)]
pub enum RetryResult {
    /// Some attempt reported full success.
    Achieved,
    /// The budget ran out with the operation still not applicable: a
    /// distinguishable partial-failure state, not an error.
    NotAchieved,
    /// The final attempt failed with an unexpected error, which is
    /// surfaced; earlier errors are retried.
    Failed,
}

/// What the engine tells the caller after one attempt.
#[derive(Clone, Copy, Debug, PartialEq, Eq, Structural)]
pub enum RetryDirective {
    Stop(RetryResult),
    Continue,
}

/// The delay taken before attempt `attempt` (1-based):
/// `min(initial * 2^(attempt-1), cap)`.
pub open spec fn spec_backoff(initial: u64, attempt: int, cap: u64) -> int
    recommends
        attempt >= 1,
{
    let raw = (initial as int) * (pow2((attempt - 1) as nat) as int);
    if raw <= cap as int {
        raw
    } else {
        cap as int
    }
}

/// Compute the backoff delay before the given 1-based attempt.
///
/// The initial delay may not exceed the cap, so the result never does
/// either and no arithmetic overflows.
pub fn backoff_delay(initial: u64, attempt: usize, cap: u64) -> (r: u64)
    requires
        1 <= attempt,
        initial <= cap,
        cap <= u64::MAX / 2,
    ensures
        r as int == spec_backoff(initial, attempt as int, cap),
        r <= cap,
{
    let mut delay = initial;
    let mut i: usize = 1;
    proof {
        vstd::arithmetic::power2::lemma2_to64();
        assert((initial as int) * (pow2(0) as int) == initial as int) by (nonlinear_arith)
            requires
                pow2(0) == 1,
        ;
    }
    while i < attempt
        invariant
            1 <= i <= attempt,
            initial <= cap,
            cap <= u64::MAX / 2,
            delay <= cap,
            delay as int == spec_backoff(initial, i as int, cap),
        decreases attempt - i,
    {
        proof {
            lemma_pow2_unfold(i as nat);
            lemma_pow2_pos((i - 1) as nat);
            let p = pow2((i - 1) as nat) as int;
            let p2 = pow2(i as nat) as int;
            let ini = initial as int;
            assert(ini * p2 == 2 * (ini * p)) by (nonlinear_arith)
                requires
                    p2 == 2 * p,
            ;
            assert(ini * p >= 0) by (nonlinear_arith)
                requires
                    ini >= 0 && p >= 0,
            ;
        }
        if delay > cap - delay {
            delay = cap;
        } else {
            delay = delay + delay;
        }
        i = i + 1;
    }
    delay
}

/// The terminal result that one attempt's outcome yields when the engine
/// stops on it.
pub open spec fn spec_classify(outcome: AttemptOutcome) -> RetryResult {
    match outcome {
        AttemptOutcome::Success => RetryResult::Achieved,
        AttemptOutcome::NotReady => RetryResult::NotAchieved,
        AttemptOutcome::Error => RetryResult::Failed,
    }
}

/// What the engine does after attempt `attempt` of `budget` came back with
/// `outcome`: stop on success, stop with the outcome's classification once
/// the budget is exhausted, and continue otherwise.
pub open spec fn spec_retry_decide(attempt: int, budget: int, outcome: AttemptOutcome) -> RetryDirective {
    if outcome == AttemptOutcome::Success {
        RetryDirective::Stop(RetryResult::Achieved)
    } else if attempt == budget {
        RetryDirective::Stop(spec_classify(outcome))
    } else {
        RetryDirective::Continue
    }
}

/// Decide whether to stop after one attempt.
pub fn retry_decide(attempt: usize, budget: usize, outcome: AttemptOutcome) -> (r: RetryDirective)
    requires
        1 <= attempt <= budget,
    ensures
        r == spec_retry_decide(attempt as int, budget as int, outcome),
{
    match outcome {
        AttemptOutcome::Success => RetryDirective::Stop(RetryResult::Achieved),
        AttemptOutcome::NotReady => {
            if attempt == budget {
                RetryDirective::Stop(RetryResult::NotAchieved)
            } else {
                RetryDirective::Continue
            }
        },
        AttemptOutcome::Error => {
            if attempt == budget {
                RetryDirective::Stop(RetryResult::Failed)
            } else {
                RetryDirective::Continue
            }
        },
    }
}

/// A finished retry schedule: how many attempts ran, the delay taken
/// before each, and the terminal result.
pub struct RetryRun {
    pub attempts_made: usize,
    pub delays: Vec<u64>,
    pub result: RetryResult,
}

/// Drive a whole retry schedule over a scripted sequence of outcomes,
/// where `script[k]` is what attempt `k+1` would report.
///
/// At most `budget` attempts are made; no attempt follows a successful
/// one; the delay before attempt `k+1` is exactly the backoff value; and
/// the terminal result is the classification of the last outcome reached.
/// A budget of zero makes no attempt at all and is simply "not
/// achieved".
pub fn run_retries(budget: usize, initial_delay: u64, cap: u64, script: &Vec<AttemptOutcome>) -> (r:
    RetryRun)
    requires
        budget <= script.len(),
        initial_delay <= cap,
        cap <= u64::MAX / 2,
    ensures
        r.attempts_made <= budget,
        r.delays@.len() == r.attempts_made,
        forall|k: int|
            0 <= k < r.attempts_made ==> (#[trigger] r.delays@[k]) as int == spec_backoff(
                initial_delay,
                k + 1,
                cap,
            ),
        forall|k: int| 0 <= k < r.attempts_made ==> (#[trigger] r.delays@[k]) <= cap,
        forall|k: int| 0 <= k < r.attempts_made - 1 ==> script@[k] != AttemptOutcome::Success,
        budget == 0 ==> r.attempts_made == 0 && r.result == RetryResult::NotAchieved,
        budget >= 1 ==> {
            &&& 1 <= r.attempts_made
            &&& r.result == spec_classify(script@[r.attempts_made - 1])
            &&& (r.result == RetryResult::Achieved || r.attempts_made == budget)
        },
{
    let mut delays: Vec<u64> = Vec::new();
    if budget == 0 {
        return RetryRun { attempts_made: 0, delays, result: RetryResult::NotAchieved };
    }
    let mut attempt: usize = 1;
    loop
        invariant
            1 <= attempt <= budget <= script@.len(),
            initial_delay <= cap,
            cap <= u64::MAX / 2,
            delays@.len() == attempt - 1,
            forall|k: int|
                0 <= k < attempt - 1 ==> (#[trigger] delays@[k]) as int == spec_backoff(
                    initial_delay,
                    k + 1,
                    cap,
                ),
            forall|k: int| 0 <= k < attempt - 1 ==> script@[k] != AttemptOutcome::Success,
        decreases budget - attempt,
    {
        let d = backoff_delay(initial_delay, attempt, cap);
        delays.push(d);
        let outcome = script[attempt - 1];
        match retry_decide(attempt, budget, outcome) {
            RetryDirective::Stop(res) => {
                return RetryRun { attempts_made: attempt, delays, result: res };
            },
            RetryDirective::Continue => {
                attempt = attempt + 1;
            },
        }
    }
}

} // verus!
