//! Bounded retry of gas estimation.
//!
//! The caller performs each estimate request and reports what came back; the
//! estimator decides whether to use the estimate, wait and retry, or give up.

use vstd::prelude::*;
use crate::amount::Amount;

verus! {

/// Estimate requests made at most per action.
pub const MAX_ESTIMATE_ATTEMPTS: u32 = 10;

/// Fixed wait before retrying a failed estimate.
pub const ESTIMATE_BACKOFF_SECS: u64 = 5;

/// Failed estimate attempts so far for one call.
#[derive(Clone, Copy, Debug, PartialEq, Eq, Structural)]
pub struct GasEstimator {
    pub failed: u32,
}

/// What to do after one estimate attempt.
#[derive(Clone, Copy, Debug, PartialEq, Eq, Structural)]
pub enum GasStep {
    /// Use this gas limit.
    Use(Amount),
    /// The attempt failed; wait and try again. Holds the failures so far.
    Retry { failed_attempts: u32 },
    /// Every allowed attempt failed.
    Exhausted,
}

/// An estimate that may be submitted: present and nonzero.
pub open spec fn usable(outcome: Option<Amount>) -> bool {
    outcome matches Some(g) && g@ > 0
}

/// Another estimate request may be made after `failed` failures.
pub open spec fn attempt_allowed(failed: nat) -> bool {
    failed < MAX_ESTIMATE_ATTEMPTS
}

/// The decision after an attempt with `outcome`, given `failed` earlier failures.
pub open spec fn gas_step(failed: nat, outcome: Option<Amount>) -> GasStep {
    if !attempt_allowed(failed) {
        GasStep::Exhausted
    } else if usable(outcome) {
        GasStep::Use(outcome->0)
    } else if !attempt_allowed(failed + 1) {
        GasStep::Exhausted
    } else {
        GasStep::Retry { failed_attempts: (failed + 1) as u32 }
    }
}

/// Failures on record after an attempt with `outcome`.
pub open spec fn failures_after(failed: nat, outcome: Option<Amount>) -> nat {
    if !attempt_allowed(failed) || usable(outcome) {
        failed
    } else {
        failed + 1
    }
}

/// Failures on record after `n` consecutive failed attempts on a fresh estimator.
pub open spec fn after_failures(n: nat) -> nat
    decreases n,
{
    if n == 0 {
        0
    } else {
        failures_after(after_failures((n - 1) as nat), None)
    }
}

impl GasEstimator {
    pub fn new() -> (r: GasEstimator)
        ensures
            r.failed == 0,
    {
        GasEstimator { failed: 0 }
    }

    /// Whether another estimate request may be made.
    pub fn may_attempt(&self) -> (r: bool)
        ensures
            r == attempt_allowed(self.failed as nat),
    {
        self.failed < MAX_ESTIMATE_ATTEMPTS
    }

    /// Seconds to wait before the next request: none before the first.
    pub fn backoff_secs(&self) -> (r: u64)
        ensures
            r == if self.failed == 0 { 0 } else { ESTIMATE_BACKOFF_SECS },
    {
        if self.failed == 0 {
            0
        } else {
            ESTIMATE_BACKOFF_SECS
        }
    }

    /// Records the outcome of one attempt (`None` for an RPC error). A zero
    /// estimate is never used: it counts as a failed attempt.
    pub fn record(&mut self, outcome: Option<Amount>) -> (r: GasStep)
        ensures
            r == gas_step(old(self).failed as nat, outcome),
            final(self).failed == failures_after(old(self).failed as nat, outcome),
    {
        if self.failed >= MAX_ESTIMATE_ATTEMPTS {
            return GasStep::Exhausted;
        }
        match outcome {
            Some(g) => {
                if !g.is_zero() {
                    return GasStep::Use(g);
                }
            },
            None => {},
        }
        self.failed = self.failed + 1;
        if self.failed >= MAX_ESTIMATE_ATTEMPTS {
            GasStep::Exhausted
        } else {
            GasStep::Retry { failed_attempts: self.failed }
        }
    }
}

/// An estimate of zero gas is never handed out for use.
pub proof fn lemma_never_uses_zero(failed: nat, outcome: Option<Amount>)
    ensures
        gas_step(failed, outcome) matches GasStep::Use(g) ==> g@ > 0 && outcome == Some(g),
{
}

/// On a fresh estimator, `n` consecutive failed attempts (an RPC error or a zero
/// estimate) leave `n` failures on record; each failure before the tenth asks for
/// another attempt, the tenth gives up, and no attempt is allowed after it.
pub proof fn lemma_gives_up_after_ten_failures(n: nat, outcome: Option<Amount>)
    requires
        1 <= n <= MAX_ESTIMATE_ATTEMPTS,
        !usable(outcome),
    ensures
        after_failures(n) == n,
        gas_step(after_failures((n - 1) as nat), outcome) == (if n < MAX_ESTIMATE_ATTEMPTS {
            GasStep::Retry { failed_attempts: n as u32 }
        } else {
            GasStep::Exhausted
        }),
        attempt_allowed(after_failures(n)) <==> n < MAX_ESTIMATE_ATTEMPTS,
        gas_step(after_failures(MAX_ESTIMATE_ATTEMPTS as nat), outcome) == GasStep::Exhausted,
        failures_after(after_failures(MAX_ESTIMATE_ATTEMPTS as nat), outcome)
            == MAX_ESTIMATE_ATTEMPTS,
{
    lemma_after_failures_counts(MAX_ESTIMATE_ATTEMPTS as nat);
    lemma_after_failures_counts(n);
    lemma_after_failures_counts((n - 1) as nat);
}

proof fn lemma_after_failures_counts(n: nat)
    requires
        n <= MAX_ESTIMATE_ATTEMPTS,
    ensures
        after_failures(n) == n,
    decreases n,
{
    if n > 0 {
        lemma_after_failures_counts((n - 1) as nat);
    }
}

} // verus!
