//! The retry policy of a submission: how often a transaction is attempted
//! and how long the submitter waits between two attempts.
//!
//! The submitter itself talks to the ledger and sleeps, so it lives outside
//! this library. It asks [`RetryState::on_failure`] after every failed
//! attempt whether to try again.

use vstd::prelude::*;

verus! {

/// The number of attempts where the caller names none.
pub const DEFAULT_ATTEMPTS: u8 = 1;

/// The pause between two attempts, in milliseconds, where the caller names
/// none.
pub const DEFAULT_DELAY_MILLIS: u64 = 2000;

/// How often to attempt a submission and how long to wait in between.
#[derive(Clone, Copy, Debug, PartialEq, Eq, Structural)]
pub struct RetryPolicy {
    /// The number of attempts after which the last error is final. The
    /// first attempt is made whatever this number is.
    pub max_attempts: u8,
    /// The pause between a failed attempt and the next one, in milliseconds.
    pub delay_millis: u64,
}

/// What the submitter does after a failed attempt.
#[derive(Clone, Copy, Debug, PartialEq, Eq, Structural)]
pub enum RetryDecision {
    /// Wait for `delay_millis` milliseconds, then attempt again.
    Retry { delay_millis: u64 },
    /// Return the error of the attempt that just failed.
    GiveUp,
}

/// The progress of one submission: the policy and the failures so far.
#[derive(Clone, Copy, Debug, PartialEq, Eq, Structural)]
pub struct RetryState {
    /// The policy that the submission follows.
    pub policy: RetryPolicy,
    /// The number of attempts that have failed.
    pub failures: u8,
}

impl RetryState {
    /// The state after one more attempt has failed. The count stops at
    /// 255, where every policy gives up.
    pub open spec fn failed(self) -> RetryState {
        RetryState {
            policy: self.policy,
            failures: if self.failures < u8::MAX {
                (self.failures + 1) as u8
            } else {
                u8::MAX
            },
        }
    }

    /// What the submitter does in this state, which it has reached by a
    /// failure: it gives up when as many attempts have failed as the policy
    /// allows, and otherwise waits and tries again.
    pub open spec fn decision(self) -> RetryDecision {
        if self.failures >= self.policy.max_attempts {
            RetryDecision::GiveUp
        } else {
            RetryDecision::Retry { delay_millis: self.policy.delay_millis }
        }
    }
}

/// The fate of a submission that is in the state `state` and about to
/// attempt, against a ledger that fails the next `k` attempts and accepts
/// the one after them: whether the submission succeeds in the end, and the
/// number of attempts that it makes from here on.
pub open spec fn run_outcome(state: RetryState, k: nat) -> (bool, nat)
    decreases k,
{
    if k == 0 {
        (true, 1)
    } else if state.failed().decision() is GiveUp {
        (false, 1)
    } else {
        let rest = run_outcome(state.failed(), (k - 1) as nat);
        (rest.0, rest.1 + 1)
    }
}

impl RetryPolicy {
    /// The policy for `try_cnt` attempts that are `sleep_millis` milliseconds
    /// apart, with one attempt and two seconds where nothing is given.
    pub fn new(try_cnt: Option<u8>, sleep_millis: Option<u64>) -> (p: RetryPolicy)
        ensures
            p.max_attempts == (match try_cnt {
                Some(n) => n,
                None => DEFAULT_ATTEMPTS,
            }),
            p.delay_millis == (match sleep_millis {
                Some(d) => d,
                None => DEFAULT_DELAY_MILLIS,
            }),
    {
        RetryPolicy {
            max_attempts: match try_cnt {
                Some(n) => n,
                None => DEFAULT_ATTEMPTS,
            },
            delay_millis: match sleep_millis {
                Some(d) => d,
                None => DEFAULT_DELAY_MILLIS,
            },
        }
    }
}

impl RetryState {
    /// The state before the first attempt.
    pub fn new(policy: RetryPolicy) -> (s: RetryState)
        ensures
            s == (RetryState { policy, failures: 0 }),
    {
        RetryState { policy, failures: 0 }
    }

    /// Records that an attempt has failed and decides what comes next.
    pub fn on_failure(&mut self) -> (d: RetryDecision)
        ensures
            *final(self) == old(self).failed(),
            d == final(self).decision(),
    {
        if self.failures < u8::MAX {
            self.failures = self.failures + 1;
        }
        if self.failures >= self.policy.max_attempts {
            RetryDecision::GiveUp
        } else {
            RetryDecision::Retry { delay_millis: self.policy.delay_millis }
        }
    }
}

/// The outcome of a run from a state in which the submitter is still
/// running: it succeeds if and only if the attempts that are left cover the
/// failures to come, and it stops at the first success or with the last
/// attempt that is left.
proof fn lemma_run_outcome_from(state: RetryState, k: nat)
    requires
        state.policy.max_attempts >= 1,
        state.failures < state.policy.max_attempts,
    ensures
        run_outcome(state, k) == (
            state.failures + k < state.policy.max_attempts,
            if state.failures + k < state.policy.max_attempts {
                k + 1
            } else {
                (state.policy.max_attempts - state.failures) as nat
            },
        ),
    decreases k,
{
    if k > 0 && !(state.failed().decision() is GiveUp) {
        lemma_run_outcome_from(state.failed(), (k - 1) as nat);
    }
}

/// The retry bound. Against a ledger that fails the first `k` attempts and
/// accepts the next one, a submission that starts afresh with a policy of
/// `max_attempts >= 1` attempts succeeds if and only if `k < max_attempts`,
/// and it makes `min(k + 1, max_attempts)` attempts.
pub proof fn lemma_retry_bound(policy: RetryPolicy, k: nat)
    requires
        policy.max_attempts >= 1,
    ensures
        run_outcome(RetryState { policy, failures: 0 }, k).0 <==> k < policy.max_attempts,
        run_outcome(RetryState { policy, failures: 0 }, k).1 == if k + 1 <= policy.max_attempts {
            k + 1
        } else {
            policy.max_attempts as nat
        },
{
    lemma_run_outcome_from(RetryState { policy, failures: 0 }, k);
}

/// With a policy of no attempt the first attempt is made all the same, and
/// a failure of it is final.
pub proof fn lemma_retry_without_attempts(policy: RetryPolicy, k: nat)
    requires
        policy.max_attempts == 0,
    ensures
        run_outcome(RetryState { policy, failures: 0 }, k) == (k == 0, 1nat),
{
}

} // verus!
