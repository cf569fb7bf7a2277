//! Retry with a fixed backoff around a remote call, as decisions: the caller
//! performs each attempt and each backoff sleep and reports how it ended.
use vstd::prelude::*;

verus! {

/// How many times a failed call is tried again.
pub const ATTEMPT_LIMIT: u32 = 3;

/// How long to wait before trying a failed call again, in seconds.
pub const DELAY_BETWEEN_RETRIES_SECS: u64 = 2;

/// How often and how patiently a failing call is retried.
#[derive(Debug, Clone, Copy, PartialEq, Eq, Structural)]
pub struct RetryPolicy {
    pub attempt_limit: u32,
    pub delay_secs: u64,
}

impl RetryPolicy {
    /// Three retries, two seconds apart.
    pub fn standard() -> (r: RetryPolicy)
        ensures
            r.attempt_limit == ATTEMPT_LIMIT,
            r.delay_secs == DELAY_BETWEEN_RETRIES_SECS,
    {
        RetryPolicy { attempt_limit: ATTEMPT_LIMIT, delay_secs: DELAY_BETWEEN_RETRIES_SECS }
    }
}

/// How one attempt of a call ended.
#[derive(Debug, Clone, Copy, PartialEq, Eq, Structural)]
pub enum AttemptOutcome {
    /// The call returned a result.
    Succeeded,
    /// The call failed; `cancelled_status` tells whether the transport
    /// reported that the call itself was cancelled.
    Failed { cancelled_status: bool },
    /// The caller's cancellation fired while the call was in flight.
    Canceled,
}

/// What the caller does next.
#[derive(Debug, Clone, Copy, PartialEq, Eq, Structural)]
pub enum RetryAction {
    /// Make the call (again).
    Attempt,
    /// Sleep this many seconds, racing the cancellation, then report back.
    Sleep { secs: u64 },
    /// Return the call's result.
    Succeed,
    /// Give up and return the last error as it came.
    GiveUp,
    /// Return a cancellation error.
    Cancel,
}

/// The progress of one retried call.
#[derive(Debug, Clone, Copy, PartialEq, Eq, Structural)]
pub struct RetryState {
    /// Failed attempts that were followed by a retry.
    pub failures: u32,
    /// Attempts made so far.
    pub attempts: u32,
}

/// The state and action that follow an attempt that ended with `o`.
pub open spec fn attempt_step(p: RetryPolicy, s: RetryState, o: AttemptOutcome) -> (RetryState, RetryAction) {
    match o {
        AttemptOutcome::Succeeded => (s, RetryAction::Succeed),
        AttemptOutcome::Canceled => (s, RetryAction::Cancel),
        AttemptOutcome::Failed { cancelled_status } => {
            if cancelled_status {
                (s, RetryAction::Cancel)
            } else if s.failures >= p.attempt_limit {
                (s, RetryAction::GiveUp)
            } else {
                (RetryState { failures: (s.failures + 1) as u32, ..s }, RetryAction::Sleep { secs: p.delay_secs })
            }
        },
    }
}

/// The state and action that follow a backoff sleep; `canceled` tells
/// whether the cancellation fired before the sleep ended.
pub open spec fn backoff_step(s: RetryState, canceled: bool) -> (RetryState, RetryAction) {
    if canceled {
        (s, RetryAction::Cancel)
    } else {
        (RetryState { attempts: (s.attempts + 1) as u32, ..s }, RetryAction::Attempt)
    }
}

/// Every attempt has been counted, and no more retries than allowed.
pub open spec fn retry_wf(p: RetryPolicy, s: RetryState) -> bool {
    &&& s.failures <= p.attempt_limit
    &&& s.attempts == s.failures + 1
}

impl RetryState {
    /// The state of a call whose first attempt is being made.
    pub fn new() -> (r: RetryState)
        ensures
            r == (RetryState { failures: 0, attempts: 1 }),
    {
        RetryState { failures: 0, attempts: 1 }
    }

    /// Records how an attempt ended and says what comes next.
    pub fn on_attempt(&mut self, policy: &RetryPolicy, outcome: AttemptOutcome) -> (r: RetryAction)
        requires
            retry_wf(*policy, *old(self)),
        ensures
            (*final(self), r) == attempt_step(*policy, *old(self), outcome),
    {
        match outcome {
            AttemptOutcome::Succeeded => RetryAction::Succeed,
            AttemptOutcome::Canceled => RetryAction::Cancel,
            AttemptOutcome::Failed { cancelled_status } => {
                if cancelled_status {
                    RetryAction::Cancel
                } else if self.failures >= policy.attempt_limit {
                    RetryAction::GiveUp
                } else {
                    self.failures = self.failures + 1;
                    RetryAction::Sleep { secs: policy.delay_secs }
                }
            },
        }
    }

    /// Records how a backoff sleep ended and says what comes next: a
    /// cancellation during the sleep ends the call without another attempt.
    pub fn on_backoff(&mut self, policy: &RetryPolicy, canceled: bool) -> (r: RetryAction)
        requires
            policy.attempt_limit < u32::MAX,
            old(self).failures <= policy.attempt_limit,
            old(self).attempts == old(self).failures,
        ensures
            (*final(self), r) == backoff_step(*old(self), canceled),
            canceled ==> r == RetryAction::Cancel && final(self).attempts == old(self).attempts,
            !canceled ==> retry_wf(*policy, *final(self)),
    {
        if canceled {
            RetryAction::Cancel
        } else {
            self.attempts = self.attempts + 1;
            RetryAction::Attempt
        }
    }
}

/// Drives a call whose every attempt fails with an ordinary error, from
/// state `s`: the number of attempts made in all, and the final action.
pub open spec fn failing_run(p: RetryPolicy, s: RetryState) -> (nat, RetryAction)
    decreases p.attempt_limit - s.failures,
    when s.failures <= p.attempt_limit
{
    let (s2, a) = attempt_step(p, s, AttemptOutcome::Failed { cancelled_status: false });
    match a {
        RetryAction::Sleep { .. } => {
            let (s3, _) = backoff_step(s2, false);
            let (n, fin) = failing_run(p, s3);
            (n + 1, fin)
        },
        _ => (1, a),
    }
}

/// A call that always fails is attempted `attempt_limit - failures + 1`
/// more times from a state with `failures` retries behind it, and then gives
/// up with its last error.
proof fn lemma_failing_run_from(p: RetryPolicy, s: RetryState)
    requires
        s.failures <= p.attempt_limit,
    ensures
        failing_run(p, s) == ((p.attempt_limit - s.failures + 1) as nat, RetryAction::GiveUp),
    decreases p.attempt_limit - s.failures,
{
    if s.failures < p.attempt_limit {
        let s2 = RetryState { failures: (s.failures + 1) as u32, ..s };
        let s3 = RetryState { attempts: (s2.attempts + 1) as u32, ..s2 };
        lemma_failing_run_from(p, s3);
    }
}

/// A permanently failing call is attempted exactly `attempt_limit + 1`
/// times, and then its last error is returned.
pub proof fn lemma_permanent_failure(p: RetryPolicy)
    ensures
        failing_run(p, RetryState { failures: 0, attempts: 1 }) == ((p.attempt_limit + 1) as nat,
        RetryAction::GiveUp),
{
    lemma_failing_run_from(p, RetryState { failures: 0, attempts: 1 });
}

/// A cancellation that fires during a backoff sleep cancels the call, and
/// the retry that the sleep was waiting for is never made.
pub proof fn lemma_cancel_during_backoff(s: RetryState)
    ensures
        backoff_step(s, true) == (s, RetryAction::Cancel),
{
}

} // verus!
