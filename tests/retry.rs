use zcash_sync_core::resilience::{AttemptOutcome, RetryAction, RetryPolicy, RetryState, ATTEMPT_LIMIT, DELAY_BETWEEN_RETRIES_SECS};

/// Runs the retry decisions against a sequence of attempt outcomes, with
/// backoff sleeps that end normally unless `cancel_sleep` names the sleep
/// (counting from one) during which the cancellation fires.
fn drive(outcomes: &[AttemptOutcome], cancel_sleep: Option<usize>) -> (usize, RetryAction) {
    let policy = RetryPolicy::standard();
    let mut state = RetryState::new();
    let mut attempts = 0;
    let mut sleeps = 0;
    loop {
        let outcome = outcomes[attempts.min(outcomes.len() - 1)];
        attempts += 1;
        match state.on_attempt(&policy, outcome) {
            RetryAction::Sleep { secs } => {
                assert_eq!(secs, DELAY_BETWEEN_RETRIES_SECS);
                sleeps += 1;
                let canceled = cancel_sleep == Some(sleeps);
                match state.on_backoff(&policy, canceled) {
                    RetryAction::Attempt => continue,
                    other => return (attempts, other),
                }
            }
            other => return (attempts, other),
        }
    }
}

#[test]
fn standard_policy() {
    let p = RetryPolicy::standard();
    assert_eq!(p.attempt_limit, 3);
    assert_eq!(p.delay_secs, 2);
    assert_eq!(ATTEMPT_LIMIT, 3);
}

#[test]
fn permanent_failure_is_attempted_limit_plus_one_times() {
    let fail = AttemptOutcome::Failed { cancelled_status: false };
    assert_eq!(drive(&[fail], None), (ATTEMPT_LIMIT as usize + 1, RetryAction::GiveUp));
}

#[test]
fn success_after_two_failures() {
    let fail = AttemptOutcome::Failed { cancelled_status: false };
    assert_eq!(drive(&[fail, fail, AttemptOutcome::Succeeded], None), (3, RetryAction::Succeed));
}

#[test]
fn cancelled_status_is_never_retried() {
    assert_eq!(drive(&[AttemptOutcome::Failed { cancelled_status: true }], None), (1, RetryAction::Cancel));
    assert_eq!(drive(&[AttemptOutcome::Canceled], None), (1, RetryAction::Cancel));
}

#[test]
fn cancel_during_backoff_skips_the_retry() {
    let fail = AttemptOutcome::Failed { cancelled_status: false };
    assert_eq!(drive(&[fail], Some(1)), (1, RetryAction::Cancel));
    assert_eq!(drive(&[fail], Some(2)), (2, RetryAction::Cancel));
    let mut state = RetryState::new();
    let policy = RetryPolicy::standard();
    assert!(matches!(state.on_attempt(&policy, fail), RetryAction::Sleep { .. }));
    assert_eq!(state.on_backoff(&policy, true), RetryAction::Cancel);
    assert_eq!(state.attempts, 1);
}
