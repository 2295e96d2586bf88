use db_lifecycle::probe::{retry_step, CheckOutcome, ProbeOutcome, RetryDecision};

fn run_probe(mut remaining: u64, checks: &[CheckOutcome]) -> (Option<ProbeOutcome>, usize) {
    let mut used: usize = 0;
    for check in checks.iter() {
        used += 1;
        match retry_step(remaining, *check) {
            RetryDecision::Done(p) => return (Some(p), used),
            RetryDecision::Retry { remaining: r } => remaining = r,
        }
    }
    (None, used)
}

#[test]
fn definite_answer_finishes_at_once() {
    assert_eq!(
        retry_step(5, CheckOutcome::Exists),
        RetryDecision::Done(ProbeOutcome::Exists)
    );
    assert_eq!(
        retry_step(0, CheckOutcome::DoesNotExist),
        RetryDecision::Done(ProbeOutcome::DoesNotExist)
    );
}

#[test]
fn non_connection_error_is_never_retried() {
    assert_eq!(
        retry_step(5, CheckOutcome::OtherError),
        RetryDecision::Done(ProbeOutcome::Failed)
    );
}

#[test]
fn connection_error_spends_one_retry() {
    assert_eq!(
        retry_step(3, CheckOutcome::ConnectionError),
        RetryDecision::Retry { remaining: 2 }
    );
}

#[test]
fn connection_error_without_budget_fails() {
    assert_eq!(
        retry_step(0, CheckOutcome::ConnectionError),
        RetryDecision::Done(ProbeOutcome::Failed)
    );
}

#[test]
fn two_transient_failures_within_budget_succeed() {
    // Fails with a connection error exactly twice, then succeeds; the
    // policy allows three retries, so the probe reports the answer after
    // three checks — as if the first check had succeeded.
    let checks = [
        CheckOutcome::ConnectionError,
        CheckOutcome::ConnectionError,
        CheckOutcome::Exists,
    ];
    assert_eq!(run_probe(3, &checks), (Some(ProbeOutcome::Exists), 3));
}

#[test]
fn exhausted_budget_fails_with_connection_error() {
    // The policy allows one retry but the check keeps failing: the probe
    // gives up after the initial attempt plus that one retry.
    let checks = [
        CheckOutcome::ConnectionError,
        CheckOutcome::ConnectionError,
        CheckOutcome::Exists,
    ];
    assert_eq!(run_probe(1, &checks), (Some(ProbeOutcome::Failed), 2));
}
