use kv_store::dispatch::AttemptWait;
use kv_store::dispatch::DispatchStep;
use kv_store::dispatch::after_first_wait;
use kv_store::dispatch::after_second_wait;
use kv_store::dispatch::dispatch_outcome;
use kv_store::outcome::OperationOutcome;

#[test]
fn fast_operation_returns_its_outcome_without_retry() {
    // An operation finishing inside the first window is the sole result.
    let first = AttemptWait::Finished(OperationOutcome::Success(Some("v".to_string())));
    match after_first_wait(first) {
        DispatchStep::Deliver(OperationOutcome::Success(Some(v))) => assert_eq!(v, "v"),
        _ => panic!("expected the outcome delivered, not a retry"),
    }
    let first = AttemptWait::Finished(OperationOutcome::Absent);
    let out = dispatch_outcome(first, AttemptWait::StillRunning);
    assert!(matches!(out, OperationOutcome::Absent));
}

#[test]
fn backend_failure_passes_through_the_time_envelope() {
    let first = AttemptWait::Finished(OperationOutcome::BackendFailure("refused".to_string()));
    match dispatch_outcome(first, AttemptWait::StillRunning) {
        OperationOutcome::BackendFailure(e) => assert_eq!(e, "refused"),
        _ => panic!("expected the failure unchanged"),
    }
}

#[test]
fn expired_first_window_launches_the_retry() {
    assert!(matches!(after_first_wait(AttemptWait::StillRunning), DispatchStep::LaunchRetry));
}

#[test]
fn retry_outcome_is_delivered() {
    let out = dispatch_outcome(
        AttemptWait::StillRunning,
        AttemptWait::Finished(OperationOutcome::Success(None)),
    );
    assert!(matches!(out, OperationOutcome::Success(None)));
}

#[test]
fn blocked_operation_times_out() {
    // Neither window sees the operation finish: the dispatch reports Timeout.
    let out = dispatch_outcome(AttemptWait::StillRunning, AttemptWait::StillRunning);
    assert!(matches!(out, OperationOutcome::Timeout));
    assert!(matches!(
        after_second_wait(AttemptWait::StillRunning),
        OperationOutcome::Timeout
    ));
}
