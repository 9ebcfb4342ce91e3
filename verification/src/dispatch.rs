//! The bounded-retry dispatcher's decision logic.
//!
//! A dispatch runs an operation as an independent concurrent attempt and
//! waits up to a timeout for it. If the first attempt does not finish in
//! time, a second attempt of the same operation is launched (the first is
//! abandoned, not cancelled) and waited on once more; if that also runs out
//! of time, the dispatch reports `Timeout`. The waiting itself is outside
//! work; what stands here is the decision taken at each of the two wait
//! points, as a function from the wait's result to the next step, so the
//! policy is checked while the runner only performs it.

use vstd::prelude::*;

use crate::outcome::OperationOutcome;

verus! {

/// What one wait on an attempt ended with: the attempt finished with an
/// outcome inside the window, or the window elapsed first and the attempt
/// is still running.
pub enum AttemptWait {
    Finished(OperationOutcome),
    StillRunning,
}

/// The step a dispatch takes after its first wait: deliver an outcome to
/// the caller, or launch the one retry attempt.
pub enum DispatchStep {
    Deliver(OperationOutcome),
    LaunchRetry,
}

/// The decision after the first wait: a finished attempt's outcome is
/// delivered as the sole result — whatever it is, a backend failure passes
/// through unchanged — and only an expired window launches the retry.
pub open spec fn spec_after_first_wait(wait: AttemptWait) -> DispatchStep {
    match wait {
        AttemptWait::Finished(o) => DispatchStep::Deliver(o),
        AttemptWait::StillRunning => DispatchStep::LaunchRetry,
    }
}

pub fn after_first_wait(wait: AttemptWait) -> (step: DispatchStep)
    ensures
        step == spec_after_first_wait(wait),
{
    match wait {
        AttemptWait::Finished(o) => DispatchStep::Deliver(o),
        AttemptWait::StillRunning => DispatchStep::LaunchRetry,
    }
}

/// The decision after the second wait: a finished retry's outcome is
/// delivered; a second expired window is reported as `Timeout`.
pub open spec fn spec_after_second_wait(wait: AttemptWait) -> OperationOutcome {
    match wait {
        AttemptWait::Finished(o) => o,
        AttemptWait::StillRunning => OperationOutcome::Timeout,
    }
}

pub fn after_second_wait(wait: AttemptWait) -> (o: OperationOutcome)
    ensures
        o == spec_after_second_wait(wait),
{
    match wait {
        AttemptWait::Finished(o) => o,
        AttemptWait::StillRunning => OperationOutcome::Timeout,
    }
}

/// A whole dispatch, folded over the results of its at most two waits.
/// The second wait's result is consulted only when the first attempt did
/// not finish in time.
pub open spec fn spec_dispatch_outcome(first: AttemptWait, second: AttemptWait) -> OperationOutcome {
    match spec_after_first_wait(first) {
        DispatchStep::Deliver(o) => o,
        DispatchStep::LaunchRetry => spec_after_second_wait(second),
    }
}

pub fn dispatch_outcome(first: AttemptWait, second: AttemptWait) -> (o: OperationOutcome)
    ensures
        o == spec_dispatch_outcome(first, second),
{
    match after_first_wait(first) {
        DispatchStep::Deliver(o) => o,
        DispatchStep::LaunchRetry => after_second_wait(second),
    }
}

/// An operation that finishes within the first window is the dispatch's
/// sole result: its outcome comes back unchanged, and the retry step is
/// never taken, whatever a second wait would have said.
pub proof fn lemma_dispatch_fast_operation(o: OperationOutcome, second: AttemptWait)
    ensures
        spec_dispatch_outcome(AttemptWait::Finished(o), second) == o,
        spec_after_first_wait(AttemptWait::Finished(o)) == DispatchStep::Deliver(o),
        spec_after_first_wait(AttemptWait::Finished(o)) != DispatchStep::LaunchRetry,
{
}

/// An operation that outlives both wait windows makes the dispatch report
/// `Timeout`: the first wait launches the retry, and the second expired
/// window is the timeout.
pub proof fn lemma_dispatch_blocked_operation()
    ensures
        spec_dispatch_outcome(AttemptWait::StillRunning, AttemptWait::StillRunning)
            == OperationOutcome::Timeout,
        spec_after_first_wait(AttemptWait::StillRunning) == DispatchStep::LaunchRetry,
{
}

} // verus!
