//! The tagged result of a dispatched operation, and the translation of raw
//! backend replies into that taxonomy.

use vstd::prelude::*;

verus! {

/// The result of one key-value operation, carried unchanged through every
/// layer: a raw boolean or sentinel integer never stands in for it.
///
/// `Success` carries the value a get produced (`None` for a set or delete
/// that succeeded without producing one). `Absent` means the key was not
/// present, which is expected rather than an error. `Timeout` means neither
/// dispatch attempt finished within its window. `BackendFailure` means a
/// remote node was reachable at startup but rejected or failed this call.
pub enum OperationOutcome {
    Success(Option<String>),
    Absent,
    Timeout,
    BackendFailure(String),
}

/// The mathematical shape of an outcome: the same tags over character
/// sequences, used by the contracts.
pub enum OutcomeView {
    Success(Option<Seq<char>>),
    Absent,
    Timeout,
    BackendFailure(Seq<char>),
}

impl View for OperationOutcome {
    type V = OutcomeView;

    open spec fn view(&self) -> OutcomeView {
        match self {
            OperationOutcome::Success(v) => OutcomeView::Success(
                match v {
                    Some(s) => Some(s@),
                    None => None,
                },
            ),
            OperationOutcome::Absent => OutcomeView::Absent,
            OperationOutcome::Timeout => OutcomeView::Timeout,
            OperationOutcome::BackendFailure(e) => OutcomeView::BackendFailure(e@),
        }
    }
}

/// What a remote node answered to a set: the write landed, the command was
/// rejected, or no connection could be had for the call.
pub enum SetReply {
    Done,
    CommandFailed(String),
    ConnectionFailed(String),
}

/// What a remote node answered to a delete: how many entries the key's
/// removal took out, or an error described by a message.
pub enum DeleteReply {
    Counted(u64),
    Failed(String),
}

/// What a remote node answered to a get: the value, nothing, or a protocol
/// or connection error described by a message.
pub enum BackendReply {
    Found(String),
    Missing,
    Failed(String),
}

/// Translates a node's reply to a get into the outcome taxonomy: a missing
/// key becomes `Absent`, never `BackendFailure`.
pub fn outcome_of_get_reply(reply: BackendReply) -> (o: OperationOutcome)
    ensures
        o == spec_outcome_of_get_reply(reply),
{
    match reply {
        BackendReply::Found(v) => OperationOutcome::Success(Some(v)),
        BackendReply::Missing => OperationOutcome::Absent,
        BackendReply::Failed(e) => OperationOutcome::BackendFailure(e),
    }
}

pub open spec fn spec_outcome_of_get_reply(reply: BackendReply) -> OperationOutcome {
    match reply {
        BackendReply::Found(v) => OperationOutcome::Success(Some(v)),
        BackendReply::Missing => OperationOutcome::Absent,
        BackendReply::Failed(e) => OperationOutcome::BackendFailure(e),
    }
}

/// Translates the count a node answered to a delete: at least one removed
/// entry is success, none means the key did not exist.
pub fn outcome_of_delete_reply(removed: u64) -> (o: OperationOutcome)
    ensures
        o == spec_outcome_of_delete_reply(removed),
{
    if removed >= 1 {
        OperationOutcome::Success(None)
    } else {
        OperationOutcome::Absent
    }
}

pub open spec fn spec_outcome_of_delete_reply(removed: u64) -> OperationOutcome {
    if removed >= 1 {
        OperationOutcome::Success(None)
    } else {
        OperationOutcome::Absent
    }
}

} // verus!
