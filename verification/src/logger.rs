//! What the audit logger is handed: the record text for one completed
//! operation, and the labels the core supplies for it. Writing records to
//! their file is the external collaborator's business, not the library's.

use vstd::prelude::*;

use crate::outcome::OperationOutcome;
use crate::outcome::OutcomeView;

verus! {

/// The kind of operation an audit record is about: a read, a write
/// (recorded as "set"), a delete, or a dispatch whose both windows
/// expired, which is recorded under its own kind, as the request layer
/// has always done.
#[derive(Clone, Copy)]
pub enum OperationKind {
    Get,
    Put,
    Delete,
    Timeout,
}

/// What str::to_uppercase returns for a string's characters.
pub uninterp spec fn upper_of(s: Seq<char>) -> Seq<char>;

/// Relies on str::to_uppercase: the result is a function of the characters
/// alone, and an empty string stays empty.
#[verifier::external_body]
fn to_upper(s: &str) -> (r: String)
    ensures
        r@ == upper_of(s@),
        s@.len() == 0 ==> r@.len() == 0,
{
    s.to_uppercase()
}

/// One audit record: timestamp, the operation type uppercased, the key,
/// and the result label, on one line.
pub open spec fn spec_log_entry(
    ts: Seq<char>,
    op: Seq<char>,
    key: Seq<char>,
    result: Seq<char>,
) -> Seq<char> {
    ts + " - "@ + upper_of(op) + " - key: "@ + key + ", result: "@ + result + "\n"@
}

/// Renders one completed operation as the record the audit logger stores.
/// The timestamp is the caller's: the library does not read the clock.
pub fn log_operation(timestamp: &str, operation_type: &str, key: &str, result: &str) -> (r:
    String)
    ensures
        r@ == spec_log_entry(timestamp@, operation_type@, key@, result@),
{
    let mut r = timestamp.to_owned();
    r.append(" - ");
    let upper = to_upper(operation_type);
    r.append(upper.as_str());
    r.append(" - key: ");
    r.append(key);
    r.append(", result: ");
    r.append(result);
    r.append("\n");
    proof {
        assert(r@ =~= spec_log_entry(timestamp@, operation_type@, key@, result@));
    }
    r
}

/// The operation-type label for an audit record.
pub fn operation_label(op: OperationKind) -> (s: &'static str)
    ensures
        op is Get ==> s@ == "get"@,
        op is Put ==> s@ == "set"@,
        op is Delete ==> s@ == "delete"@,
        op is Timeout ==> s@ == "timeout"@,
{
    match op {
        OperationKind::Get => "get",
        OperationKind::Put => "set",
        OperationKind::Delete => "delete",
        OperationKind::Timeout => "timeout",
    }
}

/// The result label for an audit record: an absent key reads "not found"
/// on a get and "did not exist" on a delete. Backend failures are
/// recovered by falling over to the fallback store before the audit edge,
/// so no label stands for them.
pub open spec fn spec_result_label(op: OperationKind, o: OutcomeView) -> Seq<char> {
    match o {
        OutcomeView::Success(_) => "success"@,
        OutcomeView::Timeout => "timeout"@,
        OutcomeView::Absent => if op is Delete {
            "did not exist"@
        } else {
            "not found"@
        },
        OutcomeView::BackendFailure(_) => Seq::empty(),
    }
}

pub fn result_label(op: OperationKind, o: &OperationOutcome) -> (s: &'static str)
    requires
        !(o@ is BackendFailure),
    ensures
        s@ == spec_result_label(op, o@),
{
    match o {
        OperationOutcome::Success(_) => "success",
        OperationOutcome::Timeout => "timeout",
        OperationOutcome::Absent => match op {
            OperationKind::Delete => "did not exist",
            _ => "not found",
        },
        OperationOutcome::BackendFailure(_) => "",
    }
}

} // verus!
