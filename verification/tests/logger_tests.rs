use kv_store::api::delete_success_message;
use kv_store::api::did_not_exist_message;
use kv_store::api::not_found_message;
use kv_store::api::set_success_message;
use kv_store::lock_manager::with_lock;
use kv_store::logger::OperationKind;
use kv_store::logger::log_operation;
use kv_store::logger::operation_label;
use kv_store::logger::result_label;
use kv_store::outcome::OperationOutcome;

#[test]
fn log_record_uppercases_the_operation() {
    let record = log_operation("Mon Oct  6 10:00:00 2025", "get", "alpha", "success");
    assert_eq!(
        record,
        "Mon Oct  6 10:00:00 2025 - GET - key: alpha, result: success\n"
    );
}

#[test]
fn log_record_keeps_key_and_result_verbatim() {
    let record = log_operation("t", "delete", "user:42", "did not exist");
    assert_eq!(record, "t - DELETE - key: user:42, result: did not exist\n");
}

#[test]
fn operation_labels() {
    assert_eq!(operation_label(OperationKind::Get), "get");
    assert_eq!(operation_label(OperationKind::Put), "set");
    assert_eq!(operation_label(OperationKind::Delete), "delete");
    assert_eq!(operation_label(OperationKind::Timeout), "timeout");
}

#[test]
fn result_labels_distinguish_absence_by_operation() {
    let absent = OperationOutcome::Absent;
    assert_eq!(result_label(OperationKind::Get, &absent), "not found");
    assert_eq!(result_label(OperationKind::Delete, &absent), "did not exist");
    let ok = OperationOutcome::Success(None);
    assert_eq!(result_label(OperationKind::Put, &ok), "success");
    assert_eq!(result_label(OperationKind::Get, &OperationOutcome::Timeout), "timeout");
}

#[test]
fn response_messages() {
    assert_eq!(set_success_message("k"), "Value for key 'k' set successfully.");
    assert_eq!(delete_success_message("k"), "Key 'k' deleted successfully.");
    assert_eq!(not_found_message("k"), "Key 'k' not found");
    assert_eq!(did_not_exist_message("k"), "Key 'k' did not exist");
}

#[test]
fn with_lock_runs_the_operation() {
    let r = with_lock(|| 41 + 1);
    assert_eq!(r, 42);
    let s = with_lock(|| "held".to_string());
    assert_eq!(s, "held");
}
