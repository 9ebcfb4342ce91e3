use kv_store::outcome::BackendReply;
use kv_store::outcome::DeleteReply;
use kv_store::outcome::OperationOutcome;
use kv_store::outcome::SetReply;
use kv_store::service::KvStore;
use kv_store::service::RoutePlan;

fn all_up(n: usize) -> Vec<bool> {
    let mut v = Vec::new();
    for _ in 0..n {
        v.push(true);
    }
    v
}

#[test]
fn route_is_deterministic() {
    let store = KvStore::new(3, true, &all_up(3));
    let first = store.route("alpha");
    let second = store.route("alpha");
    assert!(first.is_some());
    assert_eq!(first, second);
}

#[test]
fn route_agrees_across_equal_rings() {
    let a = KvStore::new(5, false, &vec![false; 5]);
    let b = KvStore::new(5, false, &vec![false; 5]);
    for key in ["alpha", "beta", "gamma", "delta"] {
        assert_eq!(a.route(key), b.route(key));
    }
}

#[test]
fn route_names_a_configured_node() {
    let store = KvStore::new(3, true, &all_up(3));
    let node = store.route("some-key").unwrap();
    assert!(["node1", "node2", "node3"].contains(&node.as_str()));
}

#[test]
fn route_on_empty_ring_fails() {
    let store = KvStore::new(0, true, &Vec::new());
    assert!(store.route("anything").is_none());
    assert!(matches!(store.plan("anything"), RoutePlan::Local));
}

#[test]
fn plan_follows_route_when_all_healthy() {
    let store = KvStore::new(3, true, &all_up(3));
    let routed = store.route("k").unwrap();
    match store.plan("k") {
        RoutePlan::Remote(n) => assert_eq!(n, routed),
        RoutePlan::Local => panic!("expected a remote plan"),
    }
}

#[test]
fn plan_avoids_unhealthy_node() {
    // Only node1 is healthy: every key routed elsewhere must plan local.
    let store = KvStore::new(3, true, &vec![true, false, false]);
    for key in ["a", "b", "c", "d", "e", "f", "g", "h"] {
        match store.plan(key) {
            RoutePlan::Remote(n) => assert_eq!(n, "node1"),
            RoutePlan::Local => {
                let routed = store.route(key).unwrap();
                assert_ne!(routed, "node1");
            }
        }
    }
}

#[test]
fn removing_a_node_remaps_only_its_keys() {
    // Consistent hashing: against a ring without node3, only the keys that
    // routed to node3 move; every other key keeps its node.
    let three = KvStore::new(3, false, &vec![false; 3]);
    let two = KvStore::new(2, false, &vec![false; 2]);
    for i in 0..40 {
        let key = format!("key-{}", i);
        let with_three = three.route(&key).unwrap();
        let with_two = two.route(&key).unwrap();
        if with_three != "node3" {
            assert_eq!(with_three, with_two);
        }
    }
}

#[test]
fn first_node_probe_failure_disables_remote_tier() {
    // Three nodes; node1 fails its startup probe, nodes 2 and 3 are healthy.
    let mut store = KvStore::new(3, true, &vec![false, true, true]);
    assert!(matches!(store.plan("a"), RoutePlan::Local));
    let set = store.set("a", "1", None);
    assert!(matches!(set, OperationOutcome::Success(None)));
    match store.get("a", None) {
        OperationOutcome::Success(Some(v)) => assert_eq!(v, "1"),
        _ => panic!("expected the value from the fallback store"),
    }
}

#[test]
fn get_passes_remote_answer_through() {
    let store = KvStore::new(3, true, &all_up(3));
    match store.get("k", Some(BackendReply::Found("remote-value".to_string()))) {
        OperationOutcome::Success(Some(v)) => assert_eq!(v, "remote-value"),
        _ => panic!("expected the remote value"),
    }
    assert!(matches!(store.get("k", Some(BackendReply::Missing)), OperationOutcome::Absent));
}

#[test]
fn get_falls_back_on_remote_error() {
    let mut store = KvStore::new(3, true, &all_up(3));
    store.set("k", "local", Some(SetReply::ConnectionFailed("refused".to_string())));
    match store.get("k", Some(BackendReply::Failed("refused".to_string()))) {
        OperationOutcome::Success(Some(v)) => assert_eq!(v, "local"),
        _ => panic!("expected the fallback value"),
    }
}

#[test]
fn set_reports_remote_command_failure() {
    let mut store = KvStore::new(3, true, &all_up(3));
    let out = store.set("k", "v", Some(SetReply::CommandFailed("wrong type".to_string())));
    match out {
        OperationOutcome::BackendFailure(e) => assert_eq!(e, "wrong type"),
        _ => panic!("expected a backend failure"),
    }
    // The rejected write must not have touched the fallback store.
    assert!(matches!(store.get("k", None), OperationOutcome::Absent));
}

#[test]
fn remote_set_leaves_fallback_store_alone() {
    let mut store = KvStore::new(3, true, &all_up(3));
    let out = store.set("k", "v", Some(SetReply::Done));
    assert!(matches!(out, OperationOutcome::Success(None)));
    assert!(matches!(store.get("k", None), OperationOutcome::Absent));
}

#[test]
fn delete_translates_remote_count() {
    let mut store = KvStore::new(3, true, &all_up(3));
    assert!(matches!(
        store.delete("k", Some(DeleteReply::Counted(1))),
        OperationOutcome::Success(None)
    ));
    assert!(matches!(
        store.delete("k", Some(DeleteReply::Counted(0))),
        OperationOutcome::Absent
    ));
}

#[test]
fn delete_distinguishes_never_written() {
    let mut store = KvStore::new(3, true, &vec![false, false, false]);
    // A key never written: "did not exist".
    assert!(matches!(store.delete("ghost", None), OperationOutcome::Absent));
    // Right after a write: deleted, and a read then finds nothing.
    store.set("k", "v", None);
    assert!(matches!(store.delete("k", None), OperationOutcome::Success(None)));
    assert!(matches!(store.get("k", None), OperationOutcome::Absent));
    // Deleting again: "did not exist" once more.
    assert!(matches!(store.delete("k", None), OperationOutcome::Absent));
}

#[test]
fn keys_star_lists_fallback_contents() {
    let mut store = KvStore::new(3, true, &vec![false, true, true]);
    store.set("x", "1", None);
    store.set("y", "2", None);
    let keys = store.keys("*", None);
    assert_eq!(keys.len(), 2);
    assert!(keys.iter().any(|k| k == "x"));
    assert!(keys.iter().any(|k| k == "y"));
}

#[test]
fn keys_merges_remote_replies_in_order() {
    let store = KvStore::new(2, true, &all_up(2));
    let replies = vec![
        vec!["a".to_string(), "b".to_string()],
        vec!["c".to_string(), "a".to_string()],
    ];
    let merged = store.keys("*", Some(replies));
    assert_eq!(merged, vec!["a", "b", "c", "a"]);
}

#[test]
fn overwrite_then_read_returns_latest() {
    let mut store = KvStore::new(1, false, &vec![false]);
    store.set("k", "first", None);
    store.set("k", "second", None);
    match store.get("k", None) {
        OperationOutcome::Success(Some(v)) => assert_eq!(v, "second"),
        _ => panic!("expected the overwritten value"),
    }
    // Another key's delete leaves it alone.
    store.set("other", "x", None);
    store.delete("other", None);
    match store.get("k", None) {
        OperationOutcome::Success(Some(v)) => assert_eq!(v, "second"),
        _ => panic!("expected the value to survive other keys' deletes"),
    }
}
