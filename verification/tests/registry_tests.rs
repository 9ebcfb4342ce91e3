use kv_store::registry::node_address;
use kv_store::registry::node_addresses;
use kv_store::registry::node_name;
use kv_store::registry::node_names;
use kv_store::registry::remote_tier_active;
use kv_store::text::dec_string;

#[test]
fn decimal_rendering() {
    assert_eq!(dec_string(0), "0");
    assert_eq!(dec_string(7), "7");
    assert_eq!(dec_string(10), "10");
    assert_eq!(dec_string(6380), "6380");
    assert_eq!(dec_string(18446744073709551615), "18446744073709551615");
}

#[test]
fn node_names_are_one_based() {
    assert_eq!(node_name(0), "node1");
    assert_eq!(node_name(2), "node3");
    let names = node_names(3);
    assert_eq!(names, vec!["node1", "node2", "node3"]);
}

#[test]
fn containerized_addresses_are_symbolic() {
    assert_eq!(node_address(true, "ignored", 6380, 0), "redis-1");
    assert_eq!(node_address(true, "ignored", 6380, 1), "redis-2");
}

#[test]
fn local_addresses_use_consecutive_ports() {
    assert_eq!(node_address(false, "localhost", 6380, 0), "localhost:6380");
    assert_eq!(node_address(false, "localhost", 6380, 2), "localhost:6382");
    let addrs = node_addresses(false, "cache.internal", 7000, 2);
    assert_eq!(addrs, vec!["cache.internal:7000", "cache.internal:7001"]);
}

#[test]
fn remote_tier_needs_the_first_probe() {
    assert!(remote_tier_active(true, &vec![true, false, false]));
    assert!(!remote_tier_active(true, &vec![false, true, true]));
    assert!(!remote_tier_active(false, &vec![true, true, true]));
    assert!(!remote_tier_active(true, &Vec::new()));
}
