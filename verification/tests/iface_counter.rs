use netstack_gmp::iface_counter::IfaceCounter;
use std::collections::HashSet;
use std::sync::Arc;

#[test]
fn test_iface_counter() {
    let iface_counter = IfaceCounter::new();
    assert_eq!(0, iface_counter.next_iface_id());
    assert_eq!(1, iface_counter.next_iface_id());
    assert_eq!(2, iface_counter.next_iface_id());
    assert_eq!(3, iface_counter.next_iface_id());
}

#[test]
fn a_shared_counter_hands_out_each_number_once() {
    let counter = Arc::new(IfaceCounter::new());
    let shared = Arc::clone(&counter);
    let mut seen = HashSet::new();
    for _ in 0..100 {
        assert!(seen.insert(counter.next_iface_id()));
        assert!(seen.insert(shared.next_iface_id()));
    }
    assert_eq!(seen.len(), 200);
}
