use netaminity_agent::registry::{Accepted, Registry};

#[test]
fn accepted_once() {
    let mut registry = Registry::new();
    assert_eq!(registry.accept(1), Accepted::Missing);
    registry.add_connection(1, 10);
    registry.add_connection(2, 20);
    assert_eq!(registry.accept(1), Accepted::Connection(10));
    assert_eq!(registry.accept(1), Accepted::Missing);
    assert_eq!(registry.accept(2), Accepted::Connection(20));
}

#[test]
fn probes_go_first() {
    let mut registry = Registry::new();
    registry.add_connection(1, 10);
    registry.add_probe(1, 11);
    assert_eq!(registry.accept(1), Accepted::Probe(11));
    assert_eq!(registry.accept(1), Accepted::Connection(10));
}

#[test]
fn later_entry_replaces_an_earlier_one() {
    let mut registry = Registry::new();
    registry.add_connection(1, 10);
    registry.add_connection(1, 12);
    assert_eq!(registry.accept(1), Accepted::Connection(12));
    assert_eq!(registry.accept(1), Accepted::Missing);
}

#[test]
fn expiry_and_cancellation() {
    let mut registry = Registry::new();
    registry.add_connection(1, 10);
    registry.add_probe(2, 20);
    assert_eq!(registry.expire(2), None);
    assert_eq!(registry.cancel_probe(1), None);
    assert_eq!(registry.expire(1), Some(10));
    assert_eq!(registry.cancel_probe(2), Some(20));
    assert_eq!(registry.accept(1), Accepted::Missing);
    assert_eq!(registry.accept(2), Accepted::Missing);
}

#[test]
fn clear_forgets_everything() {
    let mut registry = Registry::new();
    for id in 0..50 {
        registry.add_connection(id, 1);
        registry.add_probe(id + 100, 2);
    }
    registry.clear();
    for id in 0..150 {
        assert_eq!(registry.accept(id), Accepted::Missing);
    }
}
