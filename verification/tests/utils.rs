use animate_core::initial::Initial;
use animate_core::slot::{unwrap_cell, Slot};
use animate_core::trackable::Trackable;

#[test]
fn the_gate_is_true_exactly_once() {
    let mut gate = Initial::new();
    assert!(gate.get());
    assert!(!gate.get());
    assert!(!gate.get());
}

#[test]
fn a_slot_gives_its_value_to_the_first_taker_only() {
    let mut slot: Slot<u32> = Slot::full(7);
    assert!(slot.is_full());
    assert_eq!(slot.take(), Some(7));
    assert!(!slot.is_full());
    assert_eq!(slot.take(), None);
}

#[test]
fn an_empty_slot_never_had_anything() {
    let mut slot: Slot<u32> = Slot::empty();
    assert_eq!(slot.take(), None);
}

#[test]
fn unwrapping_consumes_the_cell() {
    let slot: Slot<String> = Slot::full("payload".to_string());
    assert_eq!(unwrap_cell(slot), "payload");
}

#[test]
fn tracking_counts_declarations() {
    let mut t = Trackable::new();
    assert_eq!(t.count, 0);
    t.track();
    t.track();
    assert_eq!(t.count, 2);
}
