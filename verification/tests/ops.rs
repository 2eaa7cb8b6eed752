use mvar::{Mvar, Slot};

#[test]
fn slot_transitions() {
    let mut s: Slot<u32> = Slot::empty();
    assert!(s.is_empty());
    assert!(!s.is_full());
    assert!(s.fill(7));
    assert!(!s.fill(8));
    assert_eq!(s.read_value(), Some(7));
    assert_eq!(s.replace_value(9), Some(7));
    assert_eq!(s.take_value(), Some(9));
    assert_eq!(s.take_value(), None);
    let full = Slot::full(3u8);
    assert!(full.is_full());
}

#[test]
fn round_trip_leaves_empty() {
    let v: Mvar<u32> = Mvar::empty();
    v.put(5).unwrap();
    assert_eq!(v.take().unwrap(), 5);
    assert!(v.is_empty().unwrap());
}

#[test]
fn try_ops_on_fresh_cell() {
    let v: Mvar<u32> = Mvar::empty();
    assert_eq!(v.try_take().unwrap(), None);
    assert!(v.try_put(7).unwrap());
    assert!(!v.try_put(8).unwrap());
    assert_eq!(v.try_read().unwrap(), Some(7));
}

#[test]
fn swap_on_full_cell() {
    let v = Mvar::new(1);
    assert_eq!(v.swap(2).unwrap(), 1);
    assert_eq!(v.try_read().unwrap(), Some(2));
}

#[test]
fn read_does_not_consume() {
    let v = Mvar::new(7u32);
    assert_eq!(v.read().unwrap(), 7);
    assert_eq!(v.read().unwrap(), 7);
    assert_eq!(v.take().unwrap(), 7);
    assert!(v.is_empty().unwrap());
}

#[test]
fn try_ops_return_at_once() {
    let v = Mvar::new(1u32);
    assert!(!v.try_put(2).unwrap());
    assert_eq!(v.try_read().unwrap(), Some(1));
    assert_eq!(v.take().unwrap(), 1);
    assert_eq!(v.try_take().unwrap(), None);
}

#[test]
fn new_cell_starts_full() {
    let v = Mvar::new("a");
    assert!(!v.is_empty().unwrap());
    assert_eq!(v.try_take().unwrap(), Some("a"));
    assert!(v.is_empty().unwrap());
}

#[test]
fn default_cell_starts_empty() {
    let v: Mvar<u8> = Mvar::default();
    assert!(v.is_empty().unwrap());
}
