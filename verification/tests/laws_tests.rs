use slot_cell::SlotCell;
use std::cmp::Ordering;
use std::collections::hash_map::DefaultHasher;
use std::hash::{Hash, Hasher};

#[test]
fn put_then_take_gives_the_value_back() {
    let mut cell: SlotCell<u64> = SlotCell::empty();
    cell.put(7);
    assert!(cell.is_filled());
    assert_eq!(cell.take(), 7);
    assert!(cell.is_empty());
    assert!(!cell.is_filled());
}

#[test]
fn take_then_put_restores_the_cell() {
    let mut cell = SlotCell::new(String::from("abc"));
    let v = cell.take();
    cell.put(v);
    assert_eq!(cell, SlotCell::new(String::from("abc")));
}

#[test]
fn replace_keeps_the_cell_filled() {
    let mut cell = SlotCell::new(3u8);
    assert_eq!(cell.replace(4), 3);
    assert!(cell.is_filled());
    assert_eq!(cell.replace(5), 4);
    assert_eq!(cell.into_inner(), 5);
}

#[test]
fn swap_twice_restores_both_cells() {
    let mut a = SlotCell::new('a');
    let mut b = SlotCell::new('b');
    a.swap(&mut b);
    assert_eq!(a, SlotCell::new('b'));
    assert_eq!(b, SlotCell::new('a'));
    a.swap(&mut b);
    assert_eq!(a.take(), 'a');
    assert_eq!(b.take(), 'b');
}

#[test]
fn with_puts_the_changed_value_back() {
    let mut cell = SlotCell::new(vec![1, 2, 3]);
    let len = cell.with(|v| {
        v.pop();
        v.len()
    });
    assert_eq!(len, 2);
    assert_eq!(cell.into_inner(), vec![1, 2]);
}

#[test]
fn update_applies_the_function_once() {
    let mut cell = SlotCell::new(5i64);
    cell.update(|v| v * 2);
    cell.update(|v| v - 1);
    assert_eq!(cell.take(), 9);
}

#[test]
fn empty_cells_are_equal_and_least() {
    let e1: SlotCell<f64> = SlotCell::empty();
    let e2: SlotCell<f64> = SlotCell::default();
    let filled = SlotCell::new(f64::NEG_INFINITY);
    assert_eq!(e1, e2);
    assert_eq!(e1.partial_cmp(&e2), Some(Ordering::Equal));
    assert_eq!(e1.partial_cmp(&filled), Some(Ordering::Less));
    assert_eq!(filled.partial_cmp(&e1), Some(Ordering::Greater));
    assert!(e1 < filled);
    assert_ne!(filled, e1);
}

#[test]
fn filled_cells_order_as_their_values() {
    let a = SlotCell::new(1u32);
    let b = SlotCell::new(2u32);
    assert_eq!(a.partial_cmp(&b), Some(Ordering::Less));
    assert_eq!(b.partial_cmp(&a), Some(Ordering::Greater));
    assert_eq!(a.partial_cmp(&SlotCell::new(1u32)), Some(Ordering::Equal));
    assert!(a <= b && b >= a && a != b);
}

#[test]
fn default_is_empty() {
    let cell: SlotCell<Vec<u8>> = SlotCell::default();
    assert!(cell.is_empty());
}

#[test]
fn from_value_is_filled() {
    let cell: SlotCell<i32> = SlotCell::from(11);
    assert!(cell.is_filled());
    assert_eq!(cell.into_inner(), 11);
}

#[test]
fn option_round_trip() {
    let some: SlotCell<i32> = SlotCell::from(Some(4));
    assert!(some.is_filled());
    assert_eq!(Option::<i32>::from(some), Some(4));

    let none: SlotCell<i32> = SlotCell::from(None);
    assert!(none.is_empty());
    assert_eq!(Option::<i32>::from(none), None);
}

#[test]
fn hash_follows_equality() {
    fn hash_of(cell: &SlotCell<u32>) -> u64 {
        let mut h = DefaultHasher::new();
        cell.hash(&mut h);
        h.finish()
    }

    assert_eq!(hash_of(&SlotCell::new(9)), hash_of(&SlotCell::new(9)));
    assert_eq!(hash_of(&SlotCell::empty()), hash_of(&SlotCell::empty()));
}

#[test]
fn empty_cells_compare_equal_for_any_element_type() {
    let e1: SlotCell<f32> = SlotCell::empty();
    let e2: SlotCell<f32> = SlotCell::empty();
    let nan = SlotCell::new(f32::NAN);
    assert!(e1 == e2);
    assert_eq!(e1.partial_cmp(&e2), Some(Ordering::Equal));
    assert_eq!(e1.partial_cmp(&nan), Some(Ordering::Less));
    assert_eq!(nan.partial_cmp(&e1), Some(Ordering::Greater));
    assert!(nan != e1 && e1 != nan);
}

#[test]
fn equality_is_symmetric() {
    let a = SlotCell::new(String::from("x"));
    let b = SlotCell::new(String::from("y"));
    let e: SlotCell<String> = SlotCell::empty();
    assert_eq!(a == b, b == a);
    assert_eq!(a == e, e == a);
    assert_eq!(a == SlotCell::new(String::from("x")), SlotCell::new(String::from("x")) == a);
}
