//! The range set of the tracer: runs that answer membership, and
//! inserts that grow and merge neighbouring runs.

use nespile::tracer::{RangeSet, RangeSetItem};

#[test]
fn test_item_contains() {
    let item = RangeSetItem::new(0x10, 4);
    assert!(!item.contains(&0x0f));
    assert!(item.contains(&0x10));
    assert!(item.contains(&0x13));
    assert!(!item.contains(&0x14));
}

#[test]
fn test_item_adjacent() {
    let a = RangeSetItem::new(0x10, 4);
    let b = RangeSetItem::new(0x14, 2);
    let c = RangeSetItem::new(0x15, 2);
    assert!(a.adjacent(&b));
    assert!(b.adjacent(&a));
    assert!(!a.adjacent(&c));
}

#[test]
fn test_item_merge() {
    let a = RangeSetItem::new(0x10, 4);
    let b = RangeSetItem::new(0x14, 2);
    let merged = a.merge(b);
    assert!(merged.contains(&0x10));
    assert!(merged.contains(&0x15));
    assert!(!merged.contains(&0x16));
    let merged_other_way = b.merge(a);
    assert_eq!(merged, merged_other_way);
}

#[test]
fn test_insert_and_contains() {
    let mut set = RangeSet::new();
    assert!(!set.contains(&5));
    assert!(set.insert(5));
    assert!(set.contains(&5));
    assert!(!set.contains(&4));
    assert!(!set.contains(&6));
    assert!(!set.insert(5));
}

#[test]
fn test_insert_merges_left_and_right() {
    let mut set = RangeSet::new();
    assert!(set.insert(10));
    assert!(set.insert(12));
    assert!(!set.contains(&11));
    // 11 bridges the two runs into one.
    assert!(set.insert(11));
    assert!(set.contains(&10));
    assert!(set.contains(&11));
    assert!(set.contains(&12));
    assert!(!set.contains(&9));
    assert!(!set.contains(&13));
}

#[test]
fn test_insert_extends_a_run() {
    let mut set = RangeSet::new();
    assert!(set.insert(100));
    assert!(set.insert(101));
    assert!(set.insert(99));
    for x in 99..=101u16 {
        assert!(set.contains(&x));
    }
    assert!(!set.contains(&98));
    assert!(!set.contains(&102));
}

#[test]
fn test_insert_scattered_runs_stay_distinct() {
    let mut set = RangeSet::new();
    assert!(set.insert(0));
    assert!(set.insert(1000));
    assert!(set.insert(0xfffe));
    assert!(set.contains(&0));
    assert!(set.contains(&1000));
    assert!(set.contains(&0xfffe));
    assert!(!set.contains(&1));
    assert!(!set.contains(&999));
    assert!(!set.contains(&0xffff));
}
