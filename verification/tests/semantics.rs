//! Behavioral tests of the wrapper operation model: decoding, prior-state
//! returns, idempotence, subtraction, clearing, equality and conversion.

use atomflag::flags::{AtomicFlags, FlagBits};

#[test]
fn new_decodes_initial_bits() {
    for b in [0u64, 1, 0b110, 0xdead_beef, u64::MAX] {
        let cell = AtomicFlags::new(b);
        assert_eq!(cell.get(), FlagBits::from_bits_retain(b));
        assert_eq!(cell.bits(), b);
    }
}

#[test]
fn fetch_or_returns_prior_state() {
    let mut cell = AtomicFlags::new(0b110);
    let prior = cell.fetch_or(FlagBits::from_bits_retain(0b001));
    assert_eq!(prior, FlagBits::from_bits_retain(0b110));
    assert_eq!(cell.bits(), 0b111);
}

#[test]
fn fetch_and_returns_prior_state() {
    let mut cell = AtomicFlags::new(0b110);
    let prior = cell.fetch_and(FlagBits::from_bits_retain(0b011));
    assert_eq!(prior.bits(), 0b110);
    assert_eq!(cell.bits(), 0b010);
}

#[test]
fn fetch_sub_returns_prior_state() {
    let mut cell = AtomicFlags::new(0b111);
    let prior = cell.fetch_sub(FlagBits::from_bits_retain(0b010));
    assert_eq!(prior.bits(), 0b111);
    assert_eq!(cell.bits(), 0b101);
}

#[test]
fn and_assign_is_idempotent() {
    for (b, m) in [(0b1101u64, 0b0111u64), (0xffff, 0xf0f0), (0, 7), (u64::MAX, 0)] {
        let mask = FlagBits::from_bits_retain(m);
        let mut once = AtomicFlags::new(b);
        once.and_assign(mask);
        let mut twice = AtomicFlags::new(b);
        twice.and_assign(mask);
        twice.and_assign(mask);
        assert_eq!(once.bits(), twice.bits());
    }
}

#[test]
fn subtract_never_sets_bits() {
    for b in [0u64, 0b101, 0xffff_ffff, u64::MAX] {
        for m in [0u64, 0b011, 0xff00, u64::MAX] {
            let mut cell = AtomicFlags::new(b);
            let prior = cell.fetch_sub(FlagBits::from_bits_retain(m));
            assert_eq!(prior.bits(), b);
            assert_eq!(cell.bits() & m, 0);
            assert_eq!(cell.bits(), b & !m);
        }
    }
}

#[test]
fn clear_yields_empty() {
    for b in [0u64, 1, 0b111, u64::MAX] {
        let mut cell = AtomicFlags::new(b);
        cell.clear();
        assert!(cell.get().is_empty());
        assert_eq!(cell.bits(), 0);
    }
}

#[test]
fn equality_tracks_decoded_value() {
    let cell = AtomicFlags::new(0b101);
    assert!(cell == FlagBits::from_bits_retain(0b101));
    assert!(cell.get() == FlagBits::from_bits_retain(0b101));
    assert!(!(cell == FlagBits::from_bits_retain(0b100)));
    assert!(cell.get() != FlagBits::from_bits_retain(0b100));
}

#[test]
fn conversion_goes_through_get() {
    let cell = AtomicFlags::new(0b1001);
    let snapshot = cell.get();
    let converted = FlagBits::from(cell);
    assert_eq!(converted, snapshot);
}

#[test]
fn default_holds_no_bits() {
    let cell = AtomicFlags::default();
    assert_eq!(cell.bits(), 0);
    assert!(cell.is_empty());
}

#[test]
fn contains_and_is_empty_follow_get() {
    let cell = AtomicFlags::new(0b110);
    assert!(cell.contains(FlagBits::from_bits_retain(0b010)));
    assert!(cell.contains(FlagBits::from_bits_retain(0b110)));
    assert!(!cell.contains(FlagBits::from_bits_retain(0b001)));
    assert!(!cell.is_empty());
}

#[test]
fn plain_value_operations() {
    let a = FlagBits::from_bits_retain(0b1100);
    let b = FlagBits::from_bits_retain(0b1010);
    assert_eq!(a.union(b).bits(), 0b1110);
    assert_eq!(a.intersection(b).bits(), 0b1000);
    assert_eq!(a.difference(b).bits(), 0b0100);
    assert!(FlagBits::from_bits_retain(0).is_empty());
    assert!(!a.is_empty());
    assert!(a.contains(FlagBits::from_bits_retain(0b0100)));
}

#[test]
fn disjoint_unions_reach_the_union_in_any_order() {
    let operands: Vec<FlagBits> = [0b0001u64, 0b0010, 0b0100, 0b1000]
        .iter()
        .map(|&m| FlagBits::from_bits_retain(m))
        .collect();
    let reversed: Vec<FlagBits> = operands.iter().rev().cloned().collect();
    let shuffled: Vec<FlagBits> = [0b0100u64, 0b0001, 0b1000, 0b0010]
        .iter()
        .map(|&m| FlagBits::from_bits_retain(m))
        .collect();

    let mut forward = AtomicFlags::new(0b1_0000);
    forward.apply_unions(&operands);
    let mut backward = AtomicFlags::new(0b1_0000);
    backward.apply_unions(&reversed);
    let mut mixed = AtomicFlags::new(0b1_0000);
    mixed.apply_unions(&shuffled);

    assert_eq!(forward.bits(), 0b1_1111);
    assert_eq!(backward.bits(), forward.bits());
    assert_eq!(mixed.bits(), forward.bits());
}

#[test]
fn interleaved_unions_reach_the_union() {
    let m1 = FlagBits::from_bits_retain(0b01);
    let m2 = FlagBits::from_bits_retain(0b10);
    let mut one_way = AtomicFlags::new(0);
    one_way.or_assign(m1);
    one_way.or_assign(m2);
    let mut other_way = AtomicFlags::new(0);
    other_way.or_assign(m2);
    other_way.or_assign(m1);
    assert_eq!(one_way.bits(), 0b11);
    assert_eq!(other_way.bits(), 0b11);
}
