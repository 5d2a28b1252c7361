use bitset_ecs::bitsets::BitSet;
use bitset_ecs::components::{every_component, COLLIDER, PLAYER, RIGIDBODY, TEXTURE};

#[test]
fn empty_contains_no_flag() {
    let e = BitSet::empty();
    for f in [TEXTURE, RIGIDBODY, COLLIDER, PLAYER, 0b1010, 1 << 31] {
        assert!(!e.contains(f));
    }
}

#[test]
fn with_then_contains() {
    for f in [TEXTURE, RIGIDBODY, COLLIDER, PLAYER, 0b1010, 1 << 31] {
        assert!(BitSet::empty().with(f).contains(f));
    }
}

#[test]
fn with_is_commutative_and_associative() {
    let a = BitSet::new(0b100000);
    let ab = a.with(TEXTURE).with(PLAYER);
    let ba = a.with(PLAYER).with(TEXTURE);
    let both = a.with(TEXTURE | PLAYER);
    assert!(ab.is_subset_of(&ba) && ba.is_subset_of(&ab));
    assert!(ab.is_subset_of(&both) && both.is_subset_of(&ab));
}

#[test]
fn with_leaves_original_unchanged() {
    let a = BitSet::empty();
    let b = a.with(RIGIDBODY);
    assert!(!a.contains(RIGIDBODY));
    assert!(b.contains(RIGIDBODY));
}

#[test]
fn contains_needs_every_bit() {
    let a = BitSet::new(TEXTURE | RIGIDBODY);
    assert!(a.contains(TEXTURE | RIGIDBODY));
    assert!(!a.contains(TEXTURE | COLLIDER));
    assert!(a.contains(0));
}

#[test]
fn include_and_exclude_flags() {
    let mut a = BitSet::empty();
    a.include_flag(COLLIDER);
    a.include_flag(PLAYER);
    assert!(a.contains(COLLIDER) && a.contains(PLAYER));
    a.exclude_flag(COLLIDER);
    assert!(!a.contains(COLLIDER));
    assert!(a.contains(PLAYER));
    a.exclude_flag(COLLIDER);
    assert!(!a.contains(COLLIDER));
}

#[test]
fn subset_laws_on_values() {
    let a = BitSet::new(TEXTURE | RIGIDBODY);
    let b = BitSet::new(TEXTURE | RIGIDBODY | PLAYER);
    assert!(a.is_subset_of(&b));
    assert!(!b.is_subset_of(&a));
    assert!(a.is_subset_of(&a));
    assert!(BitSet::empty().is_subset_of(&a));
    assert!(BitSet::empty().is_subset_of(&BitSet::empty()));
    assert!(!BitSet::new(COLLIDER).is_subset_of(&a));
}

#[test]
fn every_component_lists_single_flags() {
    assert_eq!(every_component(), vec![1, 2, 4, 8, 16]);
}
