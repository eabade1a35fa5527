use by_address::ByAddress;
use by_address::ByThinAddress;
use by_address::Pointer;

use std::cmp::Ordering;

#[derive(Debug)]
struct Test {}

#[test]
fn test_thin_ptr_fail() {
    // One object, reached through two dispatch tables: the data address is
    // shared, the secondary word is not.
    let t_addr: usize = 0x7000;
    let tr1 = Pointer::fat(t_addr, 0x100, Test {});
    let tr2 = Pointer::fat(t_addr, 0x200, Test {});

    let a = ByAddress(tr1);
    let b = ByAddress(tr2);

    assert_ne!(a, b);
}

#[test]
fn test_thin_ptr_success() {
    let t_addr: usize = 0x7000;
    let tr1 = Pointer::fat(t_addr, 0x100, Test {});
    let tr2 = Pointer::fat(t_addr, 0x200, Test {});

    let a = ByThinAddress(tr1);
    let b = ByThinAddress(tr2);

    assert_eq!(a, b);
}

#[test]
fn value_vs_address_equality() {
    // Two clones of one shared-ownership pointer to 5, and a fresh pointer
    // to another 5: clones are equal, the fresh pointer is not.
    let rc = Pointer::thin(0x500, 5u64);
    let x = ByAddress(rc.clone());
    let y = ByAddress(rc.clone());
    let z = ByAddress(Pointer::thin(0x900, 5u64));
    assert_eq!(x, y);
    assert_ne!(x, z);
    assert_eq!(*x.as_ref(), 5);
    assert_eq!(*y.as_ref(), 5);
    assert_eq!(*z.as_ref(), 5);

    let tx = ByThinAddress(rc.clone());
    let ty = ByThinAddress(rc.clone());
    let tz = ByThinAddress(Pointer::thin(0x900, 5u64));
    assert_eq!(tx, ty);
    assert_ne!(tx, tz);
}

#[test]
fn slice_length_matters_for_by_address() {
    // A four-element sequence viewed whole and viewed half: same starting
    // address, different length word.
    let base: usize = 0x2000;
    let full1 = ByAddress(Pointer::fat(base, 4, vec![1u64, 2, 3, 4]));
    let full2 = ByAddress(Pointer::fat(base, 4, vec![1u64, 2, 3, 4]));
    let half = ByAddress(Pointer::fat(base, 2, vec![1u64, 2]));
    assert_eq!(full1, full2);
    assert_ne!(full1, half);

    let thin_full = ByThinAddress(Pointer::fat(base, 4, vec![1u64, 2, 3, 4]));
    let thin_half = ByThinAddress(Pointer::fat(base, 2, vec![1u64, 2]));
    assert_eq!(thin_full, thin_half);
}

#[test]
fn equality_is_reflexive_and_symmetric() {
    let a = ByAddress(Pointer::fat(0x10, 3, 1u64));
    let b = ByAddress(Pointer::fat(0x10, 3, 2u64));
    let c = ByAddress(Pointer::fat(0x10, 4, 1u64));
    assert!(a == a);
    assert_eq!(a == b, b == a);
    assert_eq!(a == c, c == a);

    let ta = ByThinAddress(Pointer::thin(0x10, 1u64));
    let tb = ByThinAddress(Pointer::thin(0x11, 1u64));
    assert!(ta == ta);
    assert_eq!(ta == tb, tb == ta);
}

#[test]
fn equality_is_transitive() {
    let a = ByAddress(Pointer::fat(0x10, 3, 1u64));
    let b = ByAddress(Pointer::fat(0x10, 3, 2u64));
    let c = ByAddress(Pointer::fat(0x10, 3, 3u64));
    assert_eq!(a, b);
    assert_eq!(b, c);
    assert_eq!(a, c);
}

#[test]
fn order_follows_fingerprint() {
    let a = ByAddress(Pointer::thin(1usize, 0u64));
    let b = ByAddress(Pointer::fat(1usize, 5, 0u64));
    let c = ByAddress(Pointer::fat(2usize, 0, 0u64));
    // same data address: the thin pointer sorts before the fat one
    assert_eq!(a.cmp(&b), Ordering::Less);
    assert_eq!(b.cmp(&c), Ordering::Less);
    // transitivity on these values
    assert_eq!(a.cmp(&c), Ordering::Less);
    assert_eq!(c.cmp(&a), Ordering::Greater);
    assert_eq!(a.cmp(&a), Ordering::Equal);
    assert!(a < c);
    assert!(c > a);

    // the thin wrapper ignores the secondary word
    let tb = ByThinAddress(Pointer::fat(1usize, 5, 0u64));
    let tc = ByThinAddress(Pointer::fat(1usize, 9, 0u64));
    let td = ByThinAddress(Pointer::thin(2usize, 0u64));
    assert_eq!(tb.cmp(&tc), Ordering::Equal);
    assert_eq!(tb.cmp(&td), Ordering::Less);
    assert!(tb <= tc);
    assert!(tb < td);
}

#[test]
fn hash_agrees_with_equality() {
    let a = ByAddress(Pointer::fat(0x40, 7, 1u64));
    let b = ByAddress(Pointer::fat(0x40, 7, 2u64));
    assert_eq!(a, b);
    assert_eq!(a.hash(), b.hash());

    // equal thin wrappers with distinct secondary words still hash equal
    let t1 = ByThinAddress(Pointer::fat(0x40, 7, 1u64));
    let t2 = ByThinAddress(Pointer::fat(0x40, 9, 1u64));
    assert_eq!(t1, t2);
    assert_eq!(t1.hash(), t2.hash());
}
