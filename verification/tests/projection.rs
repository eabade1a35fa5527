use by_address::first_occurrence_indices;
use by_address::ByAddress;
use by_address::ByThinAddress;
use by_address::Pointer;

#[test]
fn deref_is_transparent() {
    let mut x = ByAddress(Pointer::thin(0x77, 41u64));
    assert_eq!(x.addr(), 0x77);
    // the dereference projections reach the same storage as the pointer
    assert_eq!(*x.deref().borrow(), 41);
    assert_eq!(*x.as_ref(), 41);
    *x.as_mut() = 42;
    assert_eq!(*x.as_ref(), 42);
    assert_eq!(*x.deref().borrow(), 42);
    // mutating through the projection leaves the fingerprint alone
    assert_eq!(x.addr(), 0x77);

    let mut y = ByThinAddress(Pointer::fat(0x78, 3, 7u64));
    assert_eq!(y.addr(), 0x78);
    assert_eq!(*y.as_ref(), *y.deref().borrow());
    *y.deref_mut().borrow_mut() = 8;
    assert_eq!(*y.as_ref(), 8);
    assert_eq!(y.addr(), 0x78);
}

#[test]
fn layout_is_transparent() {
    assert_eq!(
        std::mem::size_of::<ByAddress<u64>>(),
        std::mem::size_of::<Pointer<u64>>()
    );
    assert_eq!(
        std::mem::align_of::<ByAddress<u64>>(),
        std::mem::align_of::<Pointer<u64>>()
    );
    assert_eq!(
        std::mem::size_of::<ByThinAddress<Vec<u64>>>(),
        std::mem::size_of::<Pointer<Vec<u64>>>()
    );
    assert_eq!(
        std::mem::align_of::<ByThinAddress<Vec<u64>>>(),
        std::mem::align_of::<Pointer<Vec<u64>>>()
    );
}

#[test]
fn from_wraps_the_pointer() {
    let x: ByAddress<u64> = ByAddress::from(Pointer::thin(9, 3u64));
    assert_eq!(x.addr(), 9);
    assert_eq!(*x.as_ref(), 3);
    let y: ByThinAddress<u64> = Pointer::thin(9, 3u64).into();
    assert_eq!(y.addr(), 9);
    assert_eq!(*y.as_ref(), 3);
}

#[test]
fn dedup_callbacks_by_address() {
    // an ordered sequence of callback references with duplicates at the
    // same address: each distinct callback is visited exactly once, in
    // order of first appearance
    let cb = |a: usize, vt: usize| ByAddress(Pointer::fat(a, vt, ()));
    let items = vec![
        cb(0x10, 1),
        cb(0x20, 1),
        cb(0x10, 1),
        cb(0x30, 2),
        cb(0x20, 1),
        cb(0x10, 1),
    ];
    let idx = first_occurrence_indices(&items);
    assert_eq!(idx, vec![0, 1, 3]);

    // the same address through two dispatch tables is not a duplicate for
    // the full fingerprint
    let items = vec![cb(0x10, 1), cb(0x10, 2)];
    let idx = first_occurrence_indices(&items);
    assert_eq!(idx, vec![0, 1]);

    let none: Vec<ByAddress<()>> = vec![];
    let idx = first_occurrence_indices(&none);
    assert_eq!(idx, Vec::<usize>::new());
}
