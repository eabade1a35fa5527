use by_address::ByAddress;
use by_address::ByThinAddress;
use by_address::Pointer;

#[test]
fn test_debug() {
    let addr: usize = 0x2a90;
    let b = ByAddress(Pointer::thin(addr, 1u64));
    let expected = format!("ByAddress(1 @ 0x{:x})", addr);
    let actual = b.debug_string();
    assert_eq!(expected, actual);

    let t = ByThinAddress(Pointer::thin(addr, 1u64));
    let expected = format!("ByThinAddress(1 @ 0x{:x})", addr);
    let actual = t.debug_string();
    assert_eq!(expected, actual);
}

#[test]
fn debug_rendering_edges() {
    // the zero address renders as the single hex digit 0
    let x = ByAddress(Pointer::thin(0usize, 0u64));
    assert_eq!(x.debug_string(), "ByAddress(0 @ 0x0)");

    // every hex digit, and the largest pointee
    let addr: usize = 0xdeadbeef;
    let y = ByThinAddress(Pointer::thin(addr, 18446744073709551615u64));
    assert_eq!(
        y.debug_string(),
        format!("ByThinAddress(18446744073709551615 @ 0x{:x})", addr)
    );
    let z = ByAddress(Pointer::thin(0x123456789abcdef0usize, 10u64));
    assert_eq!(z.debug_string(), "ByAddress(10 @ 0x123456789abcdef0)");
}

#[test]
fn display_delegates_to_pointee() {
    let x = ByAddress(Pointer::thin(0x10, 123u64));
    assert_eq!(x.display_string(), "123");
    let y = ByThinAddress(Pointer::thin(0x10, 0u64));
    assert_eq!(y.display_string(), "0");
}
