use freta::memory::VirtualAddress;

#[test]
fn basic() {
    let a = VirtualAddress::from(1_u64);
    assert_eq!(a, 1_u32.into());

    let b = VirtualAddress::from(0xFFFF_FFFF_FFFF_FFFE_u64) + 3;
    assert_eq!(a, b);
}

#[test]
fn signed() {
    let mut a = VirtualAddress::from(10_i32);
    a -= -10_i64;
    a += 5_u8;
    let b = VirtualAddress::from(25_u32);
    assert_eq!(a, b);
}

#[test]
fn null_and_kernel_space() {
    assert!(VirtualAddress(0).is_null());
    assert!(!VirtualAddress(1).is_null());
    assert!(VirtualAddress(0xffff_8000_0000_0000).is_kernel_space());
    assert!(VirtualAddress(0xffff_f800_1234_5678).is_kernel_space());
    assert!(!VirtualAddress(0x0000_7fff_ffff_ffff).is_kernel_space());
}

#[test]
fn little_endian_bytes() {
    let a = VirtualAddress::from_le_bytes([0x78, 0x56, 0x34, 0x12, 0, 0, 0, 0x80]);
    assert_eq!(a, VirtualAddress(0x8000_0000_1234_5678));
    assert_eq!(VirtualAddress::from([1, 0, 0, 0, 0, 0, 0, 0]), VirtualAddress(1));
}

#[test]
fn checked_and_wrapping() {
    let max = VirtualAddress(u64::MAX);
    let one = VirtualAddress(1);
    assert_eq!(max.checked_add(&one), None);
    assert_eq!(one.checked_add(&one), Some(VirtualAddress(2)));
    assert_eq!(VirtualAddress(0).checked_sub(&one), None);
    assert_eq!(max.wrapping_add(&one), VirtualAddress(0));
    assert_eq!(VirtualAddress(0).wrapping_sub(&one), max);
    assert_eq!(VirtualAddress::from(-1_i8), max);
    assert_eq!(u64::from(VirtualAddress(7)), 7);
    assert_eq!(VirtualAddress(10) - 3_u16, VirtualAddress(7));
}
