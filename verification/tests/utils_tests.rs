use grba_core::utils::{has_sign_overflowed, sign_extend32, BitOps};

#[test]
fn get_bits_test() {
    let val = 0xBEEF;

    assert_eq!(val.get_bits(12, 15), 0xB);
    assert_eq!(val.get_bits(8, 11), 0xE);
    assert_eq!(val.get_bits(4, 7), 0xE);
    assert_eq!(val.get_bits(0, 3), 0xF);

    assert_eq!(val.get_bits(1, 4), 0x7);
}

#[test]
fn check_bit_reads_single_bits() {
    let val: u32 = 0x8000_0001;
    assert!(val.check_bit(0));
    assert!(!val.check_bit(1));
    assert!(val.check_bit(31));
    let byte: u8 = 0b0100_0000;
    assert!(byte.check_bit(6));
    assert!(!byte.check_bit(7));
}

#[test]
fn sign_extension_of_small_fields() {
    assert_eq!(sign_extend32(0xFF, 8), -1);
    assert_eq!(sign_extend32(0x7F, 8), 127);
    assert_eq!(sign_extend32(0x80_0000, 24), -0x80_0000);
    assert_eq!(sign_extend32(0x7F_FFFF, 24), 0x7F_FFFF);
    assert_eq!(sign_extend32(0xFFFF_FFFF, 32), -1);
}

#[test]
fn signed_overflow_detection() {
    // 0x7FFFFFFF + 1 overflows into the sign bit.
    assert!(has_sign_overflowed(0x7FFF_FFFF, 1, 0x8000_0000));
    // -1 + 1 = 0 does not overflow.
    assert!(!has_sign_overflowed(0xFFFF_FFFF, 1, 0));
    // 0x80000000 + 0x80000000 wraps to 0: an overflow.
    assert!(has_sign_overflowed(0x8000_0000, 0x8000_0000, 0));
}
