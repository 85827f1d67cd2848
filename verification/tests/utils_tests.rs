use lc3_vm::utils::{sign_extend, split_endian, swap_endian};

#[test]
fn test_swap_endian() {
    assert_eq!(swap_endian([0x01, 0x02]), 0x0102);
    assert_eq!(swap_endian([0xFF, 0xEE]), 0xFFEE);
}

#[test]
fn test_sign_extend() {
    assert_eq!(sign_extend(0x80, 8), 0xFF80);
    assert_eq!(sign_extend(0xFF, 8), 0xFFFF);

    assert_eq!(sign_extend(0x8, 4), 0xFFF8);
}

#[test]
fn sign_extend_positive_field_keeps_high_bits_zero() {
    // Sign bit of the 5-bit field is 0: the top 11 bits stay 0 and the low
    // bits keep the field.
    assert_eq!(sign_extend(0x0F, 5), 0x000F);
    assert_eq!(sign_extend(0x0F, 5) >> 5, 0);
    // Sign bit is 1: the top 11 bits are all 1.
    assert_eq!(sign_extend(0x1F, 5), 0xFFFF);
    assert_eq!(sign_extend(0x10, 5), 0xFFF0);
    assert_eq!(sign_extend(0x10, 5) >> 5, 0xFFFF >> 5);
}

#[test]
fn split_endian_splits_big_endian() {
    assert_eq!(split_endian(0xABCD), [0xAB, 0xCD]);
    assert_eq!(split_endian(0x0001), [0x00, 0x01]);
}

#[test]
fn endian_round_trip() {
    assert_eq!(swap_endian(split_endian(0xBEEF)), 0xBEEF);
    assert_eq!(swap_endian(split_endian(0x0000)), 0x0000);
    assert_eq!(split_endian(swap_endian([0x12, 0x34])), [0x12, 0x34]);
}
