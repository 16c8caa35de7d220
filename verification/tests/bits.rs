use nes_core::types::{is_negative, u16_bytes, u16_le, BitRead};

#[test]
fn read_bit_is_zero_or_mask() {
    for b in 0..=255u8 {
        for n in 0..8u8 {
            let r = b.read_bit(n);
            assert!(r == 0 || r == 1 << n);
            assert_eq!(b.is_bit_set(n), r != 0);
            assert_eq!(b.is_bit_clear(n), r == 0);
        }
    }
}

#[test]
fn read_bit_exact_values() {
    assert_eq!(0b1010_0101u8.read_bit(0), 0b0000_0001);
    assert_eq!(0b1010_0101u8.read_bit(1), 0);
    assert_eq!(0b1010_0101u8.read_bit(5), 0b0010_0000);
    assert_eq!(0b1010_0101u8.read_bit(7), 0b1000_0000);
}

#[test]
fn words_pack_low_byte_first() {
    assert_eq!(u16_le(0x34, 0x12), 0x1234);
    assert_eq!(u16_bytes(0x1234), (0x34, 0x12));
    assert_eq!(u16_le(0xFF, 0xFF), 0xFFFF);
    assert_eq!(u16_bytes(0x00FF), (0xFF, 0x00));
}

#[test]
fn sign_is_bit_seven() {
    assert!(!is_negative(0x00));
    assert!(!is_negative(0x7F));
    assert!(is_negative(0x80));
    assert!(is_negative(0xFF));
}
