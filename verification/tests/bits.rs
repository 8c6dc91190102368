use gba::bits::Bits;

#[test]
fn mask_empty_is_zero() {
    assert_eq!(Bits::<u16>::mask(0), 0);
}

#[test]
fn mask_full_width_is_all_ones() {
    assert_eq!(Bits::<u16>::mask(16), 0xFFFF);
}

#[test]
fn mask_low_bits() {
    assert_eq!(Bits::<u16>::mask(1), 0x0001);
    assert_eq!(Bits::<u16>::mask(5), 0x001F);
    assert_eq!(Bits::<u16>::mask(8), 0x00FF);
    assert_eq!(Bits::<u16>::mask(15), 0x7FFF);
}

#[test]
fn set_field_then_get_field_roundtrip() {
    // 0b10101 lands on bits 8, 10 and 12: bit 0 of the value goes to the
    // field's offset, so bit 9 of the word holds value bit 1, which is 0.
    let b = Bits(0u16).set_field(8, 5, 0b10101);
    assert_eq!(b.get_field(8, 5), 0b10101);
    assert!(!b.get_bit(6));
    assert!(!b.get_bit(9));
    assert!(b.get_bit(8));
    assert!(b.get_bit(10));
    assert!(b.get_bit(12));
}

#[test]
fn set_field_masks_over_wide_value() {
    let b = Bits(0u16).set_field(0, 2, 0xFF);
    assert_eq!(b.0, 0b11);
}

#[test]
fn set_field_keeps_bits_outside_the_field() {
    let b = Bits(0xF0F0u16).set_field(4, 4, 0xA);
    assert_eq!(b.0, 0xF0A0);
}

#[test]
fn set_field_overwrites_prior_field_value() {
    let b = Bits(0xFFFFu16).set_field(4, 4, 0);
    assert_eq!(b.0, 0xFF0F);
}

#[test]
fn get_field_shifts_down_to_zero() {
    assert_eq!(Bits(0xAB00u16).get_field(8, 8), 0xAB);
}

#[test]
fn set_bit_and_get_bit() {
    let b = Bits(0u16).set_bit(3, true);
    assert_eq!(b.0, 0b1000);
    assert!(b.get_bit(3));
    let c = b.set_bit(3, false);
    assert_eq!(c.0, 0);
    assert!(!c.get_bit(3));
}

#[test]
fn or_field_sets_bits_inside_the_field() {
    let b = Bits(0b1100_0000u16).or_field(4, 4, 0b0101);
    assert_eq!(b.0, 0b1101_0000);
}

#[test]
fn or_field_masks_the_operand() {
    let b = Bits(0u16).or_field(8, 5, 0xFFFF);
    assert_eq!(b.0, 0x1F00);
}

#[test]
fn and_field_keeps_bits_outside_the_field() {
    let b = Bits(0xFFFFu16).and_field(4, 4, 0b0101);
    assert_eq!(b.0, 0xFF5F);
}

#[test]
fn xor_field_toggles_bits_inside_the_field() {
    let b = Bits(0x00F0u16).xor_field(4, 4, 0xF);
    assert_eq!(b.0, 0x0000);
    let c = Bits(0x8001u16).xor_field(4, 4, 0xF);
    assert_eq!(c.0, 0x80F1);
}

#[test]
fn bic_field_clears_the_operand_bits() {
    let b = Bits(0x00F0u16).bic_field(4, 4, 0b0011);
    assert_eq!(b.0, 0x00C0);
}

#[test]
fn combine_ops_keep_bits_outside_the_field() {
    // Bits 0 and 15 lie outside the field at offset 4, length 4; every
    // combine operation must leave them exactly as they were.
    let start = Bits(0x8001u16);
    assert_eq!(start.or_field(4, 4, 0xF).0, 0x80F1);
    assert_eq!(start.and_field(4, 4, 0xF).0, 0x8001);
    assert_eq!(start.xor_field(4, 4, 0xF).0, 0x80F1);
    assert_eq!(start.bic_field(4, 4, 0xF).0, 0x8001);
}

#[test]
fn not_field_inverts_only_the_field() {
    let b = Bits(0x0000u16).not_field(4, 4);
    assert_eq!(b.0, 0x00F0);
    let c = Bits(0xFFFFu16).not_field(4, 4);
    assert_eq!(c.0, 0xFF0F);
}

#[test]
fn isolate_field_keeps_only_the_field() {
    assert_eq!(Bits(0xABCDu16).isolate_field(8, 4).0, 0x0B00);
}

#[test]
fn clear_field_zeroes_only_the_field() {
    assert_eq!(Bits(0xABCDu16).clear_field(8, 4).0, 0xA0CD);
}

#[test]
fn wider_words_have_the_same_field_operations() {
    assert_eq!(Bits::<u32>::mask(0), 0);
    assert_eq!(Bits::<u32>::mask(32), 0xFFFF_FFFF);
    assert_eq!(Bits::<u32>::mask(20), 0x000F_FFFF);
    let b = Bits(0u32).set_field(20, 8, 0xAB);
    assert_eq!(b.0, 0x0AB0_0000);
    assert_eq!(b.get_field(20, 8), 0xAB);
    assert!(b.get_bit(21));
    assert_eq!(Bits(0xFFFF_FFFFu32).clear_field(8, 16).0, 0xFF00_00FF);
    assert_eq!(Bits(0x0F0F_0F0Fu32).isolate_field(16, 8).0, 0x000F_0000);
    assert_eq!(Bits(0u32).or_field(30, 2, 0xFF).0, 0xC000_0000);
    assert_eq!(Bits(0xFFFF_FFFFu32).and_field(0, 4, 0b0110).0, 0xFFFF_FFF6);
    assert_eq!(Bits(0x0000_00F0u32).xor_field(4, 4, 0xF).0, 0);
    assert_eq!(Bits(0x0000_00F0u32).bic_field(4, 4, 0b0011).0, 0x0000_00C0);
    assert_eq!(Bits(0u32).not_field(28, 4).0, 0xF000_0000);
    assert_eq!(Bits(0u32).set_bit(31, true).0, 0x8000_0000);
}

#[test]
fn non_overlapping_set_fields_commute() {
    let one_way = Bits(0x5555u16).set_field(0, 4, 0xA).set_field(8, 4, 0xB);
    let other_way = Bits(0x5555u16).set_field(8, 4, 0xB).set_field(0, 4, 0xA);
    assert_eq!(one_way.0, other_way.0);
    assert_eq!(one_way.0, 0x5B5A);
}
