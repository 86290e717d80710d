use gb_core::alu::{
    add_bytes, add_words, and_bytes, get_bit, or_bytes, rotate, set_bit, subtract_bytes,
    xor_bytes, Rotation,
};
use gb_core::bits::{high_byte, low_byte, signed_byte, word};

#[test]
fn half_carry_boundary_of_addition() {
    let out = add_bytes(0x0F, 0x01, false);
    assert_eq!(out.value, 0x10);
    assert!(out.flags.half_carry);
    assert!(!out.flags.carry);
    assert!(!out.flags.zero);
    assert!(!out.flags.subtraction);

    let out = add_bytes(0xFF, 0x01, false);
    assert_eq!(out.value, 0x00);
    assert!(out.flags.half_carry);
    assert!(out.flags.carry);
    assert!(out.flags.zero);
}

#[test]
fn addition_without_carries() {
    let out = add_bytes(0x12, 0x34, false);
    assert_eq!(out.value, 0x46);
    assert!(!out.flags.half_carry);
    assert!(!out.flags.carry);
    assert!(!out.flags.zero);
}

#[test]
fn addition_with_carry_in() {
    let out = add_bytes(0x0F, 0x00, true);
    assert_eq!(out.value, 0x10);
    assert!(out.flags.half_carry);
    assert!(!out.flags.carry);

    let out = add_bytes(0xFF, 0xFF, true);
    assert_eq!(out.value, 0xFF);
    assert!(out.flags.half_carry);
    assert!(out.flags.carry);

    let out = add_bytes(0x80, 0x7F, true);
    assert_eq!(out.value, 0x00);
    assert!(out.flags.zero);
    assert!(out.flags.half_carry);
    assert!(out.flags.carry);
}

#[test]
fn subtraction_borrows() {
    let out = subtract_bytes(0x10, 0x01, false);
    assert_eq!(out.value, 0x0F);
    assert!(out.flags.subtraction);
    assert!(out.flags.half_carry);
    assert!(!out.flags.carry);

    let out = subtract_bytes(0x00, 0x01, false);
    assert_eq!(out.value, 0xFF);
    assert!(out.flags.half_carry);
    assert!(out.flags.carry);
    assert!(!out.flags.zero);

    let out = subtract_bytes(0x42, 0x42, false);
    assert_eq!(out.value, 0x00);
    assert!(out.flags.zero);
    assert!(!out.flags.half_carry);
    assert!(!out.flags.carry);
}

#[test]
fn subtraction_with_borrow_in() {
    let out = subtract_bytes(0x10, 0x0F, true);
    assert_eq!(out.value, 0x00);
    assert!(out.flags.zero);
    assert!(out.flags.half_carry);
    assert!(!out.flags.carry);

    let out = subtract_bytes(0x00, 0xFF, true);
    assert_eq!(out.value, 0x00);
    assert!(out.flags.zero);
    assert!(out.flags.half_carry);
    assert!(out.flags.carry);
}

#[test]
fn add_then_subtract_gives_the_first_operand() {
    for a in 0..=255u8 {
        for b in 0..=255u8 {
            let sum = add_bytes(a, b, false);
            let back = subtract_bytes(sum.value, b, false);
            assert_eq!(back.value, a);
            assert_eq!(back.flags.zero, a == 0);
            assert_eq!(back.flags.carry, sum.flags.carry);
            assert_eq!(back.flags.half_carry, sum.flags.half_carry);
        }
    }
}

#[test]
fn logic_operations() {
    let out = and_bytes(0xF0, 0x3C);
    assert_eq!(out.value, 0x30);
    assert!(out.flags.half_carry);
    assert!(!out.flags.carry);
    assert!(!out.flags.zero);
    assert!(and_bytes(0xF0, 0x0F).flags.zero);

    let out = or_bytes(0xF0, 0x0C);
    assert_eq!(out.value, 0xFC);
    assert!(!out.flags.half_carry);
    assert!(or_bytes(0, 0).flags.zero);

    let out = xor_bytes(0xFF, 0x0F);
    assert_eq!(out.value, 0xF0);
    assert!(!out.flags.half_carry);
    assert!(xor_bytes(0x5A, 0x5A).flags.zero);
}

#[test]
fn word_addition_carries() {
    assert_eq!(add_words(0x0FFF, 0x0001), (0x1000, true, false));
    assert_eq!(add_words(0xFFFF, 0x0001), (0x0000, true, true));
    assert_eq!(add_words(0xF000, 0x1000), (0x0000, false, true));
    assert_eq!(add_words(0x1234, 0x1111), (0x2345, false, false));
}

#[test]
fn bits_are_read_and_changed() {
    assert!(get_bit(0x80, 7));
    assert!(!get_bit(0x80, 6));
    assert!(get_bit(0x01, 0));
    assert!(get_bit(0x5A, 3));
    assert!(!get_bit(0x5A, 2));
    assert_eq!(set_bit(0x00, 3, true), 0x08);
    assert_eq!(set_bit(0xFF, 3, false), 0xF7);
    assert_eq!(set_bit(0x08, 3, true), 0x08);
    assert_eq!(set_bit(0x00, 7, true), 0x80);
    assert_eq!(set_bit(0xFF, 0, false), 0xFE);
}

#[test]
fn circular_rotations() {
    let out = rotate(Rotation::LeftCircular, 0x85, false);
    assert_eq!(out.value, 0x0B);
    assert!(out.flags.carry);
    let out = rotate(Rotation::LeftCircular, 0x40, true);
    assert_eq!(out.value, 0x80);
    assert!(!out.flags.carry);
    let out = rotate(Rotation::RightCircular, 0x01, false);
    assert_eq!(out.value, 0x80);
    assert!(out.flags.carry);
    let out = rotate(Rotation::RightCircular, 0x02, true);
    assert_eq!(out.value, 0x01);
    assert!(!out.flags.carry);
}

#[test]
fn rotations_through_carry() {
    let out = rotate(Rotation::Left, 0x80, false);
    assert_eq!(out.value, 0x00);
    assert!(out.flags.carry);
    assert!(out.flags.zero);
    let out = rotate(Rotation::Left, 0x01, true);
    assert_eq!(out.value, 0x03);
    assert!(!out.flags.carry);
    let out = rotate(Rotation::Right, 0x01, false);
    assert_eq!(out.value, 0x00);
    assert!(out.flags.carry);
    assert!(out.flags.zero);
    let out = rotate(Rotation::Right, 0x80, true);
    assert_eq!(out.value, 0xC0);
    assert!(!out.flags.carry);
}

#[test]
fn shifts() {
    let out = rotate(Rotation::ShiftLeft, 0xC1, true);
    assert_eq!(out.value, 0x82);
    assert!(out.flags.carry);
    let out = rotate(Rotation::ShiftRight, 0x81, true);
    assert_eq!(out.value, 0x40);
    assert!(out.flags.carry);
    let out = rotate(Rotation::ShiftRightArithmetic, 0x81, false);
    assert_eq!(out.value, 0xC0);
    assert!(out.flags.carry);
    let out = rotate(Rotation::ShiftRightArithmetic, 0x7E, true);
    assert_eq!(out.value, 0x3F);
    assert!(!out.flags.carry);
    assert!(!out.flags.half_carry);
    assert!(!out.flags.subtraction);
}

#[test]
fn swap_exchanges_nibbles() {
    let out = rotate(Rotation::Swap, 0xA5, true);
    assert_eq!(out.value, 0x5A);
    assert!(!out.flags.carry);
    assert!(!out.flags.zero);
    let out = rotate(Rotation::Swap, 0x00, true);
    assert_eq!(out.value, 0x00);
    assert!(out.flags.zero);
}

#[test]
fn words_join_and_split() {
    assert_eq!(word(0x12, 0x34), 0x1234);
    assert_eq!(high_byte(0x1234), 0x12);
    assert_eq!(low_byte(0x1234), 0x34);
    assert_eq!(word(0xFF, 0x00), 0xFF00);
}

#[test]
fn displacement_is_signed() {
    assert_eq!(signed_byte(0x00), 0);
    assert_eq!(signed_byte(0x7F), 127);
    assert_eq!(signed_byte(0x80), -128);
    assert_eq!(signed_byte(0xFE), -2);
    assert_eq!(signed_byte(0xFF), -1);
}
