//! The arithmetic of the instruction set, as functions from operands and
//! flags to a result and flags.
use vstd::prelude::*;
use crate::bits::{lemma_word_split, wrap16, wrap8};
use crate::registers::Flags;

verus! {

/// A result byte and the flags that go with it.
pub struct AluOut {
    pub value: u8,
    pub flags: Flags,
}

/// One or zero, for a carry that is set or clear.
pub open spec fn bit_value(carry: bool) -> int {
    if carry {
        1
    } else {
        0
    }
}

/// `a + b + carry_in`. Carry is the carry out of bit 7, HalfCarry the carry
/// out of bit 3.
pub open spec fn add8(a: u8, b: u8, carry_in: bool) -> AluOut {
    let sum = a + b + bit_value(carry_in);
    AluOut {
        value: wrap8(sum),
        flags: Flags {
            zero: wrap8(sum) == 0,
            subtraction: false,
            half_carry: a % 16 + b % 16 + bit_value(carry_in) > 0xF,
            carry: sum > 0xFF,
        },
    }
}

/// `a - b - borrow_in`. Carry is the borrow into bit 7, HalfCarry the borrow
/// into bit 3.
pub open spec fn sub8(a: u8, b: u8, borrow_in: bool) -> AluOut {
    let difference = a - b - bit_value(borrow_in);
    AluOut {
        value: wrap8(difference),
        flags: Flags {
            zero: wrap8(difference) == 0,
            subtraction: true,
            half_carry: a % 16 - b % 16 - bit_value(borrow_in) < 0,
            carry: difference < 0,
        },
    }
}

pub open spec fn and8(a: u8, b: u8) -> AluOut {
    AluOut {
        value: a & b,
        flags: Flags { zero: a & b == 0, subtraction: false, half_carry: true, carry: false },
    }
}

pub open spec fn or8(a: u8, b: u8) -> AluOut {
    AluOut {
        value: a | b,
        flags: Flags { zero: a | b == 0, subtraction: false, half_carry: false, carry: false },
    }
}

pub open spec fn xor8(a: u8, b: u8) -> AluOut {
    AluOut {
        value: a ^ b,
        flags: Flags { zero: a ^ b == 0, subtraction: false, half_carry: false, carry: false },
    }
}

/// `value + 1`. Carry stays as it was.
pub open spec fn inc8(value: u8, flags: Flags) -> AluOut {
    AluOut {
        value: wrap8(value + 1),
        flags: Flags {
            zero: value == 0xFF,
            subtraction: false,
            half_carry: value % 16 == 0xF,
            carry: flags.carry,
        },
    }
}

/// `value - 1`. Carry stays as it was.
pub open spec fn dec8(value: u8, flags: Flags) -> AluOut {
    AluOut {
        value: wrap8(value - 1),
        flags: Flags {
            zero: value == 1,
            subtraction: true,
            half_carry: value % 16 == 0,
            carry: flags.carry,
        },
    }
}

/// What the decimal adjustment adds to the accumulator. After an addition it
/// adds 0x60 when the high digit overflowed and 0x06 when the low digit did;
/// after a subtraction it takes the same amounts away, by the flags alone.
pub open spec fn daa_offset(a: u8, flags: Flags) -> int {
    if !flags.subtraction {
        (if flags.carry || a > 0x99 { 0x60int } else { 0 })
            + (if flags.half_carry || a % 16 > 0x09 { 0x06int } else { 0 })
    } else {
        -(if flags.carry { 0x60int } else { 0 }) - (if flags.half_carry { 0x06int } else { 0 })
    }
}

/// The decimal adjustment of the accumulator. Subtraction stays as it was,
/// HalfCarry is cleared, and Carry tells whether the high digit was adjusted.
pub open spec fn daa(a: u8, flags: Flags) -> AluOut {
    let value = wrap8(a + daa_offset(a, flags));
    AluOut {
        value,
        flags: Flags {
            zero: value == 0,
            subtraction: flags.subtraction,
            half_carry: false,
            carry: if flags.subtraction {
                flags.carry
            } else {
                flags.carry || a > 0x99
            },
        },
    }
}

/// `hl + operand` on 16 bits. Zero stays as it was; HalfCarry is the carry
/// out of bit 11, Carry the carry out of bit 15.
pub open spec fn add16_flags(hl: u16, operand: u16, flags: Flags) -> Flags {
    Flags {
        zero: flags.zero,
        subtraction: false,
        half_carry: hl % 0x1000 + operand % 0x1000 > 0x0FFF,
        carry: hl + operand > 0xFFFF,
    }
}

/// The eight rotations and shifts of the extended table.
pub enum Rotation {
    /// Rotate left; bit 7 goes to Carry and to bit 0.
    LeftCircular,
    /// Rotate right; bit 0 goes to Carry and to bit 7.
    RightCircular,
    /// Rotate left through Carry; the old Carry comes in at bit 0.
    Left,
    /// Rotate right through Carry; the old Carry comes in at bit 7.
    Right,
    /// Shift left; bit 0 becomes zero.
    ShiftLeft,
    /// Shift right and keep bit 7.
    ShiftRightArithmetic,
    /// Exchange the two nibbles.
    Swap,
    /// Shift right; bit 7 becomes zero.
    ShiftRight,
}

/// The byte that a rotation or shift makes of `value`.
pub open spec fn rotated_value(kind: Rotation, value: u8, carry_in: bool) -> u8 {
    match kind {
        Rotation::LeftCircular => wrap8(value * 2 + value / 128),
        Rotation::RightCircular => wrap8(value / 2 + (value % 2) * 128),
        Rotation::Left => wrap8(value * 2 + bit_value(carry_in)),
        Rotation::Right => wrap8(value / 2 + bit_value(carry_in) * 128),
        Rotation::ShiftLeft => wrap8(value * 2),
        Rotation::ShiftRightArithmetic => wrap8(value / 2 + (value / 128) * 128),
        Rotation::Swap => wrap8((value % 16) * 16 + value / 16),
        Rotation::ShiftRight => value / 2,
    }
}

/// The bit that a rotation or shift moves into Carry: bit 7 when it moves
/// left, bit 0 when it moves right, and none when it swaps.
pub open spec fn rotated_carry(kind: Rotation, value: u8) -> bool {
    match kind {
        Rotation::LeftCircular | Rotation::Left | Rotation::ShiftLeft => value >= 128,
        Rotation::Swap => false,
        _ => value % 2 == 1,
    }
}

/// A rotation or shift with its flags: Zero tells whether the result is
/// zero, Subtraction and HalfCarry are cleared.
#[verifier::opaque]
pub open spec fn rotated(kind: Rotation, value: u8, carry_in: bool) -> AluOut {
    let result = rotated_value(kind, value, carry_in);
    AluOut {
        value: result,
        flags: Flags {
            zero: result == 0,
            subtraction: false,
            half_carry: false,
            carry: rotated_carry(kind, value),
        },
    }
}

/// Whether bit `bit` of `value` is set.
pub open spec fn test_bit(value: u8, bit: u8) -> bool {
    (value >> bit) & 1 != 0
}

/// `value` with bit `bit` set or cleared.
pub open spec fn with_bit(value: u8, bit: u8, state: bool) -> u8 {
    if state {
        value | (1u8 << bit)
    } else {
        value & !(1u8 << bit)
    }
}

/// The flags after a bit test: Zero is set when the bit is clear,
/// Subtraction is cleared, HalfCarry is set, Carry stays as it was.
pub open spec fn bit_flags(value: u8, bit: u8, flags: Flags) -> Flags {
    Flags {
        zero: !test_bit(value, bit),
        subtraction: false,
        half_carry: true,
        carry: flags.carry,
    }
}

/// Masks, single-bit tests and right shifts of a byte, as arithmetic.
pub proof fn lemma_byte_masks(v: u8)
    by (bit_vector)
    ensures
        v & 0xF == v % 16,
        v & 0x0F <= 0xF,
        ((v >> 7u8) & 1 != 0) == (v >= 128),
        ((v >> 0u8) & 1 != 0) == (v % 2 == 1),
        v >> 1u8 == v / 2,
        (v >> 1u8) & !(1u8 << 7u8) == v / 2,
{
}

/// A left shift of a byte by one place, with the bit that comes in at bit 0,
/// as arithmetic.
pub proof fn lemma_byte_shift_left(v: u8)
    by (bit_vector)
    ensures
        v << 1u8 == (v * 2) % 256,
        (v << 1u8) & !(1u8 << 0u8) == (v * 2) % 256,
{
}

/// A left shift of a byte with bit 0 set, and the complement of a byte, as
/// arithmetic.
pub proof fn lemma_byte_shift_left_set(v: u8)
    by (bit_vector)
    ensures
        (v << 1u8) | (1u8 << 0u8) == (v * 2) % 256 + 1,
        !v == 255 - v,
{
}

/// A right shift of a byte with bit 7 set, and the exchange of its nibbles,
/// as arithmetic.
pub proof fn lemma_byte_shift_right_set(v: u8)
    by (bit_vector)
    ensures
        (v >> 1u8) | (1u8 << 7u8) == v / 2 + 128,
        (v >> 4u8) | (v << 4u8) == (v % 16) * 16 + v / 16,
{
}

/// Whether bit `bit` of `data` is set.
pub fn get_bit(data: u8, bit: u8) -> (set: bool)
    requires
        bit < 8,
    ensures
        set == test_bit(data, bit),
{
    let value: u8 = (data >> bit) & 1;
    value != 0
}

/// `data` with bit `bit` set or cleared.
pub fn set_bit(data: u8, bit: u8, state: bool) -> (result: u8)
    requires
        bit < 8,
    ensures
        result == with_bit(data, bit, state),
{
    let mask: u8 = 1u8 << bit;
    if state {
        data | mask
    } else {
        data & !mask
    }
}

/// The wrapped sum of two bytes, and whether it overflowed.
fn overflowing_add(a: u8, b: u8) -> (out: (u8, bool))
    ensures
        out.0 == wrap8(a + b),
        out.1 == (a + b > 0xFF),
{
    match a.checked_add(b) {
        Some(sum) => (sum, false),
        None => (a.wrapping_add(b), true),
    }
}

/// The wrapped difference of two bytes, and whether it underflowed.
fn overflowing_sub(a: u8, b: u8) -> (out: (u8, bool))
    ensures
        out.0 == wrap8(a - b),
        out.1 == (a - b < 0),
{
    match a.checked_sub(b) {
        Some(difference) => (difference, false),
        None => (a.wrapping_sub(b), true),
    }
}

/// Adds two bytes and a carry.
pub fn add_bytes(a: u8, b: u8, carry_in: bool) -> (out: AluOut)
    ensures
        out == add8(a, b, carry_in),
{
    let carry: u8 = if carry_in { 1 } else { 0 };
    let (partial, did_overflow_1) = overflowing_add(a, b);
    let (result, did_overflow_2) = overflowing_add(partial, carry);
    proof {
        lemma_byte_masks(a);
        lemma_byte_masks(b);
    }
    AluOut {
        value: result,
        flags: Flags {
            zero: result == 0,
            subtraction: false,
            half_carry: (a & 0xF) + (b & 0xF) + carry > 0xF,
            carry: did_overflow_1 || did_overflow_2,
        },
    }
}

/// Subtracts a byte and a borrow from a byte.
pub fn subtract_bytes(a: u8, b: u8, borrow_in: bool) -> (out: AluOut)
    ensures
        out == sub8(a, b, borrow_in),
{
    let borrow: u8 = if borrow_in { 1 } else { 0 };
    let (partial, did_overflow_1) = overflowing_sub(a, borrow);
    let (result, did_overflow_2) = overflowing_sub(partial, b);
    proof {
        lemma_byte_masks(a);
        lemma_byte_masks(b);
    }
    AluOut {
        value: result,
        flags: Flags {
            zero: result == 0,
            subtraction: true,
            half_carry: (a & 0xF) < (b & 0xF) + borrow,
            carry: did_overflow_1 || did_overflow_2,
        },
    }
}

/// The bitwise AND of two bytes.
pub fn and_bytes(a: u8, b: u8) -> (out: AluOut)
    ensures
        out == and8(a, b),
{
    let result: u8 = a & b;
    AluOut {
        value: result,
        flags: Flags { zero: result == 0, subtraction: false, half_carry: true, carry: false },
    }
}

/// The bitwise OR of two bytes.
pub fn or_bytes(a: u8, b: u8) -> (out: AluOut)
    ensures
        out == or8(a, b),
{
    let result: u8 = a | b;
    AluOut {
        value: result,
        flags: Flags { zero: result == 0, subtraction: false, half_carry: false, carry: false },
    }
}

/// The bitwise XOR of two bytes.
pub fn xor_bytes(a: u8, b: u8) -> (out: AluOut)
    ensures
        out == xor8(a, b),
{
    let result: u8 = a ^ b;
    AluOut {
        value: result,
        flags: Flags { zero: result == 0, subtraction: false, half_carry: false, carry: false },
    }
}

/// Adds two words. Returns the wrapped sum, the carry out of bit 11 and the
/// carry out of bit 15.
pub fn add_words(a: u16, b: u16) -> (out: (u16, bool, bool))
    ensures
        out.0 == wrap16(a + b),
        out.1 == (a % 0x1000 + b % 0x1000 > 0x0FFF),
        out.2 == (a + b > 0xFFFF),
{
    let (result, did_overflow): (u16, bool) = match a.checked_add(b) {
        Some(sum) => (sum, false),
        None => (a.wrapping_add(b), true),
    };
    proof {
        lemma_word_split(a);
        lemma_word_split(b);
    }
    (result, (a & 0x0FFF) + (b & 0x0FFF) > 0x0FFF, did_overflow)
}

/// Rotates or shifts a byte by one place, or exchanges its nibbles.
pub fn rotate(kind: Rotation, value: u8, carry_in: bool) -> (out: AluOut)
    ensures
        out == rotated(kind, value, carry_in),
{
    let zero_bit: bool = get_bit(value, 0);
    let seven_bit: bool = get_bit(value, 7);
    proof {
        reveal(rotated);
        lemma_byte_masks(value);
        lemma_byte_shift_left(value);
        lemma_byte_shift_left_set(value);
        lemma_byte_shift_right_set(value);
    }
    let (result, carry): (u8, bool) = match kind {
        Rotation::LeftCircular => (set_bit(value << 1u8, 0, seven_bit), seven_bit),
        Rotation::RightCircular => (set_bit(value >> 1u8, 7, zero_bit), zero_bit),
        Rotation::Left => (set_bit(value << 1u8, 0, carry_in), seven_bit),
        Rotation::Right => (set_bit(value >> 1u8, 7, carry_in), zero_bit),
        Rotation::ShiftLeft => (set_bit(value << 1u8, 0, false), seven_bit),
        Rotation::ShiftRightArithmetic => (set_bit(value >> 1u8, 7, seven_bit), zero_bit),
        Rotation::Swap => ((value >> 4u8) | (value << 4u8), false),
        Rotation::ShiftRight => (set_bit(value >> 1u8, 7, false), zero_bit),
    };
    AluOut {
        value: result,
        flags: Flags { zero: result == 0, subtraction: false, half_carry: false, carry },
    }
}

} // verus!
