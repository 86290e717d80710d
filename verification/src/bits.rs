//! Bytes and 16-bit words: splitting, joining, and the facts that tie the
//! shifts and masks of the executable code to plain arithmetic.
use vstd::prelude::*;

verus! {

/// The word with high byte `hi` and low byte `lo`.
pub open spec fn spec_word(hi: u8, lo: u8) -> u16 {
    (hi * 256 + lo) as u16
}

/// The high byte of `w`.
pub open spec fn spec_high(w: u16) -> u8 {
    (w / 256) as u8
}

/// The low byte of `w`.
pub open spec fn spec_low(w: u16) -> u8 {
    (w % 256) as u8
}

/// A displacement byte read as a two's-complement number.
pub open spec fn spec_signed(d: u8) -> int {
    if d < 128 {
        d as int
    } else {
        d - 256
    }
}

/// `x` reduced into the range of a byte.
pub open spec fn wrap8(x: int) -> u8 {
    (x % 256) as u8
}

/// `x` reduced into the range of a 16-bit word.
pub open spec fn wrap16(x: int) -> u16 {
    (x % 65536) as u16
}

pub proof fn lemma_word_shift(hi: u8, lo: u8)
    by (bit_vector)
    ensures
        (hi as u16) << 8 | (lo as u16) == hi as u16 * 256 + lo as u16,
{
}

pub proof fn lemma_word_split(w: u16)
    by (bit_vector)
    ensures
        w >> 8 == w / 256,
        w >> 8 < 256,
        w & 0xFF == w % 256,
        w & 0xFF < 256,
        w & 0x0FFF == w % 4096,
{
}

/// Joins two bytes into a word, high byte first.
pub fn word(hi: u8, lo: u8) -> (w: u16)
    ensures
        w == spec_word(hi, lo),
        spec_high(w) == hi,
        spec_low(w) == lo,
{
    proof {
        lemma_word_shift(hi, lo);
    }
    (hi as u16) << 8 | (lo as u16)
}

/// The high byte of a word.
pub fn high_byte(w: u16) -> (b: u8)
    ensures
        b == spec_high(w),
{
    proof {
        lemma_word_split(w);
    }
    (w >> 8) as u8
}

/// The low byte of a word.
pub fn low_byte(w: u16) -> (b: u8)
    ensures
        b == spec_low(w),
{
    proof {
        lemma_word_split(w);
    }
    (w & 0xFF) as u8
}

/// A displacement byte as a signed number.
pub fn signed_byte(d: u8) -> (e: i16)
    ensures
        e == spec_signed(d),
{
    if d < 128 {
        d as i16
    } else {
        d as i16 - 256
    }
}

} // verus!
