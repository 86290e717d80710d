//! Names of the four flags held in the upper nibble of register F.
use vstd::prelude::*;

verus! {

/// One of the four flags of register F.
///
/// `Zero` is bit 7, `Subtraction` bit 6, `HalfCarry` bit 5 and `Carry` bit 4.
#[derive(Copy, Clone, Debug, PartialEq, Eq, Structural)]
pub enum FlagType {
    Zero,
    Subtraction,
    HalfCarry,
    Carry,
}

} // verus!
