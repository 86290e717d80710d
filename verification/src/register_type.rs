//! Names of the 8-bit registers and of the 16-bit register pairs.
use vstd::prelude::*;

verus! {

/// One of the eight 8-bit registers.
#[derive(Copy, Clone, Debug, PartialEq, Eq, Structural)]
pub enum RegisterType8 {
    A,
    B,
    C,
    D,
    E,
    F,
    H,
    L,
}

/// One of the four register pairs, or one of the two 16-bit registers.
///
/// A pair is a view over two 8-bit registers, high byte first: `AF` is `A:F`,
/// `BC` is `B:C`, `DE` is `D:E` and `HL` is `H:L`. `SP` and `PC` have storage
/// of their own.
#[derive(Copy, Clone, Debug, PartialEq, Eq, Structural)]
pub enum RegisterType16 {
    AF,
    BC,
    DE,
    HL,
    SP,
    PC,
}

} // verus!
