//! The failures that the core reports to its host.
use vstd::prelude::*;

verus! {

/// A condition that stops the core short of completing an operation. The
/// host decides what to do about it; the core never aborts.
#[derive(Copy, Clone, Debug, PartialEq, Eq, Structural)]
pub enum CoreError {
    /// The byte at `pc` selects a slot of the opcode table that has no
    /// modelled behaviour.
    UnimplementedOpcode { opcode: u8, pc: u16 },
    /// A special register was addressed at a location that it does not
    /// answer to.
    UnmappedSpecialRegister,
}

} // verus!
