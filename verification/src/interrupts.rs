//! The interrupt sources, and the place where their requests will be kept.
//!
//! Only the timer request is accepted so far, and it is not yet recorded:
//! dispatch is a design of its own that builds on the interrupt-master-enable
//! bit and the two interrupt registers of the address space.
use vstd::prelude::*;

verus! {

/// One of the five interrupt sources.
#[derive(Copy, Clone, Debug, PartialEq, Eq, Structural)]
pub enum InterruptType {
    VBlank,
    LCD,
    Timer,
    Serial,
    Joypad,
}

/// The interrupt controller.
pub struct Interrupts {
    ime: bool,
}

impl View for Interrupts {
    type V = bool;

    /// The master-enable bit that the controller holds.
    closed spec fn view(&self) -> bool {
        self.ime
    }
}

impl Interrupts {
    /// A controller with interrupts disabled.
    pub fn new() -> (interrupts: Self)
        ensures
            !interrupts@,
    {
        Self { ime: false }
    }

    /// Takes a request of the timer. The request is accepted and the
    /// controller stays as it is. The other four sources are not modelled.
    pub fn write(&mut self, interrupt_type: InterruptType, value: bool)
        requires
            interrupt_type == InterruptType::Timer,
        ensures
            final(self)@ == old(self)@,
    {
        match interrupt_type {
            _ => {},
        }
    }
}

} // verus!
