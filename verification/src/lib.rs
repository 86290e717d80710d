//! Instruction-execution core of a Game Boy (Sharp SM83) emulator.
//!
//! The crate holds the register file, the memory-mapped address space, the
//! divider-driven timer and the fetch-decode-execute engine. Every function
//! carries a contract over a mathematical model of the machine, and the
//! contracts are checked by Verus.
use vstd::prelude::*;
use crate::cpu::CPU;
use crate::error::CoreError;
use crate::isa::{step, step_result};
use crate::machine::Machine;
use crate::memory::MemoryState;
use crate::registers::RegisterState;

pub mod alu;
pub mod bits;
pub mod cpu;
pub mod error;
pub mod flag_type;
pub mod interrupts;
pub mod isa;
pub mod laws;
pub mod machine;
pub mod memory;
pub mod register_type;
pub mod registers;
pub mod timer;

verus! {

/// The composition root: one instruction executor with its registers and
/// its address space.
pub struct Core {
    pub cpu: CPU,
}

impl View for Core {
    type V = Machine;

    open spec fn view(&self) -> Machine {
        self.cpu@
    }
}

impl Core {
    /// A core at power-on.
    pub fn new() -> (core: Self)
        ensures
            core@.regs == RegisterState::power_on(),
            core@.mem == MemoryState::power_on(),
    {
        Self { cpu: CPU::new() }
    }

    /// Copies a game image into the address space from address 0 on. Bytes
    /// that would fall beyond the flat array are left out.
    pub fn load_game(&mut self, game: &[u8])
        ensures
            final(self)@.mem == old(self)@.mem.load(game@),
            final(self)@.regs == old(self)@.regs,
    {
        self.cpu.memory.write_game(game);
    }

    /// Executes one instruction and returns the cycles that it took, or the
    /// opcode that has no modelled behaviour.
    pub fn tick(&mut self) -> (result: Result<u32, CoreError>)
        ensures
            final(self)@ == step(old(self)@),
            result == step_result(old(self)@),
    {
        self.cpu.tick()
    }
}

} // verus!
