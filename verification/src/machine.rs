//! The machine as the instruction set sees it: the register state beside
//! the address space, with the fetches, operand accesses and stack moves
//! that the instructions are made of.
use vstd::prelude::*;
use crate::bits::{spec_high, spec_low, spec_word, wrap16};
use crate::flag_type::FlagType;
use crate::memory::MemoryState;
use crate::register_type::{RegisterType16, RegisterType8};
use crate::registers::{Flags, RegisterState};

verus! {

/// The state that an instruction reads and changes.
pub struct Machine {
    pub regs: RegisterState,
    pub mem: MemoryState,
}

/// An 8-bit operand: a register, or the byte that HL points at.
pub enum Operand {
    Register(RegisterType8),
    IndirectHL,
}

impl Machine {
    pub open spec fn wf(self) -> bool {
        self.mem.wf()
    }

    pub open spec fn with_regs(self, regs: RegisterState) -> Machine {
        Machine { regs, ..self }
    }

    pub open spec fn read(self, location: u16) -> u8 {
        self.mem.read(location)
    }

    pub open spec fn stored(self, location: u16, value: u8) -> Machine {
        Machine { mem: self.mem.write(location, value), ..self }
    }

    pub open spec fn reg(self, register: RegisterType8) -> u8 {
        self.regs.read_8(register)
    }

    pub open spec fn with_reg(self, register: RegisterType8, value: u8) -> Machine {
        self.with_regs(self.regs.write_8(register, value))
    }

    pub open spec fn pair(self, register: RegisterType16) -> u16 {
        self.regs.read_16(register)
    }

    pub open spec fn with_pair(self, register: RegisterType16, value: u16) -> Machine {
        self.with_regs(self.regs.write_16(register, value))
    }

    pub open spec fn flag(self, flag: FlagType) -> bool {
        self.regs.flag(flag)
    }

    pub open spec fn with_flags(self, flags: Flags) -> Machine {
        self.with_regs(self.regs.with_flags(flags))
    }

    /// Zero, Subtraction and HalfCarry taken from `flags`; Carry stays.
    pub open spec fn with_flags_but_carry(self, flags: Flags) -> Machine {
        self.with_flags(Flags { carry: self.regs.flags.carry, ..flags })
    }

    /// Subtraction, HalfCarry and Carry taken from `flags`; Zero stays.
    pub open spec fn with_flags_but_zero(self, flags: Flags) -> Machine {
        self.with_flags(Flags { zero: self.regs.flags.zero, ..flags })
    }

    pub open spec fn with_pc(self, pc: u16) -> Machine {
        self.with_regs(RegisterState { pc, ..self.regs })
    }

    pub open spec fn with_sp(self, sp: u16) -> Machine {
        self.with_regs(RegisterState { sp, ..self.regs })
    }

    pub open spec fn with_ime(self, value: bool) -> Machine {
        self.with_regs(self.regs.with_ime(value))
    }

    /// The value of an operand.
    pub open spec fn get(self, operand: Operand) -> u8 {
        match operand {
            Operand::Register(register) => self.reg(register),
            Operand::IndirectHL => self.read(self.pair(RegisterType16::HL)),
        }
    }

    /// The machine after `value` was written to an operand.
    pub open spec fn put(self, operand: Operand, value: u8) -> Machine {
        match operand {
            Operand::Register(register) => self.with_reg(register, value),
            Operand::IndirectHL => self.stored(self.pair(RegisterType16::HL), value),
        }
    }

    /// The byte at the program counter.
    pub open spec fn fetched(self) -> u8 {
        self.read(self.regs.pc)
    }

    /// The machine with the program counter moved past one byte.
    pub open spec fn after_fetch(self) -> Machine {
        self.with_pc(wrap16(self.regs.pc + 1))
    }

    /// The word at the program counter: the first byte is its low byte, the
    /// second its high byte.
    pub open spec fn fetched_word(self) -> u16 {
        spec_word(self.after_fetch().fetched(), self.fetched())
    }

    /// The machine with the program counter moved past two bytes.
    pub open spec fn after_fetch_word(self) -> Machine {
        self.after_fetch().after_fetch()
    }

    /// The machine after a word was pushed: the high byte goes to `SP - 1`,
    /// the low byte to `SP - 2`, and the stack pointer ends at `SP - 2`.
    pub open spec fn pushed(self, value: u16) -> Machine {
        let high_at = wrap16(self.regs.sp - 1);
        let low_at = wrap16(self.regs.sp - 2);
        self.stored(high_at, spec_high(value)).stored(low_at, spec_low(value)).with_sp(low_at)
    }

    /// The word on top of the stack: the low byte at `SP`, the high byte at
    /// `SP + 1`.
    pub open spec fn top_word(self) -> u16 {
        spec_word(self.read(wrap16(self.regs.sp + 1)), self.read(self.regs.sp))
    }

    /// The machine with the stack pointer moved past one word.
    pub open spec fn after_pop(self) -> Machine {
        self.with_sp(wrap16(self.regs.sp + 2))
    }
}

} // verus!
