//! The instruction executor: it fetches the opcode at the program counter,
//! looks it up in the opcode table and runs the instruction on the register
//! file and the address space.
use vstd::prelude::*;
use crate::bits::{high_byte, low_byte, word, wrap16};
use crate::flag_type::FlagType;
use crate::isa::with_hl_moved;
use crate::machine::Machine;
use crate::memory::{Memory, MemoryState};
use crate::register_type::RegisterType16;
use crate::registers::{Flags, RegisterState, Registers};

mod arithmetic;
mod bit_ops;
mod control;
mod dispatch;
mod loads;

verus! {

/// The instruction executor.
pub struct CPU {
    pub memory: Memory,
    pub register: Registers,
    /// The cycles that the instruction in progress has taken so far.
    pub cycles: u32,
}

impl View for CPU {
    type V = Machine;

    open spec fn view(&self) -> Machine {
        Machine { regs: self.register@, mem: self.memory@ }
    }
}

impl CPU {
    /// An executor at power-on: the registers hold what the boot sequence
    /// leaves, the address space is empty.
    pub fn new() -> (cpu: Self)
        ensures
            cpu@.regs == RegisterState::power_on(),
            cpu@.mem == MemoryState::power_on(),
            cpu@.wf(),
            cpu.cycles == 0,
    {
        let mut register = Registers::new();
        let memory = Memory::new();
        proof {
            memory.lemma_view_wf();
        }

        if memory.bootrom_loaded() {
            register.write_16(RegisterType16::PC, 0x100);
        }
        Self { memory, register, cycles: 0 }
    }

    /// Reads the byte at the program counter and moves the program counter
    /// past it.
    pub(crate) fn increment_pc(&mut self) -> (value: u8)
        ensures
            value == old(self)@.fetched(),
            final(self)@ == old(self)@.after_fetch(),
            final(self).cycles == old(self).cycles,
    {
        let mut pc: u16 = self.register.read_16(RegisterType16::PC);
        let value: u8 = self.memory.read(pc);
        pc = pc.wrapping_add(1);
        self.register.write_16(RegisterType16::PC, pc);

        value
    }

    /// Reads the word at the program counter, low byte first, and moves the
    /// program counter past it.
    pub(crate) fn fetch_word(&mut self) -> (value: u16)
        ensures
            value == old(self)@.fetched_word(),
            final(self)@ == old(self)@.after_fetch_word(),
            final(self).cycles == old(self).cycles,
    {
        let lsb: u8 = self.increment_pc();
        let msb: u8 = self.increment_pc();

        word(msb, lsb)
    }

    /// Reads the byte that HL points at and moves HL up by one.
    pub(crate) fn increment_hl(&mut self) -> (value: u8)
        ensures
            value == old(self)@.read(old(self)@.pair(RegisterType16::HL)),
            final(self)@ == with_hl_moved(old(self)@, 1),
            final(self).cycles == old(self).cycles,
    {
        let mut hl: u16 = self.register.read_16(RegisterType16::HL);
        let value: u8 = self.memory.read(hl);
        hl = hl.wrapping_add(1);
        self.register.write_16(RegisterType16::HL, hl);

        value
    }

    /// Reads the byte that HL points at and moves HL down by one.
    pub(crate) fn decrement_hl(&mut self) -> (value: u8)
        ensures
            value == old(self)@.read(old(self)@.pair(RegisterType16::HL)),
            final(self)@ == with_hl_moved(old(self)@, -1),
            final(self).cycles == old(self).cycles,
    {
        let mut hl: u16 = self.register.read_16(RegisterType16::HL);
        let value: u8 = self.memory.read(hl);
        hl = hl.wrapping_sub(1);
        self.register.write_16(RegisterType16::HL, hl);

        value
    }

    /// Reads the byte that SP points at and moves SP up by one.
    pub(crate) fn increment_sp(&mut self) -> (value: u8)
        ensures
            value == old(self)@.read(old(self)@.regs.sp),
            final(self)@ == old(self)@.with_sp(wrap16(old(self)@.regs.sp + 1)),
            final(self).cycles == old(self).cycles,
    {
        let mut sp: u16 = self.register.read_16(RegisterType16::SP);
        let value: u8 = self.memory.read(sp);
        sp = sp.wrapping_add(1);
        self.register.write_16(RegisterType16::SP, sp);

        value
    }

    /// Reads the byte that SP points at and moves SP down by one.
    pub(crate) fn decrement_sp(&mut self) -> (value: u8)
        ensures
            value == old(self)@.read(old(self)@.regs.sp),
            final(self)@ == old(self)@.with_sp(wrap16(old(self)@.regs.sp - 1)),
            final(self).cycles == old(self).cycles,
    {
        let mut sp: u16 = self.register.read_16(RegisterType16::SP);
        let value: u8 = self.memory.read(sp);
        sp = sp.wrapping_sub(1);
        self.register.write_16(RegisterType16::SP, sp);

        value
    }

    /// Pushes a word: SP goes down by one and takes the high byte, goes
    /// down by one again and takes the low byte.
    pub(crate) fn push_word(&mut self, value: u16)
        ensures
            final(self)@ == old(self)@.pushed(value),
            final(self).cycles == old(self).cycles,
    {
        self.decrement_sp();
        let mut sp: u16 = self.register.read_16(RegisterType16::SP);
        self.memory.write(sp, high_byte(value));

        self.decrement_sp();
        sp = self.register.read_16(RegisterType16::SP);
        self.memory.write(sp, low_byte(value));
    }

    /// Pops a word: the low byte is read at SP, the high byte above it, and
    /// SP goes up by two.
    pub(crate) fn pop_word(&mut self) -> (value: u16)
        ensures
            value == old(self)@.top_word(),
            final(self)@ == old(self)@.after_pop(),
            final(self).cycles == old(self).cycles,
    {
        let lsb: u8 = self.increment_sp();
        let msb: u8 = self.increment_sp();

        word(msb, lsb)
    }

    /// Writes all four flags.
    pub(crate) fn write_flags(&mut self, flags: Flags)
        ensures
            final(self)@ == old(self)@.with_flags(flags),
            final(self).cycles == old(self).cycles,
    {
        self.register.write_flag(FlagType::Zero, flags.zero);
        self.register.write_flag(FlagType::Subtraction, flags.subtraction);
        self.register.write_flag(FlagType::HalfCarry, flags.half_carry);
        self.register.write_flag(FlagType::Carry, flags.carry);
    }
}

} // verus!
