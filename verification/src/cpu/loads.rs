//! The load instructions: between registers, between a register and the
//! address space, and to and from the stack.
use vstd::prelude::*;
use crate::bits::{high_byte, low_byte, word};
use crate::cpu::CPU;
use crate::isa::{
    c_page, high_page, load, load_a_from, load_a_from_hl_moving, load_immediate,
    load_pair_immediate, load_sp_from_hl, pop_pair, push_pair, store_a_at,
    store_a_at_hl_moving, store_sp,
};
use crate::machine::Operand;
use crate::register_type::{RegisterType16, RegisterType8};

verus! {

impl CPU {
    /// Loads r2 into r1.
    pub(crate) fn ld_r8_r8(&mut self, r1: RegisterType8, r2: RegisterType8)
        requires
            old(self).cycles + 4 <= u32::MAX,
        ensures
            final(self)@ == load(old(self)@, Operand::Register(r1), Operand::Register(r2)),
            final(self).cycles == old(self).cycles + 4,
    {
        let value: u8 = self.register.read_8(r2);
        self.register.write_8(r1, value);
        self.cycles += 4;
    }

    pub(crate) fn ld_r8_n(&mut self, r: RegisterType8)
        requires
            old(self).cycles + 8 <= u32::MAX,
        ensures
            final(self)@ == load_immediate(old(self)@, Operand::Register(r)),
            final(self).cycles == old(self).cycles + 8,
    {
        let value: u8 = self.increment_pc();
        self.register.write_8(r, value);
        self.cycles += 8;
    }

    pub(crate) fn ld_r8_indirect_hl(&mut self, r: RegisterType8)
        requires
            old(self).cycles + 8 <= u32::MAX,
        ensures
            final(self)@ == load(old(self)@, Operand::Register(r), Operand::IndirectHL),
            final(self).cycles == old(self).cycles + 8,
    {
        let value: u8 = self.memory.read(self.register.read_16(RegisterType16::HL));
        self.register.write_8(r, value);
        self.cycles += 8;
    }

    pub(crate) fn ld_indirect_hl_r8(&mut self, r: RegisterType8)
        requires
            old(self).cycles + 8 <= u32::MAX,
        ensures
            final(self)@ == load(old(self)@, Operand::IndirectHL, Operand::Register(r)),
            final(self).cycles == old(self).cycles + 8,
    {
        let location: u16 = self.register.read_16(RegisterType16::HL);
        let value: u8 = self.register.read_8(r);
        self.memory.write(location, value);
        self.cycles += 8;
    }

    pub(crate) fn ld_indirect_hl_n(&mut self)
        requires
            old(self).cycles + 12 <= u32::MAX,
        ensures
            final(self)@ == load_immediate(old(self)@, Operand::IndirectHL),
            final(self).cycles == old(self).cycles + 12,
    {
        let value: u8 = self.increment_pc();
        let location: u16 = self.register.read_16(RegisterType16::HL);
        self.memory.write(location, value);
        self.cycles += 12;
    }

    pub(crate) fn ld_a_indirect_bc(&mut self)
        requires
            old(self).cycles + 8 <= u32::MAX,
        ensures
            final(self)@ == load_a_from(old(self)@, old(self)@.pair(RegisterType16::BC)),
            final(self).cycles == old(self).cycles + 8,
    {
        let value: u8 = self.memory.read(self.register.read_16(RegisterType16::BC));
        self.register.write_8(RegisterType8::A, value);
        self.cycles += 8;
    }

    pub(crate) fn ld_a_indirect_de(&mut self)
        requires
            old(self).cycles + 8 <= u32::MAX,
        ensures
            final(self)@ == load_a_from(old(self)@, old(self)@.pair(RegisterType16::DE)),
            final(self).cycles == old(self).cycles + 8,
    {
        let value: u8 = self.memory.read(self.register.read_16(RegisterType16::DE));
        self.register.write_8(RegisterType8::A, value);
        self.cycles += 8;
    }

    pub(crate) fn ld_indirect_bc_a(&mut self)
        requires
            old(self).cycles + 8 <= u32::MAX,
        ensures
            final(self)@ == store_a_at(old(self)@, old(self)@.pair(RegisterType16::BC)),
            final(self).cycles == old(self).cycles + 8,
    {
        let value: u8 = self.register.read_8(RegisterType8::A);
        let location: u16 = self.register.read_16(RegisterType16::BC);
        self.memory.write(location, value);
        self.cycles += 8;
    }

    pub(crate) fn ld_indirect_de_a(&mut self)
        requires
            old(self).cycles + 8 <= u32::MAX,
        ensures
            final(self)@ == store_a_at(old(self)@, old(self)@.pair(RegisterType16::DE)),
            final(self).cycles == old(self).cycles + 8,
    {
        let value: u8 = self.register.read_8(RegisterType8::A);
        let location: u16 = self.register.read_16(RegisterType16::DE);
        self.memory.write(location, value);
        self.cycles += 8;
    }

    pub(crate) fn ld_a_indirect_nn(&mut self)
        requires
            old(self).cycles + 16 <= u32::MAX,
        ensures
            final(self)@ == load_a_from(
                old(self)@.after_fetch_word(),
                old(self)@.fetched_word(),
            ),
            final(self).cycles == old(self).cycles + 16,
    {
        let location: u16 = self.fetch_word();

        let value: u8 = self.memory.read(location);
        self.register.write_8(RegisterType8::A, value);
        self.cycles += 16;
    }

    pub(crate) fn ld_indirect_nn_a(&mut self)
        requires
            old(self).cycles + 16 <= u32::MAX,
        ensures
            final(self)@ == store_a_at(old(self)@.after_fetch_word(), old(self)@.fetched_word()),
            final(self).cycles == old(self).cycles + 16,
    {
        let location: u16 = self.fetch_word();

        let value: u8 = self.register.read_8(RegisterType8::A);
        self.memory.write(location, value);
        self.cycles += 16;
    }

    pub(crate) fn ldh_a_indirect_c(&mut self)
        requires
            old(self).cycles + 8 <= u32::MAX,
        ensures
            final(self)@ == load_a_from(old(self)@, high_page(old(self)@.regs.c)),
            final(self).cycles == old(self).cycles + 8,
    {
        let lsb: u8 = self.register.read_8(RegisterType8::C);
        let msb: u8 = 0xFF;

        let location: u16 = word(msb, lsb);

        let value: u8 = self.memory.read(location);
        self.register.write_8(RegisterType8::A, value);
        self.cycles += 8;
    }

    pub(crate) fn ldh_indirect_c_a(&mut self)
        requires
            old(self).cycles + 8 <= u32::MAX,
        ensures
            final(self)@ == store_a_at(old(self)@, c_page(old(self)@.regs.c)),
            final(self).cycles == old(self).cycles + 8,
    {
        let lsb: u8 = self.register.read_8(RegisterType8::C);
        let msb: u8 = 0xFF;

        let location: u16 = word(lsb, msb);

        let value: u8 = self.register.read_8(RegisterType8::A);
        self.memory.write(location, value);
        self.cycles += 8;
    }

    pub(crate) fn ldh_a_indirect_n(&mut self)
        requires
            old(self).cycles + 12 <= u32::MAX,
        ensures
            final(self)@ == load_a_from(old(self)@.after_fetch(), high_page(old(self)@.fetched())),
            final(self).cycles == old(self).cycles + 12,
    {
        let lsb: u8 = self.increment_pc();
        let msb: u8 = 0xFF;

        let location: u16 = word(msb, lsb);

        let value: u8 = self.memory.read(location);
        self.register.write_8(RegisterType8::A, value);
        self.cycles += 12;
    }

    pub(crate) fn ldh_indirect_n_a(&mut self)
        requires
            old(self).cycles + 12 <= u32::MAX,
        ensures
            final(self)@ == store_a_at(old(self)@.after_fetch(), high_page(old(self)@.fetched())),
            final(self).cycles == old(self).cycles + 12,
    {
        let lsb: u8 = self.increment_pc();
        let msb: u8 = 0xFF;

        let location: u16 = word(msb, lsb);

        let value: u8 = self.register.read_8(RegisterType8::A);
        self.memory.write(location, value);
        self.cycles += 12;
    }

    pub(crate) fn ld_a_indirect_hl_dec(&mut self)
        requires
            old(self).cycles + 8 <= u32::MAX,
        ensures
            final(self)@ == load_a_from_hl_moving(old(self)@, -1),
            final(self).cycles == old(self).cycles + 8,
    {
        let value: u8 = self.decrement_hl();

        self.register.write_8(RegisterType8::A, value);
        self.cycles += 8;
    }

    pub(crate) fn ld_indirect_hl_dec_a(&mut self)
        requires
            old(self).cycles + 8 <= u32::MAX,
        ensures
            final(self)@ == store_a_at_hl_moving(old(self)@, -1),
            final(self).cycles == old(self).cycles + 8,
    {
        let value: u8 = self.register.read_8(RegisterType8::A);
        let location: u16 = self.register.read_16(RegisterType16::HL);

        self.memory.write(location, value);

        self.decrement_hl();
        self.cycles += 8;
    }

    pub(crate) fn ld_a_indirect_hl_inc(&mut self)
        requires
            old(self).cycles + 8 <= u32::MAX,
        ensures
            final(self)@ == load_a_from_hl_moving(old(self)@, 1),
            final(self).cycles == old(self).cycles + 8,
    {
        let value: u8 = self.increment_hl();

        self.register.write_8(RegisterType8::A, value);
        self.cycles += 8;
    }

    pub(crate) fn ld_indirect_hl_inc_a(&mut self)
        requires
            old(self).cycles + 8 <= u32::MAX,
        ensures
            final(self)@ == store_a_at_hl_moving(old(self)@, 1),
            final(self).cycles == old(self).cycles + 8,
    {
        let value: u8 = self.register.read_8(RegisterType8::A);
        let location: u16 = self.register.read_16(RegisterType16::HL);

        self.memory.write(location, value);

        self.increment_hl();
        self.cycles += 8;
    }

    pub(crate) fn ld_r16_nn(&mut self, r: RegisterType16)
        requires
            old(self).cycles + 12 <= u32::MAX,
        ensures
            final(self)@ == load_pair_immediate(old(self)@, r),
            final(self).cycles == old(self).cycles + 12,
    {
        let value: u16 = self.fetch_word();

        self.register.write_16(r, value);

        self.cycles += 12;
    }

    pub(crate) fn ld_indirect_nn_sp(&mut self)
        requires
            old(self).cycles + 20 <= u32::MAX,
        ensures
            final(self)@ == store_sp(old(self)@),
            final(self).cycles == old(self).cycles + 20,
    {
        let mut location: u16 = self.fetch_word();
        let sp: u16 = self.register.read_16(RegisterType16::SP);

        self.memory.write(location, high_byte(sp));
        location = location.wrapping_add(1);
        self.memory.write(location, low_byte(sp));

        self.cycles += 20;
    }

    pub(crate) fn ld_sp_hl(&mut self)
        requires
            old(self).cycles + 8 <= u32::MAX,
        ensures
            final(self)@ == load_sp_from_hl(old(self)@),
            final(self).cycles == old(self).cycles + 8,
    {
        let value: u16 = self.register.read_16(RegisterType16::HL);
        self.register.write_16(RegisterType16::SP, value);

        self.cycles += 8;
    }

    pub(crate) fn push(&mut self, r: RegisterType16)
        requires
            old(self).cycles + 16 <= u32::MAX,
        ensures
            final(self)@ == push_pair(old(self)@, r),
            final(self).cycles == old(self).cycles + 16,
    {
        let reg: u16 = self.register.read_16(r);
        self.push_word(reg);

        self.cycles += 16;
    }

    pub(crate) fn pop(&mut self, r: RegisterType16)
        requires
            old(self).cycles + 12 <= u32::MAX,
        ensures
            final(self)@ == pop_pair(old(self)@, r),
            final(self).cycles == old(self).cycles + 12,
    {
        let value: u16 = self.pop_word();

        self.register.write_16(r, value);
        self.cycles += 12;
    }
}

} // verus!
