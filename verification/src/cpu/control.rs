//! The jumps, calls and returns, the restarts, and the two instructions
//! that switch interrupts on and off.
use vstd::prelude::*;
use crate::bits::{signed_byte, word};
use crate::cpu::CPU;
use crate::flag_type::FlagType;
use crate::isa::{call, jump_absolute, jump_hl, jump_relative, restart, ret, ret_enabling};
use crate::register_type::RegisterType16;

verus! {

impl CPU {
    pub(crate) fn jp_nn(&mut self)
        requires
            old(self).cycles + 16 <= u32::MAX,
        ensures
            final(self)@ == jump_absolute(old(self)@, true),
            final(self).cycles == old(self).cycles + 16,
    {
        let value: u16 = self.fetch_word();

        self.register.write_16(RegisterType16::PC, value);

        self.cycles += 16;
    }

    pub(crate) fn jp_hl(&mut self)
        requires
            old(self).cycles + 4 <= u32::MAX,
        ensures
            final(self)@ == jump_hl(old(self)@),
            final(self).cycles == old(self).cycles + 4,
    {
        let value: u16 = self.register.read_16(RegisterType16::HL);
        self.register.write_16(RegisterType16::PC, value);

        self.cycles += 4;
    }

    pub(crate) fn jp_f_nn(&mut self, flag: FlagType)
        requires
            old(self).cycles + 16 <= u32::MAX,
        ensures
            final(self)@ == jump_absolute(old(self)@, old(self)@.flag(flag)),
            final(self).cycles == old(self).cycles + (if old(self)@.flag(flag) { 16int } else { 12 }),
    {
        let value: u16 = self.fetch_word();

        if self.register.read_flag(flag) {
            self.register.write_16(RegisterType16::PC, value);
            self.cycles += 16;
        } else {
            self.cycles += 12;
        }
    }

    pub(crate) fn jp_nf_nn(&mut self, flag: FlagType)
        requires
            old(self).cycles + 16 <= u32::MAX,
        ensures
            final(self)@ == jump_absolute(old(self)@, !old(self)@.flag(flag)),
            final(self).cycles == old(self).cycles + (if !old(self)@.flag(flag) { 16int } else { 12 }),
    {
        let value: u16 = self.fetch_word();

        if !self.register.read_flag(flag) {
            self.register.write_16(RegisterType16::PC, value);
            self.cycles += 16;
        } else {
            self.cycles += 12;
        }
    }

    pub(crate) fn jr_e(&mut self)
        requires
            old(self).cycles + 12 <= u32::MAX,
        ensures
            final(self)@ == jump_relative(old(self)@, true),
            final(self).cycles == old(self).cycles + 12,
    {
        let address: u8 = self.increment_pc();
        let e: i16 = signed_byte(address);

        let pc: u16 = self.register.read_16(RegisterType16::PC);
        self.register.write_16(RegisterType16::PC, pc.wrapping_add_signed(e));

        self.cycles += 12;
    }

    pub(crate) fn jr_f_e(&mut self, flag: FlagType)
        requires
            old(self).cycles + 12 <= u32::MAX,
        ensures
            final(self)@ == jump_relative(old(self)@, old(self)@.flag(flag)),
            final(self).cycles == old(self).cycles + (if old(self)@.flag(flag) { 12int } else { 8 }),
    {
        let address: u8 = self.increment_pc();
        let e: i16 = signed_byte(address);

        if self.register.read_flag(flag) {
            let pc: u16 = self.register.read_16(RegisterType16::PC);
            self.register.write_16(RegisterType16::PC, pc.wrapping_add_signed(e));
            self.cycles += 12;
        } else {
            self.cycles += 8;
        }
    }

    pub(crate) fn jr_nf_e(&mut self, flag: FlagType)
        requires
            old(self).cycles + 12 <= u32::MAX,
        ensures
            final(self)@ == jump_relative(old(self)@, !old(self)@.flag(flag)),
            final(self).cycles == old(self).cycles + (if !old(self)@.flag(flag) { 12int } else { 8 }),
    {
        let address: u8 = self.increment_pc();
        let e: i16 = signed_byte(address);

        if !self.register.read_flag(flag) {
            let pc: u16 = self.register.read_16(RegisterType16::PC);
            self.register.write_16(RegisterType16::PC, pc.wrapping_add_signed(e));
            self.cycles += 12;
        } else {
            self.cycles += 8;
        }
    }

    pub(crate) fn call_nn(&mut self)
        requires
            old(self).cycles + 24 <= u32::MAX,
        ensures
            final(self)@ == call(old(self)@, true),
            final(self).cycles == old(self).cycles + 24,
    {
        let value: u16 = self.fetch_word();
        let pc: u16 = self.register.read_16(RegisterType16::PC);

        self.push_word(pc);

        self.register.write_16(RegisterType16::PC, value);

        self.cycles += 24;
    }

    pub(crate) fn call_f_nn(&mut self, flag: FlagType)
        requires
            old(self).cycles + 24 <= u32::MAX,
        ensures
            final(self)@ == call(old(self)@, old(self)@.flag(flag)),
            final(self).cycles == old(self).cycles + (if old(self)@.flag(flag) { 24int } else { 12 }),
    {
        let value: u16 = self.fetch_word();

        if self.register.read_flag(flag) {
            let pc: u16 = self.register.read_16(RegisterType16::PC);

            self.push_word(pc);

            self.register.write_16(RegisterType16::PC, value);
            self.cycles += 24;
        } else {
            self.cycles += 12;
        }
    }

    pub(crate) fn call_nf_nn(&mut self, flag: FlagType)
        requires
            old(self).cycles + 24 <= u32::MAX,
        ensures
            final(self)@ == call(old(self)@, !old(self)@.flag(flag)),
            final(self).cycles == old(self).cycles + (if !old(self)@.flag(flag) { 24int } else { 12 }),
    {
        let value: u16 = self.fetch_word();

        if !self.register.read_flag(flag) {
            let pc: u16 = self.register.read_16(RegisterType16::PC);

            self.push_word(pc);

            self.register.write_16(RegisterType16::PC, value);
            self.cycles += 24;
        } else {
            self.cycles += 12;
        }
    }

    pub(crate) fn ret(&mut self)
        requires
            old(self).cycles + 16 <= u32::MAX,
        ensures
            final(self)@ == ret(old(self)@, true),
            final(self).cycles == old(self).cycles + 16,
    {
        let value: u16 = self.pop_word();

        self.register.write_16(RegisterType16::PC, value);

        self.cycles += 16;
    }

    pub(crate) fn ret_f(&mut self, flag: FlagType)
        requires
            old(self).cycles + 20 <= u32::MAX,
        ensures
            final(self)@ == ret(old(self)@, old(self)@.flag(flag)),
            final(self).cycles == old(self).cycles + (if old(self)@.flag(flag) { 20int } else { 8 }),
    {
        if self.register.read_flag(flag) {
            let value: u16 = self.pop_word();

            self.register.write_16(RegisterType16::PC, value);

            self.cycles += 20;
        } else {
            self.cycles += 8;
        }
    }

    pub(crate) fn ret_nf(&mut self, flag: FlagType)
        requires
            old(self).cycles + 20 <= u32::MAX,
        ensures
            final(self)@ == ret(old(self)@, !old(self)@.flag(flag)),
            final(self).cycles == old(self).cycles + (if !old(self)@.flag(flag) { 20int } else { 8 }),
    {
        if !self.register.read_flag(flag) {
            let value: u16 = self.pop_word();

            self.register.write_16(RegisterType16::PC, value);

            self.cycles += 20;
        } else {
            self.cycles += 8;
        }
    }

    pub(crate) fn reti(&mut self)
        requires
            old(self).cycles + 16 <= u32::MAX,
        ensures
            final(self)@ == ret_enabling(old(self)@),
            final(self).cycles == old(self).cycles + 16,
    {
        let value: u16 = self.pop_word();

        self.register.write_16(RegisterType16::PC, value);
        self.register.set_ime(true);

        self.cycles += 16;
    }

    pub(crate) fn rst(&mut self, pc: u8)
        requires
            old(self).cycles + 16 <= u32::MAX,
        ensures
            final(self)@ == restart(old(self)@, pc),
            final(self).cycles == old(self).cycles + 16,
    {
        let return_to: u16 = self.register.read_16(RegisterType16::PC);

        self.push_word(return_to);

        self.register.write_16(RegisterType16::PC, word(pc, 0x00));

        self.cycles += 16;
    }

    pub(crate) fn di(&mut self)
        requires
            old(self).cycles + 4 <= u32::MAX,
        ensures
            final(self)@ == old(self)@.with_ime(false),
            final(self).cycles == old(self).cycles + 4,
    {
        self.register.set_ime(false);
        self.cycles += 4;
    }

    pub(crate) fn ei(&mut self)
        requires
            old(self).cycles + 4 <= u32::MAX,
        ensures
            final(self)@ == old(self)@.with_ime(true),
            final(self).cycles == old(self).cycles + 4,
    {
        self.register.set_ime(true);
        self.cycles += 4;
    }

    pub(crate) fn nop(&mut self)
        requires
            old(self).cycles + 4 <= u32::MAX,
        ensures
            final(self)@ == old(self)@,
            final(self).cycles == old(self).cycles + 4,
    {
        self.cycles += 4;
    }

}

} // verus!
