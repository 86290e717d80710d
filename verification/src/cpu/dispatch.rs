//! The two opcode tables: the primary table of 256 slots, and the
//! extended table of 256 slots behind the prefix 0xCB.
use vstd::prelude::*;
use crate::cpu::CPU;
use crate::error::CoreError;
use crate::flag_type::FlagType;
use crate::isa::{
    cycles, execute, execute_extended, lemma_cycles_bound, modelled, step, step_result,
};
use crate::machine::Machine;
use crate::register_type::{RegisterType16, RegisterType8};
use crate::registers::lemma_pack_unpack;

verus! {

impl CPU {
    /// Whether a slot of the primary table has modelled behaviour.
    pub fn is_modelled(opcode: u8) -> (known: bool)
        ensures
            known == modelled(opcode),
    {
        !matches!(
            opcode,
            0x10 | 0x76 | 0xD3 | 0xDB | 0xDD | 0xE3 | 0xE4 | 0xE8 | 0xEB | 0xEC | 0xED | 0xF4 | 0xF8 | 0xFC | 0xFD
        )
    }

    /// Whether the executor stands where the instruction `opcode` of the
    /// primary table leaves it, from a machine `start` whose program counter
    /// was past the opcode byte and with `spent` cycles taken before.
    pub open spec fn ran(&self, start: Machine, spent: u32, opcode: u8) -> bool {
        &&& self@ == execute(start, opcode)
        &&& self.cycles == spent + cycles(start.regs.flags, opcode)
    }

    /// Whether the executor stands where the instruction `opcode` of the
    /// extended table leaves it, from a machine `start` whose program
    /// counter was past both opcode bytes.
    pub open spec fn ran_extended(&self, start: Machine, opcode: u8) -> bool {
        self@ == execute_extended(start, opcode)
    }

    /// Executes one instruction: fetches the opcode at the program counter
    /// and runs the instruction that the primary table holds for it. Returns
    /// the cycles that the instruction took.
    ///
    /// An opcode without modelled behaviour is reported, with the location
    /// it was fetched from, before anything is written: the registers and
    /// the address space stay as they were.
    pub fn tick(&mut self) -> (result: Result<u32, CoreError>)
        ensures
            final(self)@ == step(old(self)@),
            result == step_result(old(self)@),
            result matches Ok(cycles) ==> final(self).cycles == cycles,
            final(self)@.reg(RegisterType8::F) & 0x0F == 0,
            final(self)@.wf(),
    {
        self.cycles = 0;
        proof {
            lemma_pack_unpack(self@.regs.flags);
            self.memory.lemma_view_wf();
        }
        let pc: u16 = self.register.read_16(RegisterType16::PC);
        if !Self::is_modelled(self.memory.read(pc)) {
            return Err(CoreError::UnimplementedOpcode { opcode: self.memory.read(pc), pc });
        }
        let opcode: u8 = self.increment_pc();

        if opcode < 0x40 {
            self.low_op_codes(opcode);
        } else if opcode < 0x80 {
            self.load_op_codes(opcode);
        } else if opcode < 0xC0 {
            self.alu_op_codes(opcode);
        } else {
            self.high_op_codes(opcode);
        }
        proof {
            lemma_pack_unpack(self@.regs.flags);
            lemma_cycles_bound(old(self)@.regs.flags, opcode);
            self.memory.lemma_view_wf();
        }
        Ok(self.cycles)
    }

    /// The first quarter of the primary table: loads of immediates, 16-bit
    /// arithmetic, increments and decrements, the rotations of the accumulator,
    /// the flag adjustments and the relative jumps.
    #[verifier::rlimit(30)]
    fn low_op_codes(&mut self, opcode: u8)
        requires
            old(self).cycles + 24 <= u32::MAX,
            0x00 <= opcode <= 0x3F,
            modelled(opcode),
        ensures
            final(self)@ == execute(old(self)@, opcode),
            final(self).cycles == old(self).cycles + cycles(old(self)@.regs.flags, opcode),
    {
        let ghost start = self@;
        let ghost spent = self.cycles;

        match opcode {
            0x00 => {
                self.nop();
                assert(self.ran(start, spent, 0x00)) by { reveal(execute); reveal(cycles); }
            },
            0x01 => {
                self.ld_r16_nn(RegisterType16::BC);
                assert(self.ran(start, spent, 0x01)) by { reveal(execute); reveal(cycles); }
            },
            0x02 => {
                self.ld_indirect_bc_a();
                assert(self.ran(start, spent, 0x02)) by { reveal(execute); reveal(cycles); }
            },
            0x03 => {
                self.inc_r16(RegisterType16::BC);
                assert(self.ran(start, spent, 0x03)) by { reveal(execute); reveal(cycles); }
            },
            0x04 => {
                self.inc_r8(RegisterType8::B);
                assert(self.ran(start, spent, 0x04)) by { reveal(execute); reveal(cycles); }
            },
            0x05 => {
                self.dec_r8(RegisterType8::B);
                assert(self.ran(start, spent, 0x05)) by { reveal(execute); reveal(cycles); }
            },
            0x06 => {
                self.ld_r8_n(RegisterType8::B);
                assert(self.ran(start, spent, 0x06)) by { reveal(execute); reveal(cycles); }
            },
            0x07 => {
                self.rotate_left_carry_a();
                assert(self.ran(start, spent, 0x07)) by { reveal(execute); reveal(cycles); }
            },
            0x08 => {
                self.ld_indirect_nn_sp();
                assert(self.ran(start, spent, 0x08)) by { reveal(execute); reveal(cycles); }
            },
            0x09 => {
                self.add_hl_r16(RegisterType16::BC);
                assert(self.ran(start, spent, 0x09)) by { reveal(execute); reveal(cycles); }
            },
            0x0A => {
                self.ld_a_indirect_bc();
                assert(self.ran(start, spent, 0x0A)) by { reveal(execute); reveal(cycles); }
            },
            0x0B => {
                self.dec_r16(RegisterType16::BC);
                assert(self.ran(start, spent, 0x0B)) by { reveal(execute); reveal(cycles); }
            },
            0x0C => {
                self.inc_r8(RegisterType8::C);
                assert(self.ran(start, spent, 0x0C)) by { reveal(execute); reveal(cycles); }
            },
            0x0D => {
                self.dec_r8(RegisterType8::C);
                assert(self.ran(start, spent, 0x0D)) by { reveal(execute); reveal(cycles); }
            },
            0x0E => {
                self.ld_r8_n(RegisterType8::C);
                assert(self.ran(start, spent, 0x0E)) by { reveal(execute); reveal(cycles); }
            },
            0x0F => {
                self.rotate_right_carry_a();
                assert(self.ran(start, spent, 0x0F)) by { reveal(execute); reveal(cycles); }
            },
            0x10 => {},  // no modelled behaviour
            0x11 => {
                self.ld_r16_nn(RegisterType16::DE);
                assert(self.ran(start, spent, 0x11)) by { reveal(execute); reveal(cycles); }
            },
            0x12 => {
                self.ld_indirect_de_a();
                assert(self.ran(start, spent, 0x12)) by { reveal(execute); reveal(cycles); }
            },
            0x13 => {
                self.inc_r16(RegisterType16::DE);
                assert(self.ran(start, spent, 0x13)) by { reveal(execute); reveal(cycles); }
            },
            0x14 => {
                self.inc_r8(RegisterType8::D);
                assert(self.ran(start, spent, 0x14)) by { reveal(execute); reveal(cycles); }
            },
            0x15 => {
                self.dec_r8(RegisterType8::D);
                assert(self.ran(start, spent, 0x15)) by { reveal(execute); reveal(cycles); }
            },
            0x16 => {
                self.ld_r8_n(RegisterType8::D);
                assert(self.ran(start, spent, 0x16)) by { reveal(execute); reveal(cycles); }
            },
            0x17 => {
                self.rotate_left_a();
                assert(self.ran(start, spent, 0x17)) by { reveal(execute); reveal(cycles); }
            },
            0x18 => {
                self.jr_e();
                assert(self.ran(start, spent, 0x18)) by { reveal(execute); reveal(cycles); }
            },
            0x19 => {
                self.add_hl_r16(RegisterType16::DE);
                assert(self.ran(start, spent, 0x19)) by { reveal(execute); reveal(cycles); }
            },
            0x1A => {
                self.ld_a_indirect_de();
                assert(self.ran(start, spent, 0x1A)) by { reveal(execute); reveal(cycles); }
            },
            0x1B => {
                self.dec_r16(RegisterType16::DE);
                assert(self.ran(start, spent, 0x1B)) by { reveal(execute); reveal(cycles); }
            },
            0x1C => {
                self.inc_r8(RegisterType8::E);
                assert(self.ran(start, spent, 0x1C)) by { reveal(execute); reveal(cycles); }
            },
            0x1D => {
                self.dec_r8(RegisterType8::E);
                assert(self.ran(start, spent, 0x1D)) by { reveal(execute); reveal(cycles); }
            },
            0x1E => {
                self.ld_r8_n(RegisterType8::E);
                assert(self.ran(start, spent, 0x1E)) by { reveal(execute); reveal(cycles); }
            },
            0x1F => {
                self.rotate_right_a();
                assert(self.ran(start, spent, 0x1F)) by { reveal(execute); reveal(cycles); }
            },
            0x20 => {
                self.jr_nf_e(FlagType::Zero);
                assert(self.ran(start, spent, 0x20)) by { reveal(execute); reveal(cycles); }
            },
            0x21 => {
                self.ld_r16_nn(RegisterType16::HL);
                assert(self.ran(start, spent, 0x21)) by { reveal(execute); reveal(cycles); }
            },
            0x22 => {
                self.ld_indirect_hl_inc_a();
                assert(self.ran(start, spent, 0x22)) by { reveal(execute); reveal(cycles); }
            },
            0x23 => {
                self.inc_r16(RegisterType16::HL);
                assert(self.ran(start, spent, 0x23)) by { reveal(execute); reveal(cycles); }
            },
            0x24 => {
                self.inc_r8(RegisterType8::H);
                assert(self.ran(start, spent, 0x24)) by { reveal(execute); reveal(cycles); }
            },
            0x25 => {
                self.dec_r8(RegisterType8::H);
                assert(self.ran(start, spent, 0x25)) by { reveal(execute); reveal(cycles); }
            },
            0x26 => {
                self.ld_r8_n(RegisterType8::H);
                assert(self.ran(start, spent, 0x26)) by { reveal(execute); reveal(cycles); }
            },
            0x27 => {
                self.daa();
                assert(self.ran(start, spent, 0x27)) by { reveal(execute); reveal(cycles); }
            },
            0x28 => {
                self.jr_f_e(FlagType::Zero);
                assert(self.ran(start, spent, 0x28)) by { reveal(execute); reveal(cycles); }
            },
            0x29 => {
                self.add_hl_r16(RegisterType16::HL);
                assert(self.ran(start, spent, 0x29)) by { reveal(execute); reveal(cycles); }
            },
            0x2A => {
                self.ld_a_indirect_hl_inc();
                assert(self.ran(start, spent, 0x2A)) by { reveal(execute); reveal(cycles); }
            },
            0x2B => {
                self.dec_r16(RegisterType16::HL);
                assert(self.ran(start, spent, 0x2B)) by { reveal(execute); reveal(cycles); }
            },
            0x2C => {
                self.inc_r8(RegisterType8::L);
                assert(self.ran(start, spent, 0x2C)) by { reveal(execute); reveal(cycles); }
            },
            0x2D => {
                self.dec_r8(RegisterType8::L);
                assert(self.ran(start, spent, 0x2D)) by { reveal(execute); reveal(cycles); }
            },
            0x2E => {
                self.ld_r8_n(RegisterType8::L);
                assert(self.ran(start, spent, 0x2E)) by { reveal(execute); reveal(cycles); }
            },
            0x2F => {
                self.cpl();
                assert(self.ran(start, spent, 0x2F)) by { reveal(execute); reveal(cycles); }
            },
            0x30 => {
                self.jr_nf_e(FlagType::Carry);
                assert(self.ran(start, spent, 0x30)) by { reveal(execute); reveal(cycles); }
            },
            0x31 => {
                self.ld_r16_nn(RegisterType16::SP);
                assert(self.ran(start, spent, 0x31)) by { reveal(execute); reveal(cycles); }
            },
            0x32 => {
                self.ld_indirect_hl_dec_a();
                assert(self.ran(start, spent, 0x32)) by { reveal(execute); reveal(cycles); }
            },
            0x33 => {
                self.inc_r16(RegisterType16::SP);
                assert(self.ran(start, spent, 0x33)) by { reveal(execute); reveal(cycles); }
            },
            0x34 => {
                self.inc_indirect_hl();
                assert(self.ran(start, spent, 0x34)) by { reveal(execute); reveal(cycles); }
            },
            0x35 => {
                self.dec_indirect_hl();
                assert(self.ran(start, spent, 0x35)) by { reveal(execute); reveal(cycles); }
            },
            0x36 => {
                self.ld_indirect_hl_n();
                assert(self.ran(start, spent, 0x36)) by { reveal(execute); reveal(cycles); }
            },
            0x37 => {
                self.scf();
                assert(self.ran(start, spent, 0x37)) by { reveal(execute); reveal(cycles); }
            },
            0x38 => {
                self.jr_f_e(FlagType::Carry);
                assert(self.ran(start, spent, 0x38)) by { reveal(execute); reveal(cycles); }
            },
            0x39 => {
                self.add_hl_r16(RegisterType16::SP);
                assert(self.ran(start, spent, 0x39)) by { reveal(execute); reveal(cycles); }
            },
            0x3A => {
                self.ld_a_indirect_hl_dec();
                assert(self.ran(start, spent, 0x3A)) by { reveal(execute); reveal(cycles); }
            },
            0x3B => {
                self.dec_r16(RegisterType16::SP);
                assert(self.ran(start, spent, 0x3B)) by { reveal(execute); reveal(cycles); }
            },
            0x3C => {
                self.inc_r8(RegisterType8::A);
                assert(self.ran(start, spent, 0x3C)) by { reveal(execute); reveal(cycles); }
            },
            0x3D => {
                self.dec_r8(RegisterType8::A);
                assert(self.ran(start, spent, 0x3D)) by { reveal(execute); reveal(cycles); }
            },
            0x3E => {
                self.ld_r8_n(RegisterType8::A);
                assert(self.ran(start, spent, 0x3E)) by { reveal(execute); reveal(cycles); }
            },
            0x3F => {
                self.ccf();
                assert(self.ran(start, spent, 0x3F)) by { reveal(execute); reveal(cycles); }
            },
            // The slots of the other three quarters.
            _ => {},
        }
    }

    /// The second quarter of the primary table: the loads between 8-bit
    /// operands.
    #[verifier::rlimit(30)]
    fn load_op_codes(&mut self, opcode: u8)
        requires
            old(self).cycles + 24 <= u32::MAX,
            0x40 <= opcode <= 0x7F,
            modelled(opcode),
        ensures
            final(self)@ == execute(old(self)@, opcode),
            final(self).cycles == old(self).cycles + cycles(old(self)@.regs.flags, opcode),
    {
        let ghost start = self@;
        let ghost spent = self.cycles;

        match opcode {
            0x40 => {
                self.ld_r8_r8(RegisterType8::B, RegisterType8::B);
                assert(self.ran(start, spent, 0x40)) by { reveal(execute); reveal(cycles); }
            },
            0x41 => {
                self.ld_r8_r8(RegisterType8::B, RegisterType8::C);
                assert(self.ran(start, spent, 0x41)) by { reveal(execute); reveal(cycles); }
            },
            0x42 => {
                self.ld_r8_r8(RegisterType8::B, RegisterType8::D);
                assert(self.ran(start, spent, 0x42)) by { reveal(execute); reveal(cycles); }
            },
            0x43 => {
                self.ld_r8_r8(RegisterType8::B, RegisterType8::E);
                assert(self.ran(start, spent, 0x43)) by { reveal(execute); reveal(cycles); }
            },
            0x44 => {
                self.ld_r8_r8(RegisterType8::B, RegisterType8::H);
                assert(self.ran(start, spent, 0x44)) by { reveal(execute); reveal(cycles); }
            },
            0x45 => {
                self.ld_r8_r8(RegisterType8::B, RegisterType8::L);
                assert(self.ran(start, spent, 0x45)) by { reveal(execute); reveal(cycles); }
            },
            0x46 => {
                self.ld_r8_indirect_hl(RegisterType8::B);
                assert(self.ran(start, spent, 0x46)) by { reveal(execute); reveal(cycles); }
            },
            0x47 => {
                self.ld_r8_r8(RegisterType8::B, RegisterType8::A);
                assert(self.ran(start, spent, 0x47)) by { reveal(execute); reveal(cycles); }
            },
            0x48 => {
                self.ld_r8_r8(RegisterType8::C, RegisterType8::B);
                assert(self.ran(start, spent, 0x48)) by { reveal(execute); reveal(cycles); }
            },
            0x49 => {
                self.ld_r8_r8(RegisterType8::C, RegisterType8::C);
                assert(self.ran(start, spent, 0x49)) by { reveal(execute); reveal(cycles); }
            },
            0x4A => {
                self.ld_r8_r8(RegisterType8::C, RegisterType8::D);
                assert(self.ran(start, spent, 0x4A)) by { reveal(execute); reveal(cycles); }
            },
            0x4B => {
                self.ld_r8_r8(RegisterType8::C, RegisterType8::E);
                assert(self.ran(start, spent, 0x4B)) by { reveal(execute); reveal(cycles); }
            },
            0x4C => {
                self.ld_r8_r8(RegisterType8::C, RegisterType8::H);
                assert(self.ran(start, spent, 0x4C)) by { reveal(execute); reveal(cycles); }
            },
            0x4D => {
                self.ld_r8_r8(RegisterType8::C, RegisterType8::L);
                assert(self.ran(start, spent, 0x4D)) by { reveal(execute); reveal(cycles); }
            },
            0x4E => {
                self.ld_r8_indirect_hl(RegisterType8::C);
                assert(self.ran(start, spent, 0x4E)) by { reveal(execute); reveal(cycles); }
            },
            0x4F => {
                self.ld_r8_r8(RegisterType8::C, RegisterType8::A);
                assert(self.ran(start, spent, 0x4F)) by { reveal(execute); reveal(cycles); }
            },
            0x50 => {
                self.ld_r8_r8(RegisterType8::D, RegisterType8::B);
                assert(self.ran(start, spent, 0x50)) by { reveal(execute); reveal(cycles); }
            },
            0x51 => {
                self.ld_r8_r8(RegisterType8::D, RegisterType8::C);
                assert(self.ran(start, spent, 0x51)) by { reveal(execute); reveal(cycles); }
            },
            0x52 => {
                self.ld_r8_r8(RegisterType8::D, RegisterType8::D);
                assert(self.ran(start, spent, 0x52)) by { reveal(execute); reveal(cycles); }
            },
            0x53 => {
                self.ld_r8_r8(RegisterType8::D, RegisterType8::E);
                assert(self.ran(start, spent, 0x53)) by { reveal(execute); reveal(cycles); }
            },
            0x54 => {
                self.ld_r8_r8(RegisterType8::D, RegisterType8::H);
                assert(self.ran(start, spent, 0x54)) by { reveal(execute); reveal(cycles); }
            },
            0x55 => {
                self.ld_r8_r8(RegisterType8::D, RegisterType8::L);
                assert(self.ran(start, spent, 0x55)) by { reveal(execute); reveal(cycles); }
            },
            0x56 => {
                self.ld_r8_indirect_hl(RegisterType8::D);
                assert(self.ran(start, spent, 0x56)) by { reveal(execute); reveal(cycles); }
            },
            0x57 => {
                self.ld_r8_r8(RegisterType8::D, RegisterType8::A);
                assert(self.ran(start, spent, 0x57)) by { reveal(execute); reveal(cycles); }
            },
            0x58 => {
                self.ld_r8_r8(RegisterType8::E, RegisterType8::B);
                assert(self.ran(start, spent, 0x58)) by { reveal(execute); reveal(cycles); }
            },
            0x59 => {
                self.ld_r8_r8(RegisterType8::E, RegisterType8::C);
                assert(self.ran(start, spent, 0x59)) by { reveal(execute); reveal(cycles); }
            },
            0x5A => {
                self.ld_r8_r8(RegisterType8::E, RegisterType8::D);
                assert(self.ran(start, spent, 0x5A)) by { reveal(execute); reveal(cycles); }
            },
            0x5B => {
                self.ld_r8_r8(RegisterType8::E, RegisterType8::E);
                assert(self.ran(start, spent, 0x5B)) by { reveal(execute); reveal(cycles); }
            },
            0x5C => {
                self.ld_r8_r8(RegisterType8::E, RegisterType8::H);
                assert(self.ran(start, spent, 0x5C)) by { reveal(execute); reveal(cycles); }
            },
            0x5D => {
                self.ld_r8_r8(RegisterType8::E, RegisterType8::L);
                assert(self.ran(start, spent, 0x5D)) by { reveal(execute); reveal(cycles); }
            },
            0x5E => {
                self.ld_r8_indirect_hl(RegisterType8::E);
                assert(self.ran(start, spent, 0x5E)) by { reveal(execute); reveal(cycles); }
            },
            0x5F => {
                self.ld_r8_r8(RegisterType8::E, RegisterType8::A);
                assert(self.ran(start, spent, 0x5F)) by { reveal(execute); reveal(cycles); }
            },
            0x60 => {
                self.ld_r8_r8(RegisterType8::H, RegisterType8::B);
                assert(self.ran(start, spent, 0x60)) by { reveal(execute); reveal(cycles); }
            },
            0x61 => {
                self.ld_r8_r8(RegisterType8::H, RegisterType8::C);
                assert(self.ran(start, spent, 0x61)) by { reveal(execute); reveal(cycles); }
            },
            0x62 => {
                self.ld_r8_r8(RegisterType8::H, RegisterType8::D);
                assert(self.ran(start, spent, 0x62)) by { reveal(execute); reveal(cycles); }
            },
            0x63 => {
                self.ld_r8_r8(RegisterType8::H, RegisterType8::E);
                assert(self.ran(start, spent, 0x63)) by { reveal(execute); reveal(cycles); }
            },
            0x64 => {
                self.ld_r8_r8(RegisterType8::H, RegisterType8::H);
                assert(self.ran(start, spent, 0x64)) by { reveal(execute); reveal(cycles); }
            },
            0x65 => {
                self.ld_r8_r8(RegisterType8::H, RegisterType8::L);
                assert(self.ran(start, spent, 0x65)) by { reveal(execute); reveal(cycles); }
            },
            0x66 => {
                self.ld_r8_indirect_hl(RegisterType8::H);
                assert(self.ran(start, spent, 0x66)) by { reveal(execute); reveal(cycles); }
            },
            0x67 => {
                self.ld_r8_r8(RegisterType8::H, RegisterType8::A);
                assert(self.ran(start, spent, 0x67)) by { reveal(execute); reveal(cycles); }
            },
            0x68 => {
                self.ld_r8_r8(RegisterType8::L, RegisterType8::B);
                assert(self.ran(start, spent, 0x68)) by { reveal(execute); reveal(cycles); }
            },
            0x69 => {
                self.ld_r8_r8(RegisterType8::L, RegisterType8::C);
                assert(self.ran(start, spent, 0x69)) by { reveal(execute); reveal(cycles); }
            },
            0x6A => {
                self.ld_r8_r8(RegisterType8::L, RegisterType8::D);
                assert(self.ran(start, spent, 0x6A)) by { reveal(execute); reveal(cycles); }
            },
            0x6B => {
                self.ld_r8_r8(RegisterType8::L, RegisterType8::E);
                assert(self.ran(start, spent, 0x6B)) by { reveal(execute); reveal(cycles); }
            },
            0x6C => {
                self.ld_r8_r8(RegisterType8::L, RegisterType8::H);
                assert(self.ran(start, spent, 0x6C)) by { reveal(execute); reveal(cycles); }
            },
            0x6D => {
                self.ld_r8_r8(RegisterType8::L, RegisterType8::L);
                assert(self.ran(start, spent, 0x6D)) by { reveal(execute); reveal(cycles); }
            },
            0x6E => {
                self.ld_r8_indirect_hl(RegisterType8::L);
                assert(self.ran(start, spent, 0x6E)) by { reveal(execute); reveal(cycles); }
            },
            0x6F => {
                self.ld_r8_r8(RegisterType8::L, RegisterType8::A);
                assert(self.ran(start, spent, 0x6F)) by { reveal(execute); reveal(cycles); }
            },
            0x70 => {
                self.ld_indirect_hl_r8(RegisterType8::B);
                assert(self.ran(start, spent, 0x70)) by { reveal(execute); reveal(cycles); }
            },
            0x71 => {
                self.ld_indirect_hl_r8(RegisterType8::C);
                assert(self.ran(start, spent, 0x71)) by { reveal(execute); reveal(cycles); }
            },
            0x72 => {
                self.ld_indirect_hl_r8(RegisterType8::D);
                assert(self.ran(start, spent, 0x72)) by { reveal(execute); reveal(cycles); }
            },
            0x73 => {
                self.ld_indirect_hl_r8(RegisterType8::E);
                assert(self.ran(start, spent, 0x73)) by { reveal(execute); reveal(cycles); }
            },
            0x74 => {
                self.ld_indirect_hl_r8(RegisterType8::H);
                assert(self.ran(start, spent, 0x74)) by { reveal(execute); reveal(cycles); }
            },
            0x75 => {
                self.ld_indirect_hl_r8(RegisterType8::L);
                assert(self.ran(start, spent, 0x75)) by { reveal(execute); reveal(cycles); }
            },
            0x76 => {},  // no modelled behaviour
            0x77 => {
                self.ld_indirect_hl_r8(RegisterType8::A);
                assert(self.ran(start, spent, 0x77)) by { reveal(execute); reveal(cycles); }
            },
            0x78 => {
                self.ld_r8_r8(RegisterType8::A, RegisterType8::B);
                assert(self.ran(start, spent, 0x78)) by { reveal(execute); reveal(cycles); }
            },
            0x79 => {
                self.ld_r8_r8(RegisterType8::A, RegisterType8::C);
                assert(self.ran(start, spent, 0x79)) by { reveal(execute); reveal(cycles); }
            },
            0x7A => {
                self.ld_r8_r8(RegisterType8::A, RegisterType8::D);
                assert(self.ran(start, spent, 0x7A)) by { reveal(execute); reveal(cycles); }
            },
            0x7B => {
                self.ld_r8_r8(RegisterType8::A, RegisterType8::E);
                assert(self.ran(start, spent, 0x7B)) by { reveal(execute); reveal(cycles); }
            },
            0x7C => {
                self.ld_r8_r8(RegisterType8::A, RegisterType8::H);
                assert(self.ran(start, spent, 0x7C)) by { reveal(execute); reveal(cycles); }
            },
            0x7D => {
                self.ld_r8_r8(RegisterType8::A, RegisterType8::L);
                assert(self.ran(start, spent, 0x7D)) by { reveal(execute); reveal(cycles); }
            },
            0x7E => {
                self.ld_r8_indirect_hl(RegisterType8::A);
                assert(self.ran(start, spent, 0x7E)) by { reveal(execute); reveal(cycles); }
            },
            0x7F => {
                self.ld_r8_r8(RegisterType8::A, RegisterType8::A);
                assert(self.ran(start, spent, 0x7F)) by { reveal(execute); reveal(cycles); }
            },
            // The slots of the other three quarters.
            _ => {},
        }
    }

    /// The third quarter of the primary table: the operations between the
    /// accumulator and an 8-bit operand.
    #[verifier::rlimit(30)]
    fn alu_op_codes(&mut self, opcode: u8)
        requires
            old(self).cycles + 24 <= u32::MAX,
            0x80 <= opcode <= 0xBF,
            modelled(opcode),
        ensures
            final(self)@ == execute(old(self)@, opcode),
            final(self).cycles == old(self).cycles + cycles(old(self)@.regs.flags, opcode),
    {
        let ghost start = self@;
        let ghost spent = self.cycles;

        match opcode {
            0x80 => {
                self.add_a_r8(RegisterType8::B);
                assert(self.ran(start, spent, 0x80)) by { reveal(execute); reveal(cycles); }
            },
            0x81 => {
                self.add_a_r8(RegisterType8::C);
                assert(self.ran(start, spent, 0x81)) by { reveal(execute); reveal(cycles); }
            },
            0x82 => {
                self.add_a_r8(RegisterType8::D);
                assert(self.ran(start, spent, 0x82)) by { reveal(execute); reveal(cycles); }
            },
            0x83 => {
                self.add_a_r8(RegisterType8::E);
                assert(self.ran(start, spent, 0x83)) by { reveal(execute); reveal(cycles); }
            },
            0x84 => {
                self.add_a_r8(RegisterType8::H);
                assert(self.ran(start, spent, 0x84)) by { reveal(execute); reveal(cycles); }
            },
            0x85 => {
                self.add_a_r8(RegisterType8::L);
                assert(self.ran(start, spent, 0x85)) by { reveal(execute); reveal(cycles); }
            },
            0x86 => {
                self.add_a_indirect_hl();
                assert(self.ran(start, spent, 0x86)) by { reveal(execute); reveal(cycles); }
            },
            0x87 => {
                self.add_a_r8(RegisterType8::A);
                assert(self.ran(start, spent, 0x87)) by { reveal(execute); reveal(cycles); }
            },
            0x88 => {
                self.adc_a_r8(RegisterType8::B);
                assert(self.ran(start, spent, 0x88)) by { reveal(execute); reveal(cycles); }
            },
            0x89 => {
                self.adc_a_r8(RegisterType8::C);
                assert(self.ran(start, spent, 0x89)) by { reveal(execute); reveal(cycles); }
            },
            0x8A => {
                self.adc_a_r8(RegisterType8::D);
                assert(self.ran(start, spent, 0x8A)) by { reveal(execute); reveal(cycles); }
            },
            0x8B => {
                self.adc_a_r8(RegisterType8::E);
                assert(self.ran(start, spent, 0x8B)) by { reveal(execute); reveal(cycles); }
            },
            0x8C => {
                self.adc_a_r8(RegisterType8::H);
                assert(self.ran(start, spent, 0x8C)) by { reveal(execute); reveal(cycles); }
            },
            0x8D => {
                self.adc_a_r8(RegisterType8::L);
                assert(self.ran(start, spent, 0x8D)) by { reveal(execute); reveal(cycles); }
            },
            0x8E => {
                self.adc_a_indirect_hl();
                assert(self.ran(start, spent, 0x8E)) by { reveal(execute); reveal(cycles); }
            },
            0x8F => {
                self.adc_a_r8(RegisterType8::A);
                assert(self.ran(start, spent, 0x8F)) by { reveal(execute); reveal(cycles); }
            },
            0x90 => {
                self.sub_a_r8(RegisterType8::B);
                assert(self.ran(start, spent, 0x90)) by { reveal(execute); reveal(cycles); }
            },
            0x91 => {
                self.sub_a_r8(RegisterType8::C);
                assert(self.ran(start, spent, 0x91)) by { reveal(execute); reveal(cycles); }
            },
            0x92 => {
                self.sub_a_r8(RegisterType8::D);
                assert(self.ran(start, spent, 0x92)) by { reveal(execute); reveal(cycles); }
            },
            0x93 => {
                self.sub_a_r8(RegisterType8::E);
                assert(self.ran(start, spent, 0x93)) by { reveal(execute); reveal(cycles); }
            },
            0x94 => {
                self.sub_a_r8(RegisterType8::H);
                assert(self.ran(start, spent, 0x94)) by { reveal(execute); reveal(cycles); }
            },
            0x95 => {
                self.sub_a_r8(RegisterType8::L);
                assert(self.ran(start, spent, 0x95)) by { reveal(execute); reveal(cycles); }
            },
            0x96 => {
                self.sub_a_indirect_hl();
                assert(self.ran(start, spent, 0x96)) by { reveal(execute); reveal(cycles); }
            },
            0x97 => {
                self.sub_a_r8(RegisterType8::A);
                assert(self.ran(start, spent, 0x97)) by { reveal(execute); reveal(cycles); }
            },
            0x98 => {
                self.sbc_a_r8(RegisterType8::B);
                assert(self.ran(start, spent, 0x98)) by { reveal(execute); reveal(cycles); }
            },
            0x99 => {
                self.sbc_a_r8(RegisterType8::C);
                assert(self.ran(start, spent, 0x99)) by { reveal(execute); reveal(cycles); }
            },
            0x9A => {
                self.sbc_a_r8(RegisterType8::D);
                assert(self.ran(start, spent, 0x9A)) by { reveal(execute); reveal(cycles); }
            },
            0x9B => {
                self.sbc_a_r8(RegisterType8::E);
                assert(self.ran(start, spent, 0x9B)) by { reveal(execute); reveal(cycles); }
            },
            0x9C => {
                self.sbc_a_r8(RegisterType8::H);
                assert(self.ran(start, spent, 0x9C)) by { reveal(execute); reveal(cycles); }
            },
            0x9D => {
                self.sbc_a_r8(RegisterType8::L);
                assert(self.ran(start, spent, 0x9D)) by { reveal(execute); reveal(cycles); }
            },
            0x9E => {
                self.sbc_a_indirect_hl();
                assert(self.ran(start, spent, 0x9E)) by { reveal(execute); reveal(cycles); }
            },
            0x9F => {
                self.sbc_a_r8(RegisterType8::A);
                assert(self.ran(start, spent, 0x9F)) by { reveal(execute); reveal(cycles); }
            },
            0xA0 => {
                self.and_a_r8(RegisterType8::B);
                assert(self.ran(start, spent, 0xA0)) by { reveal(execute); reveal(cycles); }
            },
            0xA1 => {
                self.and_a_r8(RegisterType8::C);
                assert(self.ran(start, spent, 0xA1)) by { reveal(execute); reveal(cycles); }
            },
            0xA2 => {
                self.and_a_r8(RegisterType8::D);
                assert(self.ran(start, spent, 0xA2)) by { reveal(execute); reveal(cycles); }
            },
            0xA3 => {
                self.and_a_r8(RegisterType8::E);
                assert(self.ran(start, spent, 0xA3)) by { reveal(execute); reveal(cycles); }
            },
            0xA4 => {
                self.and_a_r8(RegisterType8::H);
                assert(self.ran(start, spent, 0xA4)) by { reveal(execute); reveal(cycles); }
            },
            0xA5 => {
                self.and_a_r8(RegisterType8::L);
                assert(self.ran(start, spent, 0xA5)) by { reveal(execute); reveal(cycles); }
            },
            0xA6 => {
                self.and_a_indirect_hl();
                assert(self.ran(start, spent, 0xA6)) by { reveal(execute); reveal(cycles); }
            },
            0xA7 => {
                self.and_a_r8(RegisterType8::A);
                assert(self.ran(start, spent, 0xA7)) by { reveal(execute); reveal(cycles); }
            },
            0xA8 => {
                self.xor_a_r8(RegisterType8::B);
                assert(self.ran(start, spent, 0xA8)) by { reveal(execute); reveal(cycles); }
            },
            0xA9 => {
                self.xor_a_r8(RegisterType8::C);
                assert(self.ran(start, spent, 0xA9)) by { reveal(execute); reveal(cycles); }
            },
            0xAA => {
                self.xor_a_r8(RegisterType8::D);
                assert(self.ran(start, spent, 0xAA)) by { reveal(execute); reveal(cycles); }
            },
            0xAB => {
                self.xor_a_r8(RegisterType8::E);
                assert(self.ran(start, spent, 0xAB)) by { reveal(execute); reveal(cycles); }
            },
            0xAC => {
                self.xor_a_r8(RegisterType8::H);
                assert(self.ran(start, spent, 0xAC)) by { reveal(execute); reveal(cycles); }
            },
            0xAD => {
                self.xor_a_r8(RegisterType8::L);
                assert(self.ran(start, spent, 0xAD)) by { reveal(execute); reveal(cycles); }
            },
            0xAE => {
                self.xor_a_indirect_hl();
                assert(self.ran(start, spent, 0xAE)) by { reveal(execute); reveal(cycles); }
            },
            0xAF => {
                self.xor_a_r8(RegisterType8::A);
                assert(self.ran(start, spent, 0xAF)) by { reveal(execute); reveal(cycles); }
            },
            0xB0 => {
                self.or_a_r8(RegisterType8::B);
                assert(self.ran(start, spent, 0xB0)) by { reveal(execute); reveal(cycles); }
            },
            0xB1 => {
                self.or_a_r8(RegisterType8::C);
                assert(self.ran(start, spent, 0xB1)) by { reveal(execute); reveal(cycles); }
            },
            0xB2 => {
                self.or_a_r8(RegisterType8::D);
                assert(self.ran(start, spent, 0xB2)) by { reveal(execute); reveal(cycles); }
            },
            0xB3 => {
                self.or_a_r8(RegisterType8::E);
                assert(self.ran(start, spent, 0xB3)) by { reveal(execute); reveal(cycles); }
            },
            0xB4 => {
                self.or_a_r8(RegisterType8::H);
                assert(self.ran(start, spent, 0xB4)) by { reveal(execute); reveal(cycles); }
            },
            0xB5 => {
                self.or_a_r8(RegisterType8::L);
                assert(self.ran(start, spent, 0xB5)) by { reveal(execute); reveal(cycles); }
            },
            0xB6 => {
                self.or_a_indirect_hl();
                assert(self.ran(start, spent, 0xB6)) by { reveal(execute); reveal(cycles); }
            },
            0xB7 => {
                self.or_a_r8(RegisterType8::A);
                assert(self.ran(start, spent, 0xB7)) by { reveal(execute); reveal(cycles); }
            },
            0xB8 => {
                self.cp_r8(RegisterType8::B);
                assert(self.ran(start, spent, 0xB8)) by { reveal(execute); reveal(cycles); }
            },
            0xB9 => {
                self.cp_r8(RegisterType8::C);
                assert(self.ran(start, spent, 0xB9)) by { reveal(execute); reveal(cycles); }
            },
            0xBA => {
                self.cp_r8(RegisterType8::D);
                assert(self.ran(start, spent, 0xBA)) by { reveal(execute); reveal(cycles); }
            },
            0xBB => {
                self.cp_r8(RegisterType8::E);
                assert(self.ran(start, spent, 0xBB)) by { reveal(execute); reveal(cycles); }
            },
            0xBC => {
                self.cp_r8(RegisterType8::H);
                assert(self.ran(start, spent, 0xBC)) by { reveal(execute); reveal(cycles); }
            },
            0xBD => {
                self.cp_r8(RegisterType8::L);
                assert(self.ran(start, spent, 0xBD)) by { reveal(execute); reveal(cycles); }
            },
            0xBE => {
                self.cp_indirect_hl();
                assert(self.ran(start, spent, 0xBE)) by { reveal(execute); reveal(cycles); }
            },
            0xBF => {
                self.cp_r8(RegisterType8::A);
                assert(self.ran(start, spent, 0xBF)) by { reveal(execute); reveal(cycles); }
            },
            // The slots of the other three quarters.
            _ => {},
        }
    }

    /// The last quarter of the primary table: returns, jumps and calls, the
    /// stack, the operations with an immediate operand, the restarts and the
    /// prefix of the extended table.
    #[verifier::rlimit(30)]
    fn high_op_codes(&mut self, opcode: u8)
        requires
            old(self).cycles + 24 <= u32::MAX,
            0xC0 <= opcode <= 0xFF,
            modelled(opcode),
        ensures
            final(self)@ == execute(old(self)@, opcode),
            final(self).cycles == old(self).cycles + cycles(old(self)@.regs.flags, opcode),
    {
        let ghost start = self@;
        let ghost spent = self.cycles;

        match opcode {
            0xC0 => {
                self.ret_nf(FlagType::Zero);
                assert(self.ran(start, spent, 0xC0)) by { reveal(execute); reveal(cycles); }
            },
            0xC1 => {
                self.pop(RegisterType16::BC);
                assert(self.ran(start, spent, 0xC1)) by { reveal(execute); reveal(cycles); }
            },
            0xC2 => {
                self.jp_nf_nn(FlagType::Zero);
                assert(self.ran(start, spent, 0xC2)) by { reveal(execute); reveal(cycles); }
            },
            0xC3 => {
                self.jp_nn();
                assert(self.ran(start, spent, 0xC3)) by { reveal(execute); reveal(cycles); }
            },
            0xC4 => {
                self.call_nf_nn(FlagType::Zero);
                assert(self.ran(start, spent, 0xC4)) by { reveal(execute); reveal(cycles); }
            },
            0xC5 => {
                self.push(RegisterType16::BC);
                assert(self.ran(start, spent, 0xC5)) by { reveal(execute); reveal(cycles); }
            },
            0xC6 => {
                self.add_a_n();
                assert(self.ran(start, spent, 0xC6)) by { reveal(execute); reveal(cycles); }
            },
            0xC7 => {
                self.rst(0x00);
                assert(self.ran(start, spent, 0xC7)) by { reveal(execute); reveal(cycles); }
            },
            0xC8 => {
                self.ret_f(FlagType::Zero);
                assert(self.ran(start, spent, 0xC8)) by { reveal(execute); reveal(cycles); }
            },
            0xC9 => {
                self.ret();
                assert(self.ran(start, spent, 0xC9)) by { reveal(execute); reveal(cycles); }
            },
            0xCA => {
                self.jp_f_nn(FlagType::Zero);
                assert(self.ran(start, spent, 0xCA)) by { reveal(execute); reveal(cycles); }
            },
            0xCB => {
                self.extended_op_codes();
                assert(self.ran(start, spent, 0xCB)) by { reveal(execute); reveal(cycles); }
            },
            0xCC => {
                self.call_f_nn(FlagType::Zero);
                assert(self.ran(start, spent, 0xCC)) by { reveal(execute); reveal(cycles); }
            },
            0xCD => {
                self.call_nn();
                assert(self.ran(start, spent, 0xCD)) by { reveal(execute); reveal(cycles); }
            },
            0xCE => {
                self.adc_a_n();
                assert(self.ran(start, spent, 0xCE)) by { reveal(execute); reveal(cycles); }
            },
            0xCF => {
                self.rst(0x08);
                assert(self.ran(start, spent, 0xCF)) by { reveal(execute); reveal(cycles); }
            },
            0xD0 => {
                self.ret_nf(FlagType::Carry);
                assert(self.ran(start, spent, 0xD0)) by { reveal(execute); reveal(cycles); }
            },
            0xD1 => {
                self.pop(RegisterType16::DE);
                assert(self.ran(start, spent, 0xD1)) by { reveal(execute); reveal(cycles); }
            },
            0xD2 => {
                self.jp_nf_nn(FlagType::Carry);
                assert(self.ran(start, spent, 0xD2)) by { reveal(execute); reveal(cycles); }
            },
            0xD3 => {},  // no modelled behaviour
            0xD4 => {
                self.call_nf_nn(FlagType::Carry);
                assert(self.ran(start, spent, 0xD4)) by { reveal(execute); reveal(cycles); }
            },
            0xD5 => {
                self.push(RegisterType16::DE);
                assert(self.ran(start, spent, 0xD5)) by { reveal(execute); reveal(cycles); }
            },
            0xD6 => {
                self.sub_a_n();
                assert(self.ran(start, spent, 0xD6)) by { reveal(execute); reveal(cycles); }
            },
            0xD7 => {
                self.rst(0x10);
                assert(self.ran(start, spent, 0xD7)) by { reveal(execute); reveal(cycles); }
            },
            0xD8 => {
                self.ret_f(FlagType::Carry);
                assert(self.ran(start, spent, 0xD8)) by { reveal(execute); reveal(cycles); }
            },
            0xD9 => {
                self.reti();
                assert(self.ran(start, spent, 0xD9)) by { reveal(execute); reveal(cycles); }
            },
            0xDA => {
                self.jp_f_nn(FlagType::Carry);
                assert(self.ran(start, spent, 0xDA)) by { reveal(execute); reveal(cycles); }
            },
            0xDB => {},  // no modelled behaviour
            0xDC => {
                self.call_f_nn(FlagType::Carry);
                assert(self.ran(start, spent, 0xDC)) by { reveal(execute); reveal(cycles); }
            },
            0xDD => {},  // no modelled behaviour
            0xDE => {
                self.sbc_a_n();
                assert(self.ran(start, spent, 0xDE)) by { reveal(execute); reveal(cycles); }
            },
            0xDF => {
                self.rst(0x18);
                assert(self.ran(start, spent, 0xDF)) by { reveal(execute); reveal(cycles); }
            },
            0xE0 => {
                self.ldh_indirect_n_a();
                assert(self.ran(start, spent, 0xE0)) by { reveal(execute); reveal(cycles); }
            },
            0xE1 => {
                self.pop(RegisterType16::HL);
                assert(self.ran(start, spent, 0xE1)) by { reveal(execute); reveal(cycles); }
            },
            0xE2 => {
                self.ldh_indirect_c_a();
                assert(self.ran(start, spent, 0xE2)) by { reveal(execute); reveal(cycles); }
            },
            0xE3 => {},  // no modelled behaviour
            0xE4 => {},  // no modelled behaviour
            0xE5 => {
                self.push(RegisterType16::HL);
                assert(self.ran(start, spent, 0xE5)) by { reveal(execute); reveal(cycles); }
            },
            0xE6 => {
                self.and_a_n();
                assert(self.ran(start, spent, 0xE6)) by { reveal(execute); reveal(cycles); }
            },
            0xE7 => {
                self.rst(0x20);
                assert(self.ran(start, spent, 0xE7)) by { reveal(execute); reveal(cycles); }
            },
            0xE8 => {},  // no modelled behaviour
            0xE9 => {
                self.jp_hl();
                assert(self.ran(start, spent, 0xE9)) by { reveal(execute); reveal(cycles); }
            },
            0xEA => {
                self.ld_indirect_nn_a();
                assert(self.ran(start, spent, 0xEA)) by { reveal(execute); reveal(cycles); }
            },
            0xEB => {},  // no modelled behaviour
            0xEC => {},  // no modelled behaviour
            0xED => {},  // no modelled behaviour
            0xEE => {
                self.xor_a_n();
                assert(self.ran(start, spent, 0xEE)) by { reveal(execute); reveal(cycles); }
            },
            0xEF => {
                self.rst(0x28);
                assert(self.ran(start, spent, 0xEF)) by { reveal(execute); reveal(cycles); }
            },
            0xF0 => {
                self.ldh_a_indirect_n();
                assert(self.ran(start, spent, 0xF0)) by { reveal(execute); reveal(cycles); }
            },
            0xF1 => {
                self.pop(RegisterType16::AF);
                assert(self.ran(start, spent, 0xF1)) by { reveal(execute); reveal(cycles); }
            },
            0xF2 => {
                self.ldh_a_indirect_c();
                assert(self.ran(start, spent, 0xF2)) by { reveal(execute); reveal(cycles); }
            },
            0xF3 => {
                self.di();
                assert(self.ran(start, spent, 0xF3)) by { reveal(execute); reveal(cycles); }
            },
            0xF4 => {},  // no modelled behaviour
            0xF5 => {
                self.push(RegisterType16::AF);
                assert(self.ran(start, spent, 0xF5)) by { reveal(execute); reveal(cycles); }
            },
            0xF6 => {
                self.or_a_n();
                assert(self.ran(start, spent, 0xF6)) by { reveal(execute); reveal(cycles); }
            },
            0xF7 => {
                self.rst(0x30);
                assert(self.ran(start, spent, 0xF7)) by { reveal(execute); reveal(cycles); }
            },
            0xF8 => {},  // no modelled behaviour
            0xF9 => {
                self.ld_sp_hl();
                assert(self.ran(start, spent, 0xF9)) by { reveal(execute); reveal(cycles); }
            },
            0xFA => {
                self.ld_a_indirect_nn();
                assert(self.ran(start, spent, 0xFA)) by { reveal(execute); reveal(cycles); }
            },
            0xFB => {
                self.ei();
                assert(self.ran(start, spent, 0xFB)) by { reveal(execute); reveal(cycles); }
            },
            0xFC => {},  // no modelled behaviour
            0xFD => {},  // no modelled behaviour
            0xFE => {
                self.cp_n();
                assert(self.ran(start, spent, 0xFE)) by { reveal(execute); reveal(cycles); }
            },
            0xFF => {
                self.rst(0x38);
                assert(self.ran(start, spent, 0xFF)) by { reveal(execute); reveal(cycles); }
            },
            // The slots of the other three quarters.
            _ => {},
        }
    }

    /// Fetches the second opcode byte and runs the instruction that the
    /// extended table holds for it.
    pub(crate) fn extended_op_codes(&mut self)
        requires
            old(self).cycles + 8 <= u32::MAX,
        ensures
            final(self)@ == execute_extended(old(self)@.after_fetch(), old(self)@.fetched()),
            final(self).cycles == old(self).cycles + 8,
    {
        let opcode: u8 = self.increment_pc();

        if opcode < 0x40 {
            self.rotate_op_codes(opcode);
        } else if opcode < 0x80 {
            self.bit_op_codes(opcode);
        } else if opcode < 0xC0 {
            self.res_op_codes(opcode);
        } else {
            self.set_op_codes(opcode);
        }
    }

    /// The first quarter of the extended table: rotations, shifts and the
    /// exchange of nibbles.
    #[verifier::rlimit(30)]
    fn rotate_op_codes(&mut self, opcode: u8)
        requires
            old(self).cycles + 8 <= u32::MAX,
            0x00 <= opcode <= 0x3F,
        ensures
            final(self)@ == execute_extended(old(self)@, opcode),
            final(self).cycles == old(self).cycles + 8,
    {
        let ghost start = self@;

        match opcode {
            0x00 => {
                self.rotate_left_carry_r(RegisterType8::B);
                assert(self.ran_extended(start, 0x00)) by { reveal(execute_extended); }
            },
            0x01 => {
                self.rotate_left_carry_r(RegisterType8::C);
                assert(self.ran_extended(start, 0x01)) by { reveal(execute_extended); }
            },
            0x02 => {
                self.rotate_left_carry_r(RegisterType8::D);
                assert(self.ran_extended(start, 0x02)) by { reveal(execute_extended); }
            },
            0x03 => {
                self.rotate_left_carry_r(RegisterType8::E);
                assert(self.ran_extended(start, 0x03)) by { reveal(execute_extended); }
            },
            0x04 => {
                self.rotate_left_carry_r(RegisterType8::H);
                assert(self.ran_extended(start, 0x04)) by { reveal(execute_extended); }
            },
            0x05 => {
                self.rotate_left_carry_r(RegisterType8::L);
                assert(self.ran_extended(start, 0x05)) by { reveal(execute_extended); }
            },
            0x06 => {
                self.rotate_left_carry_hl_n();
                assert(self.ran_extended(start, 0x06)) by { reveal(execute_extended); }
            },
            0x07 => {
                self.rotate_left_carry_r(RegisterType8::A);
                assert(self.ran_extended(start, 0x07)) by { reveal(execute_extended); }
            },
            0x08 => {
                self.rotate_right_carry_r(RegisterType8::B);
                assert(self.ran_extended(start, 0x08)) by { reveal(execute_extended); }
            },
            0x09 => {
                self.rotate_right_carry_r(RegisterType8::C);
                assert(self.ran_extended(start, 0x09)) by { reveal(execute_extended); }
            },
            0x0A => {
                self.rotate_right_carry_r(RegisterType8::D);
                assert(self.ran_extended(start, 0x0A)) by { reveal(execute_extended); }
            },
            0x0B => {
                self.rotate_right_carry_r(RegisterType8::E);
                assert(self.ran_extended(start, 0x0B)) by { reveal(execute_extended); }
            },
            0x0C => {
                self.rotate_right_carry_r(RegisterType8::H);
                assert(self.ran_extended(start, 0x0C)) by { reveal(execute_extended); }
            },
            0x0D => {
                self.rotate_right_carry_r(RegisterType8::L);
                assert(self.ran_extended(start, 0x0D)) by { reveal(execute_extended); }
            },
            0x0E => {
                self.rotate_right_carry_hl_n();
                assert(self.ran_extended(start, 0x0E)) by { reveal(execute_extended); }
            },
            0x0F => {
                self.rotate_right_carry_r(RegisterType8::A);
                assert(self.ran_extended(start, 0x0F)) by { reveal(execute_extended); }
            },
            0x10 => {
                self.rotate_left_r(RegisterType8::B);
                assert(self.ran_extended(start, 0x10)) by { reveal(execute_extended); }
            },
            0x11 => {
                self.rotate_left_r(RegisterType8::C);
                assert(self.ran_extended(start, 0x11)) by { reveal(execute_extended); }
            },
            0x12 => {
                self.rotate_left_r(RegisterType8::D);
                assert(self.ran_extended(start, 0x12)) by { reveal(execute_extended); }
            },
            0x13 => {
                self.rotate_left_r(RegisterType8::E);
                assert(self.ran_extended(start, 0x13)) by { reveal(execute_extended); }
            },
            0x14 => {
                self.rotate_left_r(RegisterType8::H);
                assert(self.ran_extended(start, 0x14)) by { reveal(execute_extended); }
            },
            0x15 => {
                self.rotate_left_r(RegisterType8::L);
                assert(self.ran_extended(start, 0x15)) by { reveal(execute_extended); }
            },
            0x16 => {
                self.rotate_left_hl_n();
                assert(self.ran_extended(start, 0x16)) by { reveal(execute_extended); }
            },
            0x17 => {
                self.rotate_left_r(RegisterType8::A);
                assert(self.ran_extended(start, 0x17)) by { reveal(execute_extended); }
            },
            0x18 => {
                self.rotate_right_r(RegisterType8::B);
                assert(self.ran_extended(start, 0x18)) by { reveal(execute_extended); }
            },
            0x19 => {
                self.rotate_right_r(RegisterType8::C);
                assert(self.ran_extended(start, 0x19)) by { reveal(execute_extended); }
            },
            0x1A => {
                self.rotate_right_r(RegisterType8::D);
                assert(self.ran_extended(start, 0x1A)) by { reveal(execute_extended); }
            },
            0x1B => {
                self.rotate_right_r(RegisterType8::E);
                assert(self.ran_extended(start, 0x1B)) by { reveal(execute_extended); }
            },
            0x1C => {
                self.rotate_right_r(RegisterType8::H);
                assert(self.ran_extended(start, 0x1C)) by { reveal(execute_extended); }
            },
            0x1D => {
                self.rotate_right_r(RegisterType8::L);
                assert(self.ran_extended(start, 0x1D)) by { reveal(execute_extended); }
            },
            0x1E => {
                self.rotate_right_hl_n();
                assert(self.ran_extended(start, 0x1E)) by { reveal(execute_extended); }
            },
            0x1F => {
                self.rotate_right_r(RegisterType8::A);
                assert(self.ran_extended(start, 0x1F)) by { reveal(execute_extended); }
            },
            0x20 => {
                self.shift_left_r(RegisterType8::B);
                assert(self.ran_extended(start, 0x20)) by { reveal(execute_extended); }
            },
            0x21 => {
                self.shift_left_r(RegisterType8::C);
                assert(self.ran_extended(start, 0x21)) by { reveal(execute_extended); }
            },
            0x22 => {
                self.shift_left_r(RegisterType8::D);
                assert(self.ran_extended(start, 0x22)) by { reveal(execute_extended); }
            },
            0x23 => {
                self.shift_left_r(RegisterType8::E);
                assert(self.ran_extended(start, 0x23)) by { reveal(execute_extended); }
            },
            0x24 => {
                self.shift_left_r(RegisterType8::H);
                assert(self.ran_extended(start, 0x24)) by { reveal(execute_extended); }
            },
            0x25 => {
                self.shift_left_r(RegisterType8::L);
                assert(self.ran_extended(start, 0x25)) by { reveal(execute_extended); }
            },
            0x26 => {
                self.shift_left_hl_n();
                assert(self.ran_extended(start, 0x26)) by { reveal(execute_extended); }
            },
            0x27 => {
                self.shift_left_r(RegisterType8::A);
                assert(self.ran_extended(start, 0x27)) by { reveal(execute_extended); }
            },
            0x28 => {
                self.shift_right_a_r(RegisterType8::B);
                assert(self.ran_extended(start, 0x28)) by { reveal(execute_extended); }
            },
            0x29 => {
                self.shift_right_a_r(RegisterType8::C);
                assert(self.ran_extended(start, 0x29)) by { reveal(execute_extended); }
            },
            0x2A => {
                self.shift_right_a_r(RegisterType8::D);
                assert(self.ran_extended(start, 0x2A)) by { reveal(execute_extended); }
            },
            0x2B => {
                self.shift_right_a_r(RegisterType8::E);
                assert(self.ran_extended(start, 0x2B)) by { reveal(execute_extended); }
            },
            0x2C => {
                self.shift_right_a_r(RegisterType8::H);
                assert(self.ran_extended(start, 0x2C)) by { reveal(execute_extended); }
            },
            0x2D => {
                self.shift_right_a_r(RegisterType8::L);
                assert(self.ran_extended(start, 0x2D)) by { reveal(execute_extended); }
            },
            0x2E => {
                self.shift_right_a_hl_n();
                assert(self.ran_extended(start, 0x2E)) by { reveal(execute_extended); }
            },
            0x2F => {
                self.shift_right_a_r(RegisterType8::A);
                assert(self.ran_extended(start, 0x2F)) by { reveal(execute_extended); }
            },
            0x30 => {
                self.swap_r(RegisterType8::B);
                assert(self.ran_extended(start, 0x30)) by { reveal(execute_extended); }
            },
            0x31 => {
                self.swap_r(RegisterType8::C);
                assert(self.ran_extended(start, 0x31)) by { reveal(execute_extended); }
            },
            0x32 => {
                self.swap_r(RegisterType8::D);
                assert(self.ran_extended(start, 0x32)) by { reveal(execute_extended); }
            },
            0x33 => {
                self.swap_r(RegisterType8::E);
                assert(self.ran_extended(start, 0x33)) by { reveal(execute_extended); }
            },
            0x34 => {
                self.swap_r(RegisterType8::H);
                assert(self.ran_extended(start, 0x34)) by { reveal(execute_extended); }
            },
            0x35 => {
                self.swap_r(RegisterType8::L);
                assert(self.ran_extended(start, 0x35)) by { reveal(execute_extended); }
            },
            0x36 => {
                self.swap_hl_n();
                assert(self.ran_extended(start, 0x36)) by { reveal(execute_extended); }
            },
            0x37 => {
                self.swap_r(RegisterType8::A);
                assert(self.ran_extended(start, 0x37)) by { reveal(execute_extended); }
            },
            0x38 => {
                self.shift_right_r(RegisterType8::B);
                assert(self.ran_extended(start, 0x38)) by { reveal(execute_extended); }
            },
            0x39 => {
                self.shift_right_r(RegisterType8::C);
                assert(self.ran_extended(start, 0x39)) by { reveal(execute_extended); }
            },
            0x3A => {
                self.shift_right_r(RegisterType8::D);
                assert(self.ran_extended(start, 0x3A)) by { reveal(execute_extended); }
            },
            0x3B => {
                self.shift_right_r(RegisterType8::E);
                assert(self.ran_extended(start, 0x3B)) by { reveal(execute_extended); }
            },
            0x3C => {
                self.shift_right_r(RegisterType8::H);
                assert(self.ran_extended(start, 0x3C)) by { reveal(execute_extended); }
            },
            0x3D => {
                self.shift_right_r(RegisterType8::L);
                assert(self.ran_extended(start, 0x3D)) by { reveal(execute_extended); }
            },
            0x3E => {
                self.shift_right_hl_n();
                assert(self.ran_extended(start, 0x3E)) by { reveal(execute_extended); }
            },
            0x3F => {
                self.shift_right_r(RegisterType8::A);
                assert(self.ran_extended(start, 0x3F)) by { reveal(execute_extended); }
            },
            // The slots of the other three quarters.
            _ => {},
        }
    }

    /// The second quarter of the extended table: the tests of one bit.
    #[verifier::rlimit(30)]
    fn bit_op_codes(&mut self, opcode: u8)
        requires
            old(self).cycles + 8 <= u32::MAX,
            0x40 <= opcode <= 0x7F,
        ensures
            final(self)@ == execute_extended(old(self)@, opcode),
            final(self).cycles == old(self).cycles + 8,
    {
        let ghost start = self@;

        match opcode {
            0x40 => {
                let data: u8 = self.register.read_8(RegisterType8::B);
                self.bit(data, 0);
                assert(self.ran_extended(start, 0x40)) by { reveal(execute_extended); }
            },
            0x41 => {
                let data: u8 = self.register.read_8(RegisterType8::C);
                self.bit(data, 0);
                assert(self.ran_extended(start, 0x41)) by { reveal(execute_extended); }
            },
            0x42 => {
                let data: u8 = self.register.read_8(RegisterType8::D);
                self.bit(data, 0);
                assert(self.ran_extended(start, 0x42)) by { reveal(execute_extended); }
            },
            0x43 => {
                let data: u8 = self.register.read_8(RegisterType8::E);
                self.bit(data, 0);
                assert(self.ran_extended(start, 0x43)) by { reveal(execute_extended); }
            },
            0x44 => {
                let data: u8 = self.register.read_8(RegisterType8::H);
                self.bit(data, 0);
                assert(self.ran_extended(start, 0x44)) by { reveal(execute_extended); }
            },
            0x45 => {
                let data: u8 = self.register.read_8(RegisterType8::L);
                self.bit(data, 0);
                assert(self.ran_extended(start, 0x45)) by { reveal(execute_extended); }
            },
            0x46 => {
                let data: u8 = self.memory.read(self.register.read_16(RegisterType16::HL));
                self.bit(data, 0);
                assert(self.ran_extended(start, 0x46)) by { reveal(execute_extended); }
            },
            0x47 => {
                let data: u8 = self.register.read_8(RegisterType8::A);
                self.bit(data, 0);
                assert(self.ran_extended(start, 0x47)) by { reveal(execute_extended); }
            },
            0x48 => {
                let data: u8 = self.register.read_8(RegisterType8::B);
                self.bit(data, 1);
                assert(self.ran_extended(start, 0x48)) by { reveal(execute_extended); }
            },
            0x49 => {
                let data: u8 = self.register.read_8(RegisterType8::C);
                self.bit(data, 1);
                assert(self.ran_extended(start, 0x49)) by { reveal(execute_extended); }
            },
            0x4A => {
                let data: u8 = self.register.read_8(RegisterType8::D);
                self.bit(data, 1);
                assert(self.ran_extended(start, 0x4A)) by { reveal(execute_extended); }
            },
            0x4B => {
                let data: u8 = self.register.read_8(RegisterType8::E);
                self.bit(data, 1);
                assert(self.ran_extended(start, 0x4B)) by { reveal(execute_extended); }
            },
            0x4C => {
                let data: u8 = self.register.read_8(RegisterType8::H);
                self.bit(data, 1);
                assert(self.ran_extended(start, 0x4C)) by { reveal(execute_extended); }
            },
            0x4D => {
                let data: u8 = self.register.read_8(RegisterType8::L);
                self.bit(data, 1);
                assert(self.ran_extended(start, 0x4D)) by { reveal(execute_extended); }
            },
            0x4E => {
                let data: u8 = self.memory.read(self.register.read_16(RegisterType16::HL));
                self.bit(data, 1);
                assert(self.ran_extended(start, 0x4E)) by { reveal(execute_extended); }
            },
            0x4F => {
                let data: u8 = self.register.read_8(RegisterType8::A);
                self.bit(data, 1);
                assert(self.ran_extended(start, 0x4F)) by { reveal(execute_extended); }
            },
            0x50 => {
                let data: u8 = self.register.read_8(RegisterType8::B);
                self.bit(data, 2);
                assert(self.ran_extended(start, 0x50)) by { reveal(execute_extended); }
            },
            0x51 => {
                let data: u8 = self.register.read_8(RegisterType8::C);
                self.bit(data, 2);
                assert(self.ran_extended(start, 0x51)) by { reveal(execute_extended); }
            },
            0x52 => {
                let data: u8 = self.register.read_8(RegisterType8::D);
                self.bit(data, 2);
                assert(self.ran_extended(start, 0x52)) by { reveal(execute_extended); }
            },
            0x53 => {
                let data: u8 = self.register.read_8(RegisterType8::E);
                self.bit(data, 2);
                assert(self.ran_extended(start, 0x53)) by { reveal(execute_extended); }
            },
            0x54 => {
                let data: u8 = self.register.read_8(RegisterType8::H);
                self.bit(data, 2);
                assert(self.ran_extended(start, 0x54)) by { reveal(execute_extended); }
            },
            0x55 => {
                let data: u8 = self.register.read_8(RegisterType8::L);
                self.bit(data, 2);
                assert(self.ran_extended(start, 0x55)) by { reveal(execute_extended); }
            },
            0x56 => {
                let data: u8 = self.memory.read(self.register.read_16(RegisterType16::HL));
                self.bit(data, 2);
                assert(self.ran_extended(start, 0x56)) by { reveal(execute_extended); }
            },
            0x57 => {
                let data: u8 = self.register.read_8(RegisterType8::A);
                self.bit(data, 2);
                assert(self.ran_extended(start, 0x57)) by { reveal(execute_extended); }
            },
            0x58 => {
                let data: u8 = self.register.read_8(RegisterType8::B);
                self.bit(data, 3);
                assert(self.ran_extended(start, 0x58)) by { reveal(execute_extended); }
            },
            0x59 => {
                let data: u8 = self.register.read_8(RegisterType8::C);
                self.bit(data, 3);
                assert(self.ran_extended(start, 0x59)) by { reveal(execute_extended); }
            },
            0x5A => {
                let data: u8 = self.register.read_8(RegisterType8::D);
                self.bit(data, 3);
                assert(self.ran_extended(start, 0x5A)) by { reveal(execute_extended); }
            },
            0x5B => {
                let data: u8 = self.register.read_8(RegisterType8::E);
                self.bit(data, 3);
                assert(self.ran_extended(start, 0x5B)) by { reveal(execute_extended); }
            },
            0x5C => {
                let data: u8 = self.register.read_8(RegisterType8::H);
                self.bit(data, 3);
                assert(self.ran_extended(start, 0x5C)) by { reveal(execute_extended); }
            },
            0x5D => {
                let data: u8 = self.register.read_8(RegisterType8::L);
                self.bit(data, 3);
                assert(self.ran_extended(start, 0x5D)) by { reveal(execute_extended); }
            },
            0x5E => {
                let data: u8 = self.memory.read(self.register.read_16(RegisterType16::HL));
                self.bit(data, 3);
                assert(self.ran_extended(start, 0x5E)) by { reveal(execute_extended); }
            },
            0x5F => {
                let data: u8 = self.register.read_8(RegisterType8::A);
                self.bit(data, 3);
                assert(self.ran_extended(start, 0x5F)) by { reveal(execute_extended); }
            },
            0x60 => {
                let data: u8 = self.register.read_8(RegisterType8::B);
                self.bit(data, 4);
                assert(self.ran_extended(start, 0x60)) by { reveal(execute_extended); }
            },
            0x61 => {
                let data: u8 = self.register.read_8(RegisterType8::C);
                self.bit(data, 4);
                assert(self.ran_extended(start, 0x61)) by { reveal(execute_extended); }
            },
            0x62 => {
                let data: u8 = self.register.read_8(RegisterType8::D);
                self.bit(data, 4);
                assert(self.ran_extended(start, 0x62)) by { reveal(execute_extended); }
            },
            0x63 => {
                let data: u8 = self.register.read_8(RegisterType8::E);
                self.bit(data, 4);
                assert(self.ran_extended(start, 0x63)) by { reveal(execute_extended); }
            },
            0x64 => {
                let data: u8 = self.register.read_8(RegisterType8::H);
                self.bit(data, 4);
                assert(self.ran_extended(start, 0x64)) by { reveal(execute_extended); }
            },
            0x65 => {
                let data: u8 = self.register.read_8(RegisterType8::L);
                self.bit(data, 4);
                assert(self.ran_extended(start, 0x65)) by { reveal(execute_extended); }
            },
            0x66 => {
                let data: u8 = self.memory.read(self.register.read_16(RegisterType16::HL));
                self.bit(data, 4);
                assert(self.ran_extended(start, 0x66)) by { reveal(execute_extended); }
            },
            0x67 => {
                let data: u8 = self.register.read_8(RegisterType8::A);
                self.bit(data, 4);
                assert(self.ran_extended(start, 0x67)) by { reveal(execute_extended); }
            },
            0x68 => {
                let data: u8 = self.register.read_8(RegisterType8::B);
                self.bit(data, 5);
                assert(self.ran_extended(start, 0x68)) by { reveal(execute_extended); }
            },
            0x69 => {
                let data: u8 = self.register.read_8(RegisterType8::C);
                self.bit(data, 5);
                assert(self.ran_extended(start, 0x69)) by { reveal(execute_extended); }
            },
            0x6A => {
                let data: u8 = self.register.read_8(RegisterType8::D);
                self.bit(data, 5);
                assert(self.ran_extended(start, 0x6A)) by { reveal(execute_extended); }
            },
            0x6B => {
                let data: u8 = self.register.read_8(RegisterType8::E);
                self.bit(data, 5);
                assert(self.ran_extended(start, 0x6B)) by { reveal(execute_extended); }
            },
            0x6C => {
                let data: u8 = self.register.read_8(RegisterType8::H);
                self.bit(data, 5);
                assert(self.ran_extended(start, 0x6C)) by { reveal(execute_extended); }
            },
            0x6D => {
                let data: u8 = self.register.read_8(RegisterType8::L);
                self.bit(data, 5);
                assert(self.ran_extended(start, 0x6D)) by { reveal(execute_extended); }
            },
            0x6E => {
                let data: u8 = self.memory.read(self.register.read_16(RegisterType16::HL));
                self.bit(data, 5);
                assert(self.ran_extended(start, 0x6E)) by { reveal(execute_extended); }
            },
            0x6F => {
                let data: u8 = self.register.read_8(RegisterType8::A);
                self.bit(data, 5);
                assert(self.ran_extended(start, 0x6F)) by { reveal(execute_extended); }
            },
            0x70 => {
                let data: u8 = self.register.read_8(RegisterType8::B);
                self.bit(data, 6);
                assert(self.ran_extended(start, 0x70)) by { reveal(execute_extended); }
            },
            0x71 => {
                let data: u8 = self.register.read_8(RegisterType8::C);
                self.bit(data, 6);
                assert(self.ran_extended(start, 0x71)) by { reveal(execute_extended); }
            },
            0x72 => {
                let data: u8 = self.register.read_8(RegisterType8::D);
                self.bit(data, 6);
                assert(self.ran_extended(start, 0x72)) by { reveal(execute_extended); }
            },
            0x73 => {
                let data: u8 = self.register.read_8(RegisterType8::E);
                self.bit(data, 6);
                assert(self.ran_extended(start, 0x73)) by { reveal(execute_extended); }
            },
            0x74 => {
                let data: u8 = self.register.read_8(RegisterType8::H);
                self.bit(data, 6);
                assert(self.ran_extended(start, 0x74)) by { reveal(execute_extended); }
            },
            0x75 => {
                let data: u8 = self.register.read_8(RegisterType8::L);
                self.bit(data, 6);
                assert(self.ran_extended(start, 0x75)) by { reveal(execute_extended); }
            },
            0x76 => {
                let data: u8 = self.memory.read(self.register.read_16(RegisterType16::HL));
                self.bit(data, 6);
                assert(self.ran_extended(start, 0x76)) by { reveal(execute_extended); }
            },
            0x77 => {
                let data: u8 = self.register.read_8(RegisterType8::A);
                self.bit(data, 6);
                assert(self.ran_extended(start, 0x77)) by { reveal(execute_extended); }
            },
            0x78 => {
                let data: u8 = self.register.read_8(RegisterType8::B);
                self.bit(data, 7);
                assert(self.ran_extended(start, 0x78)) by { reveal(execute_extended); }
            },
            0x79 => {
                let data: u8 = self.register.read_8(RegisterType8::C);
                self.bit(data, 7);
                assert(self.ran_extended(start, 0x79)) by { reveal(execute_extended); }
            },
            0x7A => {
                let data: u8 = self.register.read_8(RegisterType8::D);
                self.bit(data, 7);
                assert(self.ran_extended(start, 0x7A)) by { reveal(execute_extended); }
            },
            0x7B => {
                let data: u8 = self.register.read_8(RegisterType8::E);
                self.bit(data, 7);
                assert(self.ran_extended(start, 0x7B)) by { reveal(execute_extended); }
            },
            0x7C => {
                let data: u8 = self.register.read_8(RegisterType8::H);
                self.bit(data, 7);
                assert(self.ran_extended(start, 0x7C)) by { reveal(execute_extended); }
            },
            0x7D => {
                let data: u8 = self.register.read_8(RegisterType8::L);
                self.bit(data, 7);
                assert(self.ran_extended(start, 0x7D)) by { reveal(execute_extended); }
            },
            0x7E => {
                let data: u8 = self.memory.read(self.register.read_16(RegisterType16::HL));
                self.bit(data, 7);
                assert(self.ran_extended(start, 0x7E)) by { reveal(execute_extended); }
            },
            0x7F => {
                let data: u8 = self.register.read_8(RegisterType8::A);
                self.bit(data, 7);
                assert(self.ran_extended(start, 0x7F)) by { reveal(execute_extended); }
            },
            // The slots of the other three quarters.
            _ => {},
        }
    }

    /// The third quarter of the extended table: the resets of one bit.
    #[verifier::rlimit(30)]
    fn res_op_codes(&mut self, opcode: u8)
        requires
            old(self).cycles + 8 <= u32::MAX,
            0x80 <= opcode <= 0xBF,
        ensures
            final(self)@ == execute_extended(old(self)@, opcode),
            final(self).cycles == old(self).cycles + 8,
    {
        let ghost start = self@;

        match opcode {
            0x80 => {
                self.res_r(RegisterType8::B, 0);
                assert(self.ran_extended(start, 0x80)) by { reveal(execute_extended); }
            },
            0x81 => {
                self.res_r(RegisterType8::C, 0);
                assert(self.ran_extended(start, 0x81)) by { reveal(execute_extended); }
            },
            0x82 => {
                self.res_r(RegisterType8::D, 0);
                assert(self.ran_extended(start, 0x82)) by { reveal(execute_extended); }
            },
            0x83 => {
                self.res_r(RegisterType8::E, 0);
                assert(self.ran_extended(start, 0x83)) by { reveal(execute_extended); }
            },
            0x84 => {
                self.res_r(RegisterType8::H, 0);
                assert(self.ran_extended(start, 0x84)) by { reveal(execute_extended); }
            },
            0x85 => {
                self.res_r(RegisterType8::L, 0);
                assert(self.ran_extended(start, 0x85)) by { reveal(execute_extended); }
            },
            0x86 => {
                self.res_hl_n(0);
                assert(self.ran_extended(start, 0x86)) by { reveal(execute_extended); }
            },
            0x87 => {
                self.res_r(RegisterType8::A, 0);
                assert(self.ran_extended(start, 0x87)) by { reveal(execute_extended); }
            },
            0x88 => {
                self.res_r(RegisterType8::B, 1);
                assert(self.ran_extended(start, 0x88)) by { reveal(execute_extended); }
            },
            0x89 => {
                self.res_r(RegisterType8::C, 1);
                assert(self.ran_extended(start, 0x89)) by { reveal(execute_extended); }
            },
            0x8A => {
                self.res_r(RegisterType8::D, 1);
                assert(self.ran_extended(start, 0x8A)) by { reveal(execute_extended); }
            },
            0x8B => {
                self.res_r(RegisterType8::E, 1);
                assert(self.ran_extended(start, 0x8B)) by { reveal(execute_extended); }
            },
            0x8C => {
                self.res_r(RegisterType8::H, 1);
                assert(self.ran_extended(start, 0x8C)) by { reveal(execute_extended); }
            },
            0x8D => {
                self.res_r(RegisterType8::L, 1);
                assert(self.ran_extended(start, 0x8D)) by { reveal(execute_extended); }
            },
            0x8E => {
                self.res_hl_n(1);
                assert(self.ran_extended(start, 0x8E)) by { reveal(execute_extended); }
            },
            0x8F => {
                self.res_r(RegisterType8::A, 1);
                assert(self.ran_extended(start, 0x8F)) by { reveal(execute_extended); }
            },
            0x90 => {
                self.res_r(RegisterType8::B, 2);
                assert(self.ran_extended(start, 0x90)) by { reveal(execute_extended); }
            },
            0x91 => {
                self.res_r(RegisterType8::C, 2);
                assert(self.ran_extended(start, 0x91)) by { reveal(execute_extended); }
            },
            0x92 => {
                self.res_r(RegisterType8::D, 2);
                assert(self.ran_extended(start, 0x92)) by { reveal(execute_extended); }
            },
            0x93 => {
                self.res_r(RegisterType8::E, 2);
                assert(self.ran_extended(start, 0x93)) by { reveal(execute_extended); }
            },
            0x94 => {
                self.res_r(RegisterType8::H, 2);
                assert(self.ran_extended(start, 0x94)) by { reveal(execute_extended); }
            },
            0x95 => {
                self.res_r(RegisterType8::L, 2);
                assert(self.ran_extended(start, 0x95)) by { reveal(execute_extended); }
            },
            0x96 => {
                self.res_hl_n(2);
                assert(self.ran_extended(start, 0x96)) by { reveal(execute_extended); }
            },
            0x97 => {
                self.res_r(RegisterType8::A, 2);
                assert(self.ran_extended(start, 0x97)) by { reveal(execute_extended); }
            },
            0x98 => {
                self.res_r(RegisterType8::B, 3);
                assert(self.ran_extended(start, 0x98)) by { reveal(execute_extended); }
            },
            0x99 => {
                self.res_r(RegisterType8::C, 3);
                assert(self.ran_extended(start, 0x99)) by { reveal(execute_extended); }
            },
            0x9A => {
                self.res_r(RegisterType8::D, 3);
                assert(self.ran_extended(start, 0x9A)) by { reveal(execute_extended); }
            },
            0x9B => {
                self.res_r(RegisterType8::E, 3);
                assert(self.ran_extended(start, 0x9B)) by { reveal(execute_extended); }
            },
            0x9C => {
                self.res_r(RegisterType8::H, 3);
                assert(self.ran_extended(start, 0x9C)) by { reveal(execute_extended); }
            },
            0x9D => {
                self.res_r(RegisterType8::L, 3);
                assert(self.ran_extended(start, 0x9D)) by { reveal(execute_extended); }
            },
            0x9E => {
                self.res_hl_n(3);
                assert(self.ran_extended(start, 0x9E)) by { reveal(execute_extended); }
            },
            0x9F => {
                self.res_r(RegisterType8::A, 3);
                assert(self.ran_extended(start, 0x9F)) by { reveal(execute_extended); }
            },
            0xA0 => {
                self.res_r(RegisterType8::B, 4);
                assert(self.ran_extended(start, 0xA0)) by { reveal(execute_extended); }
            },
            0xA1 => {
                self.res_r(RegisterType8::C, 4);
                assert(self.ran_extended(start, 0xA1)) by { reveal(execute_extended); }
            },
            0xA2 => {
                self.res_r(RegisterType8::D, 4);
                assert(self.ran_extended(start, 0xA2)) by { reveal(execute_extended); }
            },
            0xA3 => {
                self.res_r(RegisterType8::E, 4);
                assert(self.ran_extended(start, 0xA3)) by { reveal(execute_extended); }
            },
            0xA4 => {
                self.res_r(RegisterType8::H, 4);
                assert(self.ran_extended(start, 0xA4)) by { reveal(execute_extended); }
            },
            0xA5 => {
                self.res_r(RegisterType8::L, 4);
                assert(self.ran_extended(start, 0xA5)) by { reveal(execute_extended); }
            },
            0xA6 => {
                self.res_hl_n(4);
                assert(self.ran_extended(start, 0xA6)) by { reveal(execute_extended); }
            },
            0xA7 => {
                self.res_r(RegisterType8::A, 4);
                assert(self.ran_extended(start, 0xA7)) by { reveal(execute_extended); }
            },
            0xA8 => {
                self.res_r(RegisterType8::B, 5);
                assert(self.ran_extended(start, 0xA8)) by { reveal(execute_extended); }
            },
            0xA9 => {
                self.res_r(RegisterType8::C, 5);
                assert(self.ran_extended(start, 0xA9)) by { reveal(execute_extended); }
            },
            0xAA => {
                self.res_r(RegisterType8::D, 5);
                assert(self.ran_extended(start, 0xAA)) by { reveal(execute_extended); }
            },
            0xAB => {
                self.res_r(RegisterType8::E, 5);
                assert(self.ran_extended(start, 0xAB)) by { reveal(execute_extended); }
            },
            0xAC => {
                self.res_r(RegisterType8::H, 5);
                assert(self.ran_extended(start, 0xAC)) by { reveal(execute_extended); }
            },
            0xAD => {
                self.res_r(RegisterType8::L, 5);
                assert(self.ran_extended(start, 0xAD)) by { reveal(execute_extended); }
            },
            0xAE => {
                self.res_hl_n(5);
                assert(self.ran_extended(start, 0xAE)) by { reveal(execute_extended); }
            },
            0xAF => {
                self.res_r(RegisterType8::A, 5);
                assert(self.ran_extended(start, 0xAF)) by { reveal(execute_extended); }
            },
            0xB0 => {
                self.res_r(RegisterType8::B, 6);
                assert(self.ran_extended(start, 0xB0)) by { reveal(execute_extended); }
            },
            0xB1 => {
                self.res_r(RegisterType8::C, 6);
                assert(self.ran_extended(start, 0xB1)) by { reveal(execute_extended); }
            },
            0xB2 => {
                self.res_r(RegisterType8::D, 6);
                assert(self.ran_extended(start, 0xB2)) by { reveal(execute_extended); }
            },
            0xB3 => {
                self.res_r(RegisterType8::E, 6);
                assert(self.ran_extended(start, 0xB3)) by { reveal(execute_extended); }
            },
            0xB4 => {
                self.res_r(RegisterType8::H, 6);
                assert(self.ran_extended(start, 0xB4)) by { reveal(execute_extended); }
            },
            0xB5 => {
                self.res_r(RegisterType8::L, 6);
                assert(self.ran_extended(start, 0xB5)) by { reveal(execute_extended); }
            },
            0xB6 => {
                self.res_hl_n(6);
                assert(self.ran_extended(start, 0xB6)) by { reveal(execute_extended); }
            },
            0xB7 => {
                self.res_r(RegisterType8::A, 6);
                assert(self.ran_extended(start, 0xB7)) by { reveal(execute_extended); }
            },
            0xB8 => {
                self.res_r(RegisterType8::B, 7);
                assert(self.ran_extended(start, 0xB8)) by { reveal(execute_extended); }
            },
            0xB9 => {
                self.res_r(RegisterType8::C, 7);
                assert(self.ran_extended(start, 0xB9)) by { reveal(execute_extended); }
            },
            0xBA => {
                self.res_r(RegisterType8::D, 7);
                assert(self.ran_extended(start, 0xBA)) by { reveal(execute_extended); }
            },
            0xBB => {
                self.res_r(RegisterType8::E, 7);
                assert(self.ran_extended(start, 0xBB)) by { reveal(execute_extended); }
            },
            0xBC => {
                self.res_r(RegisterType8::H, 7);
                assert(self.ran_extended(start, 0xBC)) by { reveal(execute_extended); }
            },
            0xBD => {
                self.res_r(RegisterType8::L, 7);
                assert(self.ran_extended(start, 0xBD)) by { reveal(execute_extended); }
            },
            0xBE => {
                self.res_hl_n(7);
                assert(self.ran_extended(start, 0xBE)) by { reveal(execute_extended); }
            },
            0xBF => {
                self.res_r(RegisterType8::A, 7);
                assert(self.ran_extended(start, 0xBF)) by { reveal(execute_extended); }
            },
            // The slots of the other three quarters.
            _ => {},
        }
    }

    /// The last quarter of the extended table: the sets of one bit.
    #[verifier::rlimit(30)]
    fn set_op_codes(&mut self, opcode: u8)
        requires
            old(self).cycles + 8 <= u32::MAX,
            0xC0 <= opcode <= 0xFF,
        ensures
            final(self)@ == execute_extended(old(self)@, opcode),
            final(self).cycles == old(self).cycles + 8,
    {
        let ghost start = self@;

        match opcode {
            0xC0 => {
                self.set_r(RegisterType8::B, 0);
                assert(self.ran_extended(start, 0xC0)) by { reveal(execute_extended); }
            },
            0xC1 => {
                self.set_r(RegisterType8::C, 0);
                assert(self.ran_extended(start, 0xC1)) by { reveal(execute_extended); }
            },
            0xC2 => {
                self.set_r(RegisterType8::D, 0);
                assert(self.ran_extended(start, 0xC2)) by { reveal(execute_extended); }
            },
            0xC3 => {
                self.set_r(RegisterType8::E, 0);
                assert(self.ran_extended(start, 0xC3)) by { reveal(execute_extended); }
            },
            0xC4 => {
                self.set_r(RegisterType8::H, 0);
                assert(self.ran_extended(start, 0xC4)) by { reveal(execute_extended); }
            },
            0xC5 => {
                self.set_r(RegisterType8::L, 0);
                assert(self.ran_extended(start, 0xC5)) by { reveal(execute_extended); }
            },
            0xC6 => {
                self.set_hl_n(0);
                assert(self.ran_extended(start, 0xC6)) by { reveal(execute_extended); }
            },
            0xC7 => {
                self.set_r(RegisterType8::A, 0);
                assert(self.ran_extended(start, 0xC7)) by { reveal(execute_extended); }
            },
            0xC8 => {
                self.set_r(RegisterType8::B, 1);
                assert(self.ran_extended(start, 0xC8)) by { reveal(execute_extended); }
            },
            0xC9 => {
                self.set_r(RegisterType8::C, 1);
                assert(self.ran_extended(start, 0xC9)) by { reveal(execute_extended); }
            },
            0xCA => {
                self.set_r(RegisterType8::D, 1);
                assert(self.ran_extended(start, 0xCA)) by { reveal(execute_extended); }
            },
            0xCB => {
                self.set_r(RegisterType8::E, 1);
                assert(self.ran_extended(start, 0xCB)) by { reveal(execute_extended); }
            },
            0xCC => {
                self.set_r(RegisterType8::H, 1);
                assert(self.ran_extended(start, 0xCC)) by { reveal(execute_extended); }
            },
            0xCD => {
                self.set_r(RegisterType8::L, 1);
                assert(self.ran_extended(start, 0xCD)) by { reveal(execute_extended); }
            },
            0xCE => {
                self.set_hl_n(1);
                assert(self.ran_extended(start, 0xCE)) by { reveal(execute_extended); }
            },
            0xCF => {
                self.set_r(RegisterType8::A, 1);
                assert(self.ran_extended(start, 0xCF)) by { reveal(execute_extended); }
            },
            0xD0 => {
                self.set_r(RegisterType8::B, 2);
                assert(self.ran_extended(start, 0xD0)) by { reveal(execute_extended); }
            },
            0xD1 => {
                self.set_r(RegisterType8::C, 2);
                assert(self.ran_extended(start, 0xD1)) by { reveal(execute_extended); }
            },
            0xD2 => {
                self.set_r(RegisterType8::D, 2);
                assert(self.ran_extended(start, 0xD2)) by { reveal(execute_extended); }
            },
            0xD3 => {
                self.set_r(RegisterType8::E, 2);
                assert(self.ran_extended(start, 0xD3)) by { reveal(execute_extended); }
            },
            0xD4 => {
                self.set_r(RegisterType8::H, 2);
                assert(self.ran_extended(start, 0xD4)) by { reveal(execute_extended); }
            },
            0xD5 => {
                self.set_r(RegisterType8::L, 2);
                assert(self.ran_extended(start, 0xD5)) by { reveal(execute_extended); }
            },
            0xD6 => {
                self.set_hl_n(2);
                assert(self.ran_extended(start, 0xD6)) by { reveal(execute_extended); }
            },
            0xD7 => {
                self.set_r(RegisterType8::A, 2);
                assert(self.ran_extended(start, 0xD7)) by { reveal(execute_extended); }
            },
            0xD8 => {
                self.set_r(RegisterType8::B, 3);
                assert(self.ran_extended(start, 0xD8)) by { reveal(execute_extended); }
            },
            0xD9 => {
                self.set_r(RegisterType8::C, 3);
                assert(self.ran_extended(start, 0xD9)) by { reveal(execute_extended); }
            },
            0xDA => {
                self.set_r(RegisterType8::D, 3);
                assert(self.ran_extended(start, 0xDA)) by { reveal(execute_extended); }
            },
            0xDB => {
                self.set_r(RegisterType8::E, 3);
                assert(self.ran_extended(start, 0xDB)) by { reveal(execute_extended); }
            },
            0xDC => {
                self.set_r(RegisterType8::H, 3);
                assert(self.ran_extended(start, 0xDC)) by { reveal(execute_extended); }
            },
            0xDD => {
                self.set_r(RegisterType8::L, 3);
                assert(self.ran_extended(start, 0xDD)) by { reveal(execute_extended); }
            },
            0xDE => {
                self.set_hl_n(3);
                assert(self.ran_extended(start, 0xDE)) by { reveal(execute_extended); }
            },
            0xDF => {
                self.set_r(RegisterType8::A, 3);
                assert(self.ran_extended(start, 0xDF)) by { reveal(execute_extended); }
            },
            0xE0 => {
                self.set_r(RegisterType8::B, 4);
                assert(self.ran_extended(start, 0xE0)) by { reveal(execute_extended); }
            },
            0xE1 => {
                self.set_r(RegisterType8::C, 4);
                assert(self.ran_extended(start, 0xE1)) by { reveal(execute_extended); }
            },
            0xE2 => {
                self.set_r(RegisterType8::D, 4);
                assert(self.ran_extended(start, 0xE2)) by { reveal(execute_extended); }
            },
            0xE3 => {
                self.set_r(RegisterType8::E, 4);
                assert(self.ran_extended(start, 0xE3)) by { reveal(execute_extended); }
            },
            0xE4 => {
                self.set_r(RegisterType8::H, 4);
                assert(self.ran_extended(start, 0xE4)) by { reveal(execute_extended); }
            },
            0xE5 => {
                self.set_r(RegisterType8::L, 4);
                assert(self.ran_extended(start, 0xE5)) by { reveal(execute_extended); }
            },
            0xE6 => {
                self.set_hl_n(4);
                assert(self.ran_extended(start, 0xE6)) by { reveal(execute_extended); }
            },
            0xE7 => {
                self.set_r(RegisterType8::A, 4);
                assert(self.ran_extended(start, 0xE7)) by { reveal(execute_extended); }
            },
            0xE8 => {
                self.set_r(RegisterType8::B, 5);
                assert(self.ran_extended(start, 0xE8)) by { reveal(execute_extended); }
            },
            0xE9 => {
                self.set_r(RegisterType8::C, 5);
                assert(self.ran_extended(start, 0xE9)) by { reveal(execute_extended); }
            },
            0xEA => {
                self.set_r(RegisterType8::D, 5);
                assert(self.ran_extended(start, 0xEA)) by { reveal(execute_extended); }
            },
            0xEB => {
                self.set_r(RegisterType8::E, 5);
                assert(self.ran_extended(start, 0xEB)) by { reveal(execute_extended); }
            },
            0xEC => {
                self.set_r(RegisterType8::H, 5);
                assert(self.ran_extended(start, 0xEC)) by { reveal(execute_extended); }
            },
            0xED => {
                self.set_r(RegisterType8::L, 5);
                assert(self.ran_extended(start, 0xED)) by { reveal(execute_extended); }
            },
            0xEE => {
                self.set_hl_n(5);
                assert(self.ran_extended(start, 0xEE)) by { reveal(execute_extended); }
            },
            0xEF => {
                self.set_r(RegisterType8::A, 5);
                assert(self.ran_extended(start, 0xEF)) by { reveal(execute_extended); }
            },
            0xF0 => {
                self.set_r(RegisterType8::B, 6);
                assert(self.ran_extended(start, 0xF0)) by { reveal(execute_extended); }
            },
            0xF1 => {
                self.set_r(RegisterType8::C, 6);
                assert(self.ran_extended(start, 0xF1)) by { reveal(execute_extended); }
            },
            0xF2 => {
                self.set_r(RegisterType8::D, 6);
                assert(self.ran_extended(start, 0xF2)) by { reveal(execute_extended); }
            },
            0xF3 => {
                self.set_r(RegisterType8::E, 6);
                assert(self.ran_extended(start, 0xF3)) by { reveal(execute_extended); }
            },
            0xF4 => {
                self.set_r(RegisterType8::H, 6);
                assert(self.ran_extended(start, 0xF4)) by { reveal(execute_extended); }
            },
            0xF5 => {
                self.set_r(RegisterType8::L, 6);
                assert(self.ran_extended(start, 0xF5)) by { reveal(execute_extended); }
            },
            0xF6 => {
                self.set_hl_n(6);
                assert(self.ran_extended(start, 0xF6)) by { reveal(execute_extended); }
            },
            0xF7 => {
                self.set_r(RegisterType8::A, 6);
                assert(self.ran_extended(start, 0xF7)) by { reveal(execute_extended); }
            },
            0xF8 => {
                self.set_r(RegisterType8::B, 7);
                assert(self.ran_extended(start, 0xF8)) by { reveal(execute_extended); }
            },
            0xF9 => {
                self.set_r(RegisterType8::C, 7);
                assert(self.ran_extended(start, 0xF9)) by { reveal(execute_extended); }
            },
            0xFA => {
                self.set_r(RegisterType8::D, 7);
                assert(self.ran_extended(start, 0xFA)) by { reveal(execute_extended); }
            },
            0xFB => {
                self.set_r(RegisterType8::E, 7);
                assert(self.ran_extended(start, 0xFB)) by { reveal(execute_extended); }
            },
            0xFC => {
                self.set_r(RegisterType8::H, 7);
                assert(self.ran_extended(start, 0xFC)) by { reveal(execute_extended); }
            },
            0xFD => {
                self.set_r(RegisterType8::L, 7);
                assert(self.ran_extended(start, 0xFD)) by { reveal(execute_extended); }
            },
            0xFE => {
                self.set_hl_n(7);
                assert(self.ran_extended(start, 0xFE)) by { reveal(execute_extended); }
            },
            0xFF => {
                self.set_r(RegisterType8::A, 7);
                assert(self.ran_extended(start, 0xFF)) by { reveal(execute_extended); }
            },
            // The slots of the other three quarters.
            _ => {},
        }
    }

}

} // verus!
