//! The arithmetic and logic instructions on the accumulator, the 8-bit and
//! 16-bit increments and decrements, and the flag and decimal adjustments.
use vstd::prelude::*;
use crate::alu::{
    add_bytes, add_words, and_bytes, daa, lemma_byte_masks, or_bytes, subtract_bytes, xor_bytes,
    AluOut,
};
use crate::cpu::CPU;
use crate::flag_type::FlagType;
use crate::isa::{
    add_hl, alu, alu_a, complement_a, complement_carry, dec_operand, decimal_adjust, inc_operand,
    set_carry, with_pair_moved, AluOp,
};
use crate::machine::Operand;
use crate::register_type::{RegisterType16, RegisterType8};

verus! {

impl CPU {
    /// Writes a result to the accumulator and its flags to F.
    fn apply_to_a(&mut self, out: AluOut)
        ensures
            final(self)@ == old(self)@.with_reg(RegisterType8::A, out.value).with_flags(out.flags),
            final(self).cycles == old(self).cycles,
    {
        self.register.write_8(RegisterType8::A, out.value);
        self.write_flags(out.flags);
    }

    /// The byte that HL points at.
    fn read_indirect_hl(&self) -> (value: u8)
        ensures
            value == self@.get(Operand::IndirectHL),
    {
        self.memory.read(self.register.read_16(RegisterType16::HL))
    }

    pub(crate) fn add_a_r8(&mut self, r: RegisterType8)
        requires
            old(self).cycles + 4 <= u32::MAX,
        ensures
            final(self)@ == alu_a(old(self)@, AluOp::Add, old(self)@.reg(r)),
            final(self).cycles == old(self).cycles + 4,
    {
        proof {
            reveal(alu);
        }
        let a: u8 = self.register.read_8(RegisterType8::A);
        let register: u8 = self.register.read_8(r);
        let out: AluOut = add_bytes(a, register, false);

        self.apply_to_a(out);

        self.cycles += 4;
    }

    pub(crate) fn add_a_indirect_hl(&mut self)
        requires
            old(self).cycles + 8 <= u32::MAX,
        ensures
            final(self)@ == alu_a(old(self)@, AluOp::Add, old(self)@.get(Operand::IndirectHL)),
            final(self).cycles == old(self).cycles + 8,
    {
        proof {
            reveal(alu);
        }
        let a: u8 = self.register.read_8(RegisterType8::A);
        let value: u8 = self.read_indirect_hl();
        let out: AluOut = add_bytes(a, value, false);

        self.apply_to_a(out);

        self.cycles += 8;
    }

    pub(crate) fn add_a_n(&mut self)
        requires
            old(self).cycles + 8 <= u32::MAX,
        ensures
            final(self)@ == alu_a(old(self)@.after_fetch(), AluOp::Add, old(self)@.fetched()),
            final(self).cycles == old(self).cycles + 8,
    {
        proof {
            reveal(alu);
        }
        let a: u8 = self.register.read_8(RegisterType8::A);
        let value: u8 = self.increment_pc();
        let out: AluOut = add_bytes(a, value, false);

        self.apply_to_a(out);

        self.cycles += 8;
    }

    pub(crate) fn adc_a_r8(&mut self, r: RegisterType8)
        requires
            old(self).cycles + 4 <= u32::MAX,
        ensures
            final(self)@ == alu_a(old(self)@, AluOp::Adc, old(self)@.reg(r)),
            final(self).cycles == old(self).cycles + 4,
    {
        proof {
            reveal(alu);
        }
        let a: u8 = self.register.read_8(RegisterType8::A);
        let register: u8 = self.register.read_8(r);
        let carry: bool = self.register.read_flag(FlagType::Carry);
        let out: AluOut = add_bytes(a, register, carry);

        self.apply_to_a(out);

        self.cycles += 4;
    }

    pub(crate) fn adc_a_indirect_hl(&mut self)
        requires
            old(self).cycles + 8 <= u32::MAX,
        ensures
            final(self)@ == alu_a(old(self)@, AluOp::Adc, old(self)@.get(Operand::IndirectHL)),
            final(self).cycles == old(self).cycles + 8,
    {
        proof {
            reveal(alu);
        }
        let a: u8 = self.register.read_8(RegisterType8::A);
        let value: u8 = self.read_indirect_hl();
        let carry: bool = self.register.read_flag(FlagType::Carry);
        let out: AluOut = add_bytes(a, value, carry);

        self.apply_to_a(out);

        self.cycles += 8;
    }

    pub(crate) fn adc_a_n(&mut self)
        requires
            old(self).cycles + 8 <= u32::MAX,
        ensures
            final(self)@ == alu_a(old(self)@.after_fetch(), AluOp::Adc, old(self)@.fetched()),
            final(self).cycles == old(self).cycles + 8,
    {
        proof {
            reveal(alu);
        }
        let a: u8 = self.register.read_8(RegisterType8::A);
        let value: u8 = self.increment_pc();
        let carry: bool = self.register.read_flag(FlagType::Carry);
        let out: AluOut = add_bytes(a, value, carry);

        self.apply_to_a(out);

        self.cycles += 8;
    }

    pub(crate) fn sub_a_r8(&mut self, r: RegisterType8)
        requires
            old(self).cycles + 4 <= u32::MAX,
        ensures
            final(self)@ == alu_a(old(self)@, AluOp::Sub, old(self)@.reg(r)),
            final(self).cycles == old(self).cycles + 4,
    {
        proof {
            reveal(alu);
        }
        let a: u8 = self.register.read_8(RegisterType8::A);
        let register: u8 = self.register.read_8(r);
        let out: AluOut = subtract_bytes(a, register, false);

        self.apply_to_a(out);

        self.cycles += 4;
    }

    pub(crate) fn sub_a_indirect_hl(&mut self)
        requires
            old(self).cycles + 8 <= u32::MAX,
        ensures
            final(self)@ == alu_a(old(self)@, AluOp::Sub, old(self)@.get(Operand::IndirectHL)),
            final(self).cycles == old(self).cycles + 8,
    {
        proof {
            reveal(alu);
        }
        let a: u8 = self.register.read_8(RegisterType8::A);
        let value: u8 = self.read_indirect_hl();
        let out: AluOut = subtract_bytes(a, value, false);

        self.apply_to_a(out);

        self.cycles += 8;
    }

    pub(crate) fn sub_a_n(&mut self)
        requires
            old(self).cycles + 8 <= u32::MAX,
        ensures
            final(self)@ == alu_a(old(self)@.after_fetch(), AluOp::Sub, old(self)@.fetched()),
            final(self).cycles == old(self).cycles + 8,
    {
        proof {
            reveal(alu);
        }
        let a: u8 = self.register.read_8(RegisterType8::A);
        let value: u8 = self.increment_pc();
        let out: AluOut = subtract_bytes(a, value, false);

        self.apply_to_a(out);

        self.cycles += 8;
    }

    pub(crate) fn sbc_a_r8(&mut self, r: RegisterType8)
        requires
            old(self).cycles + 4 <= u32::MAX,
        ensures
            final(self)@ == alu_a(old(self)@, AluOp::Sbc, old(self)@.reg(r)),
            final(self).cycles == old(self).cycles + 4,
    {
        proof {
            reveal(alu);
        }
        let a: u8 = self.register.read_8(RegisterType8::A);
        let register: u8 = self.register.read_8(r);
        let carry: bool = self.register.read_flag(FlagType::Carry);
        let out: AluOut = subtract_bytes(a, register, carry);

        self.apply_to_a(out);

        self.cycles += 4;
    }

    pub(crate) fn sbc_a_indirect_hl(&mut self)
        requires
            old(self).cycles + 8 <= u32::MAX,
        ensures
            final(self)@ == alu_a(old(self)@, AluOp::Sbc, old(self)@.get(Operand::IndirectHL)),
            final(self).cycles == old(self).cycles + 8,
    {
        proof {
            reveal(alu);
        }
        let a: u8 = self.register.read_8(RegisterType8::A);
        let value: u8 = self.read_indirect_hl();
        let carry: bool = self.register.read_flag(FlagType::Carry);
        let out: AluOut = subtract_bytes(a, value, carry);

        self.apply_to_a(out);

        self.cycles += 8;
    }

    pub(crate) fn sbc_a_n(&mut self)
        requires
            old(self).cycles + 8 <= u32::MAX,
        ensures
            final(self)@ == alu_a(old(self)@.after_fetch(), AluOp::Sbc, old(self)@.fetched()),
            final(self).cycles == old(self).cycles + 8,
    {
        proof {
            reveal(alu);
        }
        let a: u8 = self.register.read_8(RegisterType8::A);
        let value: u8 = self.increment_pc();
        let carry: bool = self.register.read_flag(FlagType::Carry);
        let out: AluOut = subtract_bytes(a, value, carry);

        self.apply_to_a(out);

        self.cycles += 8;
    }

    pub(crate) fn and_a_r8(&mut self, r: RegisterType8)
        requires
            old(self).cycles + 4 <= u32::MAX,
        ensures
            final(self)@ == alu_a(old(self)@, AluOp::And, old(self)@.reg(r)),
            final(self).cycles == old(self).cycles + 4,
    {
        proof {
            reveal(alu);
        }
        let a: u8 = self.register.read_8(RegisterType8::A);
        let register: u8 = self.register.read_8(r);
        let out: AluOut = and_bytes(a, register);

        self.apply_to_a(out);

        self.cycles += 4;
    }

    pub(crate) fn and_a_indirect_hl(&mut self)
        requires
            old(self).cycles + 8 <= u32::MAX,
        ensures
            final(self)@ == alu_a(old(self)@, AluOp::And, old(self)@.get(Operand::IndirectHL)),
            final(self).cycles == old(self).cycles + 8,
    {
        proof {
            reveal(alu);
        }
        let a: u8 = self.register.read_8(RegisterType8::A);
        let value: u8 = self.read_indirect_hl();
        let out: AluOut = and_bytes(a, value);

        self.apply_to_a(out);

        self.cycles += 8;
    }

    pub(crate) fn and_a_n(&mut self)
        requires
            old(self).cycles + 8 <= u32::MAX,
        ensures
            final(self)@ == alu_a(old(self)@.after_fetch(), AluOp::And, old(self)@.fetched()),
            final(self).cycles == old(self).cycles + 8,
    {
        proof {
            reveal(alu);
        }
        let a: u8 = self.register.read_8(RegisterType8::A);
        let value: u8 = self.increment_pc();
        let out: AluOut = and_bytes(a, value);

        self.apply_to_a(out);

        self.cycles += 8;
    }

    pub(crate) fn or_a_r8(&mut self, r: RegisterType8)
        requires
            old(self).cycles + 4 <= u32::MAX,
        ensures
            final(self)@ == alu_a(old(self)@, AluOp::Or, old(self)@.reg(r)),
            final(self).cycles == old(self).cycles + 4,
    {
        proof {
            reveal(alu);
        }
        let a: u8 = self.register.read_8(RegisterType8::A);
        let register: u8 = self.register.read_8(r);
        let out: AluOut = or_bytes(a, register);

        self.apply_to_a(out);

        self.cycles += 4;
    }

    pub(crate) fn or_a_indirect_hl(&mut self)
        requires
            old(self).cycles + 8 <= u32::MAX,
        ensures
            final(self)@ == alu_a(old(self)@, AluOp::Or, old(self)@.get(Operand::IndirectHL)),
            final(self).cycles == old(self).cycles + 8,
    {
        proof {
            reveal(alu);
        }
        let a: u8 = self.register.read_8(RegisterType8::A);
        let value: u8 = self.read_indirect_hl();
        let out: AluOut = or_bytes(a, value);

        self.apply_to_a(out);

        self.cycles += 8;
    }

    pub(crate) fn or_a_n(&mut self)
        requires
            old(self).cycles + 8 <= u32::MAX,
        ensures
            final(self)@ == alu_a(old(self)@.after_fetch(), AluOp::Or, old(self)@.fetched()),
            final(self).cycles == old(self).cycles + 8,
    {
        proof {
            reveal(alu);
        }
        let a: u8 = self.register.read_8(RegisterType8::A);
        let value: u8 = self.increment_pc();
        let out: AluOut = or_bytes(a, value);

        self.apply_to_a(out);

        self.cycles += 8;
    }

    pub(crate) fn xor_a_r8(&mut self, r: RegisterType8)
        requires
            old(self).cycles + 4 <= u32::MAX,
        ensures
            final(self)@ == alu_a(old(self)@, AluOp::Xor, old(self)@.reg(r)),
            final(self).cycles == old(self).cycles + 4,
    {
        proof {
            reveal(alu);
        }
        let a: u8 = self.register.read_8(RegisterType8::A);
        let register: u8 = self.register.read_8(r);
        let out: AluOut = xor_bytes(a, register);

        self.apply_to_a(out);

        self.cycles += 4;
    }

    pub(crate) fn xor_a_indirect_hl(&mut self)
        requires
            old(self).cycles + 8 <= u32::MAX,
        ensures
            final(self)@ == alu_a(old(self)@, AluOp::Xor, old(self)@.get(Operand::IndirectHL)),
            final(self).cycles == old(self).cycles + 8,
    {
        proof {
            reveal(alu);
        }
        let a: u8 = self.register.read_8(RegisterType8::A);
        let value: u8 = self.read_indirect_hl();
        let out: AluOut = xor_bytes(a, value);

        self.apply_to_a(out);

        self.cycles += 8;
    }

    pub(crate) fn xor_a_n(&mut self)
        requires
            old(self).cycles + 8 <= u32::MAX,
        ensures
            final(self)@ == alu_a(old(self)@.after_fetch(), AluOp::Xor, old(self)@.fetched()),
            final(self).cycles == old(self).cycles + 8,
    {
        proof {
            reveal(alu);
        }
        let a: u8 = self.register.read_8(RegisterType8::A);
        let value: u8 = self.increment_pc();
        let out: AluOut = xor_bytes(a, value);

        self.apply_to_a(out);

        self.cycles += 8;
    }

    pub(crate) fn cp_r8(&mut self, r: RegisterType8)
        requires
            old(self).cycles + 4 <= u32::MAX,
        ensures
            final(self)@ == alu_a(old(self)@, AluOp::Cp, old(self)@.reg(r)),
            final(self).cycles == old(self).cycles + 4,
    {
        proof {
            reveal(alu);
        }
        let a: u8 = self.register.read_8(RegisterType8::A);
        let register: u8 = self.register.read_8(r);
        let out: AluOut = subtract_bytes(a, register, false);

        self.write_flags(out.flags);

        self.cycles += 4;
    }

    pub(crate) fn cp_indirect_hl(&mut self)
        requires
            old(self).cycles + 8 <= u32::MAX,
        ensures
            final(self)@ == alu_a(old(self)@, AluOp::Cp, old(self)@.get(Operand::IndirectHL)),
            final(self).cycles == old(self).cycles + 8,
    {
        proof {
            reveal(alu);
        }
        let a: u8 = self.register.read_8(RegisterType8::A);
        let register: u8 = self.read_indirect_hl();
        let out: AluOut = subtract_bytes(a, register, false);

        self.write_flags(out.flags);

        self.cycles += 8;
    }

    pub(crate) fn cp_n(&mut self)
        requires
            old(self).cycles + 8 <= u32::MAX,
        ensures
            final(self)@ == alu_a(old(self)@.after_fetch(), AluOp::Cp, old(self)@.fetched()),
            final(self).cycles == old(self).cycles + 8,
    {
        proof {
            reveal(alu);
        }
        let a: u8 = self.register.read_8(RegisterType8::A);
        let register: u8 = self.increment_pc();
        let out: AluOut = subtract_bytes(a, register, false);

        self.write_flags(out.flags);

        self.cycles += 8;
    }

    pub(crate) fn add_hl_r16(&mut self, r: RegisterType16)
        requires
            old(self).cycles + 4 <= u32::MAX,
        ensures
            final(self)@ == add_hl(old(self)@, r),
            final(self).cycles == old(self).cycles + 4,
    {
        let hl: u16 = self.register.read_16(RegisterType16::HL);
        let register: u16 = self.register.read_16(r);
        let (result, half_carry, did_overflow): (u16, bool, bool) = add_words(hl, register);

        self.register.write_16(RegisterType16::HL, result);

        self.register.write_flag(FlagType::Subtraction, false);
        self.register.write_flag(FlagType::Carry, did_overflow);
        self.register.write_flag(FlagType::HalfCarry, half_carry);

        self.cycles += 4;
    }

    pub(crate) fn inc_r8(&mut self, r: RegisterType8)
        ensures
            final(self)@ == inc_operand(old(self)@, Operand::Register(r)),
            final(self).cycles == old(self).cycles,
    {
        let register: u8 = self.register.read_8(r);
        let result: u8 = register.wrapping_add(1);
        proof {
            lemma_byte_masks(register);
        }

        self.register.write_8(r, result);

        self.register.write_flag(FlagType::Zero, result == 0);
        self.register.write_flag(FlagType::Subtraction, false);
        self.register.write_flag(FlagType::HalfCarry, (register & 0xF) + 1 > 0xF);
    }

    pub(crate) fn inc_r16(&mut self, r: RegisterType16)
        requires
            old(self).cycles + 8 <= u32::MAX,
        ensures
            final(self)@ == with_pair_moved(old(self)@, r, 1),
            final(self).cycles == old(self).cycles + 8,
    {
        let register: u16 = self.register.read_16(r);
        let result: u16 = register.wrapping_add(1);

        self.register.write_16(r, result);

        self.cycles += 8;
    }

    pub(crate) fn inc_indirect_hl(&mut self)
        ensures
            final(self)@ == inc_operand(old(self)@, Operand::IndirectHL),
            final(self).cycles == old(self).cycles,
    {
        let location: u16 = self.register.read_16(RegisterType16::HL);
        let register: u8 = self.memory.read(location);
        let result: u8 = register.wrapping_add(1);
        proof {
            lemma_byte_masks(register);
        }

        self.memory.write(location, result);

        self.register.write_flag(FlagType::Zero, result == 0);
        self.register.write_flag(FlagType::Subtraction, false);
        self.register.write_flag(FlagType::HalfCarry, (register & 0xF) + 1 > 0xF);
    }

    pub(crate) fn dec_r8(&mut self, r: RegisterType8)
        ensures
            final(self)@ == dec_operand(old(self)@, Operand::Register(r)),
            final(self).cycles == old(self).cycles,
    {
        let register: u8 = self.register.read_8(r);
        let result: u8 = register.wrapping_sub(1);
        proof {
            lemma_byte_masks(register);
        }

        self.register.write_8(r, result);

        self.register.write_flag(FlagType::Zero, result == 0);
        self.register.write_flag(FlagType::Subtraction, true);
        self.register.write_flag(FlagType::HalfCarry, (register & 0xF) < 1);
    }

    pub(crate) fn dec_r16(&mut self, r: RegisterType16)
        ensures
            final(self)@ == with_pair_moved(old(self)@, r, -1),
            final(self).cycles == old(self).cycles,
    {
        let register: u16 = self.register.read_16(r);
        let result: u16 = register.wrapping_sub(1);

        self.register.write_16(r, result);
    }

    pub(crate) fn dec_indirect_hl(&mut self)
        ensures
            final(self)@ == dec_operand(old(self)@, Operand::IndirectHL),
            final(self).cycles == old(self).cycles,
    {
        let location: u16 = self.register.read_16(RegisterType16::HL);
        let register: u8 = self.memory.read(location);
        let result: u8 = register.wrapping_sub(1);
        proof {
            lemma_byte_masks(register);
        }

        self.memory.write(location, result);

        self.register.write_flag(FlagType::Zero, result == 0);
        self.register.write_flag(FlagType::Subtraction, true);
        self.register.write_flag(FlagType::HalfCarry, (register & 0xF) < 1);
    }

    pub(crate) fn ccf(&mut self)
        requires
            old(self).cycles + 4 <= u32::MAX,
        ensures
            final(self)@ == complement_carry(old(self)@),
            final(self).cycles == old(self).cycles + 4,
    {
        self.register.write_flag(FlagType::Subtraction, false);
        self.register.write_flag(FlagType::HalfCarry, false);

        if self.register.read_flag(FlagType::Carry) {
            self.register.write_flag(FlagType::Carry, false);
        } else {
            self.register.write_flag(FlagType::Carry, true);
        }

        self.cycles += 4;
    }

    pub(crate) fn scf(&mut self)
        requires
            old(self).cycles + 4 <= u32::MAX,
        ensures
            final(self)@ == set_carry(old(self)@),
            final(self).cycles == old(self).cycles + 4,
    {
        self.register.write_flag(FlagType::Subtraction, false);
        self.register.write_flag(FlagType::HalfCarry, false);
        self.register.write_flag(FlagType::Carry, true);

        self.cycles += 4;
    }

    pub(crate) fn daa(&mut self)
        requires
            old(self).cycles + 4 <= u32::MAX,
        ensures
            final(self)@ == decimal_adjust(old(self)@),
            final(self).cycles == old(self).cycles + 4,
    {
        let neg_flag: bool = self.register.read_flag(FlagType::Subtraction);
        let carry_flag: bool = self.register.read_flag(FlagType::Carry);
        let halfcarry_flag: bool = self.register.read_flag(FlagType::HalfCarry);

        let mut carry: bool = false;
        let mut a: u8 = self.register.read_8(RegisterType8::A);
        let ghost before = a;
        let ghost flags = old(self)@.regs.flags;

        if !neg_flag {
            if carry_flag || a > 0x99 {
                a = a.wrapping_add(0x60);
                carry = true;
            }
            proof {
                lemma_byte_masks(a);
                lemma_byte_masks(before);
                assert(a % 16 == before % 16);
            }
            if halfcarry_flag || a & 0x0F > 0x09 {
                a = a.wrapping_add(0x06);
            }
        } else if carry_flag {
            carry = true;
            a = if halfcarry_flag {
                a.wrapping_add(0x9a)
            } else {
                a.wrapping_add(0xa0)
            };
        } else if halfcarry_flag {
            a = a.wrapping_add(0xfa);
        }
        assert(a == daa(before, flags).value && carry == daa(before, flags).flags.carry);
        self.register.write_8(RegisterType8::A, a);

        self.register.write_flag(FlagType::Zero, a == 0);
        self.register.write_flag(FlagType::HalfCarry, false);
        self.register.write_flag(FlagType::Carry, carry);

        self.cycles += 4;
    }

    pub(crate) fn cpl(&mut self)
        ensures
            final(self)@ == complement_a(old(self)@),
            final(self).cycles == old(self).cycles,
    {
        let a: u8 = self.register.read_8(RegisterType8::A);
        self.register.write_8(RegisterType8::A, !a);

        self.register.write_flag(FlagType::Subtraction, true);
        self.register.write_flag(FlagType::HalfCarry, true);
    }
}

} // verus!
