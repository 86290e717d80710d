//! The instructions of the extended table: rotations and shifts, nibble
//! exchange, and the test, reset and set of single bits; and the four
//! rotations of the accumulator from the primary table.
use vstd::prelude::*;
use crate::alu::{get_bit, rotate, set_bit, AluOut, Rotation};
use crate::cpu::CPU;
use crate::flag_type::FlagType;
use crate::isa::{bit_test, change_bit, rotate_a, rotate_operand};
use crate::machine::Operand;
use crate::register_type::{RegisterType16, RegisterType8};
use crate::registers::Flags;

verus! {

impl CPU {
    pub(crate) fn shift_left_r(&mut self, r: RegisterType8)
        requires
            old(self).cycles + 8 <= u32::MAX,
        ensures
            final(self)@ == rotate_operand(old(self)@, Rotation::ShiftLeft, Operand::Register(r)),
            final(self).cycles == old(self).cycles + 8,
    {
        let carry: bool = self.register.read_flag(FlagType::Carry);
        let register: u8 = self.register.read_8(r);
        let out: AluOut = rotate(Rotation::ShiftLeft, register, carry);

        self.register.write_8(r, out.value);

        self.write_flags(out.flags);

        self.cycles += 8;
    }

    pub(crate) fn shift_left_hl_n(&mut self)
        requires
            old(self).cycles + 8 <= u32::MAX,
        ensures
            final(self)@ == rotate_operand(old(self)@, Rotation::ShiftLeft, Operand::IndirectHL),
            final(self).cycles == old(self).cycles + 8,
    {
        let carry: bool = self.register.read_flag(FlagType::Carry);
        let location: u16 = self.register.read_16(RegisterType16::HL);
        let value: u8 = self.memory.read(location);
        let out: AluOut = rotate(Rotation::ShiftLeft, value, carry);

        self.memory.write(location, out.value);

        self.write_flags(out.flags);

        self.cycles += 8;
    }

    pub(crate) fn shift_right_r(&mut self, r: RegisterType8)
        requires
            old(self).cycles + 8 <= u32::MAX,
        ensures
            final(self)@ == rotate_operand(old(self)@, Rotation::ShiftRight, Operand::Register(r)),
            final(self).cycles == old(self).cycles + 8,
    {
        let carry: bool = self.register.read_flag(FlagType::Carry);
        let register: u8 = self.register.read_8(r);
        let out: AluOut = rotate(Rotation::ShiftRight, register, carry);

        self.register.write_8(r, out.value);

        self.write_flags(out.flags);

        self.cycles += 8;
    }

    pub(crate) fn shift_right_hl_n(&mut self)
        requires
            old(self).cycles + 8 <= u32::MAX,
        ensures
            final(self)@ == rotate_operand(old(self)@, Rotation::ShiftRight, Operand::IndirectHL),
            final(self).cycles == old(self).cycles + 8,
    {
        let carry: bool = self.register.read_flag(FlagType::Carry);
        let location: u16 = self.register.read_16(RegisterType16::HL);
        let value: u8 = self.memory.read(location);
        let out: AluOut = rotate(Rotation::ShiftRight, value, carry);

        self.memory.write(location, out.value);

        self.write_flags(out.flags);

        self.cycles += 8;
    }

    pub(crate) fn shift_right_a_r(&mut self, r: RegisterType8)
        requires
            old(self).cycles + 8 <= u32::MAX,
        ensures
            final(self)@ == rotate_operand(old(self)@, Rotation::ShiftRightArithmetic, Operand::Register(r)),
            final(self).cycles == old(self).cycles + 8,
    {
        let carry: bool = self.register.read_flag(FlagType::Carry);
        let register: u8 = self.register.read_8(r);
        let out: AluOut = rotate(Rotation::ShiftRightArithmetic, register, carry);

        self.register.write_8(r, out.value);

        self.write_flags(out.flags);

        self.cycles += 8;
    }

    pub(crate) fn shift_right_a_hl_n(&mut self)
        requires
            old(self).cycles + 8 <= u32::MAX,
        ensures
            final(self)@ == rotate_operand(old(self)@, Rotation::ShiftRightArithmetic, Operand::IndirectHL),
            final(self).cycles == old(self).cycles + 8,
    {
        let carry: bool = self.register.read_flag(FlagType::Carry);
        let location: u16 = self.register.read_16(RegisterType16::HL);
        let value: u8 = self.memory.read(location);
        let out: AluOut = rotate(Rotation::ShiftRightArithmetic, value, carry);

        self.memory.write(location, out.value);

        self.write_flags(out.flags);

        self.cycles += 8;
    }

    pub(crate) fn rotate_right_r(&mut self, r: RegisterType8)
        requires
            old(self).cycles + 8 <= u32::MAX,
        ensures
            final(self)@ == rotate_operand(old(self)@, Rotation::Right, Operand::Register(r)),
            final(self).cycles == old(self).cycles + 8,
    {
        let carry: bool = self.register.read_flag(FlagType::Carry);
        let register: u8 = self.register.read_8(r);
        let out: AluOut = rotate(Rotation::Right, register, carry);

        self.register.write_8(r, out.value);

        self.write_flags(out.flags);

        self.cycles += 8;
    }

    pub(crate) fn rotate_right_hl_n(&mut self)
        requires
            old(self).cycles + 8 <= u32::MAX,
        ensures
            final(self)@ == rotate_operand(old(self)@, Rotation::Right, Operand::IndirectHL),
            final(self).cycles == old(self).cycles + 8,
    {
        let carry: bool = self.register.read_flag(FlagType::Carry);
        let location: u16 = self.register.read_16(RegisterType16::HL);
        let value: u8 = self.memory.read(location);
        let out: AluOut = rotate(Rotation::Right, value, carry);

        self.memory.write(location, out.value);

        self.write_flags(out.flags);

        self.cycles += 8;
    }

    pub(crate) fn rotate_right_carry_r(&mut self, r: RegisterType8)
        requires
            old(self).cycles + 8 <= u32::MAX,
        ensures
            final(self)@ == rotate_operand(old(self)@, Rotation::RightCircular, Operand::Register(r)),
            final(self).cycles == old(self).cycles + 8,
    {
        let carry: bool = self.register.read_flag(FlagType::Carry);
        let register: u8 = self.register.read_8(r);
        let out: AluOut = rotate(Rotation::RightCircular, register, carry);

        self.register.write_8(r, out.value);

        self.write_flags(out.flags);

        self.cycles += 8;
    }

    pub(crate) fn rotate_right_carry_hl_n(&mut self)
        requires
            old(self).cycles + 8 <= u32::MAX,
        ensures
            final(self)@ == rotate_operand(old(self)@, Rotation::RightCircular, Operand::IndirectHL),
            final(self).cycles == old(self).cycles + 8,
    {
        let carry: bool = self.register.read_flag(FlagType::Carry);
        let location: u16 = self.register.read_16(RegisterType16::HL);
        let value: u8 = self.memory.read(location);
        let out: AluOut = rotate(Rotation::RightCircular, value, carry);

        self.memory.write(location, out.value);

        self.write_flags(out.flags);

        self.cycles += 8;
    }

    pub(crate) fn rotate_left_r(&mut self, r: RegisterType8)
        requires
            old(self).cycles + 8 <= u32::MAX,
        ensures
            final(self)@ == rotate_operand(old(self)@, Rotation::Left, Operand::Register(r)),
            final(self).cycles == old(self).cycles + 8,
    {
        let carry: bool = self.register.read_flag(FlagType::Carry);
        let register: u8 = self.register.read_8(r);
        let out: AluOut = rotate(Rotation::Left, register, carry);

        self.register.write_8(r, out.value);

        self.write_flags(out.flags);

        self.cycles += 8;
    }

    pub(crate) fn rotate_left_hl_n(&mut self)
        requires
            old(self).cycles + 8 <= u32::MAX,
        ensures
            final(self)@ == rotate_operand(old(self)@, Rotation::Left, Operand::IndirectHL),
            final(self).cycles == old(self).cycles + 8,
    {
        let carry: bool = self.register.read_flag(FlagType::Carry);
        let location: u16 = self.register.read_16(RegisterType16::HL);
        let value: u8 = self.memory.read(location);
        let out: AluOut = rotate(Rotation::Left, value, carry);

        self.memory.write(location, out.value);

        self.write_flags(out.flags);

        self.cycles += 8;
    }

    pub(crate) fn rotate_left_carry_r(&mut self, r: RegisterType8)
        requires
            old(self).cycles + 8 <= u32::MAX,
        ensures
            final(self)@ == rotate_operand(old(self)@, Rotation::LeftCircular, Operand::Register(r)),
            final(self).cycles == old(self).cycles + 8,
    {
        let carry: bool = self.register.read_flag(FlagType::Carry);
        let register: u8 = self.register.read_8(r);
        let out: AluOut = rotate(Rotation::LeftCircular, register, carry);

        self.register.write_8(r, out.value);

        self.write_flags(out.flags);

        self.cycles += 8;
    }

    pub(crate) fn rotate_left_carry_hl_n(&mut self)
        requires
            old(self).cycles + 8 <= u32::MAX,
        ensures
            final(self)@ == rotate_operand(old(self)@, Rotation::LeftCircular, Operand::IndirectHL),
            final(self).cycles == old(self).cycles + 8,
    {
        let carry: bool = self.register.read_flag(FlagType::Carry);
        let location: u16 = self.register.read_16(RegisterType16::HL);
        let value: u8 = self.memory.read(location);
        let out: AluOut = rotate(Rotation::LeftCircular, value, carry);

        self.memory.write(location, out.value);

        self.write_flags(out.flags);

        self.cycles += 8;
    }

    pub(crate) fn swap_r(&mut self, r: RegisterType8)
        requires
            old(self).cycles + 8 <= u32::MAX,
        ensures
            final(self)@ == rotate_operand(old(self)@, Rotation::Swap, Operand::Register(r)),
            final(self).cycles == old(self).cycles + 8,
    {
        let carry: bool = self.register.read_flag(FlagType::Carry);
        let register: u8 = self.register.read_8(r);
        let out: AluOut = rotate(Rotation::Swap, register, carry);

        self.register.write_8(r, out.value);

        self.write_flags(out.flags);

        self.cycles += 8;
    }

    pub(crate) fn swap_hl_n(&mut self)
        requires
            old(self).cycles + 8 <= u32::MAX,
        ensures
            final(self)@ == rotate_operand(old(self)@, Rotation::Swap, Operand::IndirectHL),
            final(self).cycles == old(self).cycles + 8,
    {
        let carry: bool = self.register.read_flag(FlagType::Carry);
        let location: u16 = self.register.read_16(RegisterType16::HL);
        let value: u8 = self.memory.read(location);
        let out: AluOut = rotate(Rotation::Swap, value, carry);

        self.memory.write(location, out.value);

        self.write_flags(out.flags);

        self.cycles += 8;
    }

    pub(crate) fn rotate_right_a(&mut self)
        requires
            old(self).cycles + 8 <= u32::MAX,
        ensures
            final(self)@ == rotate_a(old(self)@, Rotation::Right),
            final(self).cycles == old(self).cycles + 8,
    {
        let carry: bool = self.register.read_flag(FlagType::Carry);
        let register: u8 = self.register.read_8(RegisterType8::A);
        let out: AluOut = rotate(Rotation::Right, register, carry);

        self.register.write_8(RegisterType8::A, out.value);

        self.write_flags(Flags { zero: false, ..out.flags });

        self.cycles += 8;
    }

    pub(crate) fn rotate_right_carry_a(&mut self)
        requires
            old(self).cycles + 8 <= u32::MAX,
        ensures
            final(self)@ == rotate_a(old(self)@, Rotation::RightCircular),
            final(self).cycles == old(self).cycles + 8,
    {
        let carry: bool = self.register.read_flag(FlagType::Carry);
        let register: u8 = self.register.read_8(RegisterType8::A);
        let out: AluOut = rotate(Rotation::RightCircular, register, carry);

        self.register.write_8(RegisterType8::A, out.value);

        self.write_flags(Flags { zero: false, ..out.flags });

        self.cycles += 8;
    }

    pub(crate) fn rotate_left_a(&mut self)
        requires
            old(self).cycles + 8 <= u32::MAX,
        ensures
            final(self)@ == rotate_a(old(self)@, Rotation::Left),
            final(self).cycles == old(self).cycles + 8,
    {
        let carry: bool = self.register.read_flag(FlagType::Carry);
        let register: u8 = self.register.read_8(RegisterType8::A);
        let out: AluOut = rotate(Rotation::Left, register, carry);

        self.register.write_8(RegisterType8::A, out.value);

        self.write_flags(Flags { zero: false, ..out.flags });

        self.cycles += 8;
    }

    pub(crate) fn rotate_left_carry_a(&mut self)
        requires
            old(self).cycles + 8 <= u32::MAX,
        ensures
            final(self)@ == rotate_a(old(self)@, Rotation::LeftCircular),
            final(self).cycles == old(self).cycles + 8,
    {
        let carry: bool = self.register.read_flag(FlagType::Carry);
        let register: u8 = self.register.read_8(RegisterType8::A);
        let out: AluOut = rotate(Rotation::LeftCircular, register, carry);

        self.register.write_8(RegisterType8::A, out.value);

        self.write_flags(Flags { zero: false, ..out.flags });

        self.cycles += 8;
    }

    pub(crate) fn bit(&mut self, data: u8, bit: u8)
        requires
            old(self).cycles + 8 <= u32::MAX,
            bit < 8,
        ensures
            final(self)@ == bit_test(old(self)@, data, bit),
            final(self).cycles == old(self).cycles + 8,
    {
        let bit: bool = !get_bit(data, bit);
        self.register.write_flag(FlagType::Zero, bit);
        self.register.write_flag(FlagType::Subtraction, false);
        self.register.write_flag(FlagType::HalfCarry, true);

        self.cycles += 8;
    }

    pub(crate) fn res_r(&mut self, register: RegisterType8, bit: u8)
        requires
            old(self).cycles + 8 <= u32::MAX,
            bit < 8,
        ensures
            final(self)@ == change_bit(old(self)@, Operand::Register(register), bit, false),
            final(self).cycles == old(self).cycles + 8,
    {
        let mut value: u8 = self.register.read_8(register);
        value = set_bit(value, bit, false);
        self.register.write_8(register, value);

        self.cycles += 8;
    }

    pub(crate) fn res_hl_n(&mut self, bit: u8)
        requires
            old(self).cycles + 8 <= u32::MAX,
            bit < 8,
        ensures
            final(self)@ == change_bit(old(self)@, Operand::IndirectHL, bit, false),
            final(self).cycles == old(self).cycles + 8,
    {
        let location: u16 = self.register.read_16(RegisterType16::HL);
        let mut value: u8 = self.memory.read(location);
        value = set_bit(value, bit, false);
        self.memory.write(location, value);

        self.cycles += 8;
    }

    pub(crate) fn set_r(&mut self, register: RegisterType8, bit: u8)
        requires
            old(self).cycles + 8 <= u32::MAX,
            bit < 8,
        ensures
            final(self)@ == change_bit(old(self)@, Operand::Register(register), bit, true),
            final(self).cycles == old(self).cycles + 8,
    {
        let mut value: u8 = self.register.read_8(register);
        value = set_bit(value, bit, true);
        self.register.write_8(register, value);

        self.cycles += 8;
    }

    pub(crate) fn set_hl_n(&mut self, bit: u8)
        requires
            old(self).cycles + 8 <= u32::MAX,
            bit < 8,
        ensures
            final(self)@ == change_bit(old(self)@, Operand::IndirectHL, bit, true),
            final(self).cycles == old(self).cycles + 8,
    {
        let location: u16 = self.register.read_16(RegisterType16::HL);
        let mut value: u8 = self.memory.read(location);
        value = set_bit(value, bit, true);
        self.memory.write(location, value);

        self.cycles += 8;
    }

}

} // verus!
