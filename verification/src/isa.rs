//! The instruction set: what each family of instructions does to the
//! machine, how an opcode byte selects a family and its operands, and what
//! one instruction costs in cycles.
//!
//! An opcode byte is read as three fields, `x` in its top two bits, `y` in
//! the three bits below, `z` in its low three bits. The families are stated
//! on a machine whose program counter is already past the opcode byte.
use vstd::prelude::*;
use crate::alu::{
    add16_flags, add8, and8, bit_flags, daa, dec8, inc8, or8, rotated, sub8, with_bit, xor8,
    AluOut, Rotation,
};
use crate::bits::{spec_high, spec_low, spec_signed, spec_word, wrap16};
use crate::error::CoreError;
use crate::machine::{Machine, Operand};
use crate::register_type::{RegisterType16, RegisterType8};
use crate::registers::Flags;

verus! {

/// The eight operations between the accumulator and an 8-bit operand.
pub enum AluOp {
    Add,
    Adc,
    Sub,
    Sbc,
    And,
    Xor,
    Or,
    Cp,
}

/// The result of an accumulator operation. A compare leaves the accumulator
/// and gives the flags of the subtraction.
#[verifier::opaque]
pub open spec fn alu(op: AluOp, a: u8, operand: u8, flags: Flags) -> AluOut {
    match op {
        AluOp::Add => add8(a, operand, false),
        AluOp::Adc => add8(a, operand, flags.carry),
        AluOp::Sub => sub8(a, operand, false),
        AluOp::Sbc => sub8(a, operand, flags.carry),
        AluOp::And => and8(a, operand),
        AluOp::Xor => xor8(a, operand),
        AluOp::Or => or8(a, operand),
        AluOp::Cp => AluOut { value: a, flags: sub8(a, operand, false).flags },
    }
}

/// `LD target, source`.
pub open spec fn load(m: Machine, target: Operand, source: Operand) -> Machine {
    m.put(target, m.get(source))
}

/// `LD target, n`: the byte after the opcode goes to the target.
pub open spec fn load_immediate(m: Machine, target: Operand) -> Machine {
    m.after_fetch().put(target, m.fetched())
}

/// `LD A, (location)`.
pub open spec fn load_a_from(m: Machine, location: u16) -> Machine {
    m.with_reg(RegisterType8::A, m.read(location))
}

/// `LD (location), A`.
pub open spec fn store_a_at(m: Machine, location: u16) -> Machine {
    m.stored(location, m.regs.a)
}

/// The location in the page at 0xFF00 with the given low byte.
pub open spec fn high_page(offset: u8) -> u16 {
    spec_word(0xFF, offset)
}

/// The location that `LD (C), A` stores to: C is its high byte, 0xFF its low
/// byte.
pub open spec fn c_page(c: u8) -> u16 {
    spec_word(c, 0xFF)
}

/// HL moved by `step`, wrapping at 16 bits.
pub open spec fn with_hl_moved(m: Machine, step: int) -> Machine {
    m.with_pair(RegisterType16::HL, wrap16(m.pair(RegisterType16::HL) + step))
}

/// `LD A, (HL+)` and `LD A, (HL-)`.
pub open spec fn load_a_from_hl_moving(m: Machine, step: int) -> Machine {
    with_hl_moved(load_a_from(m, m.pair(RegisterType16::HL)), step)
}

/// `LD (HL+), A` and `LD (HL-), A`.
pub open spec fn store_a_at_hl_moving(m: Machine, step: int) -> Machine {
    with_hl_moved(store_a_at(m, m.pair(RegisterType16::HL)), step)
}

/// `LD rr, nn`: the word after the opcode goes to the pair.
pub open spec fn load_pair_immediate(m: Machine, pair: RegisterType16) -> Machine {
    m.after_fetch_word().with_pair(pair, m.fetched_word())
}

/// `LD (nn), SP`: the high byte of SP goes to `nn`, its low byte to `nn + 1`.
pub open spec fn store_sp(m: Machine) -> Machine {
    let location = m.fetched_word();
    m.after_fetch_word().stored(location, spec_high(m.regs.sp)).stored(
        wrap16(location + 1),
        spec_low(m.regs.sp),
    )
}

/// `LD SP, HL`.
pub open spec fn load_sp_from_hl(m: Machine) -> Machine {
    m.with_sp(m.pair(RegisterType16::HL))
}

/// `PUSH rr`.
pub open spec fn push_pair(m: Machine, pair: RegisterType16) -> Machine {
    m.pushed(m.pair(pair))
}

/// `POP rr`.
pub open spec fn pop_pair(m: Machine, pair: RegisterType16) -> Machine {
    m.after_pop().with_pair(pair, m.top_word())
}

/// An operation between the accumulator and `operand`: the result goes to
/// the accumulator and all four flags are set from it.
pub open spec fn alu_a(m: Machine, op: AluOp, operand: u8) -> Machine {
    let out = alu(op, m.regs.a, operand, m.regs.flags);
    m.with_reg(RegisterType8::A, out.value).with_flags(out.flags)
}

/// `ADD HL, rr`. Zero stays as it was.
pub open spec fn add_hl(m: Machine, pair: RegisterType16) -> Machine {
    let hl = m.pair(RegisterType16::HL);
    let operand = m.pair(pair);
    m.with_pair(RegisterType16::HL, wrap16(hl + operand)).with_flags_but_zero(
        add16_flags(hl, operand, m.regs.flags),
    )
}

/// `INC` of an 8-bit operand. Carry stays as it was.
pub open spec fn inc_operand(m: Machine, operand: Operand) -> Machine {
    let out = inc8(m.get(operand), m.regs.flags);
    m.put(operand, out.value).with_flags_but_carry(out.flags)
}

/// `DEC` of an 8-bit operand. Carry stays as it was.
pub open spec fn dec_operand(m: Machine, operand: Operand) -> Machine {
    let out = dec8(m.get(operand), m.regs.flags);
    m.put(operand, out.value).with_flags_but_carry(out.flags)
}

/// `INC rr` and `DEC rr`: the pair moves by `step`, wrapping at 16 bits. No
/// flag changes.
pub open spec fn with_pair_moved(m: Machine, pair: RegisterType16, step: int) -> Machine {
    m.with_pair(pair, wrap16(m.pair(pair) + step))
}

/// `CCF`: Carry is inverted, Subtraction and HalfCarry are cleared.
pub open spec fn complement_carry(m: Machine) -> Machine {
    m.with_flags(
        Flags {
            zero: m.regs.flags.zero,
            subtraction: false,
            half_carry: false,
            carry: !m.regs.flags.carry,
        },
    )
}

/// `SCF`: Carry is set, Subtraction and HalfCarry are cleared.
pub open spec fn set_carry(m: Machine) -> Machine {
    m.with_flags(
        Flags { zero: m.regs.flags.zero, subtraction: false, half_carry: false, carry: true },
    )
}

/// `CPL`: the accumulator is inverted, Subtraction and HalfCarry are set.
pub open spec fn complement_a(m: Machine) -> Machine {
    m.with_reg(RegisterType8::A, !m.regs.a).with_flags(
        Flags {
            zero: m.regs.flags.zero,
            subtraction: true,
            half_carry: true,
            carry: m.regs.flags.carry,
        },
    )
}

/// `DAA`.
pub open spec fn decimal_adjust(m: Machine) -> Machine {
    let out = daa(m.regs.a, m.regs.flags);
    m.with_reg(RegisterType8::A, out.value).with_flags(out.flags)
}

/// `JP nn` and `JP cc, nn`: the program counter moves past the word; when
/// the jump is taken it becomes the word.
pub open spec fn jump_absolute(m: Machine, taken: bool) -> Machine {
    if taken {
        m.after_fetch_word().with_pc(m.fetched_word())
    } else {
        m.after_fetch_word()
    }
}

/// `JP HL`.
pub open spec fn jump_hl(m: Machine) -> Machine {
    m.with_pc(m.pair(RegisterType16::HL))
}

/// `JR e` and `JR cc, e`: the program counter moves past the displacement
/// byte; when the jump is taken the signed displacement is added to it from
/// there.
pub open spec fn jump_relative(m: Machine, taken: bool) -> Machine {
    let next = m.after_fetch();
    if taken {
        next.with_pc(wrap16(next.regs.pc + spec_signed(m.fetched())))
    } else {
        next
    }
}

/// `CALL nn` and `CALL cc, nn`: the program counter moves past the word;
/// when the call is taken that address is pushed and the word becomes the
/// program counter.
pub open spec fn call(m: Machine, taken: bool) -> Machine {
    let next = m.after_fetch_word();
    if taken {
        next.pushed(next.regs.pc).with_pc(m.fetched_word())
    } else {
        next
    }
}

/// `RET` and `RET cc`: when taken, the word on top of the stack is popped
/// into the program counter.
pub open spec fn ret(m: Machine, taken: bool) -> Machine {
    if taken {
        m.after_pop().with_pc(m.top_word())
    } else {
        m
    }
}

/// `RETI`: a return that also enables interrupts.
pub open spec fn ret_enabling(m: Machine) -> Machine {
    ret(m, true).with_ime(true)
}

/// `RST`: the program counter is pushed, and `vector` becomes its high byte
/// with a low byte of zero.
pub open spec fn restart(m: Machine, vector: u8) -> Machine {
    m.pushed(m.regs.pc).with_pc(spec_word(vector, 0))
}

/// A rotation or shift of an 8-bit operand from the extended table.
pub open spec fn rotate_operand(m: Machine, kind: Rotation, operand: Operand) -> Machine {
    let out = rotated(kind, m.get(operand), m.regs.flags.carry);
    m.put(operand, out.value).with_flags(out.flags)
}

/// `RLCA`, `RRCA`, `RLA` and `RRA`: a rotation of the accumulator that
/// always clears Zero.
pub open spec fn rotate_a(m: Machine, kind: Rotation) -> Machine {
    let out = rotated(kind, m.regs.a, m.regs.flags.carry);
    m.with_reg(RegisterType8::A, out.value).with_flags(Flags { zero: false, ..out.flags })
}

/// `BIT b`, on the value of its operand. Nothing is written back.
pub open spec fn bit_test(m: Machine, value: u8, bit: u8) -> Machine {
    m.with_flags_but_carry(bit_flags(value, bit, m.regs.flags))
}

/// `SET b` and `RES b`. No flag changes.
pub open spec fn change_bit(m: Machine, operand: Operand, bit: u8, state: bool) -> Machine {
    m.put(operand, with_bit(m.get(operand), bit, state))
}

/// The operand that a 3-bit field selects: B, C, D, E, H, L, (HL), A.
pub open spec fn operand(index: int) -> Operand {
    if index == 0 {
        Operand::Register(RegisterType8::B)
    } else if index == 1 {
        Operand::Register(RegisterType8::C)
    } else if index == 2 {
        Operand::Register(RegisterType8::D)
    } else if index == 3 {
        Operand::Register(RegisterType8::E)
    } else if index == 4 {
        Operand::Register(RegisterType8::H)
    } else if index == 5 {
        Operand::Register(RegisterType8::L)
    } else if index == 6 {
        Operand::IndirectHL
    } else {
        Operand::Register(RegisterType8::A)
    }
}

/// The pair that a 2-bit field selects in loads and arithmetic: BC, DE, HL,
/// SP.
pub open spec fn pair(index: int) -> RegisterType16 {
    if index == 0 {
        RegisterType16::BC
    } else if index == 1 {
        RegisterType16::DE
    } else if index == 2 {
        RegisterType16::HL
    } else {
        RegisterType16::SP
    }
}

/// The pair that a 2-bit field selects in `PUSH` and `POP`: BC, DE, HL, AF.
pub open spec fn stack_pair(index: int) -> RegisterType16 {
    if index == 3 {
        RegisterType16::AF
    } else {
        pair(index)
    }
}

/// The operation that a 3-bit field selects.
pub open spec fn alu_op(index: int) -> AluOp {
    if index == 0 {
        AluOp::Add
    } else if index == 1 {
        AluOp::Adc
    } else if index == 2 {
        AluOp::Sub
    } else if index == 3 {
        AluOp::Sbc
    } else if index == 4 {
        AluOp::And
    } else if index == 5 {
        AluOp::Xor
    } else if index == 6 {
        AluOp::Or
    } else {
        AluOp::Cp
    }
}

/// The rotation or shift that a 3-bit field selects.
pub open spec fn rotation(index: int) -> Rotation {
    if index == 0 {
        Rotation::LeftCircular
    } else if index == 1 {
        Rotation::RightCircular
    } else if index == 2 {
        Rotation::Left
    } else if index == 3 {
        Rotation::Right
    } else if index == 4 {
        Rotation::ShiftLeft
    } else if index == 5 {
        Rotation::ShiftRightArithmetic
    } else if index == 6 {
        Rotation::Swap
    } else {
        Rotation::ShiftRight
    }
}

/// Whether the condition that a 2-bit field selects holds: Zero clear, Zero
/// set, Carry clear, Carry set.
pub open spec fn condition(flags: Flags, index: int) -> bool {
    if index == 0 {
        !flags.zero
    } else if index == 1 {
        flags.zero
    } else if index == 2 {
        !flags.carry
    } else {
        flags.carry
    }
}

pub open spec fn field_x(opcode: u8) -> int {
    opcode as int / 64
}

pub open spec fn field_y(opcode: u8) -> int {
    (opcode as int / 8) % 8
}

pub open spec fn field_z(opcode: u8) -> int {
    opcode as int % 8
}

/// Whether a slot of the primary table has modelled behaviour. Eleven slots
/// are unassigned, and `STOP`, `HALT`, `ADD SP, e` and `LD HL, SP+e` are not
/// modelled. Every slot of the extended table is modelled.
pub open spec fn modelled(opcode: u8) -> bool {
    let x = field_x(opcode);
    let y = field_y(opcode);
    let z = field_z(opcode);
    if x == 0 {
        !(z == 0 && y == 2)
    } else if x == 1 {
        !(z == 6 && y == 6)
    } else if x == 2 {
        true
    } else if z == 0 {
        y != 5 && y != 7
    } else if z == 3 {
        y < 2 || y > 5
    } else if z == 4 {
        y < 4
    } else if z == 5 {
        y % 2 == 0 || y == 1
    } else {
        true
    }
}

/// The instructions with `x == 0`.
pub open spec fn execute_low(m: Machine, y: int, z: int) -> Machine {
    if z == 0 {
        if y == 0 {
            m
        } else if y == 1 {
            store_sp(m)
        } else if y == 3 {
            jump_relative(m, true)
        } else {
            jump_relative(m, condition(m.regs.flags, y - 4))
        }
    } else if z == 1 {
        if y % 2 == 0 {
            load_pair_immediate(m, pair(y / 2))
        } else {
            add_hl(m, pair(y / 2))
        }
    } else if z == 2 {
        if y == 0 {
            store_a_at(m, m.pair(RegisterType16::BC))
        } else if y == 1 {
            load_a_from(m, m.pair(RegisterType16::BC))
        } else if y == 2 {
            store_a_at(m, m.pair(RegisterType16::DE))
        } else if y == 3 {
            load_a_from(m, m.pair(RegisterType16::DE))
        } else if y == 4 {
            store_a_at_hl_moving(m, 1)
        } else if y == 5 {
            load_a_from_hl_moving(m, 1)
        } else if y == 6 {
            store_a_at_hl_moving(m, -1)
        } else {
            load_a_from_hl_moving(m, -1)
        }
    } else if z == 3 {
        with_pair_moved(m, pair(y / 2), if y % 2 == 0 { 1 } else { -1 })
    } else if z == 4 {
        inc_operand(m, operand(y))
    } else if z == 5 {
        dec_operand(m, operand(y))
    } else if z == 6 {
        load_immediate(m, operand(y))
    } else {
        if y < 4 {
            rotate_a(m, rotation(y))
        } else if y == 4 {
            decimal_adjust(m)
        } else if y == 5 {
            complement_a(m)
        } else if y == 6 {
            set_carry(m)
        } else {
            complement_carry(m)
        }
    }
}

/// The instructions with `x == 3`, but for the prefix of the extended table.
pub open spec fn execute_high(m: Machine, y: int, z: int) -> Machine {
    if z == 0 {
        if y < 4 {
            ret(m, condition(m.regs.flags, y))
        } else if y == 4 {
            store_a_at(m.after_fetch(), high_page(m.fetched()))
        } else {
            load_a_from(m.after_fetch(), high_page(m.fetched()))
        }
    } else if z == 1 {
        if y % 2 == 0 {
            pop_pair(m, stack_pair(y / 2))
        } else if y == 1 {
            ret(m, true)
        } else if y == 3 {
            ret_enabling(m)
        } else if y == 5 {
            jump_hl(m)
        } else {
            load_sp_from_hl(m)
        }
    } else if z == 2 {
        if y < 4 {
            jump_absolute(m, condition(m.regs.flags, y))
        } else if y == 4 {
            store_a_at(m, c_page(m.regs.c))
        } else if y == 5 {
            store_a_at(m.after_fetch_word(), m.fetched_word())
        } else if y == 6 {
            load_a_from(m, high_page(m.regs.c))
        } else {
            load_a_from(m.after_fetch_word(), m.fetched_word())
        }
    } else if z == 3 {
        if y == 0 {
            jump_absolute(m, true)
        } else if y == 6 {
            m.with_ime(false)
        } else {
            m.with_ime(true)
        }
    } else if z == 4 {
        call(m, condition(m.regs.flags, y))
    } else if z == 5 {
        if y % 2 == 0 {
            push_pair(m, stack_pair(y / 2))
        } else {
            call(m, true)
        }
    } else if z == 6 {
        alu_a(m.after_fetch(), alu_op(y), m.fetched())
    } else {
        restart(m, (y * 8) as u8)
    }
}

/// What an instruction of the extended table does, on a machine whose
/// program counter is past both of its bytes.
#[verifier::opaque]
pub open spec fn execute_extended(m: Machine, opcode: u8) -> Machine {
    let x = field_x(opcode);
    let y = field_y(opcode);
    let target = operand(field_z(opcode));
    if x == 0 {
        rotate_operand(m, rotation(y), target)
    } else if x == 1 {
        bit_test(m, m.get(target), y as u8)
    } else if x == 2 {
        change_bit(m, target, y as u8, false)
    } else {
        change_bit(m, target, y as u8, true)
    }
}

/// What a modelled instruction of the primary table does, on a machine
/// whose program counter is past the opcode byte.
#[verifier::opaque]
pub open spec fn execute(m: Machine, opcode: u8) -> Machine {
    let x = field_x(opcode);
    let y = field_y(opcode);
    let z = field_z(opcode);
    if x == 0 {
        execute_low(m, y, z)
    } else if x == 1 {
        load(m, operand(y), operand(z))
    } else if x == 2 {
        alu_a(m, alu_op(y), m.get(operand(z)))
    } else if opcode == 0xCB {
        execute_extended(m.after_fetch(), m.fetched())
    } else {
        execute_high(m, y, z)
    }
}

/// The cycles of an instruction with `x == 0`.
pub open spec fn cycles_low(flags: Flags, y: int, z: int) -> nat {
    if z == 0 {
        if y == 0 {
            4
        } else if y == 1 {
            20
        } else if y == 3 || condition(flags, y - 4) {
            12
        } else {
            8
        }
    } else if z == 1 {
        if y % 2 == 0 {
            12
        } else {
            4
        }
    } else if z == 2 {
        8
    } else if z == 3 {
        if y % 2 == 0 {
            8
        } else {
            0
        }
    } else if z == 4 || z == 5 {
        0
    } else if z == 6 {
        if y == 6 {
            12
        } else {
            8
        }
    } else {
        if y < 4 {
            8
        } else if y == 5 {
            0
        } else {
            4
        }
    }
}

/// The cycles of an instruction with `x == 3`. An instruction of the
/// extended table takes 8 cycles, prefix included.
pub open spec fn cycles_high(flags: Flags, y: int, z: int) -> nat {
    if z == 0 {
        if y >= 4 {
            12
        } else if condition(flags, y) {
            20
        } else {
            8
        }
    } else if z == 1 {
        if y % 2 == 0 {
            12
        } else if y == 1 || y == 3 {
            16
        } else if y == 5 {
            4
        } else {
            8
        }
    } else if z == 2 {
        if y >= 4 {
            if y % 2 == 0 {
                8
            } else {
                16
            }
        } else if condition(flags, y) {
            16
        } else {
            12
        }
    } else if z == 3 {
        if y == 0 {
            16
        } else if y == 1 {
            8
        } else {
            4
        }
    } else if z == 4 {
        if condition(flags, y) {
            24
        } else {
            12
        }
    } else if z == 5 {
        if y % 2 == 0 {
            16
        } else {
            24
        }
    } else if z == 6 {
        8
    } else {
        16
    }
}

/// The cycles that a modelled instruction takes, given the flags before it.
/// A conditional jump, call or return costs more when it is taken.
#[verifier::opaque]
pub open spec fn cycles(flags: Flags, opcode: u8) -> nat {
    let x = field_x(opcode);
    let y = field_y(opcode);
    let z = field_z(opcode);
    if x == 0 {
        cycles_low(flags, y, z)
    } else if x == 1 || x == 2 {
        if z == 6 || (x == 1 && y == 6) {
            8
        } else {
            4
        }
    } else {
        cycles_high(flags, y, z)
    }
}

/// No instruction takes more than 24 cycles.
pub proof fn lemma_cycles_bound(flags: Flags, opcode: u8)
    ensures
        cycles(flags, opcode) <= 24,
{
    reveal(cycles);
}

/// The machine after one instruction. An opcode without modelled behaviour
/// leaves the machine as it was, program counter included.
pub open spec fn step(m: Machine) -> Machine {
    if modelled(m.fetched()) {
        execute(m.after_fetch(), m.fetched())
    } else {
        m
    }
}

/// What one instruction reports: its cycles, or the opcode that has no
/// modelled behaviour and the location it was fetched from.
pub open spec fn step_result(m: Machine) -> Result<u32, CoreError> {
    if modelled(m.fetched()) {
        Ok(cycles(m.regs.flags, m.fetched()) as u32)
    } else {
        Err(CoreError::UnimplementedOpcode { opcode: m.fetched(), pc: m.regs.pc })
    }
}

} // verus!
