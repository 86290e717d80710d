//! Laws of the machine: what holds of every state, across one or several
//! instructions or ticks.
use vstd::prelude::*;
use vstd::arithmetic::div_mod::{
    lemma_add_mod_noop_right, lemma_fundamental_div_mod_converse,
    lemma_mod_add_multiples_vanish, lemma_mod_mod, lemma_small_mod,
};
use crate::alu::{add8, sub8};
use crate::bits::{spec_high, spec_low, wrap16};
use crate::isa::{
    alu, alu_a, alu_op, execute, field_x, field_y, field_z, operand, stack_pair, step, AluOp,
};
use crate::machine::Machine;
use crate::memory::{lemma_read_other, lemma_read_written};
use crate::register_type::{RegisterType16, RegisterType8};
use crate::registers::lemma_pack_unpack;
use crate::timer::TimerState;

verus! {

/// The low nibble of register F is zero in every state of the machine, and
/// so it is after every instruction.
pub proof fn law_low_nibble_of_f(m: Machine)
    ensures
        m.reg(RegisterType8::F) & 0x0F == 0,
        m.pair(RegisterType16::AF) % 16 == 0,
        step(m).reg(RegisterType8::F) & 0x0F == 0,
{
    lemma_pack_unpack(m.regs.flags);
    lemma_pack_unpack(step(m).regs.flags);
}

/// What one step does when the opcode is an operation between the
/// accumulator and an 8-bit operand: the opcodes from 0x80 to 0xBF.
pub proof fn lemma_step_alu(m: Machine)
    requires
        field_x(m.fetched()) == 2,
    ensures
        step(m) == alu_a(
            m.after_fetch(),
            alu_op(field_y(m.fetched())),
            m.get(operand(field_z(m.fetched()))),
        ),
{
    reveal(execute);
}

/// What one step does when the opcode is `PUSH rr`.
pub proof fn lemma_step_push(m: Machine, index: int)
    requires
        0 <= index < 4,
        m.fetched() == 0xC5 + 16 * index,
    ensures
        step(m) == m.after_fetch().pushed(m.pair(stack_pair(index))),
{
    reveal(execute);
}

/// What one step does when the opcode is `POP rr`.
pub proof fn lemma_step_pop(m: Machine, index: int)
    requires
        0 <= index < 4,
        m.fetched() == 0xC1 + 16 * index,
    ensures
        step(m) == m.after_fetch().after_pop().with_pair(stack_pair(index), m.top_word()),
{
    reveal(execute);
}

/// Subtracting what was added gives back the first operand; the
/// subtraction borrows exactly where the addition carried.
pub proof fn lemma_add_sub_bytes(a: u8, b: u8)
    ensures
        sub8(add8(a, b, false).value, b, false).value == a,
        sub8(add8(a, b, false).value, b, false).flags.zero == (a == 0),
        sub8(add8(a, b, false).value, b, false).flags.subtraction,
        sub8(add8(a, b, false).value, b, false).flags.carry == (a + b > 0xFF),
        sub8(add8(a, b, false).value, b, false).flags.half_carry == (a % 16 + b % 16 > 0xF),
{
    let sum: int = a + b;
    let low: int = a % 16 + b % 16;
    let added: u8 = add8(a, b, false).value;
    assert(added == if sum > 0xFF { sum - 256 } else { sum });
    assert(added - b == if sum > 0xFF { a - 256 } else { a as int });
    assert(added as int % 16 == if low > 0xF { low - 16 } else { low }) by {
        assert(a as int == 16 * (a as int / 16) + a as int % 16);
        assert(b as int == 16 * (b as int / 16) + b as int % 16);
        let high: int = a as int / 16 + b as int / 16 + (if low > 0xF { 1int } else { 0 }) - (if sum
            > 0xFF { 16int } else { 0 });
        let rest: int = if low > 0xF { low - 16 } else { low };
        assert(added as int == 16 * high + rest);
        lemma_fundamental_div_mod_converse(added as int, 16, high, rest);
    }
}

/// An operation on the accumulator leaves every 8-bit operand but the
/// accumulator as it was.
proof fn lemma_alu_keeps_operands(m: Machine, op: AluOp, value: u8, index: int)
    requires
        0 <= index < 7,
    ensures
        alu_a(m, op, value).get(operand(index)) == m.get(operand(index)),
        alu_a(m, op, value).mem == m.mem,
        alu_a(m, op, value).regs.pc == m.regs.pc,
{
}

/// `ADD A, r` followed by `SUB A, r` with the same operand, other than the
/// accumulator itself, restores the accumulator. Zero then tells whether the
/// accumulator is zero. Carry and HalfCarry are clear exactly when the
/// addition did not carry out of bit 7 and out of bit 3: the subtraction
/// borrows what the addition carried.
pub proof fn law_add_then_sub(m: Machine, index: int)
    requires
        0 <= index < 7,
        m.fetched() == 0x80 + index,
        step(m).fetched() == 0x90 + index,
    ensures
        step(step(m)).regs.a == m.regs.a,
        step(step(m)).regs.flags.zero == (m.regs.a == 0),
        step(step(m)).regs.flags.subtraction,
        step(step(m)).regs.flags.carry == (m.regs.a + m.get(operand(index)) > 0xFF),
        step(step(m)).regs.flags.half_carry == (m.regs.a % 16 + m.get(operand(index)) % 16
            > 0xF),
        step(step(m)).regs.pc == wrap16(m.regs.pc + 2),
        step(step(m)).mem == m.mem,
{
    reveal(alu);
    let a = m.regs.a;
    let b = m.get(operand(index));
    let added = alu_a(m.after_fetch(), AluOp::Add, b);
    assert(step(m) == added) by {
        lemma_step_alu(m);
        assert(field_y(m.fetched()) == 0 && field_z(m.fetched()) == index);
    }
    lemma_alu_keeps_operands(m.after_fetch(), AluOp::Add, b, index);
    assert(added.get(operand(index)) == b);
    assert(step(added) == alu_a(added.after_fetch(), AluOp::Sub, b)) by {
        lemma_step_alu(added);
        assert(field_y(added.fetched()) == 2 && field_z(added.fetched()) == index);
    }
    lemma_add_sub_bytes(a, b);
}

/// `PUSH rr` followed by `POP rr` into the same pair gives back the value of
/// the pair and the stack pointer, where the two stack locations retain what
/// is written to them.
pub proof fn law_push_then_pop(m: Machine, index: int)
    requires
        m.wf(),
        0 <= index < 4,
        m.fetched() == 0xC5 + 16 * index,
        step(m).fetched() == 0xC1 + 16 * index,
        m.mem.retains(wrap16(m.regs.sp - 1)),
        m.mem.retains(wrap16(m.regs.sp - 2)),
    ensures
        step(step(m)).pair(stack_pair(index)) == m.pair(stack_pair(index)),
        step(step(m)).regs.sp == m.regs.sp,
        step(step(m)).regs == m.after_fetch().after_fetch().regs,
{
    lemma_step_push(m, index);
    lemma_step_pop(step(m), index);
    let value = m.pair(stack_pair(index));
    let high_at = wrap16(m.regs.sp - 1);
    let low_at = wrap16(m.regs.sp - 2);
    let high = spec_high(value);
    let low = spec_low(value);
    let first = m.mem.write(high_at, high);
    lemma_read_written(m.mem, high_at, high);
    lemma_read_other(m.mem, high_at, high, low_at);
    lemma_read_written(first, low_at, low);
    lemma_read_other(first, low_at, low, high_at);
    lemma_pack_unpack(m.regs.flags);
    let pushed = step(m);
    assert(pushed.regs.sp == low_at);
    assert(wrap16(pushed.regs.sp + 1) == high_at);
    assert(pushed.top_word() == value);
}

/// After one more tick the timer is what a tick makes of the timer after
/// `n` ticks.
pub proof fn lemma_ticks_step(timer: TimerState, n: nat)
    ensures
        timer.ticks(n + 1) == timer.ticks(n).tick(),
    decreases n,
{
    reveal_with_fuel(TimerState::ticks, 2);
    if n > 0 {
        lemma_ticks_step(timer.tick(), (n - 1) as nat);
    }
}

/// A tick of a running, settled timer sees a falling edge exactly when it
/// brings the divider to a multiple of the period, and leaves the timer
/// settled.
pub proof fn lemma_tick_edge(timer: TimerState)
    requires
        timer.running(),
        timer.settled(),
    ensures
        timer.falling_edge() == (timer.next_div() % (timer.period() as u16) == 0),
        timer.tick().settled(),
        timer.tick().running(),
        timer.tick().div == wrap16(timer.div + 1),
        timer.tick().control == timer.control,
        timer.tick().modulo == timer.modulo,
{
    let select = timer.control % 4;
    let d = timer.div;
    let next = timer.next_div();
    if select == 0 {
        assert(((d / 512) % 2 == 1 && (next / 512) % 2 != 1) == (next % 1024 == 0));
    } else if select == 1 {
        assert(((d / 8) % 2 == 1 && (next / 8) % 2 != 1) == (next % 16 == 0));
    } else if select == 2 {
        assert(((d / 32) % 2 == 1 && (next / 32) % 2 != 1) == (next % 64 == 0));
    } else {
        assert(((d / 128) % 2 == 1 && (next / 128) % 2 != 1) == (next % 256 == 0));
    }
}

/// The phase of a divider value that is `n` ticks ahead of `div`, for a
/// period that divides the range of the divider.
proof fn lemma_phase(div: u16, n: nat, period: int, laps: int)
    requires
        period > 0,
        laps > 0,
        period * laps == 65536,
        1 <= n <= period,
    ensures
        (wrap16(div + n) as int % period == 0) == (div as int % period + n == period),
{
    let sum: int = div + n;
    let phase: int = div as int % period + n;
    lemma_mod_mod(sum, period, laps);
    lemma_add_mod_noop_right(n as int, div as int, period);
    assert(wrap16(sum) as int % period == phase % period);
    if phase < period {
        lemma_small_mod(phase as nat, period as nat);
    } else {
        lemma_mod_add_multiples_vanish(phase - period, period);
        lemma_small_mod((phase - period) as nat, period as nat);
    }
}

/// Within one period of the selected divider bit the counter goes up once,
/// at the tick that brings the divider to a multiple of the period.
proof fn lemma_ticks_within_period(timer: TimerState, n: nat)
    requires
        timer.running(),
        timer.settled(),
        timer.counter < 0xFF,
        n <= timer.period(),
    ensures
        timer.ticks(n).div == wrap16(timer.div + n),
        timer.ticks(n).control == timer.control,
        timer.ticks(n).modulo == timer.modulo,
        timer.ticks(n).settled(),
        timer.ticks(n).counter == timer.counter + (if timer.div % (timer.period() as u16) + n
            >= timer.period() {
            1int
        } else {
            0
        }),
    decreases n,
{
    if n > 0 {
        let before = (n - 1) as nat;
        lemma_ticks_within_period(timer, before);
        lemma_ticks_step(timer, before);
        let t = timer.ticks(before);
        assert(timer.ticks(n) == t.tick());
        assert(t.period() == timer.period());
        lemma_tick_edge(t);
        assert(t.next_div() == wrap16(timer.div + n));
        let select = timer.control % 4;
        let laps: int = if select == 0 {
            64
        } else if select == 1 {
            4096
        } else if select == 2 {
            1024
        } else {
            256
        };
        lemma_phase(timer.div, n, timer.period() as int, laps);
    }
}

/// With the counter enabled and the edge detector settled, one period of
/// the selected divider bit (1024, 16, 64 or 256 ticks for the selections 0,
/// 1, 2 and 3) takes a counter that is below 0xFF up by exactly one.
pub proof fn law_counter_period(timer: TimerState)
    requires
        timer.running(),
        timer.settled(),
        timer.counter < 0xFF,
    ensures
        timer.ticks(timer.period()).counter == timer.counter + 1,
        timer.ticks(timer.period()).div == wrap16(timer.div + timer.period()),
        timer.ticks(timer.period()).settled(),
{
    lemma_ticks_within_period(timer, timer.period());
}

} // verus!
