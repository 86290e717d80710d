//! The timer: a free-running 16-bit divider, and a counter that is clocked by
//! the falling edge of one selectable bit of the divider.
use vstd::prelude::*;
use crate::error::CoreError;

verus! {

/// What the timer holds, as plain values.
pub struct TimerState {
    /// The divider. Only its high byte can be read from outside.
    pub div: u16,
    /// The counter (TIMA).
    pub counter: u8,
    /// The value that the counter restarts from when it overflows (TMA).
    pub modulo: u8,
    /// The control register (TAC): bits 0 and 1 select the divider bit, bit 2
    /// enables the counter.
    pub control: u8,
    /// The level that the edge detector saw at the previous tick.
    pub latch: bool,
}

impl TimerState {
    pub open spec fn power_on() -> TimerState {
        TimerState { div: 0, counter: 0, modulo: 0, control: 0, latch: false }
    }

    /// Whether the timer answers to `location`.
    pub open spec fn mapped(location: int) -> bool {
        0xFF04 <= location <= 0xFF07
    }

    /// The weight of the divider bit that the low two bits of the control
    /// register select: bit 9 for 0, bit 3 for 1, bit 5 for 2, bit 7 for 3.
    pub open spec fn tap_weight(self) -> int {
        let select = self.control % 4;
        if select == 0 {
            512
        } else if select == 1 {
            8
        } else if select == 2 {
            32
        } else {
            128
        }
    }

    /// Whether bit 2 of the control register is set.
    pub open spec fn running(self) -> bool {
        (self.control / 4) % 2 == 1
    }

    /// The number of ticks between two falling edges of the selected bit:
    /// twice its weight.
    pub open spec fn period(self) -> nat {
        (2 * self.tap_weight()) as nat
    }

    /// Whether the edge detector holds the level of the present divider
    /// value. This holds after every tick; a write to the divider or to the
    /// control register can end it.
    pub open spec fn settled(self) -> bool {
        self.latch == self.level(self.div)
    }

    /// The input of the edge detector for a divider value: the selected bit
    /// of `div`, gated by the enable bit.
    pub open spec fn level(self, div: u16) -> bool {
        self.running() && (div / (self.tap_weight() as u16)) % 2 == 1
    }

    /// The divider after one more tick: it wraps around at 16 bits.
    pub open spec fn next_div(self) -> u16 {
        if self.div == 0xFFFF {
            0
        } else {
            (self.div + 1) as u16
        }
    }

    /// Whether the next tick sees a falling edge: the latch is high and the
    /// level of the advanced divider is low.
    pub open spec fn falling_edge(self) -> bool {
        self.latch && !self.level(self.next_div())
    }

    /// Whether the next tick overflows the counter.
    pub open spec fn overflows(self) -> bool {
        self.falling_edge() && self.counter == 0xFF
    }

    /// The timer after one tick.
    pub open spec fn tick(self) -> TimerState {
        let div = self.next_div();
        TimerState {
            div,
            counter: if !self.falling_edge() {
                self.counter
            } else if self.counter == 0xFF {
                self.modulo
            } else {
                (self.counter + 1) as u8
            },
            latch: self.level(div),
            ..self
        }
    }

    /// The timer after `n` ticks.
    pub open spec fn ticks(self, n: nat) -> TimerState
        decreases n,
    {
        if n == 0 {
            self
        } else {
            self.tick().ticks((n - 1) as nat)
        }
    }

    /// The byte read at a mapped location.
    pub open spec fn read(self, location: int) -> u8
        recommends
            Self::mapped(location),
    {
        if location == 0xFF04 {
            (self.div / 256) as u8
        } else if location == 0xFF05 {
            self.counter
        } else if location == 0xFF06 {
            self.modulo
        } else {
            self.control
        }
    }

    /// The timer after a write to a mapped location. A write to the divider
    /// clears all 16 bits of it, whatever the value written.
    pub open spec fn write(self, location: int, value: u8) -> TimerState
        recommends
            Self::mapped(location),
    {
        if location == 0xFF04 {
            TimerState { div: 0, ..self }
        } else if location == 0xFF05 {
            TimerState { counter: value, ..self }
        } else if location == 0xFF06 {
            TimerState { modulo: value, ..self }
        } else {
            TimerState { control: value, ..self }
        }
    }
}

proof fn lemma_control_bits(control: u8)
    by (bit_vector)
    ensures
        control & 0x3 == control % 4,
        (control & 0x4 != 0) == ((control / 4) % 2 == 1),
{
}

proof fn lemma_divider_bits(div: u16)
    by (bit_vector)
    ensures
        div >> 8 == div / 256,
        div >> 8 < 256,
        ((div >> 9) & 1 != 0) == ((div / 512) % 2 == 1),
        ((div >> 3) & 1 != 0) == ((div / 8) % 2 == 1),
        ((div >> 5) & 1 != 0) == ((div / 32) % 2 == 1),
        ((div >> 7) & 1 != 0) == ((div / 128) % 2 == 1),
{
}

/// The timer.
pub struct Timer {
    div: u16,
    counter: u8,
    modulo: u8,
    controller: u8,
    enable: bool,
}

impl View for Timer {
    type V = TimerState;

    closed spec fn view(&self) -> TimerState {
        TimerState {
            div: self.div,
            counter: self.counter,
            modulo: self.modulo,
            control: self.controller,
            latch: self.enable,
        }
    }
}

impl Timer {
    /// A timer with every register zero and the edge detector low.
    pub fn new() -> (timer: Self)
        ensures
            timer@ == TimerState::power_on(),
    {
        Self { div: 0, counter: 0, modulo: 0, controller: 0, enable: false }
    }

    /// Reads one of the four timer registers: the high byte of the divider at
    /// 0xFF04, the counter at 0xFF05, the modulo at 0xFF06, the control
    /// register at 0xFF07. Any other location is refused.
    pub fn read(&self, location: usize) -> (result: Result<u8, CoreError>)
        ensures
            TimerState::mapped(location as int) ==> result == Ok::<u8, CoreError>(
                self@.read(location as int),
            ),
            !TimerState::mapped(location as int) ==> result == Err::<u8, CoreError>(
                CoreError::UnmappedSpecialRegister,
            ),
    {
        match location {
            0xFF04 => {
                proof {
                    lemma_divider_bits(self.div);
                }
                Ok((self.div >> 8) as u8)
            },
            0xFF05 => Ok(self.counter),
            0xFF06 => Ok(self.modulo),
            0xFF07 => Ok(self.controller),
            _ => Err(CoreError::UnmappedSpecialRegister),
        }
    }

    /// Writes one of the four timer registers. A write to 0xFF04 clears the
    /// divider; the other three store the value. Any other location is
    /// refused and leaves the timer as it was.
    pub fn write(&mut self, location: usize, value: u8) -> (result: Result<(), CoreError>)
        ensures
            TimerState::mapped(location as int) ==> result is Ok && final(self)@ == old(self)@.write(
                location as int,
                value,
            ),
            !TimerState::mapped(location as int) ==> result == Err::<(), CoreError>(
                CoreError::UnmappedSpecialRegister,
            ) && final(self)@ == old(self)@,
    {
        match location {
            0xFF04 => {
                self.div = 0;
                Ok(())
            },
            0xFF05 => {
                self.counter = value;
                Ok(())
            },
            0xFF06 => {
                self.modulo = value;
                Ok(())
            },
            0xFF07 => {
                self.controller = value;
                Ok(())
            },
            _ => Err(CoreError::UnmappedSpecialRegister),
        }
    }

    /// Advances the timer by one tick. The divider goes up by one. When the
    /// selected divider bit, gated by the enable bit, falls from high to low,
    /// the counter goes up by one; a counter that was at 0xFF restarts from
    /// the modulo instead, and only then is `true` returned.
    pub fn tick(&mut self) -> (overflow: bool)
        ensures
            final(self)@ == old(self)@.tick(),
            overflow == old(self)@.overflows(),
            final(self)@.settled(),
    {
        self.div = self.div.wrapping_add(1);
        proof {
            lemma_divider_bits(self.div);
            lemma_control_bits(self.controller);
        }
        let clock_select: u8 = match self.controller & 0x3 {
            0b00 => 9,
            0b01 => 3,
            0b10 => 5,
            _ => 7,
        };
        let div_bit: bool = self.get_bit(self.div, clock_select);
        let timer_enable: u8 = self.controller & 0x4;
        let result: bool = div_bit && timer_enable != 0;
        let mut overflow: bool = false;
        if self.enable && !result {
            match self.counter.checked_add(1) {
                Some(value) => {
                    self.counter = value;
                },
                None => {
                    self.counter = self.modulo;
                    overflow = true;
                },
            }
        }
        self.enable = result;
        overflow
    }

    /// Whether bit `bit` of `data` is set.
    fn get_bit(&self, data: u16, bit: u8) -> (set: bool)
        requires
            bit < 16,
        ensures
            set == ((data >> bit) & 1 != 0),
    {
        let value: u16 = (data >> bit) & 1;
        value != 0
    }
}

} // verus!
