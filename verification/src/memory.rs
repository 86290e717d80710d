//! The address space: a flat array of bytes, a boot overlay over its first
//! 256 addresses, two interrupt registers, the serial tap and the four timer
//! registers.
use vstd::prelude::*;
use crate::timer::{Timer, TimerState};

verus! {

/// The number of bytes in the flat array. The last address, 0xFFFF, lies
/// beyond it.
pub const MEMORY_SIZE: usize = 0xFFFF;

/// The number of bytes in the boot overlay.
pub const BOOTROM_SIZE: usize = 0x100;

/// What the address space holds, as plain values.
pub struct MemoryState {
    /// The flat array, `MEMORY_SIZE` bytes.
    pub ram: Seq<u8>,
    /// The boot overlay, `BOOTROM_SIZE` bytes.
    pub boot: Seq<u8>,
    /// Whether reads below 0x100 are answered from the overlay.
    pub boot_loaded: bool,
    /// The Interrupt Enable register.
    pub interrupt_enable: u8,
    /// The Interrupt Flag register.
    pub interrupt_flag: u8,
    /// The timer behind 0xFF04 to 0xFF07.
    pub timer: TimerState,
    /// The bytes sent over the serial port and not yet taken by the host,
    /// oldest first.
    pub serial: Seq<u8>,
}

impl MemoryState {
    /// Every byte zero, no boot overlay, the timer at rest, nothing sent.
    pub open spec fn power_on() -> MemoryState {
        MemoryState {
            ram: Seq::new(MEMORY_SIZE as nat, |i: int| 0u8),
            boot: Seq::new(BOOTROM_SIZE as nat, |i: int| 0u8),
            boot_loaded: false,
            interrupt_enable: 0,
            interrupt_flag: 0,
            timer: TimerState::power_on(),
            serial: Seq::empty(),
        }
    }

    /// Both arrays have their full length.
    pub open spec fn wf(self) -> bool {
        &&& self.ram.len() == MEMORY_SIZE
        &&& self.boot.len() == BOOTROM_SIZE
    }

    /// The byte read at `location`. The rules are tried in this order and
    /// the first that matches answers:
    /// a location beyond the flat array reads as zero;
    /// a location below 0x100 reads from the boot overlay while it is loaded;
    /// 0xFFFF is the Interrupt Enable register (the first rule answers for
    /// this location before this one can);
    /// 0xFF0F is the Interrupt Flag register;
    /// 0xFF04 to 0xFF07 are the timer's;
    /// any other location reads from the flat array.
    pub open spec fn read(self, location: u16) -> u8 {
        if location >= MEMORY_SIZE {
            0
        } else if location < BOOTROM_SIZE && self.boot_loaded {
            self.boot[location as int]
        } else if location == 0xFFFF {
            self.interrupt_enable
        } else if location == 0xFF0F {
            self.interrupt_flag
        } else if TimerState::mapped(location as int) {
            self.timer.read(location as int)
        } else {
            self.ram[location as int]
        }
    }

    /// Whether a write of `value` at `location` sends a byte over the serial
    /// port: it does when 0x81 is written to 0xFF02.
    pub open spec fn sends(location: u16, value: u8) -> bool {
        location == 0xFF02 && value == 0x81
    }

    /// The serial queue after a write: a write that sends appends the byte
    /// held at 0xFF01 in the flat array.
    pub open spec fn serial_after(self, location: u16, value: u8) -> Seq<u8> {
        if Self::sends(location, value) {
            self.serial.push(self.ram[0xFF01])
        } else {
            self.serial
        }
    }

    /// The address space after a write of `value` at `location`. The rules
    /// are tried in this order and the first that matches stores the value:
    /// a write beyond the flat array is ignored;
    /// 0xFFFF is the Interrupt Enable register (the first rule answers for
    /// this location before this one can);
    /// 0xFF0F is the Interrupt Flag register;
    /// 0xFF04 to 0xFF07 are the timer's;
    /// any other location is stored in the flat array, also below 0x100
    /// while the boot overlay is loaded.
    /// The serial port is a tap beside these rules: see `serial_after`.
    pub open spec fn write(self, location: u16, value: u8) -> MemoryState {
        let tapped = MemoryState { serial: self.serial_after(location, value), ..self };
        if location >= MEMORY_SIZE {
            tapped
        } else if location == 0xFFFF {
            MemoryState { interrupt_enable: value, ..tapped }
        } else if location == 0xFF0F {
            MemoryState { interrupt_flag: value, ..tapped }
        } else if TimerState::mapped(location as int) {
            MemoryState { timer: self.timer.write(location as int, value), ..tapped }
        } else {
            MemoryState { ram: self.ram.update(location as int, value), ..tapped }
        }
    }

    /// The address space after `bytes` were copied into the flat array from
    /// address 0 on. Bytes that would fall beyond the array are left out;
    /// addresses beyond the copied bytes keep what they held.
    pub open spec fn load(self, bytes: Seq<u8>) -> MemoryState {
        MemoryState {
            ram: Seq::new(
                self.ram.len(),
                |i: int|
                    if i < bytes.len() {
                        bytes[i]
                    } else {
                        self.ram[i]
                    },
            ),
            ..self
        }
    }

    /// The address space after `bytes` became the boot overlay.
    pub open spec fn overlay(self, bytes: Seq<u8>) -> MemoryState {
        MemoryState { boot: bytes, boot_loaded: true, ..self }
    }

    /// Whether a byte written at `location` is read back from it: the
    /// location lies in the flat array or is a register that stores what it
    /// is given, and the boot overlay does not cover it.
    pub open spec fn retains(self, location: u16) -> bool {
        &&& location < MEMORY_SIZE
        &&& !(location < BOOTROM_SIZE && self.boot_loaded)
        &&& location != 0xFF04
    }
}

/// A byte written where the address space retains it is read back.
pub proof fn lemma_read_written(memory: MemoryState, location: u16, value: u8)
    requires
        memory.wf(),
        memory.retains(location),
    ensures
        memory.write(location, value).read(location) == value,
        memory.write(location, value).wf(),
{
}

/// A write leaves every other location as it read before, and does not
/// change which locations retain a write.
pub proof fn lemma_read_other(memory: MemoryState, location: u16, value: u8, other: u16)
    requires
        memory.wf(),
        other != location,
    ensures
        memory.write(location, value).read(other) == memory.read(other),
        memory.write(location, value).retains(other) == memory.retains(other),
        memory.write(location, value).wf(),
{
}

/// The address space.
pub struct Memory {
    memory: [u8; 0xFFFF],
    bootrom: [u8; 0x100],
    interrupt_enable: u8,
    interrupt_flag: u8,
    serial: Vec<u8>,
    bootrom_loaded: bool,
    timer: Timer,
}

impl View for Memory {
    type V = MemoryState;

    closed spec fn view(&self) -> MemoryState {
        MemoryState {
            ram: self.memory@,
            boot: self.bootrom@,
            boot_loaded: self.bootrom_loaded,
            interrupt_enable: self.interrupt_enable,
            interrupt_flag: self.interrupt_flag,
            timer: self.timer@,
            serial: self.serial@,
        }
    }
}

impl Memory {
    /// The arrays of an address space have their full length, so what is
    /// stated of well-formed states holds of its view.
    pub proof fn lemma_view_wf(&self)
        ensures
            self@.wf(),
    {
    }

    /// An address space with every byte zero, no boot overlay, a timer at
    /// rest and nothing sent.
    pub fn new() -> (memory: Self)
        ensures
            memory@ == MemoryState::power_on(),
    {
        let memory = Self {
            memory: [0;0xFFFF],
            bootrom: [0;0x100],
            interrupt_enable: 0x00,
            interrupt_flag: 0x00,
            serial: Vec::new(),
            bootrom_loaded: false,
            timer: Timer::new(),
        };
        assert(memory@.ram =~= MemoryState::power_on().ram);
        assert(memory@.boot =~= MemoryState::power_on().boot);
        memory
    }

    /// Writes `value` at `location`, by the rules of `MemoryState::write`.
    /// A write of 0x81 to 0xFF02 also queues the byte held at 0xFF01 for the
    /// serial port.
    pub fn write(&mut self, location: u16, value: u8)
        ensures
            final(self)@ == old(self)@.write(location, value),
    {
        let location: usize = location as usize;
        if location == 0xFF02 && value == 0x81 {
            let sent: u8 = self.memory[0xFF01];
            self.serial.push(sent);
        }
        if location >= MEMORY_SIZE {
        } else if location == 0xFFFF {
            self.interrupt_enable = value;
        } else if location == 0xFF0F {
            self.interrupt_flag = value;
        } else if location >= 0xFF04 && location <= 0xFF07 {
            let stored = self.timer.write(location, value);
            assert(stored is Ok);
        } else {
            self.memory[location] = value;
            assert(self.memory@ =~= old(self).memory@.update(location as int, value));
        }
    }

    /// Reads the byte at `location`, by the rules of `MemoryState::read`.
    pub fn read(&self, location: u16) -> (value: u8)
        ensures
            value == self@.read(location),
    {
        let location: usize = location as usize;
        if location >= MEMORY_SIZE {
            return 0;
        }
        if location < BOOTROM_SIZE && self.bootrom_loaded {
            return self.bootrom[location];
        }
        if location == 0xFFFF {
            return self.interrupt_enable;
        }
        if location == 0xFF0F {
            return self.interrupt_flag;
        }
        if location >= 0xFF04 && location <= 0xFF07 {
            return self.timer.read(location).unwrap();
        }
        self.memory[location]
    }

    /// Makes `bootrom` the boot overlay. From here on reads below 0x100 are
    /// answered from it.
    pub fn write_bootrom(&mut self, bootrom: &[u8; 0x100])
        ensures
            final(self)@ == old(self)@.overlay(bootrom@),
    {
        let mut counter: usize = 0;
        while counter < BOOTROM_SIZE
            invariant
                counter <= BOOTROM_SIZE,
                forall|i: int| 0 <= i < counter ==> self.bootrom@[i] == bootrom@[i],
                self.memory == old(self).memory,
                self.interrupt_enable == old(self).interrupt_enable,
                self.interrupt_flag == old(self).interrupt_flag,
                self.serial == old(self).serial,
                self.timer == old(self).timer,
            decreases BOOTROM_SIZE - counter,
        {
            self.bootrom[counter] = bootrom[counter];
            counter += 1;
        }
        self.bootrom_loaded = true;
        assert(self.bootrom@ =~= bootrom@);
    }

    /// Copies `game` into the flat array from address 0 on. Bytes that would
    /// fall beyond the array are left out; addresses beyond the copied bytes
    /// keep what they held.
    pub fn write_game(&mut self, game: &[u8])
        ensures
            final(self)@ == old(self)@.load(game@),
    {
        let mut counter: usize = 0;
        while counter < game.len() && counter < MEMORY_SIZE
            invariant
                counter <= game@.len(),
                counter <= MEMORY_SIZE,
                forall|i: int| 0 <= i < counter ==> self.memory@[i] == game@[i],
                forall|i: int| counter <= i < MEMORY_SIZE ==> self.memory@[i] == old(self).memory@[i],
                self.bootrom == old(self).bootrom,
                self.bootrom_loaded == old(self).bootrom_loaded,
                self.interrupt_enable == old(self).interrupt_enable,
                self.interrupt_flag == old(self).interrupt_flag,
                self.serial == old(self).serial,
                self.timer == old(self).timer,
            decreases MEMORY_SIZE - counter,
        {
            self.memory[counter] = game[counter];
            counter += 1;
        }
        assert(self.memory@ =~= old(self)@.load(game@).ram);
    }

    /// Whether the boot overlay is loaded.
    pub fn bootrom_loaded(&self) -> (loaded: bool)
        ensures
            loaded == self@.boot_loaded,
    {
        self.bootrom_loaded
    }

    /// Advances the timer behind 0xFF04 to 0xFF07 by one tick, and returns
    /// whether its counter overflowed on this tick.
    pub fn tick_timer(&mut self) -> (overflow: bool)
        ensures
            final(self)@ == (MemoryState { timer: old(self)@.timer.tick(), ..old(self)@ }),
            overflow == old(self)@.timer.overflows(),
    {
        self.timer.tick()
    }

    /// Hands the queued serial bytes to the host, oldest first, and empties
    /// the queue.
    pub fn take_serial(&mut self) -> (bytes: Vec<u8>)
        ensures
            bytes@ == old(self)@.serial,
            final(self)@ == (MemoryState { serial: Seq::empty(), ..old(self)@ }),
    {
        let mut bytes: Vec<u8> = Vec::new();
        core::mem::swap(&mut bytes, &mut self.serial);
        bytes
    }
}

} // verus!
