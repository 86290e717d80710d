//! The register file: eight 8-bit registers seen also as four 16-bit pairs,
//! the stack pointer, the program counter, the four flags packed into the
//! upper nibble of F, and the interrupt-master-enable bit.
use vstd::prelude::*;
use crate::bits::{high_byte, low_byte, spec_high, spec_low, spec_word, word};
use crate::flag_type::FlagType;
use crate::register_type::{RegisterType16, RegisterType8};

verus! {

/// The four flags as truth values.
pub struct Flags {
    pub zero: bool,
    pub subtraction: bool,
    pub half_carry: bool,
    pub carry: bool,
}

impl Flags {
    /// The flags read off a byte: bit 7 is Zero, bit 6 Subtraction, bit 5
    /// HalfCarry and bit 4 Carry. The low nibble is not looked at.
    pub open spec fn unpack(byte: u8) -> Flags {
        Flags {
            zero: byte & 0x80 == 0x80,
            subtraction: byte & 0x40 == 0x40,
            half_carry: byte & 0x20 == 0x20,
            carry: byte & 0x10 == 0x10,
        }
    }

    /// The byte that register F holds for these flags. Its low nibble is zero.
    pub open spec fn pack(self) -> u8 {
        ((if self.zero { 0x80int } else { 0 })
            + (if self.subtraction { 0x40int } else { 0 })
            + (if self.half_carry { 0x20int } else { 0 })
            + (if self.carry { 0x10int } else { 0 })) as u8
    }

    pub open spec fn get(self, flag: FlagType) -> bool {
        match flag {
            FlagType::Zero => self.zero,
            FlagType::Subtraction => self.subtraction,
            FlagType::HalfCarry => self.half_carry,
            FlagType::Carry => self.carry,
        }
    }

    pub open spec fn set(self, flag: FlagType, value: bool) -> Flags {
        match flag {
            FlagType::Zero => Flags { zero: value, ..self },
            FlagType::Subtraction => Flags { subtraction: value, ..self },
            FlagType::HalfCarry => Flags { half_carry: value, ..self },
            FlagType::Carry => Flags { carry: value, ..self },
        }
    }
}

/// What the register file holds, as plain values. Register F appears as its
/// four flags, so a state of this type cannot hold a low nibble in F.
pub struct RegisterState {
    pub a: u8,
    pub b: u8,
    pub c: u8,
    pub d: u8,
    pub e: u8,
    pub h: u8,
    pub l: u8,
    pub flags: Flags,
    pub sp: u16,
    pub pc: u16,
    pub ime: bool,
}

impl RegisterState {
    /// The register values after the boot sequence, for a machine that starts
    /// without a boot overlay.
    pub open spec fn power_on() -> RegisterState {
        RegisterState {
            a: 0x01,
            b: 0x00,
            c: 0x13,
            d: 0x00,
            e: 0xD8,
            h: 0x01,
            l: 0x4D,
            flags: Flags { zero: false, subtraction: false, half_carry: false, carry: false },
            sp: 0xFFFE,
            pc: 0x0100,
            ime: false,
        }
    }

    pub open spec fn read_8(self, register: RegisterType8) -> u8 {
        match register {
            RegisterType8::A => self.a,
            RegisterType8::B => self.b,
            RegisterType8::C => self.c,
            RegisterType8::D => self.d,
            RegisterType8::E => self.e,
            RegisterType8::F => self.flags.pack(),
            RegisterType8::H => self.h,
            RegisterType8::L => self.l,
        }
    }

    /// A write to F keeps the four flag bits of `value` and drops its low
    /// nibble.
    pub open spec fn write_8(self, register: RegisterType8, value: u8) -> RegisterState {
        match register {
            RegisterType8::A => RegisterState { a: value, ..self },
            RegisterType8::B => RegisterState { b: value, ..self },
            RegisterType8::C => RegisterState { c: value, ..self },
            RegisterType8::D => RegisterState { d: value, ..self },
            RegisterType8::E => RegisterState { e: value, ..self },
            RegisterType8::F => RegisterState { flags: Flags::unpack(value), ..self },
            RegisterType8::H => RegisterState { h: value, ..self },
            RegisterType8::L => RegisterState { l: value, ..self },
        }
    }

    /// The register that holds the high byte of a pair.
    pub open spec fn high_of(pair: RegisterType16) -> RegisterType8
        recommends
            pair != RegisterType16::SP,
            pair != RegisterType16::PC,
    {
        match pair {
            RegisterType16::AF => RegisterType8::A,
            RegisterType16::BC => RegisterType8::B,
            RegisterType16::DE => RegisterType8::D,
            _ => RegisterType8::H,
        }
    }

    /// The register that holds the low byte of a pair.
    pub open spec fn low_of(pair: RegisterType16) -> RegisterType8
        recommends
            pair != RegisterType16::SP,
            pair != RegisterType16::PC,
    {
        match pair {
            RegisterType16::AF => RegisterType8::F,
            RegisterType16::BC => RegisterType8::C,
            RegisterType16::DE => RegisterType8::E,
            _ => RegisterType8::L,
        }
    }

    /// A pair reads as `high * 256 + low` of its two 8-bit registers; `SP`
    /// and `PC` read as themselves.
    pub open spec fn read_16(self, register: RegisterType16) -> u16 {
        match register {
            RegisterType16::SP => self.sp,
            RegisterType16::PC => self.pc,
            pair => spec_word(self.read_8(Self::high_of(pair)), self.read_8(Self::low_of(pair))),
        }
    }

    /// A write to a pair is a write of the high byte and of the low byte to
    /// its two 8-bit registers.
    pub open spec fn write_16(self, register: RegisterType16, value: u16) -> RegisterState {
        match register {
            RegisterType16::SP => RegisterState { sp: value, ..self },
            RegisterType16::PC => RegisterState { pc: value, ..self },
            pair => self.write_8(Self::high_of(pair), spec_high(value)).write_8(
                Self::low_of(pair),
                spec_low(value),
            ),
        }
    }

    pub open spec fn flag(self, flag: FlagType) -> bool {
        self.flags.get(flag)
    }

    pub open spec fn with_flag(self, flag: FlagType, value: bool) -> RegisterState {
        RegisterState { flags: self.flags.set(flag, value), ..self }
    }

    pub open spec fn with_flags(self, flags: Flags) -> RegisterState {
        RegisterState { flags, ..self }
    }

    pub open spec fn with_ime(self, value: bool) -> RegisterState {
        RegisterState { ime: value, ..self }
    }
}

proof fn lemma_flag_byte(f: u8)
    by (bit_vector)
    ensures
        (f & 0xF0) & 0x0F == 0,
        (f & 0xF0) & 0x80 == f & 0x80,
        (f & 0xF0) & 0x40 == f & 0x40,
        (f & 0xF0) & 0x20 == f & 0x20,
        (f & 0xF0) & 0x10 == f & 0x10,
        f & 0x0F == 0 ==> f == (f & 0x80) + (f & 0x40) + (f & 0x20) + (f & 0x10),
        f & 0x80 == 0x80 || f & 0x80 == 0,
        f & 0x40 == 0x40 || f & 0x40 == 0,
        f & 0x20 == 0x20 || f & 0x20 == 0,
        f & 0x10 == 0x10 || f & 0x10 == 0,
        f & 0x0F == f % 16,
{
}

proof fn lemma_flag_set(f: u8, m: u8)
    by (bit_vector)
    requires
        m == 0x80 || m == 0x40 || m == 0x20 || m == 0x10,
    ensures
        (f | m) & m == m,
        (f | m) & 0x0F == f & 0x0F,
        m != 0x80 ==> (f | m) & 0x80 == f & 0x80,
        m != 0x40 ==> (f | m) & 0x40 == f & 0x40,
        m != 0x20 ==> (f | m) & 0x20 == f & 0x20,
        m != 0x10 ==> (f | m) & 0x10 == f & 0x10,
{
}

proof fn lemma_flag_clear(f: u8, m: u8)
    by (bit_vector)
    requires
        m == 0x80 || m == 0x40 || m == 0x20 || m == 0x10,
    ensures
        (f & (m ^ 0xFF)) & m == 0,
        (f & (m ^ 0xFF)) & 0x0F == f & 0x0F,
        m != 0x80 ==> (f & (m ^ 0xFF)) & 0x80 == f & 0x80,
        m != 0x40 ==> (f & (m ^ 0xFF)) & 0x40 == f & 0x40,
        m != 0x20 ==> (f & (m ^ 0xFF)) & 0x20 == f & 0x20,
        m != 0x10 ==> (f & (m ^ 0xFF)) & 0x10 == f & 0x10,
{
}

proof fn lemma_pack_bits(z: bool, n: bool, h: bool, c: bool, f: u8)
    by (bit_vector)
    requires
        f == (if z { 0x80u8 } else { 0 }) + (if n { 0x40u8 } else { 0 }) + (if h { 0x20u8 } else {
            0
        }) + (if c { 0x10u8 } else { 0 }),
    ensures
        (f & 0x80 == 0x80) == z,
        (f & 0x40 == 0x40) == n,
        (f & 0x20 == 0x20) == h,
        (f & 0x10 == 0x10) == c,
        f & 0x0F == 0,
{
}

/// Packing flags and reading them back gives the same flags, and a packed
/// byte has no bit in its low nibble.
pub proof fn lemma_pack_unpack(flags: Flags)
    ensures
        Flags::unpack(flags.pack()) == flags,
        flags.pack() & 0x0F == 0,
        flags.pack() % 16 == 0,
{
    lemma_pack_bits(flags.zero, flags.subtraction, flags.half_carry, flags.carry, flags.pack());
}

/// The register file.
pub struct Registers {
    a: u8,
    b: u8,
    c: u8,
    d: u8,
    e: u8,
    f: u8,
    h: u8,
    l: u8,
    sp: u16,
    pc: u16,
    ime: bool,
}

impl View for Registers {
    type V = RegisterState;

    closed spec fn view(&self) -> RegisterState {
        RegisterState {
            a: self.a,
            b: self.b,
            c: self.c,
            d: self.d,
            e: self.e,
            h: self.h,
            l: self.l,
            flags: Flags::unpack(self.f),
            sp: self.sp,
            pc: self.pc,
            ime: self.ime,
        }
    }
}

impl Registers {
    /// The low nibble of F is zero in every register file.
    #[verifier::type_invariant]
    spec fn low_nibble_clear(self) -> bool {
        self.f & 0x0F == 0
    }

    /// A register file with the values that the boot sequence leaves.
    pub fn new() -> (registers: Self)
        ensures
            registers@ == RegisterState::power_on(),
    {
        proof {
            lemma_flag_byte(0x00);
        }
        Self {
            a: 0x01,
            b: 0x00,
            c: 0x13,
            d: 0x00,
            e: 0xD8,
            f: 0x00,
            h: 0x01,
            l: 0x4D,
            sp: 0xFFFE,
            pc: 0x0100,
            ime: false,
        }
    }

    /// Stores `value` in an 8-bit register. Of a value stored in F only the
    /// four flag bits are kept.
    pub fn write_8(&mut self, register: RegisterType8, value: u8)
        ensures
            final(self)@ == old(self)@.write_8(register, value),
    {
        proof {
            use_type_invariant(&*self);
        }
        match register {
            RegisterType8::A => { self.a = value }
            RegisterType8::B => { self.b = value }
            RegisterType8::C => { self.c = value }
            RegisterType8::D => { self.d = value }
            RegisterType8::E => { self.e = value }
            RegisterType8::F => {
                proof {
                    lemma_flag_byte(value);
                }
                self.f = value & 0xF0
            }
            RegisterType8::H => { self.h = value }
            RegisterType8::L => { self.l = value }
        }
    }

    /// Stores `value` in a register pair, high byte first, or in `SP` or `PC`.
    pub fn write_16(&mut self, register: RegisterType16, value: u16)
        ensures
            final(self)@ == old(self)@.write_16(register, value),
    {
        proof {
            use_type_invariant(&*self);
        }
        match register {
            RegisterType16::AF => {
                let low: u8 = low_byte(value);
                proof {
                    lemma_flag_byte(low);
                }
                self.a = high_byte(value);
                self.f = low & 0xF0;
            }
            RegisterType16::BC => {
                self.b = high_byte(value);
                self.c = low_byte(value);
            }
            RegisterType16::DE => {
                self.d = high_byte(value);
                self.e = low_byte(value);
            }
            RegisterType16::HL => {
                self.h = high_byte(value);
                self.l = low_byte(value);
            }
            RegisterType16::SP => { self.sp = value; }
            RegisterType16::PC => { self.pc = value; }
        }
    }

    /// The value of an 8-bit register. The low nibble of F reads as zero.
    pub fn read_8(&self, register: RegisterType8) -> (value: u8)
        ensures
            value == self@.read_8(register),
            register == RegisterType8::F ==> value & 0x0F == 0,
    {
        match register {
            RegisterType8::A => { self.a }
            RegisterType8::B => { self.b }
            RegisterType8::C => { self.c }
            RegisterType8::D => { self.d }
            RegisterType8::E => { self.e }
            RegisterType8::F => {
                proof {
                    use_type_invariant(self);
                    lemma_flag_byte(self.f);
                }
                self.f
            }
            RegisterType8::H => { self.h }
            RegisterType8::L => { self.l }
        }
    }

    /// The value of a register pair, `high * 256 + low`, or of `SP` or `PC`.
    pub fn read_16(&self, register: RegisterType16) -> (value: u16)
        ensures
            value == self@.read_16(register),
    {
        match register {
            RegisterType16::AF => {
                proof {
                    use_type_invariant(self);
                    lemma_flag_byte(self.f);
                }
                word(self.a, self.f)
            }
            RegisterType16::BC => { word(self.b, self.c) }
            RegisterType16::DE => { word(self.d, self.e) }
            RegisterType16::HL => { word(self.h, self.l) }
            RegisterType16::SP => { self.sp }
            RegisterType16::PC => { self.pc }
        }
    }

    /// Sets or clears one flag and leaves the other three as they are.
    pub fn write_flag(&mut self, flag: FlagType, set: bool)
        ensures
            final(self)@ == old(self)@.with_flag(flag, set),
    {
        proof {
            use_type_invariant(&*self);
        }
        match flag {
            FlagType::Zero => {
                let mask: u8 = 0x80;
                proof {
                    lemma_flag_set(self.f, mask);
                    lemma_flag_clear(self.f, mask);
                }
                if set {
                    self.f |= mask;
                } else {
                    self.f &= mask ^ 0xFF
                }
            }
            FlagType::Subtraction => {
                let mask: u8 = 0x40;
                proof {
                    lemma_flag_set(self.f, mask);
                    lemma_flag_clear(self.f, mask);
                }
                if set {
                    self.f |= mask;
                } else {
                    self.f &= mask ^ 0xFF
                }
            }
            FlagType::HalfCarry => {
                let mask: u8 = 0x20;
                proof {
                    lemma_flag_set(self.f, mask);
                    lemma_flag_clear(self.f, mask);
                }
                if set {
                    self.f |= mask;
                } else {
                    self.f &= mask ^ 0xFF
                }
            }
            FlagType::Carry => {
                let mask: u8 = 0x10;
                proof {
                    lemma_flag_set(self.f, mask);
                    lemma_flag_clear(self.f, mask);
                }
                if set {
                    self.f |= mask;
                } else {
                    self.f &= mask ^ 0xFF
                }
            }
        }
    }

    /// Whether a flag is set.
    pub fn read_flag(&self, flag: FlagType) -> (set: bool)
        ensures
            set == self@.flag(flag),
    {
        match flag {
            FlagType::Zero => {
                let mask: u8 = 0x80;
                self.f & mask == mask
            }
            FlagType::Subtraction => {
                let mask: u8 = 0x40;
                self.f & mask == mask
            }
            FlagType::HalfCarry => {
                let mask: u8 = 0x20;
                self.f & mask == mask
            }
            FlagType::Carry => {
                let mask: u8 = 0x10;
                self.f & mask == mask
            }
        }
    }

    /// Sets the interrupt-master-enable bit.
    pub fn set_ime(&mut self, value: bool)
        ensures
            final(self)@ == old(self)@.with_ime(value),
    {
        proof {
            use_type_invariant(&*self);
        }
        self.ime = value;
    }

    /// The interrupt-master-enable bit.
    pub fn ime(&self) -> (value: bool)
        ensures
            value == self@.ime,
    {
        self.ime
    }
}

} // verus!
