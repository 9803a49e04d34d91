//! The register file: eight 8-bit registers, the stack pointer and the
//! program counter, with the paired 16-bit views and the four flag bits.

use vstd::prelude::*;
use crate::util::{high_byte, low_byte, lsb, make_word, msb, word_of};

verus! {

/// One of the four flags held in the top nibble of `F`.
#[derive(Clone, Copy, Debug, PartialEq, Eq, Structural)]
pub enum Flag {
    /// Zero: the last result was zero.
    Z,
    /// Subtract: the last operation was a subtraction.
    N,
    /// Half-carry: a carry or borrow crossed the nibble boundary.
    H,
    /// Carry: a carry or borrow left the byte.
    C,
}

impl Flag {
    /// The numeric weight of the flag's bit within `F`.
    pub open spec fn weight(self) -> u8 {
        match self {
            Flag::Z => 0x80,
            Flag::N => 0x40,
            Flag::H => 0x20,
            Flag::C => 0x10,
        }
    }

    /// The bit of `F` that holds the flag.
    pub fn mask(self) -> (mask: u8)
        ensures
            mask == self.weight(),
    {
        match self {
            Flag::Z => 0b1000_0000,
            Flag::N => 0b0100_0000,
            Flag::H => 0b0010_0000,
            Flag::C => 0b0001_0000,
        }
    }
}

/// One of the seven 8-bit registers that instructions name directly.
#[derive(Clone, Copy, Debug, PartialEq, Eq, Structural)]
pub enum ByteReg {
    B,
    C,
    D,
    E,
    H,
    L,
    A,
}

/// The value of `F` in which exactly the given flags are set.
pub open spec fn flags_byte(zero: bool, subtract: bool, half_carry: bool, carry: bool) -> u8 {
    ((if zero { 0x80u8 } else { 0u8 }) + (if subtract { 0x40u8 } else { 0u8 })
        + (if half_carry { 0x20u8 } else { 0u8 }) + (if carry { 0x10u8 } else { 0u8 })) as u8
}

/// Whether `flag` is set in the flags byte `f`.
pub open spec fn flag_in(f: u8, flag: Flag) -> bool {
    (f / flag.weight()) % 2 == 1
}

/// The register file.
#[derive(Clone, Copy, Debug, PartialEq, Eq, Structural)]
pub struct Register {
    pub a: u8,
    /// The flags register. Only its top nibble carries information.
    pub f: u8,
    pub b: u8,
    pub c: u8,
    pub d: u8,
    pub e: u8,
    pub h: u8,
    pub l: u8,
    pub sp: u16,
    pub pc: u16,
}

/// Testing, setting and clearing a flag bit with masks, as arithmetic on
/// the flags byte.
proof fn lemma_flag_bits(f: u8)
    by (bit_vector)
    ensures
        (f & 0x80 != 0) == ((f / 0x80) % 2 == 1),
        (f & 0x40 != 0) == ((f / 0x40) % 2 == 1),
        (f & 0x20 != 0) == ((f / 0x20) % 2 == 1),
        (f & 0x10 != 0) == ((f / 0x10) % 2 == 1),
        (f | 0x80) & 0xF0 == (f / 16) * 16 + (if (f / 0x80) % 2 == 1 { 0u8 } else { 0x80u8 }),
        (f | 0x40) & 0xF0 == (f / 16) * 16 + (if (f / 0x40) % 2 == 1 { 0u8 } else { 0x40u8 }),
        (f | 0x20) & 0xF0 == (f / 16) * 16 + (if (f / 0x20) % 2 == 1 { 0u8 } else { 0x20u8 }),
        (f | 0x10) & 0xF0 == (f / 16) * 16 + (if (f / 0x10) % 2 == 1 { 0u8 } else { 0x10u8 }),
        (f & !0x80u8) & 0xF0 == (f / 16) * 16 - (if (f / 0x80) % 2 == 1 { 0x80u8 } else { 0u8 }),
        (f & !0x40u8) & 0xF0 == (f / 16) * 16 - (if (f / 0x40) % 2 == 1 { 0x40u8 } else { 0u8 }),
        (f & !0x20u8) & 0xF0 == (f / 16) * 16 - (if (f / 0x20) % 2 == 1 { 0x20u8 } else { 0u8 }),
        (f & !0x10u8) & 0xF0 == (f / 16) * 16 - (if (f / 0x10) % 2 == 1 { 0x10u8 } else { 0u8 }),
        f & 0xF0 == (f / 16) * 16,
        (f / 16) * 16 == (if (f / 0x80) % 2 == 1 { 0x80u8 } else { 0u8 }) + (if (f / 0x40) % 2 == 1 { 0x40u8 } else { 0u8 })
            + (if (f / 0x20) % 2 == 1 { 0x20u8 } else { 0u8 }) + (if (f / 0x10) % 2 == 1 { 0x10u8 } else { 0u8 }),
{
}

impl Register {
    /// The register file as the boot ROM leaves it.
    pub open spec fn power_on() -> Register {
        Register { a: 0, f: 0, b: 0, c: 0, d: 0, e: 0, h: 0, l: 0, sp: 0xFFFE, pc: 0x0100 }
    }

    /// The invariant of the flags register: its low nibble is zero.
    pub open spec fn wf(self) -> bool {
        self.f % 16 == 0
    }

    /// The pair `A:F` read as one word.
    pub open spec fn af_word(self) -> u16 {
        word_of(self.a, self.f)
    }

    /// The pair `B:C` read as one word.
    pub open spec fn bc_word(self) -> u16 {
        word_of(self.b, self.c)
    }

    /// The pair `D:E` read as one word.
    pub open spec fn de_word(self) -> u16 {
        word_of(self.d, self.e)
    }

    /// The pair `H:L` read as one word.
    pub open spec fn hl_word(self) -> u16 {
        word_of(self.h, self.l)
    }

    /// The register file after `value` was written to `A:F`. The low nibble
    /// of the low byte does not reach `F`.
    pub open spec fn with_af(self, value: u16) -> Register {
        Register { a: high_byte(value), f: (low_byte(value) / 16 * 16) as u8, ..self }
    }

    /// The register file after `value` was written to `B:C`.
    pub open spec fn with_bc(self, value: u16) -> Register {
        Register { b: high_byte(value), c: low_byte(value), ..self }
    }

    /// The register file after `value` was written to `D:E`.
    pub open spec fn with_de(self, value: u16) -> Register {
        Register { d: high_byte(value), e: low_byte(value), ..self }
    }

    /// The register file after `value` was written to `H:L`.
    pub open spec fn with_hl(self, value: u16) -> Register {
        Register { h: high_byte(value), l: low_byte(value), ..self }
    }

    /// The content of the 8-bit register `r`.
    pub open spec fn byte(self, r: ByteReg) -> u8 {
        match r {
            ByteReg::B => self.b,
            ByteReg::C => self.c,
            ByteReg::D => self.d,
            ByteReg::E => self.e,
            ByteReg::H => self.h,
            ByteReg::L => self.l,
            ByteReg::A => self.a,
        }
    }

    /// The register file after `value` was written to the 8-bit register `r`.
    pub open spec fn with_byte(self, r: ByteReg, value: u8) -> Register {
        match r {
            ByteReg::B => Register { b: value, ..self },
            ByteReg::C => Register { c: value, ..self },
            ByteReg::D => Register { d: value, ..self },
            ByteReg::E => Register { e: value, ..self },
            ByteReg::H => Register { h: value, ..self },
            ByteReg::L => Register { l: value, ..self },
            ByteReg::A => Register { a: value, ..self },
        }
    }

    /// Whether `flag` is set.
    pub open spec fn flag(self, flag: Flag) -> bool {
        flag_in(self.f, flag)
    }

    /// The register file with all four flags replaced.
    pub open spec fn with_flags(self, zero: bool, subtract: bool, half_carry: bool, carry: bool) -> Register {
        Register { f: flags_byte(zero, subtract, half_carry, carry), ..self }
    }

    /// The register file with `flag` set to `state`, the other three flags
    /// kept and the low nibble of `F` cleared.
    pub open spec fn with_flag(self, flag: Flag, state: bool) -> Register {
        self.with_flags(
            if flag == Flag::Z { state } else { self.flag(Flag::Z) },
            if flag == Flag::N { state } else { self.flag(Flag::N) },
            if flag == Flag::H { state } else { self.flag(Flag::H) },
            if flag == Flag::C { state } else { self.flag(Flag::C) },
        )
    }

    pub fn new() -> (reg: Self)
        ensures
            reg == Register::power_on(),
            reg.wf(),
    {
        Self { a: 0, f: 0, b: 0, c: 0, d: 0, e: 0, h: 0, l: 0, sp: 0xFFFE, pc: 0x0100 }
    }

    // Some instructions use the A, B, C, D, E, H, L registers
    // as 16-bit registers by combining them in the following
    // manner: AF, BC, DE, HL
    pub fn af(&self) -> (word: u16)
        ensures
            word == self.af_word(),
    {
        make_word(self.a, self.f)
    }

    pub fn bc(&self) -> (word: u16)
        ensures
            word == self.bc_word(),
    {
        make_word(self.b, self.c)
    }

    pub fn de(&self) -> (word: u16)
        ensures
            word == self.de_word(),
    {
        make_word(self.d, self.e)
    }

    pub fn hl(&self) -> (word: u16)
        ensures
            word == self.hl_word(),
    {
        make_word(self.h, self.l)
    }

    pub fn set_af(&mut self, value: u16)
        ensures
            *final(self) == old(self).with_af(value),
            final(self).wf(),
    {
        let low = lsb(value);
        proof {
            lemma_flag_bits(low);
        }
        self.a = msb(value);
        self.f = low & 0xF0;
    }

    pub fn set_bc(&mut self, value: u16)
        ensures
            *final(self) == old(self).with_bc(value),
    {
        self.b = msb(value);
        self.c = lsb(value);
    }

    pub fn set_de(&mut self, value: u16)
        ensures
            *final(self) == old(self).with_de(value),
    {
        self.d = msb(value);
        self.e = lsb(value);
    }

    pub fn set_hl(&mut self, value: u16)
        ensures
            *final(self) == old(self).with_hl(value),
    {
        self.h = msb(value);
        self.l = lsb(value);
    }

    /// Read `HL`, then increment it, wrapping at 0xFFFF.
    pub fn hli(&mut self) -> (word: u16)
        ensures
            word == old(self).hl_word(),
            *final(self) == old(self).with_hl(word.wrapping_add(1)),
    {
        let word = self.hl();
        self.set_hl(word.wrapping_add(1));
        word
    }

    /// Read `HL`, then decrement it, wrapping at zero.
    pub fn hld(&mut self) -> (word: u16)
        ensures
            word == old(self).hl_word(),
            *final(self) == old(self).with_hl(word.wrapping_sub(1)),
    {
        let word = self.hl();
        self.set_hl(word.wrapping_sub(1));
        word
    }

    /// Read the 8-bit register `r`.
    pub fn get(&self, r: ByteReg) -> (value: u8)
        ensures
            value == self.byte(r),
    {
        match r {
            ByteReg::B => self.b,
            ByteReg::C => self.c,
            ByteReg::D => self.d,
            ByteReg::E => self.e,
            ByteReg::H => self.h,
            ByteReg::L => self.l,
            ByteReg::A => self.a,
        }
    }

    /// Write the 8-bit register `r`.
    pub fn set(&mut self, r: ByteReg, value: u8)
        ensures
            *final(self) == old(self).with_byte(r, value),
    {
        match r {
            ByteReg::B => self.b = value,
            ByteReg::C => self.c = value,
            ByteReg::D => self.d = value,
            ByteReg::E => self.e = value,
            ByteReg::H => self.h = value,
            ByteReg::L => self.l = value,
            ByteReg::A => self.a = value,
        }
    }

    /// Return whether the flag is set to true or false.
    pub fn get_flag(&self, flag: Flag) -> (state: bool)
        ensures
            state == self.flag(flag),
    {
        proof {
            lemma_flag_bits(self.f);
        }
        self.f & flag.mask() != 0
    }

    /// Set the flag to the given state.
    pub fn set_flag(&mut self, flag: Flag, state: bool)
        ensures
            *final(self) == old(self).with_flag(flag, state),
            final(self).wf(),
            final(self).flag(flag) == state,
            flag != Flag::Z ==> final(self).flag(Flag::Z) == old(self).flag(Flag::Z),
            flag != Flag::N ==> final(self).flag(Flag::N) == old(self).flag(Flag::N),
            flag != Flag::H ==> final(self).flag(Flag::H) == old(self).flag(Flag::H),
            flag != Flag::C ==> final(self).flag(Flag::C) == old(self).flag(Flag::C),
    {
        proof {
            lemma_flags_byte(
                if flag == Flag::Z { state } else { self.flag(Flag::Z) },
                if flag == Flag::N { state } else { self.flag(Flag::N) },
                if flag == Flag::H { state } else { self.flag(Flag::H) },
                if flag == Flag::C { state } else { self.flag(Flag::C) },
            );
        }
        proof {
            lemma_flag_bits(self.f);
        }
        let mask = flag.mask();
        if state {
            self.f = self.f | mask;
        } else {
            self.f = self.f & !mask;
        }
        self.f = self.f & 0xF0;
    }
}

/// Reading a pair after writing it gives the written word back, and
/// writing a pair its own value changes nothing. For `A:F` both hold up to
/// the low nibble, which `F` does not keep.
pub proof fn lemma_pair_round_trip(reg: Register, value: u16)
    ensures
        reg.with_bc(value).bc_word() == value,
        reg.with_de(value).de_word() == value,
        reg.with_hl(value).hl_word() == value,
        reg.with_af(value).af_word() == value / 16 * 16,
        reg.with_bc(reg.bc_word()) == reg,
        reg.with_de(reg.de_word()) == reg,
        reg.with_hl(reg.hl_word()) == reg,
        reg.wf() ==> reg.with_af(reg.af_word()) == reg,
{
}

/// A flags byte built from four flags has a zero low nibble and gives each
/// flag back.
pub proof fn lemma_flags_byte(zero: bool, subtract: bool, half_carry: bool, carry: bool)
    by (bit_vector)
    ensures
        flags_byte(zero, subtract, half_carry, carry) % 16 == 0,
        flag_in(flags_byte(zero, subtract, half_carry, carry), Flag::Z) == zero,
        flag_in(flags_byte(zero, subtract, half_carry, carry), Flag::N) == subtract,
        flag_in(flags_byte(zero, subtract, half_carry, carry), Flag::H) == half_carry,
        flag_in(flags_byte(zero, subtract, half_carry, carry), Flag::C) == carry,
{
}

} // verus!
