//! The register file: seven 8-bit general registers, the flag register F,
//! and the pairing of adjacent registers into 16-bit words.

use vstd::prelude::*;
use crate::codec::{pack, to_u16, to_u8, unpack};
use crate::flags::Flags;

verus! {

/// The name of an 8-bit register.
#[derive(Clone, Copy, Debug, PartialEq, Eq, Structural)]
pub enum Register {
    A,
    F,
    B,
    C,
    D,
    E,
    H,
    L,
}

/// The eight 8-bit registers. F is kept as named flags, so a byte written to
/// it loses its low nibble.
#[derive(Clone, Copy, Debug, PartialEq, Eq, Structural)]
pub struct RegisterFile {
    pub a: u8,
    pub flags: Flags,
    pub b: u8,
    pub c: u8,
    pub d: u8,
    pub e: u8,
    pub h: u8,
    pub l: u8,
}

impl RegisterFile {
    /// The byte that `register` holds.
    pub open spec fn get(self, register: Register) -> u8 {
        match register {
            Register::A => self.a,
            Register::F => self.flags.byte(),
            Register::B => self.b,
            Register::C => self.c,
            Register::D => self.d,
            Register::E => self.e,
            Register::H => self.h,
            Register::L => self.l,
        }
    }

    /// The file after `value` was written to `register`.
    pub open spec fn with(self, register: Register, value: u8) -> RegisterFile {
        match register {
            Register::A => RegisterFile { a: value, ..self },
            Register::F => RegisterFile { flags: Flags::of_byte(value), ..self },
            Register::B => RegisterFile { b: value, ..self },
            Register::C => RegisterFile { c: value, ..self },
            Register::D => RegisterFile { d: value, ..self },
            Register::E => RegisterFile { e: value, ..self },
            Register::H => RegisterFile { h: value, ..self },
            Register::L => RegisterFile { l: value, ..self },
        }
    }

    /// The word that the pair holds, `high` first.
    pub open spec fn get_pair(self, high: Register, low: Register) -> u16 {
        pack(self.get(high), self.get(low))
    }

    /// The file after `value` was written to the pair: its high byte to
    /// `high`, then its low byte to `low`.
    pub open spec fn with_pair(self, high: Register, low: Register, value: u16) -> RegisterFile {
        self.with(high, unpack(value).0).with(low, unpack(value).1)
    }

    /// The register file with every register at zero.
    pub open spec fn zeroed() -> RegisterFile {
        RegisterFile {
            a: 0,
            flags: Flags { zero: false, subtract: false, half_carry: false, carry: false },
            b: 0,
            c: 0,
            d: 0,
            e: 0,
            h: 0,
            l: 0,
        }
    }

    /// A register file with every register at zero.
    pub fn new() -> (file: RegisterFile)
        ensures
            file == RegisterFile::zeroed(),
    {
        RegisterFile { a: 0, flags: Flags::cleared(), b: 0, c: 0, d: 0, e: 0, h: 0, l: 0 }
    }

    /// Reads one register.
    pub fn read(&self, register: Register) -> (value: u8)
        ensures
            value == self.get(register),
    {
        match register {
            Register::A => self.a,
            Register::F => self.flags.to_byte(),
            Register::B => self.b,
            Register::C => self.c,
            Register::D => self.d,
            Register::E => self.e,
            Register::H => self.h,
            Register::L => self.l,
        }
    }

    /// Writes one register; a write to F keeps the four high bits only.
    pub fn write(&mut self, register: Register, value: u8)
        ensures
            *final(self) == old(self).with(register, value),
    {
        match register {
            Register::A => {
                self.a = value;
            },
            Register::F => {
                self.flags = Flags::from_byte(value);
            },
            Register::B => {
                self.b = value;
            },
            Register::C => {
                self.c = value;
            },
            Register::D => {
                self.d = value;
            },
            Register::E => {
                self.e = value;
            },
            Register::H => {
                self.h = value;
            },
            Register::L => {
                self.l = value;
            },
        }
    }

    /// Reads two registers as one word, `high` first.
    pub fn read_pair(&self, high: Register, low: Register) -> (value: u16)
        ensures
            value == self.get_pair(high, low),
    {
        to_u16(self.read(high), self.read(low))
    }

    /// Writes a word to two registers, `high` first.
    pub fn write_pair(&mut self, high: Register, low: Register, value: u16)
        ensures
            *final(self) == old(self).with_pair(high, low, value),
    {
        let (high_byte, low_byte) = to_u8(value);
        self.write(high, high_byte);
        self.write(low, low_byte);
    }
}

/// Every register of a new register file reads zero.
pub proof fn lemma_new_file_reads_zero(register: Register)
    ensures
        RegisterFile::zeroed().get(register) == 0,
{
}

/// A register reads back what was written to it; F reads back the four high
/// bits of it.
pub proof fn lemma_read_after_write(file: RegisterFile, register: Register, value: u8)
    ensures
        register != Register::F ==> file.with(register, value).get(register) == value,
        file.with(Register::F, value).get(Register::F) == value & 0xF0,
{
    crate::flags::lemma_flag_byte_is_masked(value);
}

/// A write to one register leaves every other register as it was.
pub proof fn lemma_write_leaves_others(
    file: RegisterFile,
    register: Register,
    value: u8,
    other: Register,
)
    requires
        other != register,
    ensures
        file.with(register, value).get(other) == file.get(other),
{
}

/// The low nibble of F is zero in every register file.
pub proof fn lemma_flag_register_low_nibble(file: RegisterFile)
    ensures
        file.get(Register::F) & 0x0F == 0,
{
    let byte = file.get(Register::F);
    assert(byte % 16 == 0);
    assert(byte % 16 == 0 ==> byte & 0x0F == 0) by (bit_vector);
}

/// A pair of two different registers reads back the word written to it,
/// with the low nibble of F zeroed where F is its low half, and the write
/// leaves every other register as it was.
pub proof fn lemma_pair_read_after_write(
    file: RegisterFile,
    high: Register,
    low: Register,
    value: u16,
)
    requires
        high != low,
        high != Register::F,
    ensures
        low != Register::F ==> file.with_pair(high, low, value).get_pair(high, low) == value,
        low == Register::F ==> file.with_pair(high, low, value).get_pair(high, low) == pack(
            unpack(value).0,
            unpack(value).1 & 0xF0,
        ),
        forall|other: Register|
            other != high && other != low ==> file.with_pair(high, low, value).get(other)
                == file.get(other),
{
    let (high_byte, low_byte) = unpack(value);
    let after = file.with(high, high_byte).with(low, low_byte);
    assert(after.get(high) == high_byte);
    if low == Register::F {
        crate::flags::lemma_flag_byte_is_masked(low_byte);
        assert(after.get(low) == low_byte & 0xF0);
    } else {
        assert(after.get(low) == low_byte);
        crate::codec::lemma_pack_unpack(value);
    }
}

} // verus!
