//! The four status flags and the rules by which arithmetic and rotate
//! operations compute them.

use vstd::prelude::*;

verus! {

/// One of the four status flags kept in the high nibble of register F.
#[derive(Clone, Copy, Debug, PartialEq, Eq, Structural)]
pub enum Flag {
    /// Zero: the last result was zero.
    Z,
    /// Subtract: the last operation was a subtraction.
    N,
    /// Half-Carry: a carry or borrow crossed from bit 3 into bit 4.
    H,
    /// Carry: a carry or borrow left the top bit.
    C,
}

impl Flag {
    /// The bit of register F that holds this flag.
    pub open spec fn bit(self) -> u8 {
        match self {
            Flag::Z => 0x80,
            Flag::N => 0x40,
            Flag::H => 0x20,
            Flag::C => 0x10,
        }
    }

    /// The bit of register F that holds this flag.
    pub fn mask(self) -> (mask: u8)
        ensures
            mask == self.bit(),
    {
        match self {
            Flag::Z => 0x80,
            Flag::N => 0x40,
            Flag::H => 0x20,
            Flag::C => 0x10,
        }
    }
}

impl core::ops::BitAnd for Flag {
    type Output = u8;

    fn bitand(self, other: Flag) -> (bits: u8) {
        self.mask() & other.mask()
    }
}

impl vstd::std_specs::ops::BitAndSpecImpl for Flag {
    open spec fn obeys_bitand_spec() -> bool {
        true
    }

    open spec fn bitand_req(self, other: Flag) -> bool {
        true
    }

    open spec fn bitand_spec(self, other: Flag) -> u8 {
        self.bit() & other.bit()
    }
}

impl core::ops::BitOr for Flag {
    type Output = u8;

    fn bitor(self, other: Flag) -> (bits: u8) {
        self.mask() | other.mask()
    }
}

impl vstd::std_specs::ops::BitOrSpecImpl for Flag {
    open spec fn obeys_bitor_spec() -> bool {
        true
    }

    open spec fn bitor_req(self, other: Flag) -> bool {
        true
    }

    open spec fn bitor_spec(self, other: Flag) -> u8 {
        self.bit() | other.bit()
    }
}

/// The state of the four flags, each under its own name.
///
/// Register F is this value written as a byte; only reads and writes of F
/// convert between the two, so the low nibble of F is zero by construction.
#[derive(Clone, Copy, Debug, PartialEq, Eq, Structural)]
pub struct Flags {
    pub zero: bool,
    pub subtract: bool,
    pub half_carry: bool,
    pub carry: bool,
}

impl Flags {
    /// The byte that register F shows for these flags.
    pub open spec fn byte(self) -> u8 {
        ((if self.zero { 0x80int } else { 0 })
            + (if self.subtract { 0x40int } else { 0 })
            + (if self.half_carry { 0x20int } else { 0 })
            + (if self.carry { 0x10int } else { 0 })) as u8
    }

    /// The flags that the high nibble of `byte` holds; the low nibble is dropped.
    pub open spec fn of_byte(byte: u8) -> Flags {
        Flags {
            zero: byte / 0x80 % 2 == 1,
            subtract: byte / 0x40 % 2 == 1,
            half_carry: byte / 0x20 % 2 == 1,
            carry: byte / 0x10 % 2 == 1,
        }
    }

    /// Whether `flag` is set.
    pub open spec fn get(self, flag: Flag) -> bool {
        match flag {
            Flag::Z => self.zero,
            Flag::N => self.subtract,
            Flag::H => self.half_carry,
            Flag::C => self.carry,
        }
    }

    /// These flags with `flag` set or cleared and the other three as they are.
    pub open spec fn with(self, flag: Flag, on: bool) -> Flags {
        match flag {
            Flag::Z => Flags { zero: on, ..self },
            Flag::N => Flags { subtract: on, ..self },
            Flag::H => Flags { half_carry: on, ..self },
            Flag::C => Flags { carry: on, ..self },
        }
    }

    /// All four flags cleared.
    pub fn cleared() -> (flags: Flags)
        ensures
            flags == (Flags { zero: false, subtract: false, half_carry: false, carry: false }),
    {
        Flags { zero: false, subtract: false, half_carry: false, carry: false }
    }

    /// Writes the flags as the byte of register F.
    pub fn to_byte(self) -> (byte: u8)
        ensures
            byte == self.byte(),
    {
        let mut byte: u8 = 0;
        if self.zero {
            byte = byte + 0x80;
        }
        if self.subtract {
            byte = byte + 0x40;
        }
        if self.half_carry {
            byte = byte + 0x20;
        }
        if self.carry {
            byte = byte + 0x10;
        }
        byte
    }

    /// Reads the flags out of a byte written to register F.
    pub fn from_byte(byte: u8) -> (flags: Flags)
        ensures
            flags == Flags::of_byte(byte),
    {
        assert((byte & 0x80 != 0) == (byte / 0x80 % 2 == 1) && (byte & 0x40 != 0) == (byte / 0x40
            % 2 == 1) && (byte & 0x20 != 0) == (byte / 0x20 % 2 == 1) && (byte & 0x10 != 0) == (byte
            / 0x10 % 2 == 1)) by (bit_vector);
        Flags {
            zero: byte & 0x80 != 0,
            subtract: byte & 0x40 != 0,
            half_carry: byte & 0x20 != 0,
            carry: byte & 0x10 != 0,
        }
    }

    /// Whether `flag` is set.
    pub fn is_set(self, flag: Flag) -> (on: bool)
        ensures
            on == self.get(flag),
    {
        match flag {
            Flag::Z => self.zero,
            Flag::N => self.subtract,
            Flag::H => self.half_carry,
            Flag::C => self.carry,
        }
    }

    /// Sets or clears `flag` and leaves the other three untouched.
    pub fn assign(&mut self, flag: Flag, on: bool)
        ensures
            *final(self) == old(self).with(flag, on),
    {
        match flag {
            Flag::Z => {
                self.zero = on;
            },
            Flag::N => {
                self.subtract = on;
            },
            Flag::H => {
                self.half_carry = on;
            },
            Flag::C => {
                self.carry = on;
            },
        }
    }
}

/// Reading back the byte of a set of flags gives the same flags.
pub proof fn lemma_flags_of_byte_of_flags(flags: Flags)
    ensures
        Flags::of_byte(flags.byte()) == flags,
{
}

/// The byte of register F after `byte` was written to it is `byte` with its
/// low nibble zeroed.
pub proof fn lemma_flag_byte_is_masked(byte: u8)
    ensures
        Flags::of_byte(byte).byte() == byte & 0xF0,
        Flags::of_byte(byte).byte() % 16 == 0,
{
    let kept = Flags::of_byte(byte).byte();
    assert(kept == byte - byte % 16);
    assert(byte & 0xF0 == byte - byte % 16) by (bit_vector);
}

/// In the byte of register F each flag shows as its own bit.
pub proof fn lemma_flag_bit_is_flag(flags: Flags, flag: Flag)
    ensures
        flags.get(flag) <==> flags.byte() & flag.bit() != 0,
{
    let byte = flags.byte();
    assert((byte & 0x80 != 0) == (byte / 0x80 % 2 == 1) && (byte & 0x40 != 0) == (byte / 0x40 % 2
        == 1) && (byte & 0x20 != 0) == (byte / 0x20 % 2 == 1) && (byte & 0x10 != 0) == (byte / 0x10
        % 2 == 1)) by (bit_vector);
}

/// The result and the flags of an 8-bit increment: the value wraps at 256,
/// Half-Carry tells that the low nibble carried into bit 4, Subtract is
/// cleared and Carry is kept.
pub open spec fn incremented(operand: u8, flags: Flags) -> (u8, Flags) {
    let result = ((operand + 1) % 256) as u8;
    (
        result,
        Flags {
            zero: result == 0,
            subtract: false,
            half_carry: operand % 16 == 15,
            carry: flags.carry,
        },
    )
}

/// The result and the flags of an 8-bit decrement: the value wraps below
/// zero, Half-Carry tells that the low nibble was zero before the decrement,
/// Subtract is set and Carry is kept.
pub open spec fn decremented(operand: u8, flags: Flags) -> (u8, Flags) {
    let result = ((operand + 255) % 256) as u8;
    (
        result,
        Flags {
            zero: result == 0,
            subtract: true,
            half_carry: operand % 16 == 0,
            carry: flags.carry,
        },
    )
}

/// The result and the flags of adding `addend` into `word`: Carry tells of an
/// overflow past bit 15, Half-Carry of one past bit 11, Subtract is cleared
/// and Zero is kept.
pub open spec fn added(word: u16, addend: u16, flags: Flags) -> (u16, Flags) {
    (
        ((word + addend) % 0x1_0000) as u16,
        Flags {
            zero: flags.zero,
            subtract: false,
            half_carry: word % 0x1000 + addend % 0x1000 > 0xFFF,
            carry: word + addend > 0xFFFF,
        },
    )
}

/// The result and the flags of rotating a byte left by one bit: bit 7 leaves
/// into Carry and comes back in as bit 0; the other flags are cleared.
pub open spec fn rotated_left(operand: u8) -> (u8, Flags) {
    (
        (operand * 2 % 256 + operand / 128) as u8,
        Flags { zero: false, subtract: false, half_carry: false, carry: operand >= 128 },
    )
}

/// The result and the flags of rotating a byte right by one bit: bit 0 leaves
/// into Carry and comes back in as bit 7; the other flags are cleared.
pub open spec fn rotated_right(operand: u8) -> (u8, Flags) {
    (
        (operand / 2 + operand % 2 * 128) as u8,
        Flags { zero: false, subtract: false, half_carry: false, carry: operand % 2 == 1 },
    )
}

/// An increment sets Zero exactly where the byte wraps to zero and
/// Half-Carry exactly where the low nibble was full; it clears Subtract and
/// keeps Carry.
pub proof fn lemma_increment_flags(operand: u8, flags: Flags)
    ensures
        incremented(operand, flags).0 == if operand == 0xFF { 0 } else { operand + 1 },
        incremented(operand, flags).1.zero <==> operand == 0xFF,
        incremented(operand, flags).1.half_carry <==> (operand & 0x0F) + 1 > 0x0F,
        !incremented(operand, flags).1.subtract,
        incremented(operand, flags).1.carry == flags.carry,
{
    assert(operand & 0x0F == operand % 16) by (bit_vector);
}

/// A decrement sets Zero exactly where the byte was one and Half-Carry
/// exactly where the low nibble was empty; it sets Subtract and keeps Carry.
pub proof fn lemma_decrement_flags(operand: u8, flags: Flags)
    ensures
        decremented(operand, flags).0 == if operand == 0 { 0xFF } else { operand - 1 },
        decremented(operand, flags).1.zero <==> operand == 1,
        decremented(operand, flags).1.half_carry <==> operand & 0x0F == 0,
        decremented(operand, flags).1.subtract,
        decremented(operand, flags).1.carry == flags.carry,
{
    assert(operand & 0x0F == operand % 16) by (bit_vector);
}

/// An addition of words sets Carry exactly where the sum of the words
/// passes bit 15 and Half-Carry exactly where the sum of their low twelve
/// bits passes bit 11; it clears Subtract and keeps Zero.
pub proof fn lemma_addition_flags(word: u16, addend: u16, flags: Flags)
    ensures
        added(word, addend, flags).0 == if word + addend > 0xFFFF {
            word + addend - 0x1_0000
        } else {
            word + addend
        },
        added(word, addend, flags).1.carry <==> word + addend > 0xFFFF,
        added(word, addend, flags).1.half_carry <==> (word & 0x0FFF) + (addend & 0x0FFF) > 0x0FFF,
        !added(word, addend, flags).1.subtract,
        added(word, addend, flags).1.zero == flags.zero,
{
    assert(word & 0x0FFF == word % 0x1000 && addend & 0x0FFF == addend % 0x1000) by (bit_vector);
}

/// A rotation moves every bit by one place: the bit that leaves at one end
/// comes back in at the other and shows in Carry.
pub proof fn lemma_rotation_bits(operand: u8)
    ensures
        rotated_left(operand).0 == (operand << 1) | (operand >> 7),
        rotated_left(operand).1.carry <==> operand & 0x80 != 0,
        rotated_right(operand).0 == (operand >> 1) | (operand << 7),
        rotated_right(operand).1.carry <==> operand & 0x01 != 0,
{
    assert((operand << 1) | (operand >> 7) == operand * 2 % 256 + operand / 128) by (bit_vector);
    assert((operand >> 1) | (operand << 7) == operand / 2 + operand % 2 * 128) by (bit_vector);
    assert((operand & 0x80 != 0) == (operand >= 128)) by (bit_vector);
    assert((operand & 0x01 != 0) == (operand % 2 == 1)) by (bit_vector);
}

/// Increments a byte and computes the flags.
pub fn increment(operand: u8, flags: Flags) -> (out: (u8, Flags))
    ensures
        out == incremented(operand, flags),
{
    let result: u8 = operand.wrapping_add(1);
    let low: u8 = operand & 0xF;
    assert(low == operand % 16) by (bit_vector)
        requires
            low == operand & 0xF,
    ;
    (
        result,
        Flags { zero: result == 0, subtract: false, half_carry: low + 1 > 0xF, carry: flags.carry },
    )
}

/// Decrements a byte and computes the flags.
pub fn decrement(operand: u8, flags: Flags) -> (out: (u8, Flags))
    ensures
        out == decremented(operand, flags),
{
    let result: u8 = operand.wrapping_sub(1);
    let low: u8 = operand & 0xF;
    assert(low == operand % 16) by (bit_vector)
        requires
            low == operand & 0xF,
    ;
    (
        result,
        Flags { zero: result == 0, subtract: true, half_carry: low == 0, carry: flags.carry },
    )
}

/// Adds `addend` into `word` and computes the flags.
pub fn add_words(word: u16, addend: u16, flags: Flags) -> (out: (u16, Flags))
    ensures
        out == added(word, addend, flags),
{
    let result: u16 = word.wrapping_add(addend);
    let low: u16 = word & 0x0FFF;
    let addend_low: u16 = addend & 0x0FFF;
    assert(low == word % 0x1000 && addend_low == addend % 0x1000) by (bit_vector)
        requires
            low == word & 0x0FFF,
            addend_low == addend & 0x0FFF,
    ;
    (
        result,
        Flags {
            zero: flags.zero,
            subtract: false,
            half_carry: low + addend_low > 0x0FFF,
            carry: result < word,
        },
    )
}

/// Rotates a byte left by one bit and computes the flags.
pub fn rotate_left(operand: u8) -> (out: (u8, Flags))
    ensures
        out == rotated_left(operand),
{
    let carry: u8 = operand >> 7;
    let result: u8 = (operand << 1) | carry;
    assert(carry == operand / 128 && result == operand * 2 % 256 + operand / 128) by (bit_vector)
        requires
            carry == operand >> 7,
            result == (operand << 1) | carry,
    ;
    (result, Flags { zero: false, subtract: false, half_carry: false, carry: carry == 1 })
}

/// Rotates a byte right by one bit and computes the flags.
pub fn rotate_right(operand: u8) -> (out: (u8, Flags))
    ensures
        out == rotated_right(operand),
{
    let carry: u8 = operand << 7;
    let result: u8 = (operand >> 1) | carry;
    assert(carry == operand % 2 * 128 && result == operand / 2 + operand % 2 * 128) by (bit_vector)
        requires
            carry == operand << 7,
            result == (operand >> 1) | carry,
    ;
    (result, Flags { zero: false, subtract: false, half_carry: false, carry: carry == 0x80 })
}

/// A byte rotated left and then right, or right and then left, is the byte.
pub proof fn lemma_rotations_are_inverse(operand: u8)
    ensures
        rotated_right(rotated_left(operand).0).0 == operand,
        rotated_left(rotated_right(operand).0).0 == operand,
{
}

} // verus!
