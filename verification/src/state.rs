//! The state of the processor as contracts see it.

use vstd::prelude::*;
use crate::flags::{Flag, Flags};
use crate::memory::Memory;
use crate::registers::{Register, RegisterFile};

verus! {

/// Everything that the processor holds.
pub struct State {
    pub stack_pointer: u16,
    pub program_counter: u16,
    /// The running total of cycles consumed, in 64-bit arithmetic.
    pub cycles: u64,
    /// Whether the processor is suspended and waits to be woken.
    pub halted: bool,
    pub registers: RegisterFile,
    pub memory: Memory,
}

impl State {
    /// The state of a new processor: everything at zero, no cartridge.
    pub open spec fn reset() -> State {
        State {
            stack_pointer: 0,
            program_counter: 0,
            cycles: 0,
            halted: false,
            registers: RegisterFile::zeroed(),
            memory: Memory::blank(),
        }
    }

    /// The word in HL, the pair that addresses memory.
    pub open spec fn hl(self) -> u16 {
        self.registers.get_pair(Register::H, Register::L)
    }

    /// The state after `value` was written to `register`.
    pub open spec fn with_register(self, register: Register, value: u8) -> State {
        State { registers: self.registers.with(register, value), ..self }
    }

    /// The state after `value` was written to the pair `high`, `low`.
    pub open spec fn with_pair(self, high: Register, low: Register, value: u16) -> State {
        State { registers: self.registers.with_pair(high, low, value), ..self }
    }

    /// The state with the four flags replaced.
    pub open spec fn with_flags(self, flags: Flags) -> State {
        State { registers: RegisterFile { flags, ..self.registers }, ..self }
    }

    /// The state with one flag set or cleared.
    pub open spec fn with_flag(self, flag: Flag, on: bool) -> State {
        self.with_flags(self.registers.flags.with(flag, on))
    }

    /// The state after a write of `value` to `address` on the bus.
    pub open spec fn with_memory(self, address: u16, value: u8) -> State {
        State { memory: self.memory.write(address, value), ..self }
    }

    /// The state with another stack pointer.
    pub open spec fn with_stack_pointer(self, value: u16) -> State {
        State { stack_pointer: value, ..self }
    }

    /// The state with another program counter.
    pub open spec fn with_program_counter(self, value: u16) -> State {
        State { program_counter: value, ..self }
    }
}

/// `word` moved on by `step`, wrapping at the end of the 16-bit range.
pub open spec fn wrapping_offset(word: u16, step: int) -> u16 {
    ((word + step) % 0x1_0000) as u16
}

/// A step back undoes a step forward, and a step forward a step back, also
/// across the ends of the 16-bit range.
pub proof fn lemma_offsets_cancel(word: u16, step: int)
    requires
        -0x1_0000 < step < 0x1_0000,
    ensures
        wrapping_offset(wrapping_offset(word, step), -step) == word,
{
}

/// A cycle total with `cost` more cycles, in 64-bit arithmetic.
pub open spec fn wrapping_total(total: u64, cost: u8) -> u64 {
    ((total + cost) % 0x1_0000_0000_0000_0000) as u64
}

/// `word` moved on by `length`, wrapping.
pub fn advance_word(word: u16, length: u8) -> (moved: u16)
    ensures
        moved == wrapping_offset(word, length as int),
{
    word.wrapping_add(length as u16)
}

/// Adds `cost` cycles to a cycle total, in 64-bit arithmetic.
pub fn add_cycles(total: u64, cost: u8) -> (sum: u64)
    ensures
        sum == wrapping_total(total, cost),
{
    total.wrapping_add(cost as u64)
}

/// The word after `word`, wrapping from 0xFFFF to zero.
pub fn next_word(word: u16) -> (next: u16)
    ensures
        next == wrapping_offset(word, 1),
{
    word.wrapping_add(1)
}

/// The word before `word`, wrapping from zero to 0xFFFF.
pub fn previous_word(word: u16) -> (previous: u16)
    ensures
        previous == wrapping_offset(word, -1),
{
    word.wrapping_sub(1)
}

} // verus!
