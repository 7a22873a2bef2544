//! The instruction set: what each routine does to the processor, and the
//! table that binds opcodes to routines.
//!
//! A routine takes the processor and the instruction's immediate bytes. The
//! immediate is a word with the byte that follows the opcode in its high half
//! and the byte after that in its low half (zero where the instruction has
//! none): an 8-bit operand is its high byte, a 16-bit operand, stored low byte
//! first, is its two bytes swapped.

use vstd::prelude::*;
use crate::codec::{pack, to_u16, to_u8, unpack};
use crate::flags::{add_words, added, decrement, decremented, increment, incremented, rotate_left,
    rotate_right, rotated_left, rotated_right};
use crate::processor::Processor;
use crate::registers::{lemma_pair_read_after_write, Register};
use crate::state::{next_word, previous_word, wrapping_offset, State};

verus! {

/// The first address of the page that `LDH` reaches.
pub const HIGH_PAGE: u8 = 0xFF;

/// A routine of the instruction set, with the registers it is bound to.
#[derive(Clone, Copy, Debug, PartialEq, Eq, Structural)]
pub enum Operation {
    /// NOP
    Nop,
    /// INC r8
    IncreaseRegister(Register),
    /// INC [HL]
    IncHlp,
    /// DEC r8
    DecreaseRegister(Register),
    /// DEC [HL]
    DecHlp,
    /// INC r16
    IncreaseDoubleRegister(Register, Register),
    /// INC SP
    IncSp,
    /// DEC r16
    DecreaseDoubleRegister(Register, Register),
    /// DEC SP
    DecSp,
    /// ADD HL,r16
    AddHlDoubleRegister(Register, Register),
    /// ADD HL,SP
    AddHlSp,
    /// LD r8,r8
    LoadRegisterRegister(Register, Register),
    /// LD r8,n8
    LoadRegisterValue(Register),
    /// LD r16,n16
    LoadDoubleRegisterValue(Register, Register),
    /// LD SP,n16
    LdSpN16,
    /// LD [HL],r8
    LoadHlpRegister(Register),
    /// LD [HL],n8
    LdHlpN8,
    /// LD r8,[HL]
    LoadRegisterHlp(Register),
    /// LD [r16],A
    LoadDoubleRegisterpA(Register, Register),
    /// LD [HL+],A
    LdHliA,
    /// LD [HL-],A
    LdHldA,
    /// LD [n16],A
    LdR16A,
    /// LDH [n8],A
    LdhR8A,
    /// LDH A,[n8]
    LdhAR8,
    /// LDH [C],A
    LdhCA,
    /// LDH A,[C]
    LdhAC,
    /// RLCA
    Rlca,
    /// RRCA
    Rrca,
    /// HALT
    Halt,
}

/// The descriptor of an instruction: its routine, its encoded length in
/// bytes and its base cost in cycles.
#[derive(Clone, Copy, Debug, PartialEq, Eq, Structural)]
pub struct Instruction {
    pub operation: Operation,
    pub bytes: u8,
    pub cycles: u8,
}

/// The 8-bit operand of an immediate: the byte that follows the opcode.
pub open spec fn byte_operand(instruction: u16) -> u8 {
    unpack(instruction).0
}

/// The 16-bit operand of an immediate: the byte that follows the opcode is
/// its low byte, the one after that its high byte.
pub open spec fn word_operand(instruction: u16) -> u16 {
    pack(unpack(instruction).1, unpack(instruction).0)
}

/// The address in the high page that `offset` names.
pub open spec fn high_address(offset: u8) -> u16 {
    pack(HIGH_PAGE, offset)
}

impl State {
    /// INC r8: the register goes up by one, wrapping at 256; Zero,
    /// Half-Carry and Subtract follow the increment rule, Carry stays.
    pub open spec fn increase_register(self, register: Register) -> State {
        let (result, flags) = incremented(self.registers.get(register), self.registers.flags);
        self.with_register(register, result).with_flags(flags)
    }

    /// INC [HL]: the byte that HL points to goes up by one, with the flags
    /// of the increment rule.
    pub open spec fn inc_hlp(self) -> State {
        let (result, flags) = incremented(self.memory.read(self.hl()), self.registers.flags);
        self.with_memory(self.hl(), result).with_flags(flags)
    }

    /// DEC r8: the register goes down by one, wrapping below zero; Zero,
    /// Half-Carry and Subtract follow the decrement rule, Carry stays.
    pub open spec fn decrease_register(self, register: Register) -> State {
        let (result, flags) = decremented(self.registers.get(register), self.registers.flags);
        self.with_register(register, result).with_flags(flags)
    }

    /// DEC [HL]: the byte that HL points to goes down by one, with the flags
    /// of the decrement rule.
    pub open spec fn dec_hlp(self) -> State {
        let (result, flags) = decremented(self.memory.read(self.hl()), self.registers.flags);
        self.with_memory(self.hl(), result).with_flags(flags)
    }

    /// INC r16: the pair goes up by one, wrapping at 0x10000; no flag moves.
    pub open spec fn increase_double_register(self, register_a: Register, register_b: Register)
        -> State {
        self.with_pair(
            register_a,
            register_b,
            wrapping_offset(self.registers.get_pair(register_a, register_b), 1),
        )
    }

    /// INC SP: the stack pointer goes up by one, wrapping; no flag moves.
    pub open spec fn inc_sp(self) -> State {
        self.with_stack_pointer(wrapping_offset(self.stack_pointer, 1))
    }

    /// DEC r16: the pair goes down by one, wrapping below zero; no flag
    /// moves.
    pub open spec fn decrease_double_register(self, register_a: Register, register_b: Register)
        -> State {
        self.with_pair(
            register_a,
            register_b,
            wrapping_offset(self.registers.get_pair(register_a, register_b), -1),
        )
    }

    /// DEC SP: the stack pointer goes down by one, wrapping; no flag moves.
    pub open spec fn dec_sp(self) -> State {
        self.with_stack_pointer(wrapping_offset(self.stack_pointer, -1))
    }

    /// ADD HL,r16: the pair is added into HL; Carry and Half-Carry follow
    /// the addition rule, Subtract is cleared, Zero stays.
    pub open spec fn add_hl_double_register(self, register_a: Register, register_b: Register)
        -> State {
        let (result, flags) = added(
            self.hl(),
            self.registers.get_pair(register_a, register_b),
            self.registers.flags,
        );
        self.with_pair(Register::H, Register::L, result).with_flags(flags)
    }

    /// ADD HL,SP: the stack pointer is added into HL, with the flags of the
    /// addition rule.
    pub open spec fn add_hl_sp(self) -> State {
        let (result, flags) = added(self.hl(), self.stack_pointer, self.registers.flags);
        self.with_pair(Register::H, Register::L, result).with_flags(flags)
    }

    /// LD r8,r8: `register_in` takes the byte of `register_out`.
    pub open spec fn load_register_register(self, register_in: Register, register_out: Register)
        -> State {
        self.with_register(register_in, self.registers.get(register_out))
    }

    /// LD r8,n8: the register takes the 8-bit operand.
    pub open spec fn load_register_value(self, instruction: u16, register: Register) -> State {
        self.with_register(register, byte_operand(instruction))
    }

    /// LD r16,n16: the pair takes the 16-bit operand.
    pub open spec fn load_double_register_value(
        self,
        instruction: u16,
        register_a: Register,
        register_b: Register,
    ) -> State {
        self.with_pair(register_a, register_b, word_operand(instruction))
    }

    /// LD SP,n16: the stack pointer takes the 16-bit operand.
    pub open spec fn ld_sp_n16(self, instruction: u16) -> State {
        self.with_stack_pointer(word_operand(instruction))
    }

    /// LD [HL],r8: the byte of the register goes where HL points to.
    pub open spec fn load_hlp_register(self, register: Register) -> State {
        self.with_memory(self.hl(), self.registers.get(register))
    }

    /// LD [HL],n8: the 8-bit operand goes where HL points to.
    pub open spec fn ld_hlp_n8(self, instruction: u16) -> State {
        self.with_memory(self.hl(), byte_operand(instruction))
    }

    /// LD r8,[HL]: the register takes the byte that HL points to.
    pub open spec fn load_register_hlp(self, register: Register) -> State {
        self.with_register(register, self.memory.read(self.hl()))
    }

    /// LD [r16],A: the byte of A goes where the pair points to.
    pub open spec fn load_double_registerp_a(self, register_a: Register, register_b: Register)
        -> State {
        self.with_memory(
            self.registers.get_pair(register_a, register_b),
            self.registers.get(Register::A),
        )
    }

    /// LD [HL+],A: the byte of A goes where HL points to, then HL goes up
    /// by one.
    pub open spec fn ld_hli_a(self) -> State {
        self.load_double_registerp_a(Register::H, Register::L).increase_double_register(
            Register::H,
            Register::L,
        )
    }

    /// LD [HL-],A: the byte of A goes where HL points to, then HL goes down
    /// by one.
    pub open spec fn ld_hld_a(self) -> State {
        self.load_double_registerp_a(Register::H, Register::L).decrease_double_register(
            Register::H,
            Register::L,
        )
    }

    /// LD [n16],A: the byte of A goes to the address that the 16-bit operand
    /// gives.
    pub open spec fn ld_r16_a(self, instruction: u16) -> State {
        self.with_memory(word_operand(instruction), self.registers.get(Register::A))
    }

    /// LDH [n8],A: the byte of A goes to the high page, at the 8-bit operand.
    pub open spec fn ldh_r8_a(self, instruction: u16) -> State {
        self.with_memory(high_address(byte_operand(instruction)), self.registers.get(Register::A))
    }

    /// LDH A,[n8]: A takes the byte of the high page at the 8-bit operand.
    pub open spec fn ldh_a_r8(self, instruction: u16) -> State {
        self.with_register(
            Register::A,
            self.memory.read(high_address(byte_operand(instruction))),
        )
    }

    /// LDH [C],A: the byte of A goes to the high page, at the byte of C.
    pub open spec fn ldh_c_a(self) -> State {
        self.with_memory(
            high_address(self.registers.get(Register::C)),
            self.registers.get(Register::A),
        )
    }

    /// LDH A,[C]: A takes the byte of the high page at the byte of C.
    pub open spec fn ldh_a_c(self) -> State {
        self.with_register(
            Register::A,
            self.memory.read(high_address(self.registers.get(Register::C))),
        )
    }

    /// RLCA: A rotates left by one bit; Carry takes the bit that left, the
    /// other flags are cleared.
    pub open spec fn rlca(self) -> State {
        let (result, flags) = rotated_left(self.registers.get(Register::A));
        self.with_register(Register::A, result).with_flags(flags)
    }

    /// RRCA: A rotates right by one bit; Carry takes the bit that left, the
    /// other flags are cleared.
    pub open spec fn rrca(self) -> State {
        let (result, flags) = rotated_right(self.registers.get(Register::A));
        self.with_register(Register::A, result).with_flags(flags)
    }

    /// HALT: the processor is suspended.
    pub open spec fn halt(self) -> State {
        State { halted: true, ..self }
    }

    /// The state after `operation` ran on the immediate `instruction`.
    pub open spec fn perform(self, operation: Operation, instruction: u16) -> State {
        match operation {
            Operation::Nop => self,
            Operation::IncreaseRegister(register) => self.increase_register(register),
            Operation::IncHlp => self.inc_hlp(),
            Operation::DecreaseRegister(register) => self.decrease_register(register),
            Operation::DecHlp => self.dec_hlp(),
            Operation::IncreaseDoubleRegister(a, b) => self.increase_double_register(a, b),
            Operation::IncSp => self.inc_sp(),
            Operation::DecreaseDoubleRegister(a, b) => self.decrease_double_register(a, b),
            Operation::DecSp => self.dec_sp(),
            Operation::AddHlDoubleRegister(a, b) => self.add_hl_double_register(a, b),
            Operation::AddHlSp => self.add_hl_sp(),
            Operation::LoadRegisterRegister(to, from) => self.load_register_register(to, from),
            Operation::LoadRegisterValue(register) => self.load_register_value(
                instruction,
                register,
            ),
            Operation::LoadDoubleRegisterValue(a, b) => self.load_double_register_value(
                instruction,
                a,
                b,
            ),
            Operation::LdSpN16 => self.ld_sp_n16(instruction),
            Operation::LoadHlpRegister(register) => self.load_hlp_register(register),
            Operation::LdHlpN8 => self.ld_hlp_n8(instruction),
            Operation::LoadRegisterHlp(register) => self.load_register_hlp(register),
            Operation::LoadDoubleRegisterpA(a, b) => self.load_double_registerp_a(a, b),
            Operation::LdHliA => self.ld_hli_a(),
            Operation::LdHldA => self.ld_hld_a(),
            Operation::LdR16A => self.ld_r16_a(instruction),
            Operation::LdhR8A => self.ldh_r8_a(instruction),
            Operation::LdhAR8 => self.ldh_a_r8(instruction),
            Operation::LdhCA => self.ldh_c_a(),
            Operation::LdhAC => self.ldh_a_c(),
            Operation::Rlca => self.rlca(),
            Operation::Rrca => self.rrca(),
            Operation::Halt => self.halt(),
        }
    }
}

/// Reads the 8-bit operand out of an immediate.
pub fn operand_byte(instruction: u16) -> (value: u8)
    ensures
        value == byte_operand(instruction),
{
    to_u8(instruction).0
}

/// Reads the 16-bit operand out of an immediate.
pub fn operand_word(instruction: u16) -> (value: u16)
    ensures
        value == word_operand(instruction),
{
    let (low, high) = to_u8(instruction);
    to_u16(high, low)
}

/// NOP
pub fn nop(_cpu: &mut Processor, _instruction: u16)
    ensures
        final(_cpu)@ == old(_cpu)@,
{
}

/// INC r8
pub fn increase_register(cpu: &mut Processor, _instruction: u16, register: Register)
    ensures
        final(cpu)@ == old(cpu)@.increase_register(register),
{
    let (result, flags) = increment(cpu.read_register(register), cpu.flags());
    cpu.write_register(register, result);
    cpu.write_flags(flags);
}

/// INC A
pub fn inc_a(cpu: &mut Processor, _instruction: u16)
    ensures
        final(cpu)@ == old(cpu)@.increase_register(Register::A),
{
    increase_register(cpu, _instruction, Register::A);
}

/// INC B
pub fn inc_b(cpu: &mut Processor, _instruction: u16)
    ensures
        final(cpu)@ == old(cpu)@.increase_register(Register::B),
{
    increase_register(cpu, _instruction, Register::B);
}

/// INC C
pub fn inc_c(cpu: &mut Processor, _instruction: u16)
    ensures
        final(cpu)@ == old(cpu)@.increase_register(Register::C),
{
    increase_register(cpu, _instruction, Register::C);
}

/// INC D
pub fn inc_d(cpu: &mut Processor, _instruction: u16)
    ensures
        final(cpu)@ == old(cpu)@.increase_register(Register::D),
{
    increase_register(cpu, _instruction, Register::D);
}

/// INC E
pub fn inc_e(cpu: &mut Processor, _instruction: u16)
    ensures
        final(cpu)@ == old(cpu)@.increase_register(Register::E),
{
    increase_register(cpu, _instruction, Register::E);
}

/// INC H
pub fn inc_h(cpu: &mut Processor, _instruction: u16)
    ensures
        final(cpu)@ == old(cpu)@.increase_register(Register::H),
{
    increase_register(cpu, _instruction, Register::H);
}

/// INC L
pub fn inc_l(cpu: &mut Processor, _instruction: u16)
    ensures
        final(cpu)@ == old(cpu)@.increase_register(Register::L),
{
    increase_register(cpu, _instruction, Register::L);
}

/// INC [HL]
pub fn inc_hlp(cpu: &mut Processor, _instruction: u16)
    ensures
        final(cpu)@ == old(cpu)@.inc_hlp(),
{
    let memory_position = cpu.read_pair(Register::H, Register::L);
    let operand = cpu.read_memory(memory_position);
    let (result, flags) = increment(operand, cpu.flags());
    cpu.write_memory(memory_position, result);
    cpu.write_flags(flags);
}

/// DEC r8
pub fn decrease_register(cpu: &mut Processor, _instruction: u16, register: Register)
    ensures
        final(cpu)@ == old(cpu)@.decrease_register(register),
{
    let (result, flags) = decrement(cpu.read_register(register), cpu.flags());
    cpu.write_register(register, result);
    cpu.write_flags(flags);
}

/// DEC A
pub fn dec_a(cpu: &mut Processor, _instruction: u16)
    ensures
        final(cpu)@ == old(cpu)@.decrease_register(Register::A),
{
    decrease_register(cpu, _instruction, Register::A);
}

/// DEC B
pub fn dec_b(cpu: &mut Processor, _instruction: u16)
    ensures
        final(cpu)@ == old(cpu)@.decrease_register(Register::B),
{
    decrease_register(cpu, _instruction, Register::B);
}

/// DEC C
pub fn dec_c(cpu: &mut Processor, _instruction: u16)
    ensures
        final(cpu)@ == old(cpu)@.decrease_register(Register::C),
{
    decrease_register(cpu, _instruction, Register::C);
}

/// DEC D
pub fn dec_d(cpu: &mut Processor, _instruction: u16)
    ensures
        final(cpu)@ == old(cpu)@.decrease_register(Register::D),
{
    decrease_register(cpu, _instruction, Register::D);
}

/// DEC E
pub fn dec_e(cpu: &mut Processor, _instruction: u16)
    ensures
        final(cpu)@ == old(cpu)@.decrease_register(Register::E),
{
    decrease_register(cpu, _instruction, Register::E);
}

/// DEC H
pub fn dec_h(cpu: &mut Processor, _instruction: u16)
    ensures
        final(cpu)@ == old(cpu)@.decrease_register(Register::H),
{
    decrease_register(cpu, _instruction, Register::H);
}

/// DEC L
pub fn dec_l(cpu: &mut Processor, _instruction: u16)
    ensures
        final(cpu)@ == old(cpu)@.decrease_register(Register::L),
{
    decrease_register(cpu, _instruction, Register::L);
}

/// DEC [HL]
pub fn dec_hlp(cpu: &mut Processor, _instruction: u16)
    ensures
        final(cpu)@ == old(cpu)@.dec_hlp(),
{
    let memory_position = cpu.read_pair(Register::H, Register::L);
    let operand = cpu.read_memory(memory_position);
    let (result, flags) = decrement(operand, cpu.flags());
    cpu.write_memory(memory_position, result);
    cpu.write_flags(flags);
}

/// INC r16
pub fn increase_double_register(
    cpu: &mut Processor,
    _instruction: u16,
    register_a: Register,
    register_b: Register,
)
    ensures
        final(cpu)@ == old(cpu)@.increase_double_register(register_a, register_b),
{
    let register_value = cpu.read_pair(register_a, register_b);
    cpu.write_pair(register_a, register_b, next_word(register_value));
}

/// INC BC
pub fn inc_bc(cpu: &mut Processor, _instruction: u16)
    ensures
        final(cpu)@ == old(cpu)@.increase_double_register(Register::B, Register::C),
{
    increase_double_register(cpu, _instruction, Register::B, Register::C);
}

/// INC DE
pub fn inc_de(cpu: &mut Processor, _instruction: u16)
    ensures
        final(cpu)@ == old(cpu)@.increase_double_register(Register::D, Register::E),
{
    increase_double_register(cpu, _instruction, Register::D, Register::E);
}

/// INC HL
pub fn inc_hl(cpu: &mut Processor, _instruction: u16)
    ensures
        final(cpu)@ == old(cpu)@.increase_double_register(Register::H, Register::L),
{
    increase_double_register(cpu, _instruction, Register::H, Register::L);
}

/// INC SP
pub fn inc_sp(cpu: &mut Processor, _instruction: u16)
    ensures
        final(cpu)@ == old(cpu)@.inc_sp(),
{
    cpu.stack_pointer = next_word(cpu.stack_pointer);
}

/// DEC r16
pub fn decrease_double_register(
    cpu: &mut Processor,
    _instruction: u16,
    register_a: Register,
    register_b: Register,
)
    ensures
        final(cpu)@ == old(cpu)@.decrease_double_register(register_a, register_b),
{
    let register_value = cpu.read_pair(register_a, register_b);
    cpu.write_pair(register_a, register_b, previous_word(register_value));
}

/// DEC BC
pub fn dec_bc(cpu: &mut Processor, _instruction: u16)
    ensures
        final(cpu)@ == old(cpu)@.decrease_double_register(Register::B, Register::C),
{
    decrease_double_register(cpu, _instruction, Register::B, Register::C);
}

/// DEC DE
pub fn dec_de(cpu: &mut Processor, _instruction: u16)
    ensures
        final(cpu)@ == old(cpu)@.decrease_double_register(Register::D, Register::E),
{
    decrease_double_register(cpu, _instruction, Register::D, Register::E);
}

/// DEC HL
pub fn dec_hl(cpu: &mut Processor, _instruction: u16)
    ensures
        final(cpu)@ == old(cpu)@.decrease_double_register(Register::H, Register::L),
{
    decrease_double_register(cpu, _instruction, Register::H, Register::L);
}

/// DEC SP
pub fn dec_sp(cpu: &mut Processor, _instruction: u16)
    ensures
        final(cpu)@ == old(cpu)@.dec_sp(),
{
    cpu.stack_pointer = previous_word(cpu.stack_pointer);
}

/// ADD HL,r16
pub fn add_hl_double_register(
    cpu: &mut Processor,
    _instruction: u16,
    register_a: Register,
    register_b: Register,
)
    ensures
        final(cpu)@ == old(cpu)@.add_hl_double_register(register_a, register_b),
{
    let word = cpu.read_pair(Register::H, Register::L);
    let addend = cpu.read_pair(register_a, register_b);
    let (result, flags) = add_words(word, addend, cpu.flags());
    cpu.write_pair(Register::H, Register::L, result);
    cpu.write_flags(flags);
}

/// ADD HL,BC
pub fn add_hl_bc(cpu: &mut Processor, _instruction: u16)
    ensures
        final(cpu)@ == old(cpu)@.add_hl_double_register(Register::B, Register::C),
{
    add_hl_double_register(cpu, _instruction, Register::B, Register::C);
}

/// ADD HL,DE
pub fn add_hl_de(cpu: &mut Processor, _instruction: u16)
    ensures
        final(cpu)@ == old(cpu)@.add_hl_double_register(Register::D, Register::E),
{
    add_hl_double_register(cpu, _instruction, Register::D, Register::E);
}

/// ADD HL,HL
pub fn add_hl_hl(cpu: &mut Processor, _instruction: u16)
    ensures
        final(cpu)@ == old(cpu)@.add_hl_double_register(Register::H, Register::L),
{
    add_hl_double_register(cpu, _instruction, Register::H, Register::L);
}

/// ADD HL,SP
pub fn add_hl_sp(cpu: &mut Processor, _instruction: u16)
    ensures
        final(cpu)@ == old(cpu)@.add_hl_sp(),
{
    let word = cpu.read_pair(Register::H, Register::L);
    let (result, flags) = add_words(word, cpu.stack_pointer, cpu.flags());
    cpu.write_pair(Register::H, Register::L, result);
    cpu.write_flags(flags);
}

/// LD r8,r8
pub fn load_register_register(
    cpu: &mut Processor,
    _instruction: u16,
    register_in: Register,
    register_out: Register,
)
    ensures
        final(cpu)@ == old(cpu)@.load_register_register(register_in, register_out),
{
    let value = cpu.read_register(register_out);
    cpu.write_register(register_in, value);
}

/// LD B,B
pub fn ld_b_b(cpu: &mut Processor, _instruction: u16)
    ensures
        final(cpu)@ == old(cpu)@.load_register_register(Register::B, Register::B),
{
    load_register_register(cpu, _instruction, Register::B, Register::B);
}

/// LD B,C
pub fn ld_b_c(cpu: &mut Processor, _instruction: u16)
    ensures
        final(cpu)@ == old(cpu)@.load_register_register(Register::B, Register::C),
{
    load_register_register(cpu, _instruction, Register::B, Register::C);
}

/// LD B,D
pub fn ld_b_d(cpu: &mut Processor, _instruction: u16)
    ensures
        final(cpu)@ == old(cpu)@.load_register_register(Register::B, Register::D),
{
    load_register_register(cpu, _instruction, Register::B, Register::D);
}

/// LD B,E
pub fn ld_b_e(cpu: &mut Processor, _instruction: u16)
    ensures
        final(cpu)@ == old(cpu)@.load_register_register(Register::B, Register::E),
{
    load_register_register(cpu, _instruction, Register::B, Register::E);
}

/// LD B,H
pub fn ld_b_h(cpu: &mut Processor, _instruction: u16)
    ensures
        final(cpu)@ == old(cpu)@.load_register_register(Register::B, Register::H),
{
    load_register_register(cpu, _instruction, Register::B, Register::H);
}

/// LD B,L
pub fn ld_b_l(cpu: &mut Processor, _instruction: u16)
    ensures
        final(cpu)@ == old(cpu)@.load_register_register(Register::B, Register::L),
{
    load_register_register(cpu, _instruction, Register::B, Register::L);
}

/// LD B,A
pub fn ld_b_a(cpu: &mut Processor, _instruction: u16)
    ensures
        final(cpu)@ == old(cpu)@.load_register_register(Register::B, Register::A),
{
    load_register_register(cpu, _instruction, Register::B, Register::A);
}

/// LD C,B
pub fn ld_c_b(cpu: &mut Processor, _instruction: u16)
    ensures
        final(cpu)@ == old(cpu)@.load_register_register(Register::C, Register::B),
{
    load_register_register(cpu, _instruction, Register::C, Register::B);
}

/// LD C,C
pub fn ld_c_c(cpu: &mut Processor, _instruction: u16)
    ensures
        final(cpu)@ == old(cpu)@.load_register_register(Register::C, Register::C),
{
    load_register_register(cpu, _instruction, Register::C, Register::C);
}

/// LD C,D
pub fn ld_c_d(cpu: &mut Processor, _instruction: u16)
    ensures
        final(cpu)@ == old(cpu)@.load_register_register(Register::C, Register::D),
{
    load_register_register(cpu, _instruction, Register::C, Register::D);
}

/// LD C,E
pub fn ld_c_e(cpu: &mut Processor, _instruction: u16)
    ensures
        final(cpu)@ == old(cpu)@.load_register_register(Register::C, Register::E),
{
    load_register_register(cpu, _instruction, Register::C, Register::E);
}

/// LD C,H
pub fn ld_c_h(cpu: &mut Processor, _instruction: u16)
    ensures
        final(cpu)@ == old(cpu)@.load_register_register(Register::C, Register::H),
{
    load_register_register(cpu, _instruction, Register::C, Register::H);
}

/// LD C,L
pub fn ld_c_l(cpu: &mut Processor, _instruction: u16)
    ensures
        final(cpu)@ == old(cpu)@.load_register_register(Register::C, Register::L),
{
    load_register_register(cpu, _instruction, Register::C, Register::L);
}

/// LD C,A
pub fn ld_c_a(cpu: &mut Processor, _instruction: u16)
    ensures
        final(cpu)@ == old(cpu)@.load_register_register(Register::C, Register::A),
{
    load_register_register(cpu, _instruction, Register::C, Register::A);
}

/// LD D,B
pub fn ld_d_b(cpu: &mut Processor, _instruction: u16)
    ensures
        final(cpu)@ == old(cpu)@.load_register_register(Register::D, Register::B),
{
    load_register_register(cpu, _instruction, Register::D, Register::B);
}

/// LD D,C
pub fn ld_d_c(cpu: &mut Processor, _instruction: u16)
    ensures
        final(cpu)@ == old(cpu)@.load_register_register(Register::D, Register::C),
{
    load_register_register(cpu, _instruction, Register::D, Register::C);
}

/// LD D,D
pub fn ld_d_d(cpu: &mut Processor, _instruction: u16)
    ensures
        final(cpu)@ == old(cpu)@.load_register_register(Register::D, Register::D),
{
    load_register_register(cpu, _instruction, Register::D, Register::D);
}

/// LD D,E
pub fn ld_d_e(cpu: &mut Processor, _instruction: u16)
    ensures
        final(cpu)@ == old(cpu)@.load_register_register(Register::D, Register::E),
{
    load_register_register(cpu, _instruction, Register::D, Register::E);
}

/// LD D,H
pub fn ld_d_h(cpu: &mut Processor, _instruction: u16)
    ensures
        final(cpu)@ == old(cpu)@.load_register_register(Register::D, Register::H),
{
    load_register_register(cpu, _instruction, Register::D, Register::H);
}

/// LD D,L
pub fn ld_d_l(cpu: &mut Processor, _instruction: u16)
    ensures
        final(cpu)@ == old(cpu)@.load_register_register(Register::D, Register::L),
{
    load_register_register(cpu, _instruction, Register::D, Register::L);
}

/// LD D,A
pub fn ld_d_a(cpu: &mut Processor, _instruction: u16)
    ensures
        final(cpu)@ == old(cpu)@.load_register_register(Register::D, Register::A),
{
    load_register_register(cpu, _instruction, Register::D, Register::A);
}

/// LD E,B
pub fn ld_e_b(cpu: &mut Processor, _instruction: u16)
    ensures
        final(cpu)@ == old(cpu)@.load_register_register(Register::E, Register::B),
{
    load_register_register(cpu, _instruction, Register::E, Register::B);
}

/// LD E,C
pub fn ld_e_c(cpu: &mut Processor, _instruction: u16)
    ensures
        final(cpu)@ == old(cpu)@.load_register_register(Register::E, Register::C),
{
    load_register_register(cpu, _instruction, Register::E, Register::C);
}

/// LD E,D
pub fn ld_e_d(cpu: &mut Processor, _instruction: u16)
    ensures
        final(cpu)@ == old(cpu)@.load_register_register(Register::E, Register::D),
{
    load_register_register(cpu, _instruction, Register::E, Register::D);
}

/// LD E,E
pub fn ld_e_e(cpu: &mut Processor, _instruction: u16)
    ensures
        final(cpu)@ == old(cpu)@.load_register_register(Register::E, Register::E),
{
    load_register_register(cpu, _instruction, Register::E, Register::E);
}

/// LD E,H
pub fn ld_e_h(cpu: &mut Processor, _instruction: u16)
    ensures
        final(cpu)@ == old(cpu)@.load_register_register(Register::E, Register::H),
{
    load_register_register(cpu, _instruction, Register::E, Register::H);
}

/// LD E,L
pub fn ld_e_l(cpu: &mut Processor, _instruction: u16)
    ensures
        final(cpu)@ == old(cpu)@.load_register_register(Register::E, Register::L),
{
    load_register_register(cpu, _instruction, Register::E, Register::L);
}

/// LD E,A
pub fn ld_e_a(cpu: &mut Processor, _instruction: u16)
    ensures
        final(cpu)@ == old(cpu)@.load_register_register(Register::E, Register::A),
{
    load_register_register(cpu, _instruction, Register::E, Register::A);
}

/// LD H,B
pub fn ld_h_b(cpu: &mut Processor, _instruction: u16)
    ensures
        final(cpu)@ == old(cpu)@.load_register_register(Register::H, Register::B),
{
    load_register_register(cpu, _instruction, Register::H, Register::B);
}

/// LD H,C
pub fn ld_h_c(cpu: &mut Processor, _instruction: u16)
    ensures
        final(cpu)@ == old(cpu)@.load_register_register(Register::H, Register::C),
{
    load_register_register(cpu, _instruction, Register::H, Register::C);
}

/// LD H,D
pub fn ld_h_d(cpu: &mut Processor, _instruction: u16)
    ensures
        final(cpu)@ == old(cpu)@.load_register_register(Register::H, Register::D),
{
    load_register_register(cpu, _instruction, Register::H, Register::D);
}

/// LD H,E
pub fn ld_h_e(cpu: &mut Processor, _instruction: u16)
    ensures
        final(cpu)@ == old(cpu)@.load_register_register(Register::H, Register::E),
{
    load_register_register(cpu, _instruction, Register::H, Register::E);
}

/// LD H,H
pub fn ld_h_h(cpu: &mut Processor, _instruction: u16)
    ensures
        final(cpu)@ == old(cpu)@.load_register_register(Register::H, Register::H),
{
    load_register_register(cpu, _instruction, Register::H, Register::H);
}

/// LD H,L
pub fn ld_h_l(cpu: &mut Processor, _instruction: u16)
    ensures
        final(cpu)@ == old(cpu)@.load_register_register(Register::H, Register::L),
{
    load_register_register(cpu, _instruction, Register::H, Register::L);
}

/// LD H,A
pub fn ld_h_a(cpu: &mut Processor, _instruction: u16)
    ensures
        final(cpu)@ == old(cpu)@.load_register_register(Register::H, Register::A),
{
    load_register_register(cpu, _instruction, Register::H, Register::A);
}

/// LD L,B
pub fn ld_l_b(cpu: &mut Processor, _instruction: u16)
    ensures
        final(cpu)@ == old(cpu)@.load_register_register(Register::L, Register::B),
{
    load_register_register(cpu, _instruction, Register::L, Register::B);
}

/// LD L,C
pub fn ld_l_c(cpu: &mut Processor, _instruction: u16)
    ensures
        final(cpu)@ == old(cpu)@.load_register_register(Register::L, Register::C),
{
    load_register_register(cpu, _instruction, Register::L, Register::C);
}

/// LD L,D
pub fn ld_l_d(cpu: &mut Processor, _instruction: u16)
    ensures
        final(cpu)@ == old(cpu)@.load_register_register(Register::L, Register::D),
{
    load_register_register(cpu, _instruction, Register::L, Register::D);
}

/// LD L,E
pub fn ld_l_e(cpu: &mut Processor, _instruction: u16)
    ensures
        final(cpu)@ == old(cpu)@.load_register_register(Register::L, Register::E),
{
    load_register_register(cpu, _instruction, Register::L, Register::E);
}

/// LD L,H
pub fn ld_l_h(cpu: &mut Processor, _instruction: u16)
    ensures
        final(cpu)@ == old(cpu)@.load_register_register(Register::L, Register::H),
{
    load_register_register(cpu, _instruction, Register::L, Register::H);
}

/// LD L,L
pub fn ld_l_l(cpu: &mut Processor, _instruction: u16)
    ensures
        final(cpu)@ == old(cpu)@.load_register_register(Register::L, Register::L),
{
    load_register_register(cpu, _instruction, Register::L, Register::L);
}

/// LD L,A
pub fn ld_l_a(cpu: &mut Processor, _instruction: u16)
    ensures
        final(cpu)@ == old(cpu)@.load_register_register(Register::L, Register::A),
{
    load_register_register(cpu, _instruction, Register::L, Register::A);
}

/// LD A,B
pub fn ld_a_b(cpu: &mut Processor, _instruction: u16)
    ensures
        final(cpu)@ == old(cpu)@.load_register_register(Register::A, Register::B),
{
    load_register_register(cpu, _instruction, Register::A, Register::B);
}

/// LD A,C
pub fn ld_a_c(cpu: &mut Processor, _instruction: u16)
    ensures
        final(cpu)@ == old(cpu)@.load_register_register(Register::A, Register::C),
{
    load_register_register(cpu, _instruction, Register::A, Register::C);
}

/// LD A,D
pub fn ld_a_d(cpu: &mut Processor, _instruction: u16)
    ensures
        final(cpu)@ == old(cpu)@.load_register_register(Register::A, Register::D),
{
    load_register_register(cpu, _instruction, Register::A, Register::D);
}

/// LD A,E
pub fn ld_a_e(cpu: &mut Processor, _instruction: u16)
    ensures
        final(cpu)@ == old(cpu)@.load_register_register(Register::A, Register::E),
{
    load_register_register(cpu, _instruction, Register::A, Register::E);
}

/// LD A,H
pub fn ld_a_h(cpu: &mut Processor, _instruction: u16)
    ensures
        final(cpu)@ == old(cpu)@.load_register_register(Register::A, Register::H),
{
    load_register_register(cpu, _instruction, Register::A, Register::H);
}

/// LD A,L
pub fn ld_a_l(cpu: &mut Processor, _instruction: u16)
    ensures
        final(cpu)@ == old(cpu)@.load_register_register(Register::A, Register::L),
{
    load_register_register(cpu, _instruction, Register::A, Register::L);
}

/// LD A,A
pub fn ld_a_a(cpu: &mut Processor, _instruction: u16)
    ensures
        final(cpu)@ == old(cpu)@.load_register_register(Register::A, Register::A),
{
    load_register_register(cpu, _instruction, Register::A, Register::A);
}

/// LD r8,n8
pub fn load_register_value(cpu: &mut Processor, instruction: u16, register: Register)
    ensures
        final(cpu)@ == old(cpu)@.load_register_value(instruction, register),
{
    cpu.write_register(register, operand_byte(instruction));
}

/// LD B,n8
pub fn ld_b_n8(cpu: &mut Processor, instruction: u16)
    ensures
        final(cpu)@ == old(cpu)@.load_register_value(instruction, Register::B),
{
    load_register_value(cpu, instruction, Register::B);
}

/// LD C,n8
pub fn ld_c_n8(cpu: &mut Processor, instruction: u16)
    ensures
        final(cpu)@ == old(cpu)@.load_register_value(instruction, Register::C),
{
    load_register_value(cpu, instruction, Register::C);
}

/// LD D,n8
pub fn ld_d_n8(cpu: &mut Processor, instruction: u16)
    ensures
        final(cpu)@ == old(cpu)@.load_register_value(instruction, Register::D),
{
    load_register_value(cpu, instruction, Register::D);
}

/// LD E,n8
pub fn ld_e_n8(cpu: &mut Processor, instruction: u16)
    ensures
        final(cpu)@ == old(cpu)@.load_register_value(instruction, Register::E),
{
    load_register_value(cpu, instruction, Register::E);
}

/// LD H,n8
pub fn ld_h_n8(cpu: &mut Processor, instruction: u16)
    ensures
        final(cpu)@ == old(cpu)@.load_register_value(instruction, Register::H),
{
    load_register_value(cpu, instruction, Register::H);
}

/// LD L,n8
pub fn ld_l_n8(cpu: &mut Processor, instruction: u16)
    ensures
        final(cpu)@ == old(cpu)@.load_register_value(instruction, Register::L),
{
    load_register_value(cpu, instruction, Register::L);
}

/// LD A,n8
pub fn ld_a_n8(cpu: &mut Processor, instruction: u16)
    ensures
        final(cpu)@ == old(cpu)@.load_register_value(instruction, Register::A),
{
    load_register_value(cpu, instruction, Register::A);
}

/// LD r16,n16
pub fn load_double_register_value(
    cpu: &mut Processor,
    instruction: u16,
    register_a: Register,
    register_b: Register,
)
    ensures
        final(cpu)@ == old(cpu)@.load_double_register_value(instruction, register_a, register_b),
{
    cpu.write_pair(register_a, register_b, operand_word(instruction));
}

/// LD BC,n16
pub fn ld_bc_n16(cpu: &mut Processor, instruction: u16)
    ensures
        final(cpu)@ == old(cpu)@.load_double_register_value(instruction, Register::B, Register::C),
{
    load_double_register_value(cpu, instruction, Register::B, Register::C);
}

/// LD DE,n16
pub fn ld_de_n16(cpu: &mut Processor, instruction: u16)
    ensures
        final(cpu)@ == old(cpu)@.load_double_register_value(instruction, Register::D, Register::E),
{
    load_double_register_value(cpu, instruction, Register::D, Register::E);
}

/// LD HL,n16
pub fn ld_hl_n16(cpu: &mut Processor, instruction: u16)
    ensures
        final(cpu)@ == old(cpu)@.load_double_register_value(instruction, Register::H, Register::L),
{
    load_double_register_value(cpu, instruction, Register::H, Register::L);
}

/// LD SP,n16
pub fn ld_sp_n16(cpu: &mut Processor, instruction: u16)
    ensures
        final(cpu)@ == old(cpu)@.ld_sp_n16(instruction),
{
    cpu.stack_pointer = operand_word(instruction);
}

/// LD [HL],r8
pub fn load_hlp_register(cpu: &mut Processor, _instruction: u16, register: Register)
    ensures
        final(cpu)@ == old(cpu)@.load_hlp_register(register),
{
    let memory_address = cpu.read_pair(Register::H, Register::L);
    let value = cpu.read_register(register);
    cpu.write_memory(memory_address, value);
}

/// LD [HL],B
pub fn ld_hlp_b(cpu: &mut Processor, _instruction: u16)
    ensures
        final(cpu)@ == old(cpu)@.load_hlp_register(Register::B),
{
    load_hlp_register(cpu, _instruction, Register::B);
}

/// LD [HL],C
pub fn ld_hlp_c(cpu: &mut Processor, _instruction: u16)
    ensures
        final(cpu)@ == old(cpu)@.load_hlp_register(Register::C),
{
    load_hlp_register(cpu, _instruction, Register::C);
}

/// LD [HL],D
pub fn ld_hlp_d(cpu: &mut Processor, _instruction: u16)
    ensures
        final(cpu)@ == old(cpu)@.load_hlp_register(Register::D),
{
    load_hlp_register(cpu, _instruction, Register::D);
}

/// LD [HL],E
pub fn ld_hlp_e(cpu: &mut Processor, _instruction: u16)
    ensures
        final(cpu)@ == old(cpu)@.load_hlp_register(Register::E),
{
    load_hlp_register(cpu, _instruction, Register::E);
}

/// LD [HL],H
pub fn ld_hlp_h(cpu: &mut Processor, _instruction: u16)
    ensures
        final(cpu)@ == old(cpu)@.load_hlp_register(Register::H),
{
    load_hlp_register(cpu, _instruction, Register::H);
}

/// LD [HL],L
pub fn ld_hlp_l(cpu: &mut Processor, _instruction: u16)
    ensures
        final(cpu)@ == old(cpu)@.load_hlp_register(Register::L),
{
    load_hlp_register(cpu, _instruction, Register::L);
}

/// LD [HL],A
pub fn ld_hlp_a(cpu: &mut Processor, _instruction: u16)
    ensures
        final(cpu)@ == old(cpu)@.load_hlp_register(Register::A),
{
    load_hlp_register(cpu, _instruction, Register::A);
}

/// LD [HL],n8
pub fn ld_hlp_n8(cpu: &mut Processor, instruction: u16)
    ensures
        final(cpu)@ == old(cpu)@.ld_hlp_n8(instruction),
{
    let memory_address = cpu.read_pair(Register::H, Register::L);
    cpu.write_memory(memory_address, operand_byte(instruction));
}

/// LD r8,[HL]
pub fn load_register_hlp(cpu: &mut Processor, _instruction: u16, register: Register)
    ensures
        final(cpu)@ == old(cpu)@.load_register_hlp(register),
{
    let memory_address = cpu.read_pair(Register::H, Register::L);
    let value = cpu.read_memory(memory_address);
    cpu.write_register(register, value);
}

/// LD B,[HL]
pub fn ld_b_hlp(cpu: &mut Processor, _instruction: u16)
    ensures
        final(cpu)@ == old(cpu)@.load_register_hlp(Register::B),
{
    load_register_hlp(cpu, _instruction, Register::B);
}

/// LD C,[HL]
pub fn ld_c_hlp(cpu: &mut Processor, _instruction: u16)
    ensures
        final(cpu)@ == old(cpu)@.load_register_hlp(Register::C),
{
    load_register_hlp(cpu, _instruction, Register::C);
}

/// LD D,[HL]
pub fn ld_d_hlp(cpu: &mut Processor, _instruction: u16)
    ensures
        final(cpu)@ == old(cpu)@.load_register_hlp(Register::D),
{
    load_register_hlp(cpu, _instruction, Register::D);
}

/// LD E,[HL]
pub fn ld_e_hlp(cpu: &mut Processor, _instruction: u16)
    ensures
        final(cpu)@ == old(cpu)@.load_register_hlp(Register::E),
{
    load_register_hlp(cpu, _instruction, Register::E);
}

/// LD H,[HL]
pub fn ld_h_hlp(cpu: &mut Processor, _instruction: u16)
    ensures
        final(cpu)@ == old(cpu)@.load_register_hlp(Register::H),
{
    load_register_hlp(cpu, _instruction, Register::H);
}

/// LD L,[HL]
pub fn ld_l_hlp(cpu: &mut Processor, _instruction: u16)
    ensures
        final(cpu)@ == old(cpu)@.load_register_hlp(Register::L),
{
    load_register_hlp(cpu, _instruction, Register::L);
}

/// LD A,[HL]
pub fn ld_a_hlp(cpu: &mut Processor, _instruction: u16)
    ensures
        final(cpu)@ == old(cpu)@.load_register_hlp(Register::A),
{
    load_register_hlp(cpu, _instruction, Register::A);
}

/// LD [r16],A
pub fn load_double_registerp_a(
    cpu: &mut Processor,
    _instruction: u16,
    register_a: Register,
    register_b: Register,
)
    ensures
        final(cpu)@ == old(cpu)@.load_double_registerp_a(register_a, register_b),
{
    let memory_address = cpu.read_pair(register_a, register_b);
    let value = cpu.read_register(Register::A);
    cpu.write_memory(memory_address, value);
}

/// LD [BC],A
pub fn ld_bcp_a(cpu: &mut Processor, _instruction: u16)
    ensures
        final(cpu)@ == old(cpu)@.load_double_registerp_a(Register::B, Register::C),
{
    load_double_registerp_a(cpu, _instruction, Register::B, Register::C);
}

/// LD [DE],A
pub fn ld_dep_a(cpu: &mut Processor, _instruction: u16)
    ensures
        final(cpu)@ == old(cpu)@.load_double_registerp_a(Register::D, Register::E),
{
    load_double_registerp_a(cpu, _instruction, Register::D, Register::E);
}

/// LD [HL+],A
pub fn ld_hli_a(cpu: &mut Processor, _instruction: u16)
    ensures
        final(cpu)@ == old(cpu)@.ld_hli_a(),
{
    load_double_registerp_a(cpu, _instruction, Register::H, Register::L);
    inc_hl(cpu, _instruction);
}

/// LD [HL-],A
pub fn ld_hld_a(cpu: &mut Processor, _instruction: u16)
    ensures
        final(cpu)@ == old(cpu)@.ld_hld_a(),
{
    load_double_registerp_a(cpu, _instruction, Register::H, Register::L);
    dec_hl(cpu, _instruction);
}

/// LD [n16],A
pub fn ld_r16_a(cpu: &mut Processor, instruction: u16)
    ensures
        final(cpu)@ == old(cpu)@.ld_r16_a(instruction),
{
    let memory_address = operand_word(instruction);
    let value = cpu.read_register(Register::A);
    cpu.write_memory(memory_address, value);
}

/// LDH [n8],A
pub fn ldh_r8_a(cpu: &mut Processor, instruction: u16)
    ensures
        final(cpu)@ == old(cpu)@.ldh_r8_a(instruction),
{
    let memory_address = to_u16(HIGH_PAGE, operand_byte(instruction));
    let value = cpu.read_register(Register::A);
    cpu.write_memory(memory_address, value);
}

/// LDH A,[n8]
pub fn ldh_a_r8(cpu: &mut Processor, instruction: u16)
    ensures
        final(cpu)@ == old(cpu)@.ldh_a_r8(instruction),
{
    let memory_address = to_u16(HIGH_PAGE, operand_byte(instruction));
    let value = cpu.read_memory(memory_address);
    cpu.write_register(Register::A, value);
}

/// LDH [C],A
pub fn ldh_c_a(cpu: &mut Processor, _instruction: u16)
    ensures
        final(cpu)@ == old(cpu)@.ldh_c_a(),
{
    let memory_address = to_u16(HIGH_PAGE, cpu.read_register(Register::C));
    let value = cpu.read_register(Register::A);
    cpu.write_memory(memory_address, value);
}

/// LDH A,[C]
pub fn ldh_a_c(cpu: &mut Processor, _instruction: u16)
    ensures
        final(cpu)@ == old(cpu)@.ldh_a_c(),
{
    let memory_address = to_u16(HIGH_PAGE, cpu.read_register(Register::C));
    let value = cpu.read_memory(memory_address);
    cpu.write_register(Register::A, value);
}

/// RLCA
pub fn rlca(cpu: &mut Processor, _instruction: u16)
    ensures
        final(cpu)@ == old(cpu)@.rlca(),
{
    let (result, flags) = rotate_left(cpu.read_register(Register::A));
    cpu.write_register(Register::A, result);
    cpu.write_flags(flags);
}

/// RRCA
pub fn rrca(cpu: &mut Processor, _instruction: u16)
    ensures
        final(cpu)@ == old(cpu)@.rrca(),
{
    let (result, flags) = rotate_right(cpu.read_register(Register::A));
    cpu.write_register(Register::A, result);
    cpu.write_flags(flags);
}

/// HALT
pub fn halt(cpu: &mut Processor, _instruction: u16)
    ensures
        final(cpu)@ == old(cpu)@.halt(),
{
    cpu.halt();
}

/// Runs `operation` on the immediate `instruction`.
pub fn execute(cpu: &mut Processor, operation: Operation, instruction: u16)
    ensures
        final(cpu)@ == old(cpu)@.perform(operation, instruction),
{
    match operation {
        Operation::Nop => nop(cpu, instruction),
        Operation::IncreaseRegister(register) => increase_register(cpu, instruction, register),
        Operation::IncHlp => inc_hlp(cpu, instruction),
        Operation::DecreaseRegister(register) => decrease_register(cpu, instruction, register),
        Operation::DecHlp => dec_hlp(cpu, instruction),
        Operation::IncreaseDoubleRegister(a, b) => increase_double_register(cpu, instruction, a, b),
        Operation::IncSp => inc_sp(cpu, instruction),
        Operation::DecreaseDoubleRegister(a, b) => decrease_double_register(cpu, instruction, a, b),
        Operation::DecSp => dec_sp(cpu, instruction),
        Operation::AddHlDoubleRegister(a, b) => add_hl_double_register(cpu, instruction, a, b),
        Operation::AddHlSp => add_hl_sp(cpu, instruction),
        Operation::LoadRegisterRegister(to, from) => load_register_register(
            cpu,
            instruction,
            to,
            from,
        ),
        Operation::LoadRegisterValue(register) => load_register_value(cpu, instruction, register),
        Operation::LoadDoubleRegisterValue(a, b) => load_double_register_value(
            cpu,
            instruction,
            a,
            b,
        ),
        Operation::LdSpN16 => ld_sp_n16(cpu, instruction),
        Operation::LoadHlpRegister(register) => load_hlp_register(cpu, instruction, register),
        Operation::LdHlpN8 => ld_hlp_n8(cpu, instruction),
        Operation::LoadRegisterHlp(register) => load_register_hlp(cpu, instruction, register),
        Operation::LoadDoubleRegisterpA(a, b) => load_double_registerp_a(cpu, instruction, a, b),
        Operation::LdHliA => ld_hli_a(cpu, instruction),
        Operation::LdHldA => ld_hld_a(cpu, instruction),
        Operation::LdR16A => ld_r16_a(cpu, instruction),
        Operation::LdhR8A => ldh_r8_a(cpu, instruction),
        Operation::LdhAR8 => ldh_a_r8(cpu, instruction),
        Operation::LdhCA => ldh_c_a(cpu, instruction),
        Operation::LdhAC => ldh_a_c(cpu, instruction),
        Operation::Rlca => rlca(cpu, instruction),
        Operation::Rrca => rrca(cpu, instruction),
        Operation::Halt => halt(cpu, instruction),
    }
}

/// INC r8 and DEC r8 on a register other than F move that register by one,
/// wrapping, set the flags by the rule of the flag engine and leave the other
/// registers, the memory and the stack pointer as they were.
pub proof fn lemma_register_steps(state: State, register: Register, other: Register)
    requires
        register != Register::F,
        other != Register::F,
        other != register,
    ensures
        state.increase_register(register).registers.get(register) == incremented(
            state.registers.get(register),
            state.registers.flags,
        ).0,
        state.increase_register(register).registers.flags == incremented(
            state.registers.get(register),
            state.registers.flags,
        ).1,
        state.increase_register(register).registers.get(other) == state.registers.get(other),
        state.increase_register(register).memory == state.memory,
        state.increase_register(register).stack_pointer == state.stack_pointer,
        state.decrease_register(register).registers.get(register) == decremented(
            state.registers.get(register),
            state.registers.flags,
        ).0,
        state.decrease_register(register).registers.flags == decremented(
            state.registers.get(register),
            state.registers.flags,
        ).1,
        state.decrease_register(register).registers.get(other) == state.registers.get(other),
        state.decrease_register(register).memory == state.memory,
        state.decrease_register(register).stack_pointer == state.stack_pointer,
{
}

/// INC r16 and DEC r16 on a pair of two registers other than F move the
/// word of the pair by one, wrapping at both ends of the 16-bit range, and
/// touch no flag.
pub proof fn lemma_pair_steps(state: State, register_a: Register, register_b: Register)
    requires
        register_a != register_b,
        register_a != Register::F,
        register_b != Register::F,
    ensures
        state.increase_double_register(register_a, register_b).registers.get_pair(
            register_a,
            register_b,
        ) == wrapping_offset(state.registers.get_pair(register_a, register_b), 1),
        state.decrease_double_register(register_a, register_b).registers.get_pair(
            register_a,
            register_b,
        ) == wrapping_offset(state.registers.get_pair(register_a, register_b), -1),
        state.increase_double_register(register_a, register_b).registers.flags
            == state.registers.flags,
        state.decrease_double_register(register_a, register_b).registers.flags
            == state.registers.flags,
{
    let word = state.registers.get_pair(register_a, register_b);
    lemma_pair_read_after_write(
        state.registers,
        register_a,
        register_b,
        wrapping_offset(word, 1),
    );
    lemma_pair_read_after_write(
        state.registers,
        register_a,
        register_b,
        wrapping_offset(word, -1),
    );
}

/// No routine moves the program counter or the cycle counter, and none but
/// HALT suspends the processor.
pub proof fn lemma_perform_keeps_counters(state: State, operation: Operation, instruction: u16)
    ensures
        state.perform(operation, instruction).program_counter == state.program_counter,
        state.perform(operation, instruction).cycles == state.cycles,
        state.perform(operation, instruction).halted == (state.halted || operation
            == Operation::Halt),
{
    match operation {
        Operation::Nop => {},
        Operation::IncreaseRegister(_) => {},
        Operation::IncHlp => {},
        Operation::DecreaseRegister(_) => {},
        Operation::DecHlp => {},
        Operation::IncreaseDoubleRegister(_, _) => {},
        Operation::IncSp => {},
        Operation::DecreaseDoubleRegister(_, _) => {},
        Operation::DecSp => {},
        Operation::AddHlDoubleRegister(_, _) => {},
        Operation::AddHlSp => {},
        Operation::LoadRegisterRegister(_, _) => {},
        Operation::LoadRegisterValue(_) => {},
        Operation::LoadDoubleRegisterValue(_, _) => {},
        Operation::LdSpN16 => {},
        Operation::LoadHlpRegister(_) => {},
        Operation::LdHlpN8 => {},
        Operation::LoadRegisterHlp(_) => {},
        Operation::LoadDoubleRegisterpA(_, _) => {},
        Operation::LdHliA => {},
        Operation::LdHldA => {},
        Operation::LdR16A => {},
        Operation::LdhR8A => {},
        Operation::LdhAR8 => {},
        Operation::LdhCA => {},
        Operation::LdhAC => {},
        Operation::Rlca => {},
        Operation::Rrca => {},
        Operation::Halt => {},
    }
}

/// The register that a 3-bit field of an opcode names. Field 6 names no
/// register: it stands for the byte that HL points to.
pub open spec fn register_field(field: u8) -> Option<Register> {
    if field == 0 {
        Some(Register::B)
    } else if field == 1 {
        Some(Register::C)
    } else if field == 2 {
        Some(Register::D)
    } else if field == 3 {
        Some(Register::E)
    } else if field == 4 {
        Some(Register::H)
    } else if field == 5 {
        Some(Register::L)
    } else if field == 7 {
        Some(Register::A)
    } else {
        None
    }
}

/// The register pair that a 2-bit field of an opcode names. Field 3 names no
/// pair: it stands for the stack pointer.
pub open spec fn pair_field(field: u8) -> Option<(Register, Register)> {
    if field == 0 {
        Some((Register::B, Register::C))
    } else if field == 1 {
        Some((Register::D, Register::E))
    } else if field == 2 {
        Some((Register::H, Register::L))
    } else {
        None
    }
}

/// A bound descriptor.
pub open spec fn bound(operation: Operation, bytes: u8, cycles: u8) -> Option<Instruction> {
    Some(Instruction { operation, bytes, cycles })
}

/// The descriptor that the table binds to `opcode`, read off the fields of
/// the opcode: bits 3 to 5 name the target register, bits 0 to 2 the source
/// register, bits 4 and 5 the register pair. An opcode that this core has no
/// routine for is unbound; so is the prefix 0xCB, as no routine of the
/// extended set is part of this core.
pub open spec fn descriptor(opcode: u8) -> Option<Instruction> {
    let target = register_field(opcode / 8 % 8);
    let source = register_field(opcode % 8);
    let pair = pair_field(opcode / 16 % 4);
    if opcode < 0x40 {
        if opcode % 8 == 4 {
            match target {
                Some(register) => bound(Operation::IncreaseRegister(register), 1, 4),
                None => bound(Operation::IncHlp, 1, 12),
            }
        } else if opcode % 8 == 5 {
            match target {
                Some(register) => bound(Operation::DecreaseRegister(register), 1, 4),
                None => bound(Operation::DecHlp, 1, 12),
            }
        } else if opcode % 8 == 6 {
            match target {
                Some(register) => bound(Operation::LoadRegisterValue(register), 2, 8),
                None => bound(Operation::LdHlpN8, 2, 12),
            }
        } else if opcode % 16 == 1 {
            match pair {
                Some((a, b)) => bound(Operation::LoadDoubleRegisterValue(a, b), 3, 12),
                None => bound(Operation::LdSpN16, 3, 12),
            }
        } else if opcode % 16 == 2 {
            match pair {
                Some((Register::H, Register::L)) => bound(Operation::LdHliA, 1, 8),
                Some((a, b)) => bound(Operation::LoadDoubleRegisterpA(a, b), 1, 8),
                None => bound(Operation::LdHldA, 1, 8),
            }
        } else if opcode % 16 == 3 {
            match pair {
                Some((a, b)) => bound(Operation::IncreaseDoubleRegister(a, b), 1, 8),
                None => bound(Operation::IncSp, 1, 8),
            }
        } else if opcode % 16 == 9 {
            match pair {
                Some((a, b)) => bound(Operation::AddHlDoubleRegister(a, b), 1, 8),
                None => bound(Operation::AddHlSp, 1, 8),
            }
        } else if opcode % 16 == 11 {
            match pair {
                Some((a, b)) => bound(Operation::DecreaseDoubleRegister(a, b), 1, 8),
                None => bound(Operation::DecSp, 1, 8),
            }
        } else if opcode == 0x00 {
            bound(Operation::Nop, 1, 4)
        } else if opcode == 0x07 {
            bound(Operation::Rlca, 1, 4)
        } else if opcode == 0x0F {
            bound(Operation::Rrca, 1, 4)
        } else {
            None
        }
    } else if opcode < 0x80 {
        match (target, source) {
            (Some(to), Some(from)) => bound(Operation::LoadRegisterRegister(to, from), 1, 4),
            (Some(to), None) => bound(Operation::LoadRegisterHlp(to), 1, 8),
            (None, Some(from)) => bound(Operation::LoadHlpRegister(from), 1, 8),
            (None, None) => bound(Operation::Halt, 1, 4),
        }
    } else if opcode == 0xE0 {
        bound(Operation::LdhR8A, 2, 12)
    } else if opcode == 0xE2 {
        bound(Operation::LdhCA, 1, 8)
    } else if opcode == 0xEA {
        bound(Operation::LdR16A, 3, 16)
    } else if opcode == 0xF0 {
        bound(Operation::LdhAR8, 2, 12)
    } else if opcode == 0xF2 {
        bound(Operation::LdhAC, 1, 8)
    } else {
        None
    }
}

/// A bound descriptor.
fn bind(operation: Operation, bytes: u8, cycles: u8) -> (entry: Option<Instruction>)
    ensures
        entry == bound(operation, bytes, cycles),
{
    Some(Instruction { operation, bytes, cycles })
}

/// Looks up an opcode of the first quarter of the table, 0x00 to 0x3F:
/// increments, decrements, immediate loads, 16-bit arithmetic and rotates.
#[verifier::rlimit(40)]
fn decode_first_quarter(opcode: u8) -> (entry: Option<Instruction>)
    requires
        opcode < 0x40,
    ensures
        entry == descriptor(opcode),
{
    match opcode {
        0x00 => bind(Operation::Nop, 1, 4),
        0x01 => bind(Operation::LoadDoubleRegisterValue(Register::B, Register::C), 3, 12),
        0x02 => bind(Operation::LoadDoubleRegisterpA(Register::B, Register::C), 1, 8),
        0x03 => bind(Operation::IncreaseDoubleRegister(Register::B, Register::C), 1, 8),
        0x04 => bind(Operation::IncreaseRegister(Register::B), 1, 4),
        0x05 => bind(Operation::DecreaseRegister(Register::B), 1, 4),
        0x06 => bind(Operation::LoadRegisterValue(Register::B), 2, 8),
        0x07 => bind(Operation::Rlca, 1, 4),
        0x09 => bind(Operation::AddHlDoubleRegister(Register::B, Register::C), 1, 8),
        0x0B => bind(Operation::DecreaseDoubleRegister(Register::B, Register::C), 1, 8),
        0x0C => bind(Operation::IncreaseRegister(Register::C), 1, 4),
        0x0D => bind(Operation::DecreaseRegister(Register::C), 1, 4),
        0x0E => bind(Operation::LoadRegisterValue(Register::C), 2, 8),
        0x0F => bind(Operation::Rrca, 1, 4),
        0x11 => bind(Operation::LoadDoubleRegisterValue(Register::D, Register::E), 3, 12),
        0x12 => bind(Operation::LoadDoubleRegisterpA(Register::D, Register::E), 1, 8),
        0x13 => bind(Operation::IncreaseDoubleRegister(Register::D, Register::E), 1, 8),
        0x14 => bind(Operation::IncreaseRegister(Register::D), 1, 4),
        0x15 => bind(Operation::DecreaseRegister(Register::D), 1, 4),
        0x16 => bind(Operation::LoadRegisterValue(Register::D), 2, 8),
        0x19 => bind(Operation::AddHlDoubleRegister(Register::D, Register::E), 1, 8),
        0x1B => bind(Operation::DecreaseDoubleRegister(Register::D, Register::E), 1, 8),
        0x1C => bind(Operation::IncreaseRegister(Register::E), 1, 4),
        0x1D => bind(Operation::DecreaseRegister(Register::E), 1, 4),
        0x1E => bind(Operation::LoadRegisterValue(Register::E), 2, 8),
        0x21 => bind(Operation::LoadDoubleRegisterValue(Register::H, Register::L), 3, 12),
        0x22 => bind(Operation::LdHliA, 1, 8),
        0x23 => bind(Operation::IncreaseDoubleRegister(Register::H, Register::L), 1, 8),
        0x24 => bind(Operation::IncreaseRegister(Register::H), 1, 4),
        0x25 => bind(Operation::DecreaseRegister(Register::H), 1, 4),
        0x26 => bind(Operation::LoadRegisterValue(Register::H), 2, 8),
        0x29 => bind(Operation::AddHlDoubleRegister(Register::H, Register::L), 1, 8),
        0x2B => bind(Operation::DecreaseDoubleRegister(Register::H, Register::L), 1, 8),
        0x2C => bind(Operation::IncreaseRegister(Register::L), 1, 4),
        0x2D => bind(Operation::DecreaseRegister(Register::L), 1, 4),
        0x2E => bind(Operation::LoadRegisterValue(Register::L), 2, 8),
        0x31 => bind(Operation::LdSpN16, 3, 12),
        0x32 => bind(Operation::LdHldA, 1, 8),
        0x33 => bind(Operation::IncSp, 1, 8),
        0x34 => bind(Operation::IncHlp, 1, 12),
        0x35 => bind(Operation::DecHlp, 1, 12),
        0x36 => bind(Operation::LdHlpN8, 2, 12),
        0x39 => bind(Operation::AddHlSp, 1, 8),
        0x3B => bind(Operation::DecSp, 1, 8),
        0x3C => bind(Operation::IncreaseRegister(Register::A), 1, 4),
        0x3D => bind(Operation::DecreaseRegister(Register::A), 1, 4),
        0x3E => bind(Operation::LoadRegisterValue(Register::A), 2, 8),
        _ => None,
    }
}

/// Looks up an opcode of the second quarter of the table, 0x40 to 0x7F: the
/// loads between registers and the byte that HL points to, and HALT.
#[verifier::rlimit(40)]
fn decode_second_quarter(opcode: u8) -> (entry: Option<Instruction>)
    requires
        0x40 <= opcode < 0x80,
    ensures
        entry == descriptor(opcode),
{
    match opcode {
        0x40 => bind(Operation::LoadRegisterRegister(Register::B, Register::B), 1, 4),
        0x41 => bind(Operation::LoadRegisterRegister(Register::B, Register::C), 1, 4),
        0x42 => bind(Operation::LoadRegisterRegister(Register::B, Register::D), 1, 4),
        0x43 => bind(Operation::LoadRegisterRegister(Register::B, Register::E), 1, 4),
        0x44 => bind(Operation::LoadRegisterRegister(Register::B, Register::H), 1, 4),
        0x45 => bind(Operation::LoadRegisterRegister(Register::B, Register::L), 1, 4),
        0x46 => bind(Operation::LoadRegisterHlp(Register::B), 1, 8),
        0x47 => bind(Operation::LoadRegisterRegister(Register::B, Register::A), 1, 4),
        0x48 => bind(Operation::LoadRegisterRegister(Register::C, Register::B), 1, 4),
        0x49 => bind(Operation::LoadRegisterRegister(Register::C, Register::C), 1, 4),
        0x4A => bind(Operation::LoadRegisterRegister(Register::C, Register::D), 1, 4),
        0x4B => bind(Operation::LoadRegisterRegister(Register::C, Register::E), 1, 4),
        0x4C => bind(Operation::LoadRegisterRegister(Register::C, Register::H), 1, 4),
        0x4D => bind(Operation::LoadRegisterRegister(Register::C, Register::L), 1, 4),
        0x4E => bind(Operation::LoadRegisterHlp(Register::C), 1, 8),
        0x4F => bind(Operation::LoadRegisterRegister(Register::C, Register::A), 1, 4),
        0x50 => bind(Operation::LoadRegisterRegister(Register::D, Register::B), 1, 4),
        0x51 => bind(Operation::LoadRegisterRegister(Register::D, Register::C), 1, 4),
        0x52 => bind(Operation::LoadRegisterRegister(Register::D, Register::D), 1, 4),
        0x53 => bind(Operation::LoadRegisterRegister(Register::D, Register::E), 1, 4),
        0x54 => bind(Operation::LoadRegisterRegister(Register::D, Register::H), 1, 4),
        0x55 => bind(Operation::LoadRegisterRegister(Register::D, Register::L), 1, 4),
        0x56 => bind(Operation::LoadRegisterHlp(Register::D), 1, 8),
        0x57 => bind(Operation::LoadRegisterRegister(Register::D, Register::A), 1, 4),
        0x58 => bind(Operation::LoadRegisterRegister(Register::E, Register::B), 1, 4),
        0x59 => bind(Operation::LoadRegisterRegister(Register::E, Register::C), 1, 4),
        0x5A => bind(Operation::LoadRegisterRegister(Register::E, Register::D), 1, 4),
        0x5B => bind(Operation::LoadRegisterRegister(Register::E, Register::E), 1, 4),
        0x5C => bind(Operation::LoadRegisterRegister(Register::E, Register::H), 1, 4),
        0x5D => bind(Operation::LoadRegisterRegister(Register::E, Register::L), 1, 4),
        0x5E => bind(Operation::LoadRegisterHlp(Register::E), 1, 8),
        0x5F => bind(Operation::LoadRegisterRegister(Register::E, Register::A), 1, 4),
        0x60 => bind(Operation::LoadRegisterRegister(Register::H, Register::B), 1, 4),
        0x61 => bind(Operation::LoadRegisterRegister(Register::H, Register::C), 1, 4),
        0x62 => bind(Operation::LoadRegisterRegister(Register::H, Register::D), 1, 4),
        0x63 => bind(Operation::LoadRegisterRegister(Register::H, Register::E), 1, 4),
        0x64 => bind(Operation::LoadRegisterRegister(Register::H, Register::H), 1, 4),
        0x65 => bind(Operation::LoadRegisterRegister(Register::H, Register::L), 1, 4),
        0x66 => bind(Operation::LoadRegisterHlp(Register::H), 1, 8),
        0x67 => bind(Operation::LoadRegisterRegister(Register::H, Register::A), 1, 4),
        0x68 => bind(Operation::LoadRegisterRegister(Register::L, Register::B), 1, 4),
        0x69 => bind(Operation::LoadRegisterRegister(Register::L, Register::C), 1, 4),
        0x6A => bind(Operation::LoadRegisterRegister(Register::L, Register::D), 1, 4),
        0x6B => bind(Operation::LoadRegisterRegister(Register::L, Register::E), 1, 4),
        0x6C => bind(Operation::LoadRegisterRegister(Register::L, Register::H), 1, 4),
        0x6D => bind(Operation::LoadRegisterRegister(Register::L, Register::L), 1, 4),
        0x6E => bind(Operation::LoadRegisterHlp(Register::L), 1, 8),
        0x6F => bind(Operation::LoadRegisterRegister(Register::L, Register::A), 1, 4),
        0x70 => bind(Operation::LoadHlpRegister(Register::B), 1, 8),
        0x71 => bind(Operation::LoadHlpRegister(Register::C), 1, 8),
        0x72 => bind(Operation::LoadHlpRegister(Register::D), 1, 8),
        0x73 => bind(Operation::LoadHlpRegister(Register::E), 1, 8),
        0x74 => bind(Operation::LoadHlpRegister(Register::H), 1, 8),
        0x75 => bind(Operation::LoadHlpRegister(Register::L), 1, 8),
        0x76 => bind(Operation::Halt, 1, 4),
        0x77 => bind(Operation::LoadHlpRegister(Register::A), 1, 8),
        0x78 => bind(Operation::LoadRegisterRegister(Register::A, Register::B), 1, 4),
        0x79 => bind(Operation::LoadRegisterRegister(Register::A, Register::C), 1, 4),
        0x7A => bind(Operation::LoadRegisterRegister(Register::A, Register::D), 1, 4),
        0x7B => bind(Operation::LoadRegisterRegister(Register::A, Register::E), 1, 4),
        0x7C => bind(Operation::LoadRegisterRegister(Register::A, Register::H), 1, 4),
        0x7D => bind(Operation::LoadRegisterRegister(Register::A, Register::L), 1, 4),
        0x7E => bind(Operation::LoadRegisterHlp(Register::A), 1, 8),
        0x7F => bind(Operation::LoadRegisterRegister(Register::A, Register::A), 1, 4),
        _ => None,
    }
}

/// Looks up an opcode of the upper half of the table, 0x80 to 0xFF.
fn decode_upper_half(opcode: u8) -> (entry: Option<Instruction>)
    requires
        0x80 <= opcode,
    ensures
        entry == descriptor(opcode),
{
    match opcode {
        0xE0 => bind(Operation::LdhR8A, 2, 12),
        0xE2 => bind(Operation::LdhCA, 1, 8),
        0xEA => bind(Operation::LdR16A, 3, 16),
        0xF0 => bind(Operation::LdhAR8, 2, 12),
        0xF2 => bind(Operation::LdhAC, 1, 8),
        _ => None,
    }
}

/// Looks `opcode` up in the instruction table.
pub fn decode(opcode: u8) -> (entry: Option<Instruction>)
    ensures
        entry == descriptor(opcode),
{
    if opcode < 0x40 {
        decode_first_quarter(opcode)
    } else if opcode < 0x80 {
        decode_second_quarter(opcode)
    } else {
        decode_upper_half(opcode)
    }
}

/// Every bound descriptor is one, two or three bytes long, and its base
/// cost is a multiple of four cycles between 4 and 16.
pub proof fn lemma_descriptor_shape(opcode: u8)
    requires
        descriptor(opcode) is Some,
    ensures
        1 <= descriptor(opcode)->Some_0.bytes <= 3,
        descriptor(opcode)->Some_0.cycles % 4 == 0,
        4 <= descriptor(opcode)->Some_0.cycles <= 16,
{
}

/// No routine is bound twice: two opcodes with the same operation are one
/// opcode.
pub proof fn lemma_no_duplicate_binding(first: u8, second: u8)
    requires
        descriptor(first) is Some,
        descriptor(second) is Some,
        descriptor(first)->Some_0.operation == descriptor(second)->Some_0.operation,
    ensures
        first == second,
{
    if first < 0x40 {
        lemma_first_quarter_is_not_bound_twice(first, second);
    } else if second < 0x40 {
        lemma_first_quarter_is_not_bound_twice(second, first);
    } else if first < 0x80 {
        lemma_second_quarter_is_not_bound_twice(first, second);
    } else if second < 0x80 {
        lemma_second_quarter_is_not_bound_twice(second, first);
    }
}

/// No routine of the second quarter of the table is bound to another opcode
/// from there on.
#[verifier::rlimit(40)]
proof fn lemma_second_quarter_is_not_bound_twice(first: u8, second: u8)
    requires
        0x40 <= first < 0x80,
        0x40 <= second,
        descriptor(first) is Some,
        descriptor(second) is Some,
        descriptor(first)->Some_0.operation == descriptor(second)->Some_0.operation,
    ensures
        first == second,
{
    if second < 0x80 {
        let target = (first / 8 % 8) as u8;
        let source = (first % 8) as u8;
        let other_target = (second / 8 % 8) as u8;
        let other_source = (second % 8) as u8;
        assert(first == 0x40 + 8 * target + source);
        assert(second == 0x40 + 8 * other_target + other_source);
        assert(register_field(target) == register_field(other_target));
        assert(register_field(source) == register_field(other_source));
        lemma_register_field_is_one_to_one(target, other_target);
        lemma_register_field_is_one_to_one(source, other_source);
    }
}

/// Two fields that name the same register, or both none, are one field.
proof fn lemma_register_field_is_one_to_one(first: u8, second: u8)
    requires
        first < 8,
        second < 8,
        register_field(first) == register_field(second),
    ensures
        first == second,
{
}

/// No routine of the first quarter of the table is bound to another opcode.
proof fn lemma_first_quarter_is_not_bound_twice(first: u8, second: u8)
    requires
        first < 0x40,
        descriptor(first) is Some,
        descriptor(second) is Some,
        descriptor(first)->Some_0.operation == descriptor(second)->Some_0.operation,
    ensures
        first == second,
{
    let operation = descriptor(first)->Some_0.operation;
    if second >= 0x40 {
    } else if first % 8 == 4 || first % 8 == 5 || first % 8 == 6 {
        assert(second % 8 == first % 8);
        assert(second / 8 % 8 == first / 8 % 8);
    } else if first % 16 == 1 || first % 16 == 2 || first % 16 == 3 || first % 16 == 9 || first
        % 16 == 11 {
        assert(second % 16 == first % 16);
        assert(second / 16 % 4 == first / 16 % 4);
    }
}

} // verus!
