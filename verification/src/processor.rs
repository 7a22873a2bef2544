//! The processor: registers, stack pointer, program counter and the memory
//! bus, with the accessors that instruction routines work through.

use vstd::prelude::*;
use crate::cartridge::{header_checksum_of, load, load_outcome, Cartridge, CartridgeError,
    CHECKSUM_AT, MINIMUM_IMAGE};
use crate::codec::{pack, to_u16};
use crate::flags::{Flag, Flags};
use crate::instructions::{decode, descriptor, execute, lemma_perform_keeps_counters, word_operand,
    Instruction};
use crate::memory::MemoryBus;
use crate::registers::{Register, RegisterFile};
use crate::state::{add_cycles, advance_word, next_word, wrapping_offset, wrapping_total, State};

verus! {

/// Why a step did not run.
#[derive(Clone, Copy, Debug, PartialEq, Eq, Structural)]
pub enum StepError {
    /// The byte fetched at the program counter has no bound descriptor.
    InvalidOpcode(u8),
}

impl State {
    /// The opcode that the next step fetches.
    pub open spec fn fetched(self) -> u8 {
        self.memory.read(self.program_counter)
    }

    /// The immediate of an instruction of `length` bytes at the program
    /// counter: the bytes that follow the opcode, the first in the high half,
    /// with zero for each byte that the instruction does not have.
    pub open spec fn immediate(self, length: u8) -> u16 {
        pack(
            if length >= 2 {
                self.memory.read(wrapping_offset(self.program_counter, 1))
            } else {
                0
            },
            if length >= 3 {
                self.memory.read(wrapping_offset(self.program_counter, 2))
            } else {
                0
            },
        )
    }

    /// Whether the next step faults: the processor is awake and the opcode
    /// at the program counter is unbound.
    pub open spec fn faults(self) -> bool {
        !self.halted && descriptor(self.fetched()) is None
    }

    /// The cycles that the next step consumes: none while the processor is
    /// suspended or faults, else the base cost of the instruction.
    pub open spec fn step_cost(self) -> u8 {
        if self.halted {
            0
        } else {
            match descriptor(self.fetched()) {
                Some(instruction) => instruction.cycles,
                None => 0,
            }
        }
    }

    /// The state after a fetched instruction ran on its immediate: the
    /// program counter moves past the instruction, then the routine runs,
    /// then the base cost is added to the cycle counter.
    pub open spec fn run(self, instruction: Instruction, immediate: u16) -> State {
        let advanced = self.with_program_counter(
            wrapping_offset(self.program_counter, instruction.bytes as int),
        );
        let done = advanced.perform(instruction.operation, immediate);
        State { cycles: wrapping_total(done.cycles, instruction.cycles), ..done }
    }

    /// The state after one step. A suspended processor stays as it is, and
    /// so does one that faults. Otherwise the instruction at the program
    /// counter runs on the immediate that follows it.
    pub open spec fn step(self) -> State {
        if self.halted {
            self
        } else {
            match descriptor(self.fetched()) {
                Some(instruction) => self.run(instruction, self.immediate(instruction.bytes)),
                None => self,
            }
        }
    }
}

/// The processor with its memory bus.
pub struct Processor {
    pub stack_pointer: u16,
    pub program_counter: u16,
    /// The running total of cycles consumed, in 64-bit arithmetic.
    pub cycles: u64,
    /// Whether the processor is suspended and waits to be woken.
    pub halted: bool,
    pub registers: RegisterFile,
    pub memory: MemoryBus,
}

impl View for Processor {
    type V = State;

    open spec fn view(&self) -> State {
        State {
            stack_pointer: self.stack_pointer,
            program_counter: self.program_counter,
            cycles: self.cycles,
            halted: self.halted,
            registers: self.registers,
            memory: self.memory@,
        }
    }
}

impl Processor {
    /// A processor with every register, counter and memory cell at zero and
    /// no cartridge.
    pub fn new() -> (cpu: Processor)
        ensures
            cpu@ == State::reset(),
    {
        Processor {
            stack_pointer: 0,
            program_counter: 0,
            cycles: 0,
            halted: false,
            registers: RegisterFile::new(),
            memory: MemoryBus::new(),
        }
    }

    /// Loads a cartridge image: checks it, and where it is accepted maps its
    /// ROM onto the bus and hands the cartridge out. An image that is not
    /// accepted leaves the processor as it was.
    pub fn load_cartridge(&mut self, image: &[u8]) -> (result: Result<Cartridge, CartridgeError>)
        ensures
            result is Ok <==> load_outcome(image@) is Ok,
            match result {
                Ok(cartridge) => {
                    &&& cartridge@ == load_outcome(image@)->Ok_0
                    &&& cartridge@.wf()
                    &&& final(self)@ == (State {
                        memory: old(self)@.memory.with_rom(image@),
                        ..old(self)@
                    })
                },
                Err(error) => {
                    &&& error == load_outcome(image@)->Err_0
                    &&& final(self)@ == old(self)@
                },
            },
            image@.len() >= MINIMUM_IMAGE && header_checksum_of(image@)
                != image@[CHECKSUM_AT as int] ==> result is Err && result->Err_0
                == CartridgeError::CorruptCartridge && final(self)@ == old(self)@,
    {
        load(&mut self.memory, image)
    }

    /// Writes `value` to the register `index`; F keeps the four high bits.
    pub fn write_register(&mut self, index: Register, value: u8)
        ensures
            final(self)@ == old(self)@.with_register(index, value),
    {
        self.registers.write(index, value);
    }

    /// Reads the register `index`.
    pub fn read_register(&self, index: Register) -> (value: u8)
        ensures
            value == self@.registers.get(index),
    {
        self.registers.read(index)
    }

    /// Writes `value` to the pair `high`, `low`.
    pub fn write_pair(&mut self, high: Register, low: Register, value: u16)
        ensures
            final(self)@ == old(self)@.with_pair(high, low, value),
    {
        self.registers.write_pair(high, low, value);
    }

    /// Reads the pair `high`, `low` as one word.
    pub fn read_pair(&self, high: Register, low: Register) -> (value: u16)
        ensures
            value == self@.registers.get_pair(high, low),
    {
        self.registers.read_pair(high, low)
    }

    /// Sets `flag` and leaves the other flags untouched.
    pub fn set_flag(&mut self, flag: Flag)
        ensures
            final(self)@ == old(self)@.with_flag(flag, true),
    {
        self.registers.flags.assign(flag, true);
    }

    /// Clears `flag` and leaves the other flags untouched.
    pub fn reset_flag(&mut self, flag: Flag)
        ensures
            final(self)@ == old(self)@.with_flag(flag, false),
    {
        self.registers.flags.assign(flag, false);
    }

    /// Reads register F.
    pub fn read_flags(&self) -> (byte: u8)
        ensures
            byte == self@.registers.get(Register::F),
    {
        self.read_register(Register::F)
    }

    /// The four flags.
    pub fn flags(&self) -> (flags: Flags)
        ensures
            flags == self@.registers.flags,
    {
        self.registers.flags
    }

    /// Replaces the four flags.
    pub fn write_flags(&mut self, flags: Flags)
        ensures
            final(self)@ == old(self)@.with_flags(flags),
    {
        self.registers.flags = flags;
    }

    /// Writes `value` to `address` on the bus.
    pub fn write_memory(&mut self, address: u16, value: u8)
        ensures
            final(self)@ == old(self)@.with_memory(address, value),
    {
        self.memory.write(address, value);
    }

    /// Reads the byte at `address` on the bus.
    pub fn read_memory(&mut self, address: u16) -> (value: u8)
        ensures
            value == old(self)@.memory.read(address),
            final(self)@ == old(self)@,
    {
        self.memory.read(address)
    }

    /// Suspends the processor: it fetches nothing more until it is woken.
    pub fn halt(&mut self)
        ensures
            final(self)@ == (State { halted: true, ..old(self)@ }),
    {
        self.halted = true;
    }

    /// Wakes a suspended processor, as an interrupt line does.
    pub fn wake(&mut self)
        ensures
            final(self)@ == (State { halted: false, ..old(self)@ }),
    {
        self.halted = false;
    }

    /// Fetches the immediate of an instruction of `length` bytes at the
    /// program counter.
    pub fn fetch_immediate(&self, length: u8) -> (immediate: u16)
        ensures
            immediate == self@.immediate(length),
    {
        let first = if length >= 2 {
            self.memory.read(next_word(self.program_counter))
        } else {
            0
        };
        let second = if length >= 3 {
            self.memory.read(next_word(next_word(self.program_counter)))
        } else {
            0
        };
        to_u16(first, second)
    }

    /// Runs a fetched instruction on its immediate: moves the program
    /// counter past the instruction, runs the routine and adds the base cost
    /// to the cycle counter.
    pub fn run(&mut self, instruction: Instruction, immediate: u16)
        ensures
            final(self)@ == old(self)@.run(instruction, immediate),
    {
        self.program_counter = advance_word(self.program_counter, instruction.bytes);
        execute(self, instruction.operation, immediate);
        self.cycles = add_cycles(self.cycles, instruction.cycles);
    }

    /// Runs one instruction: fetches the opcode at the program counter, looks
    /// its descriptor up, fetches the immediate bytes, moves the program
    /// counter past the instruction, runs the routine and adds the base cost
    /// to the cycle counter. Returns the cycles consumed.
    ///
    /// A suspended processor fetches nothing and consumes no cycle. An opcode
    /// without a descriptor is a fault that leaves the processor as it was.
    pub fn step(&mut self) -> (result: Result<u8, StepError>)
        ensures
            result is Err <==> old(self)@.faults(),
            match result {
                Ok(cycles) => final(self)@ == old(self)@.step() && cycles == old(self)@.step_cost(),
                Err(fault) => final(self)@ == old(self)@ && fault == StepError::InvalidOpcode(
                    old(self)@.fetched(),
                ),
            },
    {
        if self.halted {
            return Ok(0);
        }
        let opcode = self.memory.read(self.program_counter);
        match decode(opcode) {
            Some(instruction) => {
                let immediate = self.fetch_immediate(instruction.bytes);
                self.run(instruction, immediate);
                Ok(instruction.cycles)
            },
            None => Err(StepError::InvalidOpcode(opcode)),
        }
    }
}

/// A step on an instruction of three bytes hands the routine the two bytes
/// after the opcode as one operand, the first of them low, and moves the
/// program counter on by three.
pub proof fn lemma_step_fetches_word_operand(state: State)
    requires
        !state.halted,
        descriptor(state.fetched()) is Some,
        descriptor(state.fetched())->Some_0.bytes == 3,
    ensures
        word_operand(state.immediate(3)) == pack(
            state.memory.read(wrapping_offset(state.program_counter, 2)),
            state.memory.read(wrapping_offset(state.program_counter, 1)),
        ),
        state.step().program_counter == wrapping_offset(state.program_counter, 3),
{
    let instruction = descriptor(state.fetched())->Some_0;
    lemma_perform_keeps_counters(
        state.with_program_counter(wrapping_offset(state.program_counter, 3)),
        instruction.operation,
        state.immediate(3),
    );
}

/// A step moves the program counter on by the length of the instruction and
/// adds its base cost to the cycle counter; a suspended processor and a
/// fault move neither.
pub proof fn lemma_step_advances(state: State)
    ensures
        state.halted || state.faults() ==> state.step() == state,
        !state.halted && !state.faults() ==> {
            let instruction = descriptor(state.fetched())->Some_0;
            &&& state.step().program_counter == wrapping_offset(
                state.program_counter,
                instruction.bytes as int,
            )
            &&& state.step().cycles == wrapping_total(state.cycles, instruction.cycles)
            &&& state.step_cost() == instruction.cycles
        },
{
    if !state.halted && !state.faults() {
        let instruction = descriptor(state.fetched())->Some_0;
        lemma_perform_keeps_counters(
            state.with_program_counter(
                wrapping_offset(state.program_counter, instruction.bytes as int),
            ),
            instruction.operation,
            state.immediate(instruction.bytes),
        );
    }
}

} // verus!
