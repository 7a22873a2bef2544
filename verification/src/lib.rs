//! A cycle-tracked core of the Sharp SM83 processor: registers and flags,
//! the memory bus, the cartridge loader and the instruction engine.

pub mod codec;
pub mod flags;
pub mod registers;
pub mod memory;
pub mod cartridge;
pub mod state;
pub mod instructions;
pub mod processor;
