//! Processor, address space, tile decoding and clock pacing of an 8-bit
//! handheld console, with the instruction semantics stated as spec functions
//! and the executable code proved against them.

pub mod cpu;
pub mod gpu;
pub mod memory;
pub mod scheduler;
