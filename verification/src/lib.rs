//! Core of a Game Boy (DMG) emulator: the 16-bit address-space classifier,
//! the memory bus that dispatches reads to the backing store of each region,
//! the CPU register file, and the fetch/decode/execute engine for the
//! implemented opcodes.

pub mod cpu;
pub mod errors;
pub mod memory;
pub mod mmu;
