//! Execution core of a cycle-counted 8-bit CPU emulator in the 6502 family:
//! a flat 64 KiB byte memory and a CPU with registers, single-bit flags and a
//! program counter, driven by a fetch-decode-execute loop that consumes a
//! cycle budget. Every operation carries a contract that pins down the
//! machine state it produces.

pub mod cpu;
pub mod memory;
