//! Interpreter for a classic 8-bit microprocessor instruction set.
//!
//! The crate models a processor with an 8-bit accumulator, two 8-bit index
//! registers, an 8-bit stack pointer into a fixed stack page, a 16-bit
//! program counter, a status byte of named flags, and a flat 64 KiB memory.
//! Each `execute` call performs one fetch-decode-execute transition, whose
//! effect is stated against a mathematical model of the processor state.

pub mod cpu;
pub mod instructions;
pub mod laws;
pub mod semantics;
pub mod state;
