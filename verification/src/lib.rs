//! An interpreting emulator for the 8-bit console built around the 6502 CPU
//! and its tile-based picture processor.
//!
//! The machine is a single owned aggregate: a register file, 64 KiB of CPU
//! address space, and the picture processor's state. Every state transition
//! (addressing, instruction execution, memory-mapped I/O, pixel synthesis)
//! is specified by a pure function over a mathematical model of the machine
//! and proved to match it.

pub mod nes;

pub mod cpu;

pub mod ppu;

pub mod ram;

pub mod flag;

pub mod addressing;

pub mod instruction;

pub mod render;

pub mod laws;
