//! An emulator of the MOS 6502 processor: the registers and flags, the memory
//! bus, the addressing modes, the opcode table and the instructions, each with
//! a contract that says what it computes.
pub mod addressing_modes;
pub mod bus;
pub mod cpu;
pub mod execution;
pub mod harness;
pub mod instructions;
pub mod opcode_table;
pub mod stack;
pub mod status;

pub use cpu::{CPUError, Machine, CPU};
