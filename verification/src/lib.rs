//! Execution core of an 8-bit, 6502-class microprocessor.

pub mod addressing;
pub mod alu;
pub mod cpu;
pub mod instruction;
pub mod memory;
pub mod state;
pub mod status;

pub use addressing::AddressingMode;
pub use cpu::CPU;
pub use instruction::{ExecutionError, Instruction, Operation};
pub use memory::Memory;
pub use status::{Flag, Status};
