//! Emulation core for an 8-bit accumulator-style CPU with a 16-bit address
//! space: a register file with packed flag bits, the per-opcode instruction
//! semantics (base and prefixed opcode spaces), a table-driven decoder, a
//! divider-timer, and the interrupt-dispatch protocol.

pub mod alu;
pub mod registers;
pub mod memory;
pub mod lookup;
pub mod instructions;
pub mod prefixed;
pub mod interrupts;
pub mod cpu;

pub use registers::{Flags, Regs};
pub use memory::Memory;
pub use lookup::InstructionAccess;
pub use cpu::{Cpu, CpuError};
