//! A functional model of a 32-bit RISC-V core (RV32I with Zicsr) for
//! co-simulation: every executed instruction yields the write-back record
//! that a pipeline under test is expected to drive.

pub mod bytes;
pub mod cpu;
pub mod disasm;
pub mod dram;
pub mod error;
pub mod instr;
pub mod irom;

pub use error::EmuError;
pub use instr::{Instr, Reg, CSR};
pub use irom::IROM;
pub use dram::DRAM;
pub use cpu::{WBStatus, CPU};
