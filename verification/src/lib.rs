//! A CHIP-8 virtual machine core: an instruction interpreter with a
//! monochrome bitmap display, and a disassembler sharing the same
//! instruction decoding.

pub mod cpu;
pub mod disassembler;
pub mod instr;
pub mod laws;
pub mod state;

pub use instr::Instr;
