//! A software emulator core for the MOS 6502 instruction set.
//!
//! The processor of `cpu` owns a flat memory of 64 KiB (`memory`) and a
//! status register (`flags`). It fetches an opcode, looks it up in the
//! catalogue of `instruction`, resolves the operand under the entry's
//! addressing mode (`addressing`) and carries the instruction out.
//!
//! Every contract speaks of the mathematical model in `state`: the
//! registers, the flags as booleans and memory as a sequence of bytes.
//! `semantics` says in that model what each instruction does and how the
//! machine steps and runs; `laws` holds what is proved of it.

pub mod addressing;
pub mod cpu;
pub mod error;
pub mod flags;
pub mod input;
pub mod instruction;
pub mod laws;
pub mod memory;
pub mod semantics;
pub mod state;
