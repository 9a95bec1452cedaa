use crate::addressing::AddressingMode;
use vstd::prelude::*;

verus! {

/// Why the processor could not go on.
#[derive(Clone, Copy, Debug, PartialEq, Eq)]
pub enum CpuError {
    /// The byte fetched as an opcode names no instruction.
    UnrecognizedOpcode { code: u8 },
    /// An instruction that needs an operand address was given a mode that has none.
    InvalidAddressingMode { mode: AddressingMode },
    /// A program of `len` bytes placed at `base` would run past the end of memory.
    ProgramTooLarge { base: u16, len: usize },
}

} // verus!
