use vstd::prelude::*;

verus! {

/// How an instruction finds its operand.
#[allow(non_camel_case_types)]
#[derive(Clone, Copy, Debug, PartialEq, Eq)]
pub enum AddressingMode {
    /// The operand is the byte that follows the opcode.
    Immediate,
    /// The byte that follows the opcode is an address in page zero.
    ZeroPage,
    /// Page-zero address plus X, staying in page zero.
    ZeroPage_X,
    /// Page-zero address plus Y, staying in page zero.
    ZeroPage_Y,
    /// The two bytes that follow the opcode are the address, low byte first.
    Absolute,
    /// Absolute address plus X.
    Absolute_X,
    /// Absolute address plus Y.
    Absolute_Y,
    /// The address is read from page zero at the operand byte plus X.
    Indirect_X,
    /// The address is read from page zero at the operand byte, then Y is added.
    Indirect_Y,
    /// The instruction has no operand in memory.
    NoneAddressing,
}

impl AddressingMode {
    /// How many bytes follow the opcode of an instruction in this mode.
    pub open spec fn operand_bytes(self) -> int {
        match self {
            AddressingMode::NoneAddressing => 0,
            AddressingMode::Absolute | AddressingMode::Absolute_X | AddressingMode::Absolute_Y => 2,
            _ => 1,
        }
    }
}

/// One entry of the instruction catalogue.
#[derive(Clone, Copy, Debug)]
pub struct OpCode {
    pub code: u8,
    pub mnemonic: &'static str,
    /// Length of the whole instruction in bytes, opcode included.
    pub len: u8,
    /// Length of the operand alone.
    pub operand_len: u8,
    /// Base number of clock cycles.
    pub cycles: u8,
    pub mode: AddressingMode,
}

impl OpCode {
    pub fn new(code: u8, mnemonic: &'static str, len: u8, cycles: u8, mode: AddressingMode) -> (op:
        OpCode)
        requires
            len >= 1,
        ensures
            op == (OpCode { code, mnemonic, len, operand_len: (len - 1) as u8, cycles, mode }),
    {
        OpCode { code, mnemonic, len, operand_len: len - 1, cycles, mode }
    }
}

} // verus!
