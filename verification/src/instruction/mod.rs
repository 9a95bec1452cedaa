//! The instruction catalogue: which opcode byte stands for which
//! instruction, in which addressing mode, and the handler for each.

pub mod arithmetic;
pub mod load;
pub mod logic;
pub mod shift;
pub mod store;
pub mod transfer;

use crate::addressing::{AddressingMode, OpCode};
use crate::cpu::CPU;
use crate::error::CpuError;
use vstd::prelude::*;

verus! {

/// What an instruction does, its addressing mode apart.
#[derive(Clone, Copy, Debug, PartialEq, Eq)]
pub enum Instruction {
    Brk,
    Tax,
    Inx,
    Iny,
    Lda,
    Ldy,
    Ldx,
    And,
    Ora,
    Eor,
    Sta,
    Adc,
    Asl,
    Sbc,
}

impl Instruction {
    /// The three-letter name of the instruction.
    pub open spec fn name(self) -> Seq<char> {
        match self {
            Instruction::Brk => "BRK"@,
            Instruction::Tax => "TAX"@,
            Instruction::Inx => "INX"@,
            Instruction::Iny => "INY"@,
            Instruction::Lda => "LDA"@,
            Instruction::Ldy => "LDY"@,
            Instruction::Ldx => "LDX"@,
            Instruction::And => "AND"@,
            Instruction::Ora => "ORA"@,
            Instruction::Eor => "EOR"@,
            Instruction::Sta => "STA"@,
            Instruction::Adc => "ADC"@,
            Instruction::Asl => "ASL"@,
            Instruction::Sbc => "SBC"@,
        }
    }

    /// The three-letter name of the instruction.
    pub fn mnemonic(&self) -> (name: &'static str)
        ensures
            name@ == self.name(),
    {
        match self {
            Instruction::Brk => "BRK",
            Instruction::Tax => "TAX",
            Instruction::Inx => "INX",
            Instruction::Iny => "INY",
            Instruction::Lda => "LDA",
            Instruction::Ldy => "LDY",
            Instruction::Ldx => "LDX",
            Instruction::And => "AND",
            Instruction::Ora => "ORA",
            Instruction::Eor => "EOR",
            Instruction::Sta => "STA",
            Instruction::Adc => "ADC",
            Instruction::Asl => "ASL",
            Instruction::Sbc => "SBC",
        }
    }
}

/// The catalogue itself: for each opcode byte that stands for an
/// instruction, the instruction, its length in bytes, its base cycle count
/// and its addressing mode.
pub open spec fn catalogue(code: u8) -> Option<(Instruction, u8, u8, AddressingMode)> {
    match code {
        0x00 => Some((Instruction::Brk, 1u8, 7u8, AddressingMode::NoneAddressing)),
        0xAA => Some((Instruction::Tax, 1u8, 2u8, AddressingMode::NoneAddressing)),
        0xE8 => Some((Instruction::Inx, 1u8, 2u8, AddressingMode::NoneAddressing)),
        0xC8 => Some((Instruction::Iny, 1u8, 2u8, AddressingMode::NoneAddressing)),
        0xA9 => Some((Instruction::Lda, 2u8, 2u8, AddressingMode::Immediate)),
        0xA5 => Some((Instruction::Lda, 2u8, 3u8, AddressingMode::ZeroPage)),
        0xB5 => Some((Instruction::Lda, 2u8, 4u8, AddressingMode::ZeroPage_X)),
        0xAD => Some((Instruction::Lda, 3u8, 4u8, AddressingMode::Absolute)),
        0xBD => Some((Instruction::Lda, 3u8, 4u8, AddressingMode::Absolute_X)),
        0xB9 => Some((Instruction::Lda, 3u8, 4u8, AddressingMode::Absolute_Y)),
        0xA1 => Some((Instruction::Lda, 2u8, 6u8, AddressingMode::Indirect_X)),
        0xB1 => Some((Instruction::Lda, 2u8, 5u8, AddressingMode::Indirect_Y)),
        0xA0 => Some((Instruction::Ldy, 2u8, 2u8, AddressingMode::Immediate)),
        0xA4 => Some((Instruction::Ldy, 2u8, 3u8, AddressingMode::ZeroPage)),
        0xB4 => Some((Instruction::Ldy, 2u8, 4u8, AddressingMode::ZeroPage_X)),
        0xAC => Some((Instruction::Ldy, 3u8, 4u8, AddressingMode::Absolute)),
        0xBC => Some((Instruction::Ldy, 3u8, 4u8, AddressingMode::Absolute_X)),
        0xA2 => Some((Instruction::Ldx, 2u8, 2u8, AddressingMode::Immediate)),
        0xA6 => Some((Instruction::Ldx, 2u8, 3u8, AddressingMode::ZeroPage)),
        0xB6 => Some((Instruction::Ldx, 2u8, 4u8, AddressingMode::ZeroPage_Y)),
        0xAE => Some((Instruction::Ldx, 3u8, 4u8, AddressingMode::Absolute)),
        0xBE => Some((Instruction::Ldx, 3u8, 4u8, AddressingMode::Absolute_Y)),
        0x29 => Some((Instruction::And, 2u8, 2u8, AddressingMode::Immediate)),
        0x25 => Some((Instruction::And, 2u8, 3u8, AddressingMode::ZeroPage)),
        0x35 => Some((Instruction::And, 2u8, 4u8, AddressingMode::ZeroPage_X)),
        0x2D => Some((Instruction::And, 3u8, 4u8, AddressingMode::Absolute)),
        0x3D => Some((Instruction::And, 3u8, 4u8, AddressingMode::Absolute_X)),
        0x39 => Some((Instruction::And, 3u8, 4u8, AddressingMode::Absolute_Y)),
        0x21 => Some((Instruction::And, 2u8, 6u8, AddressingMode::Indirect_X)),
        0x31 => Some((Instruction::And, 2u8, 5u8, AddressingMode::Indirect_Y)),
        0x09 => Some((Instruction::Ora, 2u8, 2u8, AddressingMode::Immediate)),
        0x05 => Some((Instruction::Ora, 2u8, 3u8, AddressingMode::ZeroPage)),
        0x15 => Some((Instruction::Ora, 2u8, 4u8, AddressingMode::ZeroPage_X)),
        0x0D => Some((Instruction::Ora, 3u8, 4u8, AddressingMode::Absolute)),
        0x1D => Some((Instruction::Ora, 3u8, 4u8, AddressingMode::Absolute_X)),
        0x19 => Some((Instruction::Ora, 3u8, 4u8, AddressingMode::Absolute_Y)),
        0x01 => Some((Instruction::Ora, 2u8, 6u8, AddressingMode::Indirect_X)),
        0x11 => Some((Instruction::Ora, 2u8, 5u8, AddressingMode::Indirect_Y)),
        0x49 => Some((Instruction::Eor, 2u8, 2u8, AddressingMode::Immediate)),
        0x45 => Some((Instruction::Eor, 2u8, 3u8, AddressingMode::ZeroPage)),
        0x55 => Some((Instruction::Eor, 2u8, 4u8, AddressingMode::ZeroPage_Y)),
        0x4D => Some((Instruction::Eor, 3u8, 4u8, AddressingMode::Absolute)),
        0x5D => Some((Instruction::Eor, 3u8, 4u8, AddressingMode::Absolute_X)),
        0x59 => Some((Instruction::Eor, 3u8, 4u8, AddressingMode::Absolute_Y)),
        0x41 => Some((Instruction::Eor, 2u8, 6u8, AddressingMode::Indirect_X)),
        0x51 => Some((Instruction::Eor, 2u8, 5u8, AddressingMode::Indirect_Y)),
        0x85 => Some((Instruction::Sta, 2u8, 3u8, AddressingMode::ZeroPage)),
        0x95 => Some((Instruction::Sta, 2u8, 4u8, AddressingMode::ZeroPage_X)),
        0x8D => Some((Instruction::Sta, 3u8, 4u8, AddressingMode::Absolute)),
        0x9D => Some((Instruction::Sta, 3u8, 5u8, AddressingMode::Absolute_X)),
        0x99 => Some((Instruction::Sta, 3u8, 5u8, AddressingMode::Absolute_Y)),
        0x81 => Some((Instruction::Sta, 2u8, 6u8, AddressingMode::Indirect_X)),
        0x91 => Some((Instruction::Sta, 2u8, 6u8, AddressingMode::Indirect_Y)),
        0x69 => Some((Instruction::Adc, 2u8, 2u8, AddressingMode::Immediate)),
        0x65 => Some((Instruction::Adc, 2u8, 3u8, AddressingMode::ZeroPage)),
        0x75 => Some((Instruction::Adc, 2u8, 4u8, AddressingMode::ZeroPage_X)),
        0x6D => Some((Instruction::Adc, 3u8, 4u8, AddressingMode::Absolute)),
        0x7D => Some((Instruction::Adc, 3u8, 4u8, AddressingMode::Absolute_X)),
        0x79 => Some((Instruction::Adc, 3u8, 4u8, AddressingMode::Absolute_Y)),
        0x61 => Some((Instruction::Adc, 2u8, 6u8, AddressingMode::Indirect_X)),
        0x71 => Some((Instruction::Adc, 2u8, 5u8, AddressingMode::Indirect_Y)),
        0x0A => Some((Instruction::Asl, 1u8, 2u8, AddressingMode::NoneAddressing)),
        0x06 => Some((Instruction::Asl, 2u8, 5u8, AddressingMode::ZeroPage)),
        0x16 => Some((Instruction::Asl, 2u8, 6u8, AddressingMode::ZeroPage_X)),
        0x0E => Some((Instruction::Asl, 3u8, 6u8, AddressingMode::Absolute)),
        0x1E => Some((Instruction::Asl, 3u8, 7u8, AddressingMode::Absolute_X)),
        0xE9 => Some((Instruction::Sbc, 2u8, 2u8, AddressingMode::Immediate)),
        0xE5 => Some((Instruction::Sbc, 2u8, 3u8, AddressingMode::ZeroPage)),
        0xF5 => Some((Instruction::Sbc, 2u8, 4u8, AddressingMode::ZeroPage_X)),
        0xED => Some((Instruction::Sbc, 3u8, 4u8, AddressingMode::Absolute)),
        0xFD => Some((Instruction::Sbc, 3u8, 4u8, AddressingMode::Absolute_X)),
        0xF9 => Some((Instruction::Sbc, 3u8, 4u8, AddressingMode::Absolute_Y)),
        0xE1 => Some((Instruction::Sbc, 2u8, 6u8, AddressingMode::Indirect_X)),
        0xF1 => Some((Instruction::Sbc, 2u8, 5u8, AddressingMode::Indirect_Y)),
        _ => None,
    }
}

/// An instruction of the catalogue: its record and what it does.
#[derive(Clone, Copy, Debug)]
pub struct InstructionBuiltin {
    pub op: OpCode,
    pub instruction: Instruction,
}

impl InstructionBuiltin {
    pub fn new(op: OpCode, instruction: Instruction) -> (builtin: InstructionBuiltin)
        ensures
            builtin.op == op,
            builtin.instruction == instruction,
    {
        InstructionBuiltin { op, instruction }
    }

    /// Whether `self` is the catalogue entry `(instruction, len, cycles, mode)`
    /// for `code`.
    pub open spec fn is_entry(
        self,
        code: u8,
        entry: (Instruction, u8, u8, AddressingMode),
    ) -> bool {
        &&& self.instruction == entry.0
        &&& self.op.code == code
        &&& self.op.mnemonic@ == entry.0.name()
        &&& self.op.len == entry.1
        &&& self.op.operand_len == entry.1 - 1
        &&& self.op.cycles == entry.2
        &&& self.op.mode == entry.3
    }

    fn entry(code: u8, instruction: Instruction, len: u8, cycles: u8, mode: AddressingMode) -> (builtin:
        InstructionBuiltin)
        requires
            len >= 1,
        ensures
            builtin.is_entry(code, (instruction, len, cycles, mode)),
    {
        InstructionBuiltin::new(
            OpCode::new(code, instruction.mnemonic(), len, cycles, mode),
            instruction,
        )
    }

    /// Carries the instruction out on `cpu`, whose program counter is at the
    /// first operand byte. The program counter is left where it was.
    pub fn execute(&self, cpu: &mut CPU) -> (done: Result<(), CpuError>)
        ensures
            (final(cpu)@, done) == old(cpu)@.execute(self.instruction, self.op.mode),
    {
        match self.instruction {
            Instruction::Brk => Ok(()),
            Instruction::Tax => {
                transfer::tax(cpu, &self.op.mode);
                Ok(())
            },
            Instruction::Inx => {
                transfer::inx(cpu, &self.op.mode);
                Ok(())
            },
            Instruction::Iny => {
                transfer::iny(cpu, &self.op.mode);
                Ok(())
            },
            Instruction::Lda => load::lda(cpu, &self.op.mode),
            Instruction::Ldy => load::ldy(cpu, &self.op.mode),
            Instruction::Ldx => load::ldx(cpu, &self.op.mode),
            Instruction::And => logic::and(cpu, &self.op.mode),
            Instruction::Ora => logic::ora(cpu, &self.op.mode),
            Instruction::Eor => logic::eor(cpu, &self.op.mode),
            Instruction::Sta => store::sta(cpu, &self.op.mode),
            Instruction::Adc => arithmetic::adc(cpu, &self.op.mode),
            Instruction::Asl => shift::asl(cpu, &self.op.mode),
            Instruction::Sbc => arithmetic::sbc(cpu, &self.op.mode),
        }
    }

    /// The catalogue entry for `code`, or `None` where the byte stands for no
    /// instruction.
    pub fn lookup(code: u8) -> (found: Option<InstructionBuiltin>)
        ensures
            match catalogue(code) {
                Some(entry) => found.is_some() && found.unwrap().is_entry(code, entry),
                None => found.is_none(),
            },
    {
        match code {
            0x00 => Some(InstructionBuiltin::entry(code, Instruction::Brk, 1, 7, AddressingMode::NoneAddressing)),
            0xAA => Some(InstructionBuiltin::entry(code, Instruction::Tax, 1, 2, AddressingMode::NoneAddressing)),
            0xE8 => Some(InstructionBuiltin::entry(code, Instruction::Inx, 1, 2, AddressingMode::NoneAddressing)),
            0xC8 => Some(InstructionBuiltin::entry(code, Instruction::Iny, 1, 2, AddressingMode::NoneAddressing)),
            0xA9 => Some(InstructionBuiltin::entry(code, Instruction::Lda, 2, 2, AddressingMode::Immediate)),
            0xA5 => Some(InstructionBuiltin::entry(code, Instruction::Lda, 2, 3, AddressingMode::ZeroPage)),
            0xB5 => Some(InstructionBuiltin::entry(code, Instruction::Lda, 2, 4, AddressingMode::ZeroPage_X)),
            0xAD => Some(InstructionBuiltin::entry(code, Instruction::Lda, 3, 4, AddressingMode::Absolute)),
            0xBD => Some(InstructionBuiltin::entry(code, Instruction::Lda, 3, 4, AddressingMode::Absolute_X)),
            0xB9 => Some(InstructionBuiltin::entry(code, Instruction::Lda, 3, 4, AddressingMode::Absolute_Y)),
            0xA1 => Some(InstructionBuiltin::entry(code, Instruction::Lda, 2, 6, AddressingMode::Indirect_X)),
            0xB1 => Some(InstructionBuiltin::entry(code, Instruction::Lda, 2, 5, AddressingMode::Indirect_Y)),
            0xA0 => Some(InstructionBuiltin::entry(code, Instruction::Ldy, 2, 2, AddressingMode::Immediate)),
            0xA4 => Some(InstructionBuiltin::entry(code, Instruction::Ldy, 2, 3, AddressingMode::ZeroPage)),
            0xB4 => Some(InstructionBuiltin::entry(code, Instruction::Ldy, 2, 4, AddressingMode::ZeroPage_X)),
            0xAC => Some(InstructionBuiltin::entry(code, Instruction::Ldy, 3, 4, AddressingMode::Absolute)),
            0xBC => Some(InstructionBuiltin::entry(code, Instruction::Ldy, 3, 4, AddressingMode::Absolute_X)),
            0xA2 => Some(InstructionBuiltin::entry(code, Instruction::Ldx, 2, 2, AddressingMode::Immediate)),
            0xA6 => Some(InstructionBuiltin::entry(code, Instruction::Ldx, 2, 3, AddressingMode::ZeroPage)),
            0xB6 => Some(InstructionBuiltin::entry(code, Instruction::Ldx, 2, 4, AddressingMode::ZeroPage_Y)),
            0xAE => Some(InstructionBuiltin::entry(code, Instruction::Ldx, 3, 4, AddressingMode::Absolute)),
            0xBE => Some(InstructionBuiltin::entry(code, Instruction::Ldx, 3, 4, AddressingMode::Absolute_Y)),
            0x29 => Some(InstructionBuiltin::entry(code, Instruction::And, 2, 2, AddressingMode::Immediate)),
            0x25 => Some(InstructionBuiltin::entry(code, Instruction::And, 2, 3, AddressingMode::ZeroPage)),
            0x35 => Some(InstructionBuiltin::entry(code, Instruction::And, 2, 4, AddressingMode::ZeroPage_X)),
            0x2D => Some(InstructionBuiltin::entry(code, Instruction::And, 3, 4, AddressingMode::Absolute)),
            0x3D => Some(InstructionBuiltin::entry(code, Instruction::And, 3, 4, AddressingMode::Absolute_X)),
            0x39 => Some(InstructionBuiltin::entry(code, Instruction::And, 3, 4, AddressingMode::Absolute_Y)),
            0x21 => Some(InstructionBuiltin::entry(code, Instruction::And, 2, 6, AddressingMode::Indirect_X)),
            0x31 => Some(InstructionBuiltin::entry(code, Instruction::And, 2, 5, AddressingMode::Indirect_Y)),
            0x09 => Some(InstructionBuiltin::entry(code, Instruction::Ora, 2, 2, AddressingMode::Immediate)),
            0x05 => Some(InstructionBuiltin::entry(code, Instruction::Ora, 2, 3, AddressingMode::ZeroPage)),
            0x15 => Some(InstructionBuiltin::entry(code, Instruction::Ora, 2, 4, AddressingMode::ZeroPage_X)),
            0x0D => Some(InstructionBuiltin::entry(code, Instruction::Ora, 3, 4, AddressingMode::Absolute)),
            0x1D => Some(InstructionBuiltin::entry(code, Instruction::Ora, 3, 4, AddressingMode::Absolute_X)),
            0x19 => Some(InstructionBuiltin::entry(code, Instruction::Ora, 3, 4, AddressingMode::Absolute_Y)),
            0x01 => Some(InstructionBuiltin::entry(code, Instruction::Ora, 2, 6, AddressingMode::Indirect_X)),
            0x11 => Some(InstructionBuiltin::entry(code, Instruction::Ora, 2, 5, AddressingMode::Indirect_Y)),
            0x49 => Some(InstructionBuiltin::entry(code, Instruction::Eor, 2, 2, AddressingMode::Immediate)),
            0x45 => Some(InstructionBuiltin::entry(code, Instruction::Eor, 2, 3, AddressingMode::ZeroPage)),
            0x55 => Some(InstructionBuiltin::entry(code, Instruction::Eor, 2, 4, AddressingMode::ZeroPage_Y)),
            0x4D => Some(InstructionBuiltin::entry(code, Instruction::Eor, 3, 4, AddressingMode::Absolute)),
            0x5D => Some(InstructionBuiltin::entry(code, Instruction::Eor, 3, 4, AddressingMode::Absolute_X)),
            0x59 => Some(InstructionBuiltin::entry(code, Instruction::Eor, 3, 4, AddressingMode::Absolute_Y)),
            0x41 => Some(InstructionBuiltin::entry(code, Instruction::Eor, 2, 6, AddressingMode::Indirect_X)),
            0x51 => Some(InstructionBuiltin::entry(code, Instruction::Eor, 2, 5, AddressingMode::Indirect_Y)),
            0x85 => Some(InstructionBuiltin::entry(code, Instruction::Sta, 2, 3, AddressingMode::ZeroPage)),
            0x95 => Some(InstructionBuiltin::entry(code, Instruction::Sta, 2, 4, AddressingMode::ZeroPage_X)),
            0x8D => Some(InstructionBuiltin::entry(code, Instruction::Sta, 3, 4, AddressingMode::Absolute)),
            0x9D => Some(InstructionBuiltin::entry(code, Instruction::Sta, 3, 5, AddressingMode::Absolute_X)),
            0x99 => Some(InstructionBuiltin::entry(code, Instruction::Sta, 3, 5, AddressingMode::Absolute_Y)),
            0x81 => Some(InstructionBuiltin::entry(code, Instruction::Sta, 2, 6, AddressingMode::Indirect_X)),
            0x91 => Some(InstructionBuiltin::entry(code, Instruction::Sta, 2, 6, AddressingMode::Indirect_Y)),
            0x69 => Some(InstructionBuiltin::entry(code, Instruction::Adc, 2, 2, AddressingMode::Immediate)),
            0x65 => Some(InstructionBuiltin::entry(code, Instruction::Adc, 2, 3, AddressingMode::ZeroPage)),
            0x75 => Some(InstructionBuiltin::entry(code, Instruction::Adc, 2, 4, AddressingMode::ZeroPage_X)),
            0x6D => Some(InstructionBuiltin::entry(code, Instruction::Adc, 3, 4, AddressingMode::Absolute)),
            0x7D => Some(InstructionBuiltin::entry(code, Instruction::Adc, 3, 4, AddressingMode::Absolute_X)),
            0x79 => Some(InstructionBuiltin::entry(code, Instruction::Adc, 3, 4, AddressingMode::Absolute_Y)),
            0x61 => Some(InstructionBuiltin::entry(code, Instruction::Adc, 2, 6, AddressingMode::Indirect_X)),
            0x71 => Some(InstructionBuiltin::entry(code, Instruction::Adc, 2, 5, AddressingMode::Indirect_Y)),
            0x0A => Some(InstructionBuiltin::entry(code, Instruction::Asl, 1, 2, AddressingMode::NoneAddressing)),
            0x06 => Some(InstructionBuiltin::entry(code, Instruction::Asl, 2, 5, AddressingMode::ZeroPage)),
            0x16 => Some(InstructionBuiltin::entry(code, Instruction::Asl, 2, 6, AddressingMode::ZeroPage_X)),
            0x0E => Some(InstructionBuiltin::entry(code, Instruction::Asl, 3, 6, AddressingMode::Absolute)),
            0x1E => Some(InstructionBuiltin::entry(code, Instruction::Asl, 3, 7, AddressingMode::Absolute_X)),
            0xE9 => Some(InstructionBuiltin::entry(code, Instruction::Sbc, 2, 2, AddressingMode::Immediate)),
            0xE5 => Some(InstructionBuiltin::entry(code, Instruction::Sbc, 2, 3, AddressingMode::ZeroPage)),
            0xF5 => Some(InstructionBuiltin::entry(code, Instruction::Sbc, 2, 4, AddressingMode::ZeroPage_X)),
            0xED => Some(InstructionBuiltin::entry(code, Instruction::Sbc, 3, 4, AddressingMode::Absolute)),
            0xFD => Some(InstructionBuiltin::entry(code, Instruction::Sbc, 3, 4, AddressingMode::Absolute_X)),
            0xF9 => Some(InstructionBuiltin::entry(code, Instruction::Sbc, 3, 4, AddressingMode::Absolute_Y)),
            0xE1 => Some(InstructionBuiltin::entry(code, Instruction::Sbc, 2, 6, AddressingMode::Indirect_X)),
            0xF1 => Some(InstructionBuiltin::entry(code, Instruction::Sbc, 2, 5, AddressingMode::Indirect_Y)),
            _ => None,
        }
    }
}

} // verus!
