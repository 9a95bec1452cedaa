//! What each instruction does to the machine, and how the machine runs.

use crate::addressing::AddressingMode;
use crate::error::CpuError;
use crate::flags::FlagSet;
use crate::instruction::{catalogue, Instruction};
use crate::state::{wrap16, wrap8, CpuState};
use vstd::prelude::*;

verus! {

/// Whether the processor goes on fetching.
#[derive(Clone, Copy, Debug, PartialEq, Eq)]
pub enum RunState {
    /// The next instruction can be fetched.
    Running,
    /// BRK was decoded: the processor has stopped for good.
    Halted,
}

/// What refusing an instruction for its addressing mode leaves behind: the
/// state as it was, and the error that names the mode.
pub open spec fn refused(state: CpuState, mode: AddressingMode) -> (CpuState, Result<(), CpuError>) {
    (state, Err(CpuError::InvalidAddressingMode { mode }))
}

impl CpuState {
    /// LDA: A takes the operand.
    pub open spec fn lda(self, mode: AddressingMode) -> (CpuState, Result<(), CpuError>) {
        match self.operand_address(mode) {
            Some(address) => (self.set_a(self.read(address)), Ok(())),
            None => refused(self, mode),
        }
    }

    /// LDX: X takes the operand.
    pub open spec fn ldx(self, mode: AddressingMode) -> (CpuState, Result<(), CpuError>) {
        match self.operand_address(mode) {
            Some(address) => (self.set_x(self.read(address)), Ok(())),
            None => refused(self, mode),
        }
    }

    /// LDY: Y takes the operand.
    pub open spec fn ldy(self, mode: AddressingMode) -> (CpuState, Result<(), CpuError>) {
        match self.operand_address(mode) {
            Some(address) => (self.set_y(self.read(address)), Ok(())),
            None => refused(self, mode),
        }
    }

    /// STA: A is stored at the operand's address. No flag changes.
    pub open spec fn sta(self, mode: AddressingMode) -> (CpuState, Result<(), CpuError>) {
        match self.operand_address(mode) {
            Some(address) => (self.write(address, self.register_a), Ok(())),
            None => refused(self, mode),
        }
    }

    /// TAX: X takes the value of A.
    pub open spec fn tax(self) -> CpuState {
        self.set_x(self.register_a)
    }

    /// INX: X goes up by one; after `0xFF` comes `0x00`.
    pub open spec fn inx(self) -> CpuState {
        self.set_x(wrap8(self.register_x + 1))
    }

    /// INY: Y goes up by one; after `0xFF` comes `0x00`.
    pub open spec fn iny(self) -> CpuState {
        self.set_y(wrap8(self.register_y + 1))
    }

    /// AND: the bits set in both the operand and A. The result goes to X.
    pub open spec fn and(self, mode: AddressingMode) -> (CpuState, Result<(), CpuError>) {
        match self.operand_address(mode) {
            Some(address) => (self.set_x(self.read(address) & self.register_a), Ok(())),
            None => refused(self, mode),
        }
    }

    /// ORA: the bits set in the operand or in A. The result goes to X.
    pub open spec fn ora(self, mode: AddressingMode) -> (CpuState, Result<(), CpuError>) {
        match self.operand_address(mode) {
            Some(address) => (self.set_x(self.read(address) | self.register_a), Ok(())),
            None => refused(self, mode),
        }
    }

    /// EOR: the bits set in exactly one of the operand and A. The result goes
    /// to X.
    pub open spec fn eor(self, mode: AddressingMode) -> (CpuState, Result<(), CpuError>) {
        match self.operand_address(mode) {
            Some(address) => (self.set_x(self.read(address) ^ self.register_a), Ok(())),
            None => refused(self, mode),
        }
    }

    /// ASL: the operand is doubled in place. Its bit 7 goes to Carry; Zero
    /// and Negative follow the byte written back.
    pub open spec fn asl(self, mode: AddressingMode) -> (CpuState, Result<(), CpuError>) {
        match self.operand_address(mode) {
            Some(address) => {
                let data = self.read(address);
                let shifted = wrap8(2 * data);
                let written = self.write(address, shifted);
                (
                    CpuState {
                        status: FlagSet { carry: data >= 0x80, ..self.status }.with_zero_negative(
                            shifted,
                        ),
                        ..written
                    },
                    Ok(()),
                )
            },
            None => refused(self, mode),
        }
    }

    /// ADC: the operand and Carry are added to A.
    pub open spec fn adc(self, mode: AddressingMode) -> (CpuState, Result<(), CpuError>) {
        match self.operand_address(mode) {
            Some(address) => (self.add_to_a(self.read(address)), Ok(())),
            None => refused(self, mode),
        }
    }

    /// SBC: the operand and the borrow (Carry clear) are taken from A, by
    /// adding the operand's complement and Carry.
    pub open spec fn sbc(self, mode: AddressingMode) -> (CpuState, Result<(), CpuError>) {
        match self.operand_address(mode) {
            Some(address) => (self.add_to_a((0xff - self.read(address)) as u8), Ok(())),
            None => refused(self, mode),
        }
    }

    /// The effect of `instruction` under `mode`, with the program counter at
    /// the first operand byte. BRK itself changes nothing.
    pub open spec fn execute(self, instruction: Instruction, mode: AddressingMode) -> (
        CpuState,
        Result<(), CpuError>,
    ) {
        match instruction {
            Instruction::Brk => (self, Ok(())),
            Instruction::Tax => (self.tax(), Ok(())),
            Instruction::Inx => (self.inx(), Ok(())),
            Instruction::Iny => (self.iny(), Ok(())),
            Instruction::Lda => self.lda(mode),
            Instruction::Ldy => self.ldy(mode),
            Instruction::Ldx => self.ldx(mode),
            Instruction::And => self.and(mode),
            Instruction::Ora => self.ora(mode),
            Instruction::Eor => self.eor(mode),
            Instruction::Sta => self.sta(mode),
            Instruction::Adc => self.adc(mode),
            Instruction::Asl => self.asl(mode),
            Instruction::Sbc => self.sbc(mode),
        }
    }

    /// The opcode byte that the next step fetches.
    pub open spec fn opcode(self) -> u8 {
        self.read(self.program_counter)
    }

    /// The state with the program counter moved on by `n`.
    pub open spec fn advance(self, n: int) -> CpuState {
        CpuState { program_counter: wrap16(self.program_counter + n), ..self }
    }

    /// One fetch-decode-execute step. The opcode is fetched and the program
    /// counter moves past it. A byte outside the catalogue is refused there.
    /// BRK halts. Any other instruction is carried out and the program
    /// counter moves past its operand; if the instruction is refused, the
    /// state stays as it was after the fetch.
    pub open spec fn step(self) -> (CpuState, Result<RunState, CpuError>) {
        let code = self.opcode();
        let fetched = self.advance(1);
        match catalogue(code) {
            None => (fetched, Err(CpuError::UnrecognizedOpcode { code })),
            Some((instruction, len, cycles, mode)) => if instruction == Instruction::Brk {
                (fetched, Ok(RunState::Halted))
            } else {
                match fetched.execute(instruction, mode) {
                    (done, Ok(())) => (done.advance(len - 1), Ok(RunState::Running)),
                    (_, Err(e)) => (fetched, Err(e)),
                }
            },
        }
    }

    /// At most `budget` steps, stopping at the first that halts or fails.
    /// With the budget used up the processor is still running.
    pub open spec fn run(self, budget: nat) -> (CpuState, Result<RunState, CpuError>)
        decreases budget,
    {
        if budget == 0 {
            (self, Ok(RunState::Running))
        } else {
            match self.step() {
                (next, Ok(RunState::Running)) => next.run((budget - 1) as nat),
                stopped => stopped,
            }
        }
    }
}

} // verus!
