use crate::addressing::AddressingMode;
use crate::flags::FlagSet;
use crate::memory::loaded;
use vstd::prelude::*;

verus! {

/// `i` reduced to a byte, as 8-bit arithmetic wraps.
pub open spec fn wrap8(i: int) -> u8 {
    (i % 0x100) as u8
}

/// `i` reduced to an address, as 16-bit arithmetic wraps.
pub open spec fn wrap16(i: int) -> u16 {
    (i % 0x1_0000) as u16
}

/// The 16-bit value with low byte `lo` and high byte `hi`.
pub open spec fn word(lo: u8, hi: u8) -> u16 {
    (hi * 0x100 + lo) as u16
}

/// The low byte of `w`.
pub open spec fn low_byte(w: u16) -> u8 {
    (w % 0x100) as u8
}

/// The high byte of `w`.
pub open spec fn high_byte(w: u16) -> u8 {
    (w / 0x100) as u8
}

/// First address of the page that holds the stack.
pub open spec fn stack_base() -> int {
    0x0100
}

/// The processor and its memory as plain values.
pub struct CpuState {
    pub register_a: u8,
    pub register_x: u8,
    pub register_y: u8,
    pub status: FlagSet,
    pub memory: Seq<u8>,
    pub stack_pointer: u8,
    pub program_counter: u16,
}

impl CpuState {
    /// The memory covers the whole 16-bit address space.
    pub open spec fn wf(self) -> bool {
        self.memory.len() == 0x1_0000
    }

    /// The byte at `addr`.
    pub open spec fn read(self, addr: u16) -> u8 {
        self.memory[addr as int]
    }

    /// The state after storing `value` at `addr`.
    pub open spec fn write(self, addr: u16, value: u8) -> CpuState {
        CpuState { memory: self.memory.update(addr as int, value), ..self }
    }

    /// The little-endian word at `addr`; the high byte is taken from the next
    /// address, which after `0xFFFF` is `0x0000`.
    pub open spec fn read_u16(self, addr: u16) -> u16 {
        word(self.read(addr), self.read(wrap16(addr + 1)))
    }

    /// The state after storing `value` at `addr`, low byte first.
    pub open spec fn write_u16(self, addr: u16, value: u16) -> CpuState {
        self.write(addr, low_byte(value)).write(wrap16(addr + 1), high_byte(value))
    }

    /// The state after copying `program` into memory from `base` on.
    pub open spec fn load(self, base: u16, program: Seq<u8>) -> CpuState
        recommends
            base + program.len() <= 0x1_0000,
    {
        CpuState { memory: loaded(self.memory, base, program), ..self }
    }

    /// The effective address of the operand of an instruction whose first
    /// operand byte is at the program counter, or `None` for the mode that
    /// has no address.
    pub open spec fn operand_address(self, mode: AddressingMode) -> Option<u16> {
        let pc = self.program_counter;
        match mode {
            AddressingMode::Immediate => Some(pc),
            AddressingMode::ZeroPage => Some(self.read(pc) as u16),
            AddressingMode::ZeroPage_X => Some(wrap8(self.read(pc) + self.register_x) as u16),
            AddressingMode::ZeroPage_Y => Some(wrap8(self.read(pc) + self.register_y) as u16),
            AddressingMode::Absolute => Some(self.read_u16(pc)),
            AddressingMode::Absolute_X => Some(wrap16(self.read_u16(pc) + self.register_x)),
            AddressingMode::Absolute_Y => Some(wrap16(self.read_u16(pc) + self.register_y)),
            AddressingMode::Indirect_X => {
                let pointer = wrap8(self.read(pc) + self.register_x);
                Some(word(self.read(pointer as u16), self.read(wrap8(pointer + 1) as u16)))
            },
            AddressingMode::Indirect_Y => {
                let base = self.read(pc);
                let target = word(self.read(base as u16), self.read(wrap8(base + 1) as u16));
                Some(wrap16(target + self.register_y))
            },
            AddressingMode::NoneAddressing => None,
        }
    }

    /// The state after loading `value` into A; Zero and Negative follow it.
    pub open spec fn set_a(self, value: u8) -> CpuState {
        CpuState { register_a: value, status: self.status.with_zero_negative(value), ..self }
    }

    /// The state after loading `value` into X; Zero and Negative follow it.
    pub open spec fn set_x(self, value: u8) -> CpuState {
        CpuState { register_x: value, status: self.status.with_zero_negative(value), ..self }
    }

    /// The state after loading `value` into Y; Zero and Negative follow it.
    pub open spec fn set_y(self, value: u8) -> CpuState {
        CpuState { register_y: value, status: self.status.with_zero_negative(value), ..self }
    }

    /// The address the stack pointer refers to.
    pub open spec fn stack_address(self) -> u16 {
        (stack_base() + self.stack_pointer) as u16
    }

    /// The state after pushing `value`: it is stored where the stack pointer
    /// refers to, and the pointer moves down by one, wrapping within its page.
    pub open spec fn push(self, value: u8) -> CpuState {
        CpuState {
            stack_pointer: wrap8(self.stack_pointer - 1),
            ..self.write(self.stack_address(), value)
        }
    }

    /// The state after a pop: the stack pointer moves up by one, wrapping
    /// within its page.
    pub open spec fn pop(self) -> CpuState {
        CpuState { stack_pointer: wrap8(self.stack_pointer + 1), ..self }
    }

    /// The byte a pop returns: the one the moved stack pointer refers to.
    pub open spec fn popped(self) -> u8 {
        self.read(self.pop().stack_address())
    }

    /// The state after pushing `value`, high byte first.
    pub open spec fn push_u16(self, value: u16) -> CpuState {
        self.push(high_byte(value)).push(low_byte(value))
    }

    /// The word two pops return, low byte first.
    pub open spec fn popped_u16(self) -> u16 {
        word(self.popped(), self.pop().popped())
    }

    /// The state after pushing the bytes of `bytes` in order, the first one
    /// first.
    pub open spec fn push_all(self, bytes: Seq<u8>) -> CpuState
        decreases bytes.len(),
    {
        if bytes.len() == 0 {
            self
        } else {
            self.push(bytes[0]).push_all(bytes.drop_first())
        }
    }

    /// The state after `n` pops.
    pub open spec fn pop_n(self, n: nat) -> CpuState
        decreases n,
    {
        if n == 0 {
            self
        } else {
            self.pop().pop_n((n - 1) as nat)
        }
    }

    /// The bytes that `n` pops return, in the order in which they come.
    pub open spec fn popped_n(self, n: nat) -> Seq<u8>
        decreases n,
    {
        if n == 0 {
            Seq::empty()
        } else {
            seq![self.popped()] + self.pop().popped_n((n - 1) as nat)
        }
    }

    /// What Carry adds to a sum: one if it is set.
    pub open spec fn carry_in(self) -> int {
        if self.status.carry {
            1
        } else {
            0
        }
    }

    /// The 9-bit sum that an addition of `data` to A forms: A plus `data`
    /// plus Carry.
    pub open spec fn carry_sum(self, data: u8) -> int {
        self.register_a + data + self.carry_in()
    }

    /// The state after adding `data` and Carry to A. Carry is set when the
    /// sum does not fit in a byte, Overflow when both addends differ in sign
    /// from the byte that results.
    pub open spec fn add_to_a(self, data: u8) -> CpuState {
        let sum = self.carry_sum(data);
        let result = wrap8(sum);
        let overflow = ((data ^ result) & (result ^ self.register_a) & 0x80) != 0;
        CpuState { status: FlagSet { carry: sum > 0xff, overflow, ..self.status }, ..self }.set_a(
            result,
        )
    }

    /// The state after a reset: registers cleared, the stack pointer and the
    /// status at their initial values, and the program counter taken from
    /// the reset vector.
    pub open spec fn reset(self) -> CpuState {
        CpuState {
            register_a: 0,
            register_x: 0,
            register_y: 0,
            status: FlagSet::initial(),
            stack_pointer: 0xfd,
            program_counter: self.read_u16(0xFFFC),
            ..self
        }
    }
}

} // verus!
