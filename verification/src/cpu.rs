use crate::addressing::AddressingMode;
use crate::error::CpuError;
use crate::flags::{lemma_masks, lemma_sign_bit, CPUFlags, FlagSet};
use crate::instruction::{Instruction, InstructionBuiltin};
use crate::memory::Memory;
use crate::semantics::RunState;
use crate::state::{word, wrap16, wrap8, CpuState};
use vstd::prelude::*;

verus! {

/// Where `memory_load_program` places a program.
pub const PROGRAM_START_ADDRESS: u16 = 0x0600;

/// First address of the stack page.
pub const STACK: u16 = 0x0100;

/// The stack pointer after a reset.
pub const STACK_RESET: u8 = 0xfd;

/// Address of the reset vector.
pub const RESET_VECTOR: u16 = 0xFFFC;

/// The processor: its registers, its status, and the memory it owns.
pub struct CPU {
    /// Accumulator.
    pub register_a: u8,
    /// Index register X.
    pub register_x: u8,
    /// Index register Y.
    pub register_y: u8,
    /// Status register.
    pub status: CPUFlags,
    pub memory: Memory,
    /// Offset of the next free stack slot within the stack page.
    pub stack_pointer: u8,
    /// Address of the next byte to fetch.
    pub program_counter: u16,
}

impl View for CPU {
    type V = CpuState;

    open spec fn view(&self) -> CpuState {
        CpuState {
            register_a: self.register_a,
            register_x: self.register_x,
            register_y: self.register_y,
            status: self.status@,
            memory: self.memory@,
            stack_pointer: self.stack_pointer,
            program_counter: self.program_counter,
        }
    }
}

proof fn lemma_word_bits(lo: u8, hi: u8)
    by (bit_vector)
    ensures
        (hi as u16) << 8 | (lo as u16) == (hi as u16) * 0x100 + (lo as u16),
{
}

proof fn lemma_split_bits(w: u16)
    by (bit_vector)
    ensures
        (w >> 8) == w / 0x100,
        (w >> 8) < 0x100,
        (w & 0xff) == w % 0x100,
{
}

/// `a + b` in 8-bit wrapping arithmetic.
fn add8(a: u8, b: u8) -> (sum: u8)
    ensures
        sum == wrap8(a + b),
{
    a.wrapping_add(b)
}

/// `a + b` in 16-bit wrapping arithmetic.
fn add16(a: u16, b: u16) -> (sum: u16)
    ensures
        sum == wrap16(a + b),
{
    a.wrapping_add(b)
}

/// The word made of `lo` and `hi`, low byte first.
fn make_word(lo: u8, hi: u8) -> (w: u16)
    ensures
        w == word(lo, hi),
{
    proof {
        lemma_word_bits(lo, hi);
    }
    (hi as u16) << 8 | (lo as u16)
}

impl CPU {
    /// A processor with cleared registers, the initial status, the stack
    /// pointer at its reset value and a memory of zeros.
    pub fn new() -> (cpu: CPU)
        ensures
            cpu@ == (CpuState {
                register_a: 0,
                register_x: 0,
                register_y: 0,
                status: FlagSet::initial(),
                memory: Seq::new(0x1_0000, |i: int| 0u8),
                stack_pointer: 0xfd,
                program_counter: 0,
            }),
    {
        proof {
            lemma_masks();
        }
        CPU {
            register_a: 0,
            register_x: 0,
            register_y: 0,
            status: CPUFlags::from_bits_truncate(CPUFlags::RESET),
            memory: Memory::default(),
            stack_pointer: STACK_RESET,
            program_counter: 0,
        }
    }

    /// The effective address of the operand under `addressing_mode`, with the
    /// program counter at the first operand byte. The mode without an
    /// address is refused.
    pub fn get_operand_address(&self, addressing_mode: &AddressingMode) -> (address: Result<
        u16,
        CpuError,
    >)
        ensures
            address == match self@.operand_address(*addressing_mode) {
                Some(a) => Ok::<u16, CpuError>(a),
                None => Err(CpuError::InvalidAddressingMode { mode: *addressing_mode }),
            },
    {
        match addressing_mode {
            AddressingMode::Immediate => Ok(self.program_counter),
            AddressingMode::ZeroPage => Ok(self.memory_read(self.program_counter) as u16),
            AddressingMode::ZeroPage_X => {
                let pos = self.memory_read(self.program_counter);
                Ok(add8(pos, self.register_x) as u16)
            },
            AddressingMode::ZeroPage_Y => {
                let pos = self.memory_read(self.program_counter);
                Ok(add8(pos, self.register_y) as u16)
            },
            AddressingMode::Absolute => Ok(self.memory_read_u16(self.program_counter)),
            AddressingMode::Absolute_X => {
                let base = self.memory_read_u16(self.program_counter);
                Ok(add16(base, self.register_x as u16))
            },
            AddressingMode::Absolute_Y => {
                let base = self.memory_read_u16(self.program_counter);
                Ok(add16(base, self.register_y as u16))
            },
            AddressingMode::Indirect_X => {
                let base = self.memory_read(self.program_counter);
                let ptr = add8(base, self.register_x);
                let lo = self.memory_read(ptr as u16);
                let hi = self.memory_read(add8(ptr, 1) as u16);
                Ok(make_word(lo, hi))
            },
            AddressingMode::Indirect_Y => {
                let base = self.memory_read(self.program_counter);
                let lo = self.memory_read(base as u16);
                let hi = self.memory_read(add8(base, 1) as u16);
                let deref_base = make_word(lo, hi);
                Ok(add16(deref_base, self.register_y as u16))
            },
            AddressingMode::NoneAddressing => Err(
                CpuError::InvalidAddressingMode { mode: AddressingMode::NoneAddressing },
            ),
        }
    }

    /// The byte at `addr`.
    pub fn memory_read(&self, addr: u16) -> (value: u8)
        ensures
            value == self@.read(addr),
    {
        self.memory.read(addr)
    }

    /// Stores `data` at `addr`.
    pub fn memory_write(&mut self, addr: u16, data: u8)
        ensures
            final(self)@ == old(self)@.write(addr, data),
    {
        self.memory.write(addr, data);
    }

    /// The little-endian word at `pos`.
    pub fn memory_read_u16(&self, pos: u16) -> (value: u16)
        ensures
            value == self@.read_u16(pos),
    {
        let lo = self.memory_read(pos);
        let hi = self.memory_read(add16(pos, 1));
        make_word(lo, hi)
    }

    /// Stores `data` at `pos`, low byte first.
    pub fn memory_write_u16(&mut self, pos: u16, data: u16)
        ensures
            final(self)@ == old(self)@.write_u16(pos, data),
    {
        proof {
            lemma_split_bits(data);
        }
        let hi = (data >> 8) as u8;
        let lo = (data & 0xff) as u8;
        self.memory_write(pos, lo);
        self.memory_write(add16(pos, 1), hi);
    }

    /// Adds `data` and Carry to A. Carry and Overflow report on the sum, Zero
    /// and Negative on the new A.
    pub fn add_to_register_a_address(&mut self, data: u8)
        ensures
            final(self)@ == old(self)@.add_to_a(data),
    {
        proof {
            lemma_masks();
        }
        let carry_in: u16 = if self.status.contains(CPUFlags::CARRY) {
            1
        } else {
            0
        };
        let sum: u16 = self.register_a as u16 + data as u16 + carry_in;
        if sum > 0xff {
            self.set_carry_flag();
        } else {
            self.clear_carry_flag();
        }
        proof {
            lemma_split_bits(sum);
        }
        let result = (sum & 0xff) as u8;
        if ((data ^ result) & (result ^ self.register_a) & 0x80) != 0 {
            self.set_overflow_flag();
        } else {
            self.clear_overflow_flag();
        }
        self.set_register_a(result);
    }

    /// Recomputes Zero and Negative from `result`: Zero is set exactly when
    /// it is zero, Negative exactly when its bit 7 is set.
    pub fn update_zero_and_negative_flags(&mut self, result: u8)
        ensures
            final(self)@ == (CpuState {
                status: old(self)@.status.with_zero_negative(result),
                ..old(self)@
            }),
    {
        if result == 0 {
            self.set_zero_flag();
        } else {
            self.clear_zero_flag();
        }
        proof {
            lemma_sign_bit(result);
        }
        if result & 0x80 == 0 {
            self.clear_negative_flag();
        } else {
            self.set_negative_flag();
        }
    }

    /// Sets Carry; nothing else changes.
    pub fn set_carry_flag(&mut self)
        ensures
            final(self)@ == (CpuState {
                status: FlagSet { carry: true, ..old(self)@.status },
                ..old(self)@
            }),
    {
        proof {
            lemma_masks();
        }
        self.status.insert(CPUFlags::CARRY);
    }

    /// Clears Carry; nothing else changes.
    pub fn clear_carry_flag(&mut self)
        ensures
            final(self)@ == (CpuState {
                status: FlagSet { carry: false, ..old(self)@.status },
                ..old(self)@
            }),
    {
        proof {
            lemma_masks();
        }
        self.status.remove(CPUFlags::CARRY);
    }

    /// Sets Zero; nothing else changes.
    pub fn set_zero_flag(&mut self)
        ensures
            final(self)@ == (CpuState {
                status: FlagSet { zero: true, ..old(self)@.status },
                ..old(self)@
            }),
    {
        proof {
            lemma_masks();
        }
        self.status.insert(CPUFlags::ZERO);
    }

    /// Clears Zero; nothing else changes.
    pub fn clear_zero_flag(&mut self)
        ensures
            final(self)@ == (CpuState {
                status: FlagSet { zero: false, ..old(self)@.status },
                ..old(self)@
            }),
    {
        proof {
            lemma_masks();
        }
        self.status.remove(CPUFlags::ZERO);
    }

    /// Sets Overflow; nothing else changes.
    pub fn set_overflow_flag(&mut self)
        ensures
            final(self)@ == (CpuState {
                status: FlagSet { overflow: true, ..old(self)@.status },
                ..old(self)@
            }),
    {
        proof {
            lemma_masks();
        }
        self.status.insert(CPUFlags::OVERFLOW);
    }

    /// Clears Overflow; nothing else changes.
    pub fn clear_overflow_flag(&mut self)
        ensures
            final(self)@ == (CpuState {
                status: FlagSet { overflow: false, ..old(self)@.status },
                ..old(self)@
            }),
    {
        proof {
            lemma_masks();
        }
        self.status.remove(CPUFlags::OVERFLOW);
    }

    /// Sets Negative; nothing else changes.
    pub fn set_negative_flag(&mut self)
        ensures
            final(self)@ == (CpuState {
                status: FlagSet { negative: true, ..old(self)@.status },
                ..old(self)@
            }),
    {
        proof {
            lemma_masks();
        }
        self.status.insert(CPUFlags::NEGATIV);
    }

    /// Clears Negative; nothing else changes.
    pub fn clear_negative_flag(&mut self)
        ensures
            final(self)@ == (CpuState {
                status: FlagSet { negative: false, ..old(self)@.status },
                ..old(self)@
            }),
    {
        proof {
            lemma_masks();
        }
        self.status.remove(CPUFlags::NEGATIV);
    }

    /// Loads `value` into A and lets Zero and Negative follow it.
    pub fn set_register_a(&mut self, value: u8)
        ensures
            final(self)@ == old(self)@.set_a(value),
    {
        self.register_a = value;
        self.update_zero_and_negative_flags(self.register_a);
    }

    /// Loads `value` into Y and lets Zero and Negative follow it.
    pub fn set_register_y(&mut self, value: u8)
        ensures
            final(self)@ == old(self)@.set_y(value),
    {
        self.register_y = value;
        self.update_zero_and_negative_flags(self.register_y);
    }

    /// Loads `value` into X and lets Zero and Negative follow it.
    pub fn set_register_x(&mut self, value: u8)
        ensures
            final(self)@ == old(self)@.set_x(value),
    {
        self.register_x = value;
        self.update_zero_and_negative_flags(self.register_x);
    }

    /// Copies `program` into memory at `PROGRAM_START_ADDRESS` and points the
    /// reset vector there. A program that does not fit is refused, and
    /// nothing changes.
    pub fn memory_load_program(&mut self, program: Vec<u8>) -> (done: Result<(), CpuError>)
        ensures
            PROGRAM_START_ADDRESS + program.len() <= 0x1_0000 ==> done.is_ok() && final(self)@
                == old(self)@.load(PROGRAM_START_ADDRESS, program@).write_u16(
                RESET_VECTOR,
                PROGRAM_START_ADDRESS,
            ),
            PROGRAM_START_ADDRESS + program.len() > 0x1_0000 ==> done == Err::<(), CpuError>(
                CpuError::ProgramTooLarge { base: PROGRAM_START_ADDRESS, len: program.len() },
            ) && final(self)@ == old(self)@,
    {
        match self.memory.load_program(PROGRAM_START_ADDRESS, program) {
            Ok(()) => {
                self.memory_write_u16(RESET_VECTOR, PROGRAM_START_ADDRESS);
                Ok(())
            },
            Err(e) => Err(e),
        }
    }

    /// Clears the registers, restores the initial status and stack pointer,
    /// and takes the program counter from the reset vector.
    pub fn reset(&mut self)
        ensures
            final(self)@ == old(self)@.reset(),
    {
        proof {
            lemma_masks();
        }
        self.register_a = 0;
        self.register_x = 0;
        self.register_y = 0;
        self.status = CPUFlags::from_bits_truncate(CPUFlags::RESET);
        self.stack_pointer = STACK_RESET;
        self.program_counter = self.memory_read_u16(RESET_VECTOR);
    }

    /// Moves the stack pointer up by one and returns the byte it then refers to.
    pub fn stack_pop(&mut self) -> (value: u8)
        ensures
            final(self)@ == old(self)@.pop(),
            value == old(self)@.popped(),
    {
        self.stack_pointer = add8(self.stack_pointer, 1);
        self.memory_read(STACK + self.stack_pointer as u16)
    }

    /// Stores `data` where the stack pointer refers to and moves the pointer
    /// down by one.
    pub fn stack_push(&mut self, data: u8)
        ensures
            final(self)@ == old(self)@.push(data),
    {
        self.memory_write(STACK + self.stack_pointer as u16, data);
        self.stack_pointer = self.stack_pointer.wrapping_sub(1);
    }

    /// Pops a word: the low byte first, then the high byte.
    pub fn stack_pop_u16(&mut self) -> (value: u16)
        ensures
            final(self)@ == old(self)@.pop().pop(),
            value == old(self)@.popped_u16(),
    {
        let lo = self.stack_pop();
        let hi = self.stack_pop();
        make_word(lo, hi)
    }

    /// Pushes a word: the high byte first, then the low byte.
    pub fn stack_push_u16(&mut self, data: u16)
        ensures
            final(self)@ == old(self)@.push_u16(data),
    {
        proof {
            lemma_split_bits(data);
        }
        let hi = (data >> 8) as u8;
        let lo = (data & 0xff) as u8;
        self.stack_push(hi);
        self.stack_push(lo);
    }

    /// Fetches the byte at the program counter and moves the counter past it.
    fn offset_program(&mut self) -> (code: u8)
        ensures
            code == old(self)@.opcode(),
            final(self)@ == old(self)@.advance(1),
    {
        let ops_code = self.memory_read(self.program_counter);
        self.program_counter = add16(self.program_counter, 1);
        ops_code
    }

    /// One fetch-decode-execute step.
    pub fn step(&mut self) -> (outcome: Result<RunState, CpuError>)
        ensures
            (final(self)@, outcome) == old(self)@.step(),
    {
        let ops_code = self.offset_program();
        match InstructionBuiltin::lookup(ops_code) {
            None => Err(CpuError::UnrecognizedOpcode { code: ops_code }),
            Some(builtin) => {
                match builtin.instruction {
                    Instruction::Brk => Ok(RunState::Halted),
                    _ => match builtin.execute(self) {
                        Ok(()) => {
                            self.program_counter = add16(
                                self.program_counter,
                                builtin.op.operand_len as u16,
                            );
                            Ok(RunState::Running)
                        },
                        Err(e) => Err(e),
                    },
                }
            },
        }
    }

    /// Steps until BRK halts the processor, an instruction fails, or
    /// `max_steps` steps are done; in the last case the processor is still
    /// running and a later call goes on from where this one stopped.
    pub fn run_for(&mut self, max_steps: u64) -> (outcome: Result<RunState, CpuError>)
        ensures
            (final(self)@, outcome) == old(self)@.run(max_steps as nat),
    {
        let mut remaining: u64 = max_steps;
        while remaining > 0
            invariant
                self@.run(remaining as nat) == old(self)@.run(max_steps as nat),
            decreases remaining,
        {
            match self.step() {
                Ok(RunState::Running) => {
                    remaining = remaining - 1;
                },
                stopped => {
                    return stopped;
                },
            }
        }
        Ok(RunState::Running)
    }

    /// Runs until BRK halts the processor or an instruction fails. The run
    /// is given the largest step budget there is.
    pub fn interpret(&mut self) -> (outcome: Result<RunState, CpuError>)
        ensures
            (final(self)@, outcome) == old(self)@.run(u64::MAX as nat),
    {
        self.run_for(u64::MAX)
    }

    /// Runs like `interpret`, but hands the processor to `callback` before
    /// each step, so that the caller can look at it or change it between
    /// instructions.
    ///
    /// With a callback that leaves the processor as it finds it, the run
    /// ends exactly as `interpret` does.
    ///
    /// Whatever the callback does, the run is a chain of handles `seen`, one
    /// for each step taken: the first is handed the processor as it was at
    /// entry, each later one the processor as the step before left it, and
    /// every step is taken from what the callback handed back. The run ends
    /// with the first step that halts or fails, or, still running, when the
    /// step budget of `interpret` is spent.
    pub fn run_with_callback<F>(&mut self, callback: F) -> (outcome: Result<
        RunState,
        CpuError,
    >) where F: FnMut(&mut CPU)
        requires
            forall|cpu: &mut CPU| call_requires(callback, (cpu,)),
        ensures
            (forall|h: &mut CPU| call_ensures(callback, (h,), ()) ==> (*final(h))@ == (*h)@) ==> (
            final(self)@, outcome) == old(self)@.run(u64::MAX as nat),
            exists|seen: Seq<&mut CPU>|
                {
                    &&& 1 <= seen.len() <= u64::MAX
                    &&& (*seen[0])@ == old(self)@
                    &&& forall|i: int|
                        0 <= i < seen.len() ==> call_ensures(callback, (#[trigger] seen[i],), ())
                    &&& forall|i: int, j: int|
                        #![trigger seen[i], seen[j]]
                        0 <= i && j == i + 1 && j < seen.len() ==> (*final(seen[i]))@.step() == (
                            (*seen[j])@,
                            Ok::<RunState, CpuError>(RunState::Running),
                        )
                    &&& (final(self)@, outcome) == (*final(seen.last()))@.step()
                    &&& outcome == Ok::<RunState, CpuError>(RunState::Running) ==> seen.len() == u64::MAX
                },
    {
        let mut hook = callback;
        let mut remaining: u64 = u64::MAX;
        let mut outcome: Result<RunState, CpuError> = Ok(RunState::Running);
        loop
            invariant_except_break
                remaining > 0,
                (forall|h: &mut CPU| call_ensures(callback, (h,), ()) ==> (*final(h))@ == (*h)@)
                    ==> self@.run(remaining as nat) == old(self)@.run(u64::MAX as nat),
                remaining == u64::MAX ==> self@ == old(self)@,
                remaining < u64::MAX ==> exists|seen: Seq<&mut CPU>|
                    {
                        &&& seen.len() == u64::MAX - remaining
                        &&& (*seen[0])@ == old(self)@
                        &&& forall|i: int|
                            0 <= i < seen.len() ==> call_ensures(callback, (#[trigger] seen[i],), ())
                        &&& forall|i: int, j: int|
                            #![trigger seen[i], seen[j]]
                            0 <= i && j == i + 1 && j < seen.len() ==> (*final(seen[i]))@.step() == (
                                (*seen[j])@,
                                Ok::<RunState, CpuError>(RunState::Running),
                            )
                        &&& (self@, Ok::<RunState, CpuError>(RunState::Running)) == (*final(seen.last()))@.step()
                    },
            invariant
                hook == callback,
                forall|cpu: &mut CPU| call_requires(callback, (cpu,)),
            ensures
                (forall|h: &mut CPU| call_ensures(callback, (h,), ()) ==> (*final(h))@ == (*h)@)
                    ==> (self@, outcome) == old(self)@.run(u64::MAX as nat),
                exists|seen: Seq<&mut CPU>|
                    {
                        &&& 1 <= seen.len() <= u64::MAX
                        &&& (*seen[0])@ == old(self)@
                        &&& forall|i: int|
                            0 <= i < seen.len() ==> call_ensures(callback, (#[trigger] seen[i],), ())
                        &&& forall|i: int, j: int|
                            #![trigger seen[i], seen[j]]
                            0 <= i && j == i + 1 && j < seen.len() ==> (*final(seen[i]))@.step() == (
                                (*seen[j])@,
                                Ok::<RunState, CpuError>(RunState::Running),
                            )
                        &&& (self@, outcome) == (*final(seen.last()))@.step()
                        &&& outcome == Ok::<RunState, CpuError>(RunState::Running) ==> seen.len() == u64::MAX
                    },
            decreases remaining,
        {
            let ghost before = *self;
            let ghost done = u64::MAX - remaining;
            hook(self);
            let ghost after = *self;
            assert((forall|h: &mut CPU|
                call_ensures(callback, (h,), ()) ==> (*final(h))@ == (*h)@) ==> after@
                == before@);
            outcome = self.step();
            remaining = remaining - 1;
            assert(exists|seen: Seq<&mut CPU>|
                    {
                        &&& seen.len() == done + 1
                        &&& (*seen[0])@ == old(self)@
                        &&& forall|i: int|
                            0 <= i < seen.len() ==> call_ensures(callback, (#[trigger] seen[i],), ())
                        &&& forall|i: int, j: int|
                            #![trigger seen[i], seen[j]]
                            0 <= i && j == i + 1 && j < seen.len() ==> (*final(seen[i]))@.step() == (
                                (*seen[j])@,
                                Ok::<RunState, CpuError>(RunState::Running),
                            )
                        &&& (self@, outcome) == (*final(seen.last()))@.step()
                    }) by {
                let handed = choose|h: &mut CPU|
                    call_ensures(callback, (h,), ()) && *h == before && *final(h) == after;
                let earlier = if done == 0 {
                    Seq::<&mut CPU>::empty()
                } else {
                    choose|seen: Seq<&mut CPU>|
                        {
                            &&& seen.len() == done
                            &&& (*seen[0])@ == old(self)@
                            &&& forall|i: int|
                                0 <= i < seen.len() ==> call_ensures(
                                    callback,
                                    (#[trigger] seen[i],),
                                    (),
                                )
                            &&& forall|i: int, j: int|
                                #![trigger seen[i], seen[j]]
                                0 <= i && j == i + 1 && j < seen.len() ==> (*final(seen[i]))@.step() == (
                                    (*seen[j])@,
                                    Ok::<RunState, CpuError>(RunState::Running),
                                )
                            &&& (before@, Ok::<RunState, CpuError>(RunState::Running)) == (*final(seen.last()))@.step()
                        }
                };
                let seen = earlier.push(handed);
                assert(seen.last() == handed);
                assert forall|i: int| 0 <= i < seen.len() implies call_ensures(
                    callback,
                    (#[trigger] seen[i],),
                    (),
                ) by {
                    if i < done {
                        assert(seen[i] == earlier[i]);
                    }
                }
                assert forall|i: int, j: int|
                    #![trigger seen[i], seen[j]]
                    0 <= i && j == i + 1 && j < seen.len() implies (*final(seen[i]))@.step() == (
                    (*seen[j])@,
                    Ok::<RunState, CpuError>(RunState::Running),
                ) by {
                    if j < done {
                        assert(seen[i] == earlier[i]);
                        assert(seen[j] == earlier[j]);
                    } else {
                        assert(seen[i] == earlier.last());
                    }
                }
                if done > 0 {
                    assert(seen[0] == earlier[0]);
                }
            }
            match outcome {
                Ok(RunState::Running) => {
                    if remaining == 0 {
                        assert(self@.run(0) == (self@, Ok::<RunState, CpuError>(RunState::Running)));
                        break ;
                    }
                },
                _ => {
                    break ;
                },
            }
        }
        outcome
    }

    /// Loads `program`, resets the processor and runs it. A program that
    /// does not fit is refused before anything changes.
    pub fn load_and_run(&mut self, program: Vec<u8>) -> (outcome: Result<RunState, CpuError>)
        ensures
            PROGRAM_START_ADDRESS + program.len() <= 0x1_0000 ==> (final(self)@, outcome) == old(
                self,
            )@.load(PROGRAM_START_ADDRESS, program@).write_u16(
                RESET_VECTOR,
                PROGRAM_START_ADDRESS,
            ).reset().run(u64::MAX as nat),
            PROGRAM_START_ADDRESS + program.len() > 0x1_0000 ==> outcome == Err::<
                RunState,
                CpuError,
            >(CpuError::ProgramTooLarge { base: PROGRAM_START_ADDRESS, len: program.len() })
                && final(self)@ == old(self)@,
    {
        match self.memory_load_program(program) {
            Ok(()) => {
                self.reset();
                self.interpret()
            },
            Err(e) => Err(e),
        }
    }
}

} // verus!
