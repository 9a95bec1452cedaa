//! Laws of the machine: what holds of every state.

use crate::addressing::AddressingMode;
use crate::cpu::CPU;
use crate::error::CpuError;
use crate::flags::{lemma_sign_bit, FlagSet};
use crate::instruction::catalogue;
use crate::semantics::RunState;
use crate::state::{stack_base, wrap16, wrap8, CpuState};
use vstd::prelude::*;

verus! {

/// The model of a processor always has a whole memory: what is proved of
/// well-formed states holds of every processor.
pub proof fn law_view_wf(cpu: CPU)
    ensures
        cpu@.wf(),
{
}

/// Loading a byte into a register leaves that byte there, sets Zero exactly
/// when the byte is zero and Negative exactly when its bit 7 is set, and
/// leaves the other six flags alone.
pub proof fn law_zero_negative(status: FlagSet, value: u8)
    ensures
        status.with_zero_negative(value).zero == (value == 0),
        status.with_zero_negative(value).negative == (value & 0x80 != 0),
        status.with_zero_negative(value).carry == status.carry,
        status.with_zero_negative(value).overflow == status.overflow,
        status.with_zero_negative(value).interrupt_disable == status.interrupt_disable,
        status.with_zero_negative(value).decimal_mode == status.decimal_mode,
        status.with_zero_negative(value).break_command == status.break_command,
        status.with_zero_negative(value).break2 == status.break2,
{
    lemma_sign_bit(value);
}

/// LDA with an immediate operand `v` puts `v` into A, sets Zero exactly when
/// `v` is zero and Negative exactly when bit 7 of `v` is set.
pub proof fn law_lda_immediate(state: CpuState, v: u8)
    requires
        state.wf(),
        state.read(state.program_counter) == v,
    ensures
        state.lda(AddressingMode::Immediate).1.is_ok(),
        state.lda(AddressingMode::Immediate).0.register_a == v,
        state.lda(AddressingMode::Immediate).0.status.zero == (v == 0),
        state.lda(AddressingMode::Immediate).0.status.negative == (v & 0x80 != 0),
{
    lemma_sign_bit(v);
}

/// A step that finds the two bytes `0xA9, v` at the program counter is
/// `LDA #v`: the processor goes on running behind them with `v` in A, Zero
/// set exactly when `v` is zero and Negative exactly when bit 7 of `v` is
/// set. Nothing else changes.
pub proof fn law_step_lda_immediate(state: CpuState, v: u8)
    requires
        state.wf(),
        state.read(state.program_counter) == 0xA9,
        state.read(wrap16(state.program_counter + 1)) == v,
    ensures
        state.step().1 == Ok::<RunState, CpuError>(RunState::Running),
        state.step().0 == (CpuState {
            register_a: v,
            status: FlagSet { zero: v == 0, negative: v & 0x80 != 0, ..state.status },
            program_counter: wrap16(state.program_counter + 2),
            ..state
        }),
{
    lemma_sign_bit(v);
}

/// TAX puts the value of A into X and recomputes Zero and Negative from it,
/// whatever the state. Nothing else changes.
pub proof fn law_tax(state: CpuState)
    ensures
        state.tax() == (CpuState {
            register_x: state.register_a,
            status: FlagSet {
                zero: state.register_a == 0,
                negative: state.register_a & 0x80 != 0,
                ..state.status
            },
            ..state
        }),
{
    lemma_sign_bit(state.register_a);
}

/// A step that finds `0xAA` at the program counter is TAX: the processor
/// goes on running behind it with the value of A in X, and Zero and
/// Negative recomputed from it.
pub proof fn law_step_tax(state: CpuState)
    requires
        state.wf(),
        state.read(state.program_counter) == 0xAA,
    ensures
        state.step() == (
            state.tax().advance(1),
            Ok::<RunState, CpuError>(RunState::Running),
        ),
{
}

/// A step that finds `0xE8` at the program counter is INX.
pub proof fn law_step_inx(state: CpuState)
    requires
        state.wf(),
        state.read(state.program_counter) == 0xE8,
    ensures
        state.step() == (
            state.inx().advance(1),
            Ok::<RunState, CpuError>(RunState::Running),
        ),
{
}

/// INX counts modulo 256: from `0xFF` it goes to `0x00` and sets Zero; from
/// any other value it goes one up.
pub proof fn law_inx_wraps(state: CpuState)
    ensures
        state.register_x == 0xff ==> state.inx().register_x == 0 && state.inx().status.zero,
        state.register_x < 0xff ==> state.inx().register_x == state.register_x + 1
            && !state.inx().status.zero,
{
}

/// A word written to memory is read back from the same address.
pub proof fn law_write_read_u16(state: CpuState, address: u16, value: u16)
    requires
        state.wf(),
    ensures
        state.write_u16(address, value).read_u16(address) == value,
{
}

/// A word pushed on the stack is the word popped next, and the stack
/// pointer is back where it was.
pub proof fn law_push_pop_u16(state: CpuState, value: u16)
    requires
        state.wf(),
    ensures
        state.push_u16(value).popped_u16() == value,
        state.push_u16(value).pop().pop().stack_pointer == state.stack_pointer,
{
}

/// A byte written to memory is read back from its address, and every other
/// address keeps its byte.
pub proof fn law_write_read(state: CpuState, address: u16, value: u8, other: u16)
    requires
        state.wf(),
    ensures
        state.write(address, value).read(address) == value,
        other != address ==> state.write(address, value).read(other) == state.read(other),
        state.write(address, value).wf(),
{
}

/// A loaded program is read back byte by byte from its base on, and memory
/// outside it is as before.
pub proof fn law_load_read(state: CpuState, base: u16, program: Seq<u8>, address: u16)
    requires
        state.wf(),
        base + program.len() <= 0x1_0000,
    ensures
        base <= address < base + program.len() ==> state.load(base, program).read(address)
            == program[address - base],
        !(base <= address < base + program.len()) ==> state.load(base, program).read(address)
            == state.read(address),
        state.load(base, program).wf(),
{
}

/// In the catalogue the length of an instruction is one more than the
/// number of operand bytes of its addressing mode, so a step leaves the
/// program counter at the next opcode.
pub proof fn law_catalogue_lengths(code: u8)
    ensures
        match catalogue(code) {
            Some((instruction, len, cycles, mode)) => len == 1 + mode.operand_bytes(),
            None => true,
        },
{
}

/// A step halts exactly when the byte it fetches is `0x00`, the opcode of
/// BRK, and then it has only moved the program counter past that byte.
pub proof fn law_halt_is_brk(state: CpuState)
    ensures
        state.step().1 == Ok::<RunState, CpuError>(RunState::Halted) <==> state.opcode() == 0x00,
        state.opcode() == 0x00 ==> state.step().0 == state.advance(1),
{
}

/// A step fails for its opcode exactly when the catalogue has no entry for
/// the byte fetched, and the error carries that byte.
pub proof fn law_unrecognized(state: CpuState)
    ensures
        catalogue(state.opcode()) is None <==> state.step().1 == Err::<RunState, CpuError>(
            CpuError::UnrecognizedOpcode { code: state.opcode() },
        ),
        catalogue(state.opcode()) is None ==> state.step().0 == state.advance(1),
{
}

/// A run can be cut in two: running `first + second` steps is running
/// `first` steps and, if the processor is still running then, `second` more
/// from where it stands.
pub proof fn law_run_resumes(state: CpuState, first: nat, second: nat)
    ensures
        state.run(first + second) == match state.run(first) {
            (middle, Ok(RunState::Running)) => middle.run(second),
            stopped => stopped,
        },
    decreases first,
{
    if first > 0 {
        match state.step() {
            (next, Ok(RunState::Running)) => {
                law_run_resumes(next, (first - 1) as nat, second);
                assert(state.run(first + second) == next.run((first + second - 1) as nat));
            },
            _ => {},
        }
    }
}

/// The value of a byte read as a signed number.
pub open spec fn signed(v: u8) -> int {
    if v >= 0x80 {
        v - 0x100
    } else {
        v as int
    }
}

proof fn lemma_overflow_bits(a: u8, data: u8, result: u8)
    by (bit_vector)
    ensures
        (((data ^ result) & (result ^ a) & 0x80) != 0) == ((data >= 0x80) != (result >= 0x80) && (
        a >= 0x80) != (result >= 0x80)),
{
}

/// An addition to A gives the sum modulo 256, with Carry telling whether
/// the unsigned sum went past 255 and Overflow whether the signed sum left
/// the range from -128 to 127.
pub proof fn law_add_to_a(state: CpuState, data: u8)
    ensures
        state.add_to_a(data).register_a == state.carry_sum(data) % 0x100,
        state.add_to_a(data).status.carry == (state.carry_sum(data) > 0xff),
        state.add_to_a(data).status.overflow == !(-0x80 <= signed(state.register_a) + signed(data)
            + state.carry_in() <= 0x7f),
{
    lemma_overflow_bits(state.register_a, data, wrap8(state.carry_sum(data)));
}

/// SBC subtracts: A becomes A minus the operand minus the borrow, modulo 256,
/// where the borrow is one when Carry is clear; and Carry is set afterwards
/// exactly when no borrow was needed.
pub proof fn law_sbc_subtracts(state: CpuState, mode: AddressingMode)
    requires
        state.wf(),
        mode != AddressingMode::NoneAddressing,
    ensures
        ({
            let operand = state.read(state.operand_address(mode).unwrap());
            let borrow = if state.status.carry {
                0int
            } else {
                1int
            };
            let difference = state.register_a - operand - borrow;
            &&& state.sbc(mode).1.is_ok()
            &&& state.sbc(mode).0.register_a == wrap8(difference)
            &&& state.sbc(mode).0.status.carry == (difference >= 0)
        }),
{
}

/// The stack slot that is `i` pushes below the one the stack pointer of
/// `state` refers to.
pub open spec fn slot_below(state: CpuState, i: int) -> int {
    stack_base() + wrap8(state.stack_pointer - i)
}

/// Whether `address` is one of the first `n` slots from the stack pointer of
/// `state` downwards.
pub open spec fn in_slots_below(state: CpuState, n: int, address: int) -> bool {
    &&& stack_base() <= address < stack_base() + 0x100
    &&& wrap8(state.stack_pointer - (address - stack_base())) < n
}

proof fn lemma_slots_after_push(state: CpuState, value: u8, n: int, address: int)
    requires
        state.wf(),
        1 <= n <= 0x100,
    ensures
        forall|i: int|
            1 <= i ==> #[trigger] slot_below(state.push(value), i - 1) == slot_below(state, i),
        slot_below(state, 0) == state.stack_address(),
        !in_slots_below(state.push(value), n - 1, slot_below(state, 0)),
        in_slots_below(state.push(value), n - 1, address) ==> in_slots_below(state, n, address),
        in_slots_below(state, n, slot_below(state, 0)),
{
    let pointer = state.stack_pointer as int;
    let lower = state.push(value).stack_pointer as int;
    assert(lower == if pointer == 0 {
        0xff
    } else {
        pointer - 1
    });
    assert forall|i: int| 1 <= i implies #[trigger] slot_below(state.push(value), i - 1)
        == slot_below(state, i) by {
        assert((lower - (i - 1)) % 0x100 == (pointer - i) % 0x100);
    }
    assert((lower - pointer) % 0x100 == 0xff);
    if in_slots_below(state.push(value), n - 1, address) {
        let offset = address - stack_base();
        let depth = (lower - offset) % 0x100;
        assert((pointer - offset) % 0x100 == depth + 1);
    }
}

/// Pushing at most 256 bytes fills the slots from the stack pointer
/// downwards, one byte each in the order of the pushes, moves the stack
/// pointer down by their number, and leaves the rest of the machine alone.
pub proof fn lemma_push_all(state: CpuState, bytes: Seq<u8>)
    requires
        state.wf(),
        bytes.len() <= 0x100,
    ensures
        state.push_all(bytes).wf(),
        state.push_all(bytes).stack_pointer == wrap8(state.stack_pointer - bytes.len()),
        forall|i: int|
            0 <= i < bytes.len() ==> state.push_all(bytes).memory[#[trigger] slot_below(state, i)]
                == bytes[i],
        forall|address: int|
            0 <= address < 0x1_0000 && !in_slots_below(state, bytes.len() as int, address)
                ==> #[trigger] state.push_all(bytes).memory[address] == state.memory[address],
        state.push_all(bytes) == (CpuState {
            memory: state.push_all(bytes).memory,
            stack_pointer: state.push_all(bytes).stack_pointer,
            ..state
        }),
    decreases bytes.len(),
{
    if bytes.len() > 0 {
        let n = bytes.len() as int;
        let first = state.push(bytes[0]);
        let rest = bytes.drop_first();
        let after = state.push_all(bytes);
        let top = slot_below(state, 0);
        lemma_push_all(first, rest);
        lemma_slots_after_push(state, bytes[0], n, top);
        assert(after == first.push_all(rest));
        assert(first.memory == state.memory.update(top, bytes[0]));
        assert(after.stack_pointer == wrap8(state.stack_pointer - n)) by {
            assert(after.stack_pointer == wrap8(first.stack_pointer - (n - 1)));
            assert((first.stack_pointer - (n - 1)) % 0x100 == (state.stack_pointer - n) % 0x100);
        }
        assert forall|i: int| 0 <= i < n implies after.memory[#[trigger] slot_below(state, i)]
            == bytes[i] by {
            if i == 0 {
                assert(after.memory[top] == first.memory[top]);
            } else {
                assert(slot_below(first, i - 1) == slot_below(state, i));
                assert(after.memory[slot_below(first, i - 1)] == rest[i - 1]);
            }
        }
        assert forall|address: int|
            0 <= address < 0x1_0000 && !in_slots_below(state, n, address) implies #[trigger] after.memory[address]
            == state.memory[address] by {
            lemma_slots_after_push(state, bytes[0], n, address);
            assert(after.memory[address] == first.memory[address]);
        }
    }
}

/// Pops read the slots above the stack pointer, going upwards, and change
/// nothing but the stack pointer.
pub proof fn lemma_pop_n(state: CpuState, n: nat)
    ensures
        state.pop_n(n) == (CpuState { stack_pointer: wrap8(state.stack_pointer + n), ..state }),
        state.popped_n(n).len() == n,
        forall|j: int|
            0 <= j < n ==> #[trigger] state.popped_n(n)[j] == state.memory[stack_base() + wrap8(
                state.stack_pointer + 1 + j,
            )],
    decreases n,
{
    if n > 0 {
        lemma_pop_n(state.pop(), (n - 1) as nat);
        assert forall|j: int| 0 <= j < n implies #[trigger] state.popped_n(n)[j]
            == state.memory[stack_base() + wrap8(state.stack_pointer + 1 + j)] by {
            if j > 0 {
                assert(state.popped_n(n)[j] == state.pop().popped_n((n - 1) as nat)[j - 1]);
            }
        }
    }
}

proof fn lemma_slot_of_pop(pointer: u8, n: int, j: int)
    requires
        0 <= j < n <= 0x100,
    ensures
        wrap8(wrap8(pointer - n) + 1 + j) == wrap8(pointer - (n - 1 - j)),
{
}

/// What is pushed comes back in reverse: after the bytes of `bytes` are
/// pushed in order, as many pops return them last to first and leave the
/// stack pointer where it was before the pushes. The stack holds one page,
/// so this is a law of at most 256 bytes.
pub proof fn law_stack_round_trip(state: CpuState, bytes: Seq<u8>)
    requires
        state.wf(),
        bytes.len() <= 0x100,
    ensures
        state.push_all(bytes).popped_n(bytes.len()) == bytes.reverse(),
        state.push_all(bytes).pop_n(bytes.len()).stack_pointer == state.stack_pointer,
{
    let n = bytes.len();
    let pushed = state.push_all(bytes);
    lemma_push_all(state, bytes);
    lemma_pop_n(pushed, n);
    assert forall|j: int| 0 <= j < n implies pushed.popped_n(n)[j] == bytes.reverse()[j] by {
        lemma_slot_of_pop(state.stack_pointer, n as int, j);
        assert(pushed.memory[slot_below(state, n - 1 - j)] == bytes[n - 1 - j]);
    }
    assert(pushed.popped_n(n) =~= bytes.reverse());
}

} // verus!
