use crate::error::CpuError;
use vstd::prelude::*;

verus! {

/// Flat, byte-addressable storage covering every 16-bit address.
pub struct Memory {
    pub bytes: [u8; 65536],
}

impl View for Memory {
    type V = Seq<u8>;

    open spec fn view(&self) -> Seq<u8> {
        self.bytes@
    }
}

/// What memory holds after `program` is copied over it from `base` on.
pub open spec fn loaded(memory: Seq<u8>, base: u16, program: Seq<u8>) -> Seq<u8>
    recommends
        base + program.len() <= memory.len(),
{
    Seq::new(
        memory.len(),
        |i: int|
            if base <= i < base + program.len() {
                program[i - base]
            } else {
                memory[i]
            },
    )
}

impl Default for Memory {
    /// A memory with every byte zero.
    fn default() -> (m: Memory)
        ensures
            m@ == Seq::new(0x1_0000, |i: int| 0u8),
    {
        let m = Memory { bytes: [0u8;65536] };
        assert(m@ =~= Seq::new(0x1_0000, |i: int| 0u8));
        m
    }
}

impl Memory {
    /// The byte stored at `addr`.
    pub fn read(&self, addr: u16) -> (value: u8)
        ensures
            value == self@[addr as int],
    {
        self.bytes[addr as usize]
    }

    /// Stores `data` at `addr`; every other byte keeps its value.
    pub fn write(&mut self, addr: u16, data: u8)
        ensures
            final(self)@ == old(self)@.update(addr as int, data),
    {
        self.bytes[addr as usize] = data;
    }

    /// Copies `program` into memory from `addr` on. A program that would run
    /// past the last address is refused, and memory stays as it was.
    pub fn load_program(&mut self, addr: u16, program: Vec<u8>) -> (done: Result<(), CpuError>)
        ensures
            addr + program.len() <= 0x1_0000 ==> done.is_ok() && final(self)@ == loaded(
                old(self)@,
                addr,
                program@,
            ),
            addr + program.len() > 0x1_0000 ==> done == Err::<(), CpuError>(
                CpuError::ProgramTooLarge { base: addr, len: program.len() },
            ) && final(self)@ == old(self)@,
    {
        let len = program.len();
        if len > 0x1_0000 - addr as usize {
            return Err(CpuError::ProgramTooLarge { base: addr, len });
        }
        let mut i: usize = 0;
        while i < len
            invariant
                len == program.len(),
                addr + len <= 0x1_0000,
                i <= len,
                self@ == loaded(old(self)@, addr, program@.take(i as int)),
            decreases len - i,
        {
            self.bytes[addr as usize + i] = program[i];
            i = i + 1;
            assert(self@ =~= loaded(old(self)@, addr, program@.take(i as int)));
        }
        assert(program@.take(len as int) =~= program@);
        Ok(())
    }
}

} // verus!
