use crate::addressing::AddressingMode;
use crate::cpu::CPU;
use crate::error::CpuError;
use vstd::prelude::*;

verus! {

/// LDA: loads the operand into A.
pub fn lda(cpu: &mut CPU, addressing_mode: &AddressingMode) -> (done: Result<(), CpuError>)
    ensures
        (final(cpu)@, done) == old(cpu)@.lda(*addressing_mode),
{
    match cpu.get_operand_address(addressing_mode) {
        Ok(address) => {
            let value = cpu.memory_read(address);
            cpu.set_register_a(value);
            Ok(())
        },
        Err(e) => Err(e),
    }
}

/// LDX: loads the operand into X.
pub fn ldx(cpu: &mut CPU, addressing_mode: &AddressingMode) -> (done: Result<(), CpuError>)
    ensures
        (final(cpu)@, done) == old(cpu)@.ldx(*addressing_mode),
{
    match cpu.get_operand_address(addressing_mode) {
        Ok(address) => {
            let value = cpu.memory_read(address);
            cpu.set_register_x(value);
            Ok(())
        },
        Err(e) => Err(e),
    }
}

/// LDY: loads the operand into Y.
pub fn ldy(cpu: &mut CPU, addressing_mode: &AddressingMode) -> (done: Result<(), CpuError>)
    ensures
        (final(cpu)@, done) == old(cpu)@.ldy(*addressing_mode),
{
    match cpu.get_operand_address(addressing_mode) {
        Ok(address) => {
            let value = cpu.memory_read(address);
            cpu.set_register_y(value);
            Ok(())
        },
        Err(e) => Err(e),
    }
}

} // verus!
