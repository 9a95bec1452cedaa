use crate::addressing::AddressingMode;
use crate::cpu::CPU;
use crate::error::CpuError;
use vstd::prelude::*;

verus! {

/// AND: combines the operand with A by bitwise and; X takes the result.
pub fn and(cpu: &mut CPU, addressing_mode: &AddressingMode) -> (done: Result<(), CpuError>)
    ensures
        (final(cpu)@, done) == old(cpu)@.and(*addressing_mode),
{
    match cpu.get_operand_address(addressing_mode) {
        Ok(address) => {
            let data = cpu.memory_read(address);
            cpu.set_register_x(data & cpu.register_a);
            Ok(())
        },
        Err(e) => Err(e),
    }
}

/// ORA: combines the operand with A by bitwise or; X takes the result.
pub fn ora(cpu: &mut CPU, addressing_mode: &AddressingMode) -> (done: Result<(), CpuError>)
    ensures
        (final(cpu)@, done) == old(cpu)@.ora(*addressing_mode),
{
    match cpu.get_operand_address(addressing_mode) {
        Ok(address) => {
            let data = cpu.memory_read(address);
            cpu.set_register_x(data | cpu.register_a);
            Ok(())
        },
        Err(e) => Err(e),
    }
}

/// EOR: combines the operand with A by bitwise exclusive or; X takes the
/// result.
pub fn eor(cpu: &mut CPU, addressing_mode: &AddressingMode) -> (done: Result<(), CpuError>)
    ensures
        (final(cpu)@, done) == old(cpu)@.eor(*addressing_mode),
{
    match cpu.get_operand_address(addressing_mode) {
        Ok(address) => {
            let data = cpu.memory_read(address);
            cpu.set_register_x(data ^ cpu.register_a);
            Ok(())
        },
        Err(e) => Err(e),
    }
}

} // verus!
