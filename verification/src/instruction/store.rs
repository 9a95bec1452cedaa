use crate::addressing::AddressingMode;
use crate::cpu::CPU;
use crate::error::CpuError;
use vstd::prelude::*;

verus! {

/// STA: stores A at the operand's address.
pub fn sta(cpu: &mut CPU, addressing_mode: &AddressingMode) -> (done: Result<(), CpuError>)
    ensures
        (final(cpu)@, done) == old(cpu)@.sta(*addressing_mode),
{
    match cpu.get_operand_address(addressing_mode) {
        Ok(address) => {
            cpu.memory_write(address, cpu.register_a);
            Ok(())
        },
        Err(e) => Err(e),
    }
}

} // verus!
