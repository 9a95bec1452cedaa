use crate::addressing::AddressingMode;
use crate::cpu::CPU;
use crate::error::CpuError;
use vstd::prelude::*;

verus! {

proof fn lemma_complement(data: u8)
    by (bit_vector)
    ensures
        !data == 0xff - data,
{
}

/// ADC: adds the operand and Carry to A.
pub fn adc(cpu: &mut CPU, addressing_mode: &AddressingMode) -> (done: Result<(), CpuError>)
    ensures
        (final(cpu)@, done) == old(cpu)@.adc(*addressing_mode),
{
    match cpu.get_operand_address(addressing_mode) {
        Ok(address) => {
            let val = cpu.memory_read(address);
            cpu.add_to_register_a_address(val);
            Ok(())
        },
        Err(e) => Err(e),
    }
}

/// SBC: subtracts the operand and the borrow from A, as an addition of the
/// operand's complement.
pub fn sbc(cpu: &mut CPU, addressing_mode: &AddressingMode) -> (done: Result<(), CpuError>)
    ensures
        (final(cpu)@, done) == old(cpu)@.sbc(*addressing_mode),
{
    match cpu.get_operand_address(addressing_mode) {
        Ok(address) => {
            let data = cpu.memory_read(address);
            proof {
                lemma_complement(data);
            }
            cpu.add_to_register_a_address(!data);
            Ok(())
        },
        Err(e) => Err(e),
    }
}

} // verus!
