use crate::addressing::AddressingMode;
use crate::cpu::CPU;
use crate::error::CpuError;
use vstd::prelude::*;

verus! {

proof fn lemma_shift_left(data: u8)
    by (bit_vector)
    ensures
        (data >> 7 == 1) == (data >= 0x80),
        data << 1 == (2 * data) % 0x100,
{
}

/// ASL: shifts the operand left by one in place; its bit 7 goes to Carry.
pub fn asl(cpu: &mut CPU, addressing_mode: &AddressingMode) -> (done: Result<(), CpuError>)
    ensures
        (final(cpu)@, done) == old(cpu)@.asl(*addressing_mode),
{
    match cpu.get_operand_address(addressing_mode) {
        Ok(address) => {
            let data = cpu.memory_read(address);
            proof {
                lemma_shift_left(data);
            }
            if data >> 7 == 1 {
                cpu.set_carry_flag();
            } else {
                cpu.clear_carry_flag();
            }
            let carry_data = data << 1;
            cpu.memory_write(address, carry_data);
            cpu.update_zero_and_negative_flags(carry_data);
            Ok(())
        },
        Err(e) => Err(e),
    }
}

} // verus!
