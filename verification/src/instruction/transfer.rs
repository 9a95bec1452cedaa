use crate::addressing::AddressingMode;
use crate::cpu::CPU;
use vstd::prelude::*;

verus! {

/// TAX: copies A into X. The addressing mode plays no part.
pub fn tax(cpu: &mut CPU, mode: &AddressingMode)
    ensures
        final(cpu)@ == old(cpu)@.tax(),
{
    cpu.set_register_x(cpu.register_a);
}

/// INX: adds one to X, wrapping. The addressing mode plays no part.
pub fn inx(cpu: &mut CPU, mode: &AddressingMode)
    ensures
        final(cpu)@ == old(cpu)@.inx(),
{
    cpu.set_register_x(cpu.register_x.wrapping_add(1));
}

/// INY: adds one to Y, wrapping. The addressing mode plays no part.
pub fn iny(cpu: &mut CPU, mode: &AddressingMode)
    ensures
        final(cpu)@ == old(cpu)@.iny(),
{
    cpu.set_register_y(cpu.register_y.wrapping_add(1));
}

} // verus!
