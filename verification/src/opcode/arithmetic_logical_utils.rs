//! Increments and decrements of the word registers.

use vstd::prelude::*;
use crate::cpu::{Cpu, CpuState};
use crate::registers::WordRegister;

verus! {

/// The machine after `store_to_reg` took the word in `load_from_reg` plus
/// one, modulo 2^16. The flags stay.
pub open spec fn spec_inc_d16(
    s: CpuState,
    load_from_reg: WordRegister,
    store_to_reg: WordRegister,
) -> CpuState {
    let value = s.registers.spec_word(load_from_reg);
    s.with_registers(s.registers.spec_with_word(store_to_reg, ((value + 1) % 0x1_0000) as u16))
}

/// The machine after `store_to_reg` took the word in `load_from_reg` minus
/// one, modulo 2^16. The flags stay.
pub open spec fn spec_dec_d16(
    s: CpuState,
    load_from_reg: WordRegister,
    store_to_reg: WordRegister,
) -> CpuState {
    let value = s.registers.spec_word(load_from_reg);
    s.with_registers(s.registers.spec_with_word(store_to_reg, ((value - 1) % 0x1_0000) as u16))
}

/// Puts the word in `load_from_reg`, plus one, into `store_to_reg`.
pub fn inc_d16(cpu: &mut Cpu, load_from_reg: WordRegister, store_to_reg: WordRegister)
    ensures
        final(cpu)@ == spec_inc_d16(old(cpu)@, load_from_reg, store_to_reg),
{
    let value = cpu.registers.word(load_from_reg);
    let result = value.wrapping_add(1);
    assert(result == (value + 1) % 0x1_0000);

    cpu.registers.set_word(store_to_reg, result);
}

/// Puts the word in `load_from_reg`, minus one, into `store_to_reg`.
pub fn dec_d16(cpu: &mut Cpu, load_from_reg: WordRegister, store_to_reg: WordRegister)
    ensures
        final(cpu)@ == spec_dec_d16(old(cpu)@, load_from_reg, store_to_reg),
{
    let value = cpu.registers.word(load_from_reg);
    let result = value.wrapping_sub(1);
    assert(result == (value - 1) % 0x1_0000);

    cpu.registers.set_word(store_to_reg, result);
}

} // verus!
