//! LD rr,d16: a word register takes the word after the opcode.

use vstd::prelude::*;
use crate::cpu::{Cpu, CpuState};
use crate::opcode::table::{Cycle, OpLength};
use crate::opcode::types::InstructionResult;
use crate::registers::WordRegister;

verus! {

/// The machine after `reg_setter` took the word after the opcode.
pub open spec fn spec_ld_reg_d16(s: CpuState, reg_setter: WordRegister) -> CpuState {
    s.with_registers(s.registers.spec_with_word(reg_setter, s.word_argument(1)))
}

/// LD BC,d16
pub fn ld_bc_d16(cpu: &mut Cpu) -> (res: InstructionResult)
    ensures
        final(cpu)@ == spec_ld_reg_d16(old(cpu)@, WordRegister::BC),
        res == (Cycle(12), OpLength(3)),
{
    ld_reg_d16(cpu, WordRegister::BC)
}

/// LD DE,d16
pub fn ld_de_d16(cpu: &mut Cpu) -> (res: InstructionResult)
    ensures
        final(cpu)@ == spec_ld_reg_d16(old(cpu)@, WordRegister::DE),
        res == (Cycle(12), OpLength(3)),
{
    ld_reg_d16(cpu, WordRegister::DE)
}

/// LD HL,d16
pub fn ld_hl_d16(cpu: &mut Cpu) -> (res: InstructionResult)
    ensures
        final(cpu)@ == spec_ld_reg_d16(old(cpu)@, WordRegister::HL),
        res == (Cycle(12), OpLength(3)),
{
    ld_reg_d16(cpu, WordRegister::HL)
}

/// LD SP,d16
pub fn ld_sp_d16(cpu: &mut Cpu) -> (res: InstructionResult)
    ensures
        final(cpu)@ == spec_ld_reg_d16(old(cpu)@, WordRegister::SP),
        res == (Cycle(12), OpLength(3)),
{
    ld_reg_d16(cpu, WordRegister::SP)
}

/// LD rr,d16: loads the word after the opcode into the register that
/// `reg_setter` names.
pub fn ld_reg_d16(cpu: &mut Cpu, reg_setter: WordRegister) -> (res: InstructionResult)
    ensures
        final(cpu)@ == spec_ld_reg_d16(old(cpu)@, reg_setter),
        res == (Cycle(12), OpLength(3)),
{
    let d16 = cpu.read_word_argument(1);
    cpu.registers.set_word(reg_setter, d16);

    (Cycle(12), OpLength(3))
}

} // verus!
