//! Loads of words between SP, HL and memory.

use vstd::prelude::*;
use crate::bits::{signed, spec_signed};
use crate::carry_test::{add_signed, carry_add_signed, CarryTestResult};
use crate::cpu::{Cpu, CpuState};
use crate::mmu::Error;
use crate::opcode::table::{Cycle, OpLength};
use crate::opcode::types::{done_if_stored, InstructionResult, Outcome};
use crate::registers::{Flag, Registers};

verus! {

/// The machine after LD SP,HL.
pub open spec fn spec_ld_sp_hl(s: CpuState) -> CpuState {
    s.with_registers(Registers { sp: s.registers.spec_hl(), ..s.registers })
}

/// The machine after LD (a16),SP: SP stands, high byte first, at the
/// address that the word after the opcode holds. Where the store is
/// refused the load ends in its error.
pub open spec fn spec_ld_a16_sp(s: CpuState) -> Result<CpuState, Error> {
    s.store_word(s.word_argument(1), s.registers.sp)
}

/// The machine after LD HL,SP+r8: HL is SP plus the signed byte after the
/// opcode. Z = 0, N = 0, H and C the carries of the low bytes out of bit 3
/// and out of bit 7.
pub open spec fn spec_ld_hl_sp_n(s: CpuState) -> CpuState {
    let r = add_signed(s.registers.sp, spec_signed(s.byte_argument(1)));
    s.with_registers(
        Registers {
            flag: Flag { zero: false, sub: false, half_carry: r.half_carry, carry: r.carry },
            ..s.registers.spec_with_hl(r.val)
        },
    )
}

/// LD SP,HL
pub fn ld_sp_hl(cpu: &mut Cpu) -> (res: InstructionResult)
    ensures
        final(cpu)@ == spec_ld_sp_hl(old(cpu)@),
        res == (Cycle(8), OpLength(1)),
{
    let hl = cpu.registers.hl();
    cpu.registers.set_sp(hl);

    (Cycle(8), OpLength(1))
}

/// LD (a16),SP
pub fn ld_a16_sp(cpu: &mut Cpu) -> (res: Result<InstructionResult, Error>)
    ensures
        (Outcome { state: final(cpu)@, result: res }) == done_if_stored(
            old(cpu)@,
            spec_ld_a16_sp(old(cpu)@),
            20,
            3,
        ),
{
    let arg = cpu.read_word_argument(1);
    let reg_sp = cpu.registers.sp();

    cpu.mmu.write_word(arg, reg_sp)?;

    Ok((Cycle(20), OpLength(3)))
}

/// LD HL,SP+r8
pub fn ld_hl_sp_n(cpu: &mut Cpu) -> (res: InstructionResult)
    ensures
        final(cpu)@ == spec_ld_hl_sp_n(old(cpu)@),
        res == (Cycle(12), OpLength(2)),
{
    let raw_arg = cpu.read_byte_argument(1);

    let signed_arg = signed(raw_arg);

    let sp = cpu.registers.sp();

    let CarryTestResult { val: new_hl, half_carry, carry } = carry_add_signed(sp, signed_arg);

    cpu.registers.set_hl(new_hl);

    cpu.registers.flag.set_zero(false);
    cpu.registers.flag.set_sub(false);
    cpu.registers.flag.set_half_carry(half_carry);
    cpu.registers.flag.set_carry(carry);

    (Cycle(12), OpLength(2))
}

} // verus!
