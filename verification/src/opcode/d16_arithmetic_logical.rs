//! Arithmetic on words: the increments and decrements of the word
//! registers, the additions to HL and the signed addition to SP.

use vstd::prelude::*;
use super::arithmetic_logical_utils::{dec_d16, inc_d16, spec_dec_d16, spec_inc_d16};
use crate::bits::{signed, spec_signed};
use crate::carry_test::{add_signed, add_words, carry_add_signed, CarryTest, CarryTestResult};
use crate::cpu::{Cpu, CpuState};
use crate::opcode::table::{Cycle, OpLength};
use crate::opcode::types::InstructionResult;
use crate::registers::{Flag, Registers, WordRegister};

verus! {

/// ADD HL,rr: HL becomes HL + `value`. Z as it was, N = 0, H the carry out
/// of bit 11, C the carry out of bit 15.
pub open spec fn spec_add_hl(s: CpuState, value: u16) -> CpuState {
    let r = add_words(s.registers.spec_hl(), value);
    s.with_registers(
        Registers {
            flag: Flag {
                zero: s.registers.flag.zero,
                sub: false,
                half_carry: r.half_carry,
                carry: r.carry,
            },
            ..s.registers.spec_with_hl(r.val)
        },
    )
}

/// ADD SP,r8: SP becomes SP plus the signed byte after the opcode. Z = 0,
/// N = 0, H and C the carries of the low bytes out of bit 3 and out of
/// bit 7.
pub open spec fn spec_add_sp_r8(s: CpuState) -> CpuState {
    let r = add_signed(s.registers.sp, spec_signed(s.byte_argument(1)));
    s.with_registers(
        Registers {
            sp: r.val,
            flag: Flag { zero: false, sub: false, half_carry: r.half_carry, carry: r.carry },
            ..s.registers
        },
    )
}

// Affect flags: - 0 H C (Z N H C).
pub fn add_hl(cpu: &mut Cpu, load_from_reg: WordRegister) -> (res: (Cycle, OpLength))
    ensures
        final(cpu)@ == spec_add_hl(old(cpu)@, old(cpu)@.registers.spec_word(load_from_reg)),
        res == (Cycle(8), OpLength(1)),
{
    let hl = cpu.registers.hl();
    let value_to_add = cpu.registers.word(load_from_reg);

    let CarryTestResult { val: result_value, half_carry, carry } = hl.carry_add(value_to_add);

    cpu.registers.set_hl(result_value);

    cpu.registers.flag.set_sub(false);
    cpu.registers.flag.set_carry(carry);
    cpu.registers.flag.set_half_carry(half_carry);

    (Cycle(8), OpLength(1))
}

/// INC BC
pub fn inc_bc(cpu: &mut Cpu) -> (res: (Cycle, OpLength))
    ensures
        final(cpu)@ == spec_inc_d16(old(cpu)@, WordRegister::BC, WordRegister::BC),
        res == (Cycle(8), OpLength(1)),
{
    inc_d16(cpu, WordRegister::BC, WordRegister::BC);

    (Cycle(8), OpLength(1))
}

/// INC DE
pub fn inc_de(cpu: &mut Cpu) -> (res: (Cycle, OpLength))
    ensures
        final(cpu)@ == spec_inc_d16(old(cpu)@, WordRegister::DE, WordRegister::DE),
        res == (Cycle(8), OpLength(1)),
{
    inc_d16(cpu, WordRegister::DE, WordRegister::DE);

    (Cycle(8), OpLength(1))
}

/// INC HL
pub fn inc_hl(cpu: &mut Cpu) -> (res: (Cycle, OpLength))
    ensures
        final(cpu)@ == spec_inc_d16(old(cpu)@, WordRegister::HL, WordRegister::HL),
        res == (Cycle(8), OpLength(1)),
{
    inc_d16(cpu, WordRegister::HL, WordRegister::HL);

    (Cycle(8), OpLength(1))
}

/// INC SP
pub fn inc_sp(cpu: &mut Cpu) -> (res: (Cycle, OpLength))
    ensures
        final(cpu)@ == spec_inc_d16(old(cpu)@, WordRegister::SP, WordRegister::SP),
        res == (Cycle(8), OpLength(1)),
{
    inc_d16(cpu, WordRegister::SP, WordRegister::SP);

    (Cycle(8), OpLength(1))
}

/// DEC BC
pub fn dec_bc(cpu: &mut Cpu) -> (res: (Cycle, OpLength))
    ensures
        final(cpu)@ == spec_dec_d16(old(cpu)@, WordRegister::BC, WordRegister::BC),
        res == (Cycle(8), OpLength(1)),
{
    dec_d16(cpu, WordRegister::BC, WordRegister::BC);

    (Cycle(8), OpLength(1))
}

/// DEC DE
pub fn dec_de(cpu: &mut Cpu) -> (res: (Cycle, OpLength))
    ensures
        final(cpu)@ == spec_dec_d16(old(cpu)@, WordRegister::DE, WordRegister::DE),
        res == (Cycle(8), OpLength(1)),
{
    dec_d16(cpu, WordRegister::DE, WordRegister::DE);

    (Cycle(8), OpLength(1))
}

/// DEC HL
pub fn dec_hl(cpu: &mut Cpu) -> (res: (Cycle, OpLength))
    ensures
        final(cpu)@ == spec_dec_d16(old(cpu)@, WordRegister::HL, WordRegister::HL),
        res == (Cycle(8), OpLength(1)),
{
    dec_d16(cpu, WordRegister::HL, WordRegister::HL);

    (Cycle(8), OpLength(1))
}

/// DEC SP
pub fn dec_sp(cpu: &mut Cpu) -> (res: (Cycle, OpLength))
    ensures
        final(cpu)@ == spec_dec_d16(old(cpu)@, WordRegister::SP, WordRegister::SP),
        res == (Cycle(8), OpLength(1)),
{
    dec_d16(cpu, WordRegister::SP, WordRegister::SP);

    (Cycle(8), OpLength(1))
}

/// ADD HL,BC
pub fn add_hl_bc(cpu: &mut Cpu) -> (res: (Cycle, OpLength))
    ensures
        final(cpu)@ == spec_add_hl(old(cpu)@, old(cpu)@.registers.spec_bc()),
        res == (Cycle(8), OpLength(1)),
{
    add_hl(cpu, WordRegister::BC)
}

/// ADD HL,DE
pub fn add_hl_de(cpu: &mut Cpu) -> (res: (Cycle, OpLength))
    ensures
        final(cpu)@ == spec_add_hl(old(cpu)@, old(cpu)@.registers.spec_de()),
        res == (Cycle(8), OpLength(1)),
{
    add_hl(cpu, WordRegister::DE)
}

/// ADD HL,HL
pub fn add_hl_hl(cpu: &mut Cpu) -> (res: (Cycle, OpLength))
    ensures
        final(cpu)@ == spec_add_hl(old(cpu)@, old(cpu)@.registers.spec_hl()),
        res == (Cycle(8), OpLength(1)),
{
    add_hl(cpu, WordRegister::HL)
}

/// ADD HL,SP
pub fn add_hl_sp(cpu: &mut Cpu) -> (res: (Cycle, OpLength))
    ensures
        final(cpu)@ == spec_add_hl(old(cpu)@, old(cpu)@.registers.sp),
        res == (Cycle(8), OpLength(1)),
{
    add_hl(cpu, WordRegister::SP)
}

/// ADD SP,r8
pub fn add_sp_r8(cpu: &mut Cpu) -> (res: InstructionResult)
    ensures
        final(cpu)@ == spec_add_sp_r8(old(cpu)@),
        res == (Cycle(16), OpLength(2)),
{
    let sp = cpu.registers.sp();
    let raw_r8 = cpu.read_byte_argument(1);

    let signed_r8 = signed(raw_r8);

    let CarryTestResult { val: new_sp, half_carry, carry } = carry_add_signed(sp, signed_r8);

    cpu.registers.set_sp(new_sp);
    cpu.registers.flag.set_zero(false);
    cpu.registers.flag.set_sub(false);
    cpu.registers.flag.set_carry(carry);
    cpu.registers.flag.set_half_carry(half_carry);

    (Cycle(16), OpLength(2))
}

} // verus!
