//! The jumps: to an address, to HL, and relative to the program counter,
//! each with and without a condition.

use vstd::prelude::*;
use crate::bits::{signed, spec_signed};
use crate::cpu::{Cpu, CpuState};
use crate::opcode::table::{Cycle, OpLength};
use crate::opcode::types::InstructionResult;
use crate::registers::Registers;

verus! {

/// The machine after a jump to the word after the opcode.
pub open spec fn spec_jp(s: CpuState) -> CpuState {
    s.with_registers(Registers { pc: s.word_argument(1), ..s.registers })
}

/// The machine after a jump to the address in HL.
pub open spec fn spec_jp_hl(s: CpuState) -> CpuState {
    s.with_registers(Registers { pc: s.registers.spec_hl(), ..s.registers })
}

/// The machine after a jump under a condition to the word after the opcode.
pub open spec fn spec_jp_if(s: CpuState, taken: bool) -> CpuState {
    if taken {
        spec_jp(s)
    } else {
        s
    }
}

/// Where a relative jump at `pc` with the displacement byte `raw` leads:
/// the displacement counts from the address after the two bytes of the
/// instruction, modulo 2^16.
pub open spec fn spec_jr_target(pc: u16, raw: u8) -> u16 {
    ((pc + 2 + spec_signed(raw)) % 0x1_0000) as u16
}

/// The machine after a relative jump under a condition.
pub open spec fn spec_jr_if(s: CpuState, taken: bool) -> CpuState {
    if taken {
        s.with_registers(
            Registers { pc: spec_jr_target(s.registers.pc, s.byte_argument(1)), ..s.registers },
        )
    } else {
        s
    }
}

/// JP a16
pub fn jp_nn(cpu: &mut Cpu) -> (res: InstructionResult)
    ensures
        final(cpu)@ == spec_jp(old(cpu)@),
        res == (Cycle(12), OpLength(3)),
{
    let nn = cpu.read_word_argument(1);
    cpu.registers.set_pc(nn);

    (Cycle(12), OpLength(3))
}

/// JP (HL)
pub fn jp_hl(cpu: &mut Cpu) -> (res: InstructionResult)
    ensures
        final(cpu)@ == spec_jp_hl(old(cpu)@),
        res == (Cycle(4), OpLength(1)),
{
    let hl = cpu.registers.hl();

    cpu.registers.set_pc(hl);

    (Cycle(4), OpLength(1))
}

/// JP NZ,a16
pub fn jp_nz(cpu: &mut Cpu) -> (res: InstructionResult)
    ensures
        final(cpu)@ == spec_jp_if(old(cpu)@, !old(cpu)@.registers.flag.zero),
        res == (Cycle(if !old(cpu)@.registers.flag.zero { 16u8 } else { 12u8 }), OpLength(3)),
{
    let taken = !cpu.registers.flag.zero();
    jp_if(cpu, taken)
}

/// JP Z,a16
pub fn jp_z(cpu: &mut Cpu) -> (res: InstructionResult)
    ensures
        final(cpu)@ == spec_jp_if(old(cpu)@, old(cpu)@.registers.flag.zero),
        res == (Cycle(if old(cpu)@.registers.flag.zero { 16u8 } else { 12u8 }), OpLength(3)),
{
    let taken = cpu.registers.flag.zero();
    jp_if(cpu, taken)
}

/// JP NC,a16
pub fn jp_nc(cpu: &mut Cpu) -> (res: InstructionResult)
    ensures
        final(cpu)@ == spec_jp_if(old(cpu)@, !old(cpu)@.registers.flag.carry),
        res == (Cycle(if !old(cpu)@.registers.flag.carry { 16u8 } else { 12u8 }), OpLength(3)),
{
    let taken = !cpu.registers.flag.carry();
    jp_if(cpu, taken)
}

/// JP C,a16
pub fn jp_c(cpu: &mut Cpu) -> (res: InstructionResult)
    ensures
        final(cpu)@ == spec_jp_if(old(cpu)@, old(cpu)@.registers.flag.carry),
        res == (Cycle(if old(cpu)@.registers.flag.carry { 16u8 } else { 12u8 }), OpLength(3)),
{
    let taken = cpu.registers.flag.carry();
    jp_if(cpu, taken)
}

/// JP under a condition: `taken` tells whether the condition holds.
#[inline]
pub fn jp_if(cpu: &mut Cpu, taken: bool) -> (res: InstructionResult)
    ensures
        final(cpu)@ == spec_jp_if(old(cpu)@, taken),
        res == (Cycle(if taken { 16u8 } else { 12u8 }), OpLength(3)),
{
    let new_pc = cpu.read_word_argument(1);

    if taken {
        cpu.registers.set_pc(new_pc);
        (Cycle(16), OpLength(3))
    } else {
        (Cycle(12), OpLength(3))
    }
}

/// JR r8
pub fn jr_n(cpu: &mut Cpu) -> (res: InstructionResult)
    ensures
        final(cpu)@ == spec_jr_if(old(cpu)@, true),
        res == (Cycle(12), OpLength(2)),
{
    jr_if(cpu, true)
}

/// JR NZ,r8
pub fn jr_nz(cpu: &mut Cpu) -> (res: InstructionResult)
    ensures
        final(cpu)@ == spec_jr_if(old(cpu)@, !old(cpu)@.registers.flag.zero),
        res == (Cycle(if !old(cpu)@.registers.flag.zero { 12u8 } else { 8u8 }), OpLength(2)),
{
    let taken = !cpu.registers.flag.zero();
    jr_if(cpu, taken)
}

/// JR Z,r8
pub fn jr_z(cpu: &mut Cpu) -> (res: InstructionResult)
    ensures
        final(cpu)@ == spec_jr_if(old(cpu)@, old(cpu)@.registers.flag.zero),
        res == (Cycle(if old(cpu)@.registers.flag.zero { 12u8 } else { 8u8 }), OpLength(2)),
{
    let taken = cpu.registers.flag.zero();
    jr_if(cpu, taken)
}

/// JR NC,r8
pub fn jr_nc(cpu: &mut Cpu) -> (res: InstructionResult)
    ensures
        final(cpu)@ == spec_jr_if(old(cpu)@, !old(cpu)@.registers.flag.carry),
        res == (Cycle(if !old(cpu)@.registers.flag.carry { 12u8 } else { 8u8 }), OpLength(2)),
{
    let taken = !cpu.registers.flag.carry();
    jr_if(cpu, taken)
}

/// JR C,r8
pub fn jr_c(cpu: &mut Cpu) -> (res: InstructionResult)
    ensures
        final(cpu)@ == spec_jr_if(old(cpu)@, old(cpu)@.registers.flag.carry),
        res == (Cycle(if old(cpu)@.registers.flag.carry { 12u8 } else { 8u8 }), OpLength(2)),
{
    let taken = cpu.registers.flag.carry();
    jr_if(cpu, taken)
}

/// JR under a condition: `taken` tells whether the condition holds.
#[inline]
pub fn jr_if(cpu: &mut Cpu, taken: bool) -> (res: InstructionResult)
    ensures
        final(cpu)@ == spec_jr_if(old(cpu)@, taken),
        res == (Cycle(if taken { 12u8 } else { 8u8 }), OpLength(2)),
{
    let pc = cpu.registers.pc();
    let pc_offset = signed(cpu.read_byte_argument(1));

    if taken {
        let new_pc = pc.wrapping_add(2).wrapping_add_signed(pc_offset as i16);

        cpu.registers.set_pc(new_pc);

        (Cycle(12), OpLength(2))
    } else {
        (Cycle(8), OpLength(2))
    }
}

} // verus!
