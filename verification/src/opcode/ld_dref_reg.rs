//! Loads from a byte register, or from the byte after the opcode, into
//! memory: through a pair, through HL with a step, through an address
//! after the opcode, and into the high page.

use vstd::prelude::*;
use super::ld_reg_dref::{high_address, spec_high_address};
use super::ld_utils::{ld, ldd_instruction, ldi_instruction, spec_ld, spec_ld_step};
use crate::cpu::Cpu;
use crate::mmu::Error;
use crate::opcode::table::{Cycle, OpLength};
use crate::opcode::types::{done_if_stored, InstructionResult, LoadFrom, Outcome, StoreTo};
use crate::registers::{ByteRegister, WordRegister};

verus! {

/// LD (HL+),A
pub fn ldi_hl_dref_a(cpu: &mut Cpu) -> (res: Result<InstructionResult, Error>)
    ensures
        (Outcome { state: final(cpu)@, result: res }) == done_if_stored(
            old(cpu)@,
            spec_ld_step(
                old(cpu)@,
                LoadFrom::Reg(ByteRegister::A),
                StoreTo::RegDref(WordRegister::HL),
                1,
            ),
            8,
            1,
        ),
{
    let result = ld_hl_dref_a(cpu);
    ldi_instruction(cpu, result)
}

/// LD (HL-),A
pub fn ldd_hl_dref_a(cpu: &mut Cpu) -> (res: Result<InstructionResult, Error>)
    ensures
        (Outcome { state: final(cpu)@, result: res }) == done_if_stored(
            old(cpu)@,
            spec_ld_step(
                old(cpu)@,
                LoadFrom::Reg(ByteRegister::A),
                StoreTo::RegDref(WordRegister::HL),
                -1,
            ),
            8,
            1,
        ),
{
    let result = ld_hl_dref_a(cpu);
    ldd_instruction(cpu, result)
}

/// LD (a16),A
pub fn ld_a16_dref_a(cpu: &mut Cpu) -> (res: Result<InstructionResult, Error>)
    ensures
        (Outcome { state: final(cpu)@, result: res }) == done_if_stored(
            old(cpu)@,
            spec_ld(old(cpu)@, LoadFrom::Reg(ByteRegister::A), StoreTo::PcOffsetDref(1)),
            16,
            3,
        ),
{
    ld(cpu, &LoadFrom::Reg(ByteRegister::A), &StoreTo::PcOffsetDref(1))?;

    Ok((Cycle(16), OpLength(3)))
}

/// LD (BC),A
pub fn ld_bc_dref_a(cpu: &mut Cpu) -> (res: Result<InstructionResult, Error>)
    ensures
        (Outcome { state: final(cpu)@, result: res }) == done_if_stored(
            old(cpu)@,
            spec_ld(
                old(cpu)@,
                LoadFrom::Reg(ByteRegister::A),
                StoreTo::RegDref(WordRegister::BC),
            ),
            8,
            1,
        ),
{
    ld(cpu, &LoadFrom::Reg(ByteRegister::A), &StoreTo::RegDref(WordRegister::BC))?;

    Ok((Cycle(8), OpLength(1)))
}

/// LD (DE),A
pub fn ld_de_dref_a(cpu: &mut Cpu) -> (res: Result<InstructionResult, Error>)
    ensures
        (Outcome { state: final(cpu)@, result: res }) == done_if_stored(
            old(cpu)@,
            spec_ld(
                old(cpu)@,
                LoadFrom::Reg(ByteRegister::A),
                StoreTo::RegDref(WordRegister::DE),
            ),
            8,
            1,
        ),
{
    ld(cpu, &LoadFrom::Reg(ByteRegister::A), &StoreTo::RegDref(WordRegister::DE))?;

    Ok((Cycle(8), OpLength(1)))
}

/// LD (HL),A
pub fn ld_hl_dref_a(cpu: &mut Cpu) -> (res: Result<InstructionResult, Error>)
    ensures
        (Outcome { state: final(cpu)@, result: res }) == done_if_stored(
            old(cpu)@,
            spec_ld(
                old(cpu)@,
                LoadFrom::Reg(ByteRegister::A),
                StoreTo::RegDref(WordRegister::HL),
            ),
            8,
            1,
        ),
{
    ld(cpu, &LoadFrom::Reg(ByteRegister::A), &StoreTo::RegDref(WordRegister::HL))?;

    Ok((Cycle(8), OpLength(1)))
}

/// LD (HL),B
pub fn ld_hl_dref_b(cpu: &mut Cpu) -> (res: Result<InstructionResult, Error>)
    ensures
        (Outcome { state: final(cpu)@, result: res }) == done_if_stored(
            old(cpu)@,
            spec_ld(
                old(cpu)@,
                LoadFrom::Reg(ByteRegister::B),
                StoreTo::RegDref(WordRegister::HL),
            ),
            8,
            1,
        ),
{
    ld(cpu, &LoadFrom::Reg(ByteRegister::B), &StoreTo::RegDref(WordRegister::HL))?;

    Ok((Cycle(8), OpLength(1)))
}

/// LD (HL),C
pub fn ld_hl_dref_c(cpu: &mut Cpu) -> (res: Result<InstructionResult, Error>)
    ensures
        (Outcome { state: final(cpu)@, result: res }) == done_if_stored(
            old(cpu)@,
            spec_ld(
                old(cpu)@,
                LoadFrom::Reg(ByteRegister::C),
                StoreTo::RegDref(WordRegister::HL),
            ),
            8,
            1,
        ),
{
    ld(cpu, &LoadFrom::Reg(ByteRegister::C), &StoreTo::RegDref(WordRegister::HL))?;

    Ok((Cycle(8), OpLength(1)))
}

/// LD (HL),D
pub fn ld_hl_dref_d(cpu: &mut Cpu) -> (res: Result<InstructionResult, Error>)
    ensures
        (Outcome { state: final(cpu)@, result: res }) == done_if_stored(
            old(cpu)@,
            spec_ld(
                old(cpu)@,
                LoadFrom::Reg(ByteRegister::D),
                StoreTo::RegDref(WordRegister::HL),
            ),
            8,
            1,
        ),
{
    ld(cpu, &LoadFrom::Reg(ByteRegister::D), &StoreTo::RegDref(WordRegister::HL))?;

    Ok((Cycle(8), OpLength(1)))
}

/// LD (HL),E
pub fn ld_hl_dref_e(cpu: &mut Cpu) -> (res: Result<InstructionResult, Error>)
    ensures
        (Outcome { state: final(cpu)@, result: res }) == done_if_stored(
            old(cpu)@,
            spec_ld(
                old(cpu)@,
                LoadFrom::Reg(ByteRegister::E),
                StoreTo::RegDref(WordRegister::HL),
            ),
            8,
            1,
        ),
{
    ld(cpu, &LoadFrom::Reg(ByteRegister::E), &StoreTo::RegDref(WordRegister::HL))?;

    Ok((Cycle(8), OpLength(1)))
}

/// LD (HL),H
pub fn ld_hl_dref_h(cpu: &mut Cpu) -> (res: Result<InstructionResult, Error>)
    ensures
        (Outcome { state: final(cpu)@, result: res }) == done_if_stored(
            old(cpu)@,
            spec_ld(
                old(cpu)@,
                LoadFrom::Reg(ByteRegister::H),
                StoreTo::RegDref(WordRegister::HL),
            ),
            8,
            1,
        ),
{
    ld(cpu, &LoadFrom::Reg(ByteRegister::H), &StoreTo::RegDref(WordRegister::HL))?;

    Ok((Cycle(8), OpLength(1)))
}

/// LD (HL),L
pub fn ld_hl_dref_l(cpu: &mut Cpu) -> (res: Result<InstructionResult, Error>)
    ensures
        (Outcome { state: final(cpu)@, result: res }) == done_if_stored(
            old(cpu)@,
            spec_ld(
                old(cpu)@,
                LoadFrom::Reg(ByteRegister::L),
                StoreTo::RegDref(WordRegister::HL),
            ),
            8,
            1,
        ),
{
    ld(cpu, &LoadFrom::Reg(ByteRegister::L), &StoreTo::RegDref(WordRegister::HL))?;

    Ok((Cycle(8), OpLength(1)))
}

/// LD (HL),d8
pub fn ld_hl_dref_d8(cpu: &mut Cpu) -> (res: Result<InstructionResult, Error>)
    ensures
        (Outcome { state: final(cpu)@, result: res }) == done_if_stored(
            old(cpu)@,
            spec_ld(old(cpu)@, LoadFrom::PcOffset(1), StoreTo::RegDref(WordRegister::HL)),
            12,
            2,
        ),
{
    ld(cpu, &LoadFrom::PcOffset(1), &StoreTo::RegDref(WordRegister::HL))?;

    Ok((Cycle(12), OpLength(2)))
}

/// LDH (a8),A
pub fn ldh_a8_dref_a(cpu: &mut Cpu) -> (res: Result<InstructionResult, Error>)
    ensures
        (Outcome { state: final(cpu)@, result: res }) == done_if_stored(
            old(cpu)@,
            old(cpu)@.store_byte(
                spec_high_address(old(cpu)@.byte_argument(1)),
                old(cpu)@.registers.a,
            ),
            12,
            2,
        ),
{
    let addr = high_address(cpu.read_byte_argument(1));
    let value = cpu.registers.a();
    cpu.mmu.write_byte(addr, value)?;

    Ok((Cycle(12), OpLength(2)))
}

/// LD (C),A
pub fn ld_c_dref_a(cpu: &mut Cpu) -> (res: Result<InstructionResult, Error>)
    ensures
        (Outcome { state: final(cpu)@, result: res }) == done_if_stored(
            old(cpu)@,
            old(cpu)@.store_byte(spec_high_address(old(cpu)@.registers.c), old(cpu)@.registers.a),
            8,
            2,
        ),
{
    let addr = high_address(cpu.registers.c());
    let value = cpu.registers.a();
    cpu.mmu.write_byte(addr, value)?;

    Ok((Cycle(8), OpLength(2)))
}

} // verus!
