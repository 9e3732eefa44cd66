//! What the loads are made of: reading a byte from its source, writing it
//! to its target, and stepping HL afterwards.

use vstd::prelude::*;
use crate::cpu::{Cpu, CpuState};
use crate::mmu::Error;
use crate::opcode::types::{stored, InstructionResult, LoadFrom, StoreTo};
use crate::registers::{ByteRegister, WordRegister};

verus! {

/// The byte that a load takes from `load_from`.
pub open spec fn spec_load(s: CpuState, load_from: LoadFrom) -> u8 {
    match load_from {
        LoadFrom::Reg(from_reg) => s.registers.spec_byte(from_reg),
        LoadFrom::RegDref(from_reg) => s.byte_at(s.registers.spec_word(from_reg)),
        LoadFrom::PcOffset(offset) => s.byte_argument(offset),
    }
}

/// The machine after `v` was put to `store_to`, or the error that the
/// store ends in. A register takes any byte; memory takes it at a mapped
/// address only.
pub open spec fn spec_store(s: CpuState, store_to: StoreTo, v: u8) -> Result<CpuState, Error> {
    match store_to {
        StoreTo::Reg(to_reg) => Ok(s.with_registers(s.registers.spec_with_byte(to_reg, v))),
        StoreTo::RegDref(the_reg) => s.store_byte(s.registers.spec_word(the_reg), v),
        StoreTo::PcOffsetDref(offset) => s.store_byte(s.word_argument(offset), v),
    }
}

/// The machine after a load from `load_from` to `store_to`.
pub open spec fn spec_ld(s: CpuState, load_from: LoadFrom, store_to: StoreTo) -> Result<
    CpuState,
    Error,
> {
    spec_store(s, store_to, spec_load(s, load_from))
}

/// The machine with HL moved by `delta`, modulo 2^16.
pub open spec fn spec_step_hl(s: CpuState, delta: int) -> CpuState {
    s.with_registers(
        s.registers.spec_with_hl(((s.registers.spec_hl() + delta) % 0x1_0000) as u16),
    )
}

/// The machine after a load that moves HL by `delta` once the byte is
/// stored. Where the store is refused HL stays too.
pub open spec fn spec_ld_step(
    s: CpuState,
    load_from: LoadFrom,
    store_to: StoreTo,
    delta: int,
) -> Result<CpuState, Error> {
    match spec_ld(s, load_from, store_to) {
        Ok(state) => Ok(spec_step_hl(state, delta)),
        Err(e) => Err(e),
    }
}

/// Moves HL up by one after the instruction that ended in `result`, if it
/// ran to its end, and hands `result` on.
pub fn ldi_instruction(cpu: &mut Cpu, result: Result<InstructionResult, Error>) -> (res: Result<
    InstructionResult,
    Error,
>)
    ensures
        res == result,
        final(cpu)@ == if result is Ok {
            spec_step_hl(old(cpu)@, 1)
        } else {
            old(cpu)@
        },
{
    if result.is_ok() {
        let hl = cpu.registers.hl();
        cpu.registers.set_hl(hl.wrapping_add(1));
    }
    result
}

/// Moves HL down by one after the instruction that ended in `result`, if
/// it ran to its end, and hands `result` on.
pub fn ldd_instruction(cpu: &mut Cpu, result: Result<InstructionResult, Error>) -> (res: Result<
    InstructionResult,
    Error,
>)
    ensures
        res == result,
        final(cpu)@ == if result is Ok {
            spec_step_hl(old(cpu)@, -1)
        } else {
            old(cpu)@
        },
{
    if result.is_ok() {
        let hl = cpu.registers.hl();
        cpu.registers.set_hl(hl.wrapping_sub(1));
    }
    result
}

/// Reads the byte `offset` bytes after the program counter.
#[inline]
pub fn read_byte_from_pc_offset(cpu: &Cpu, offset: u16) -> (value: u8)
    ensures
        value == cpu@.byte_argument(offset),
{
    cpu.read_byte_argument(offset)
}

/// Reads the word `offset` bytes after the program counter.
#[inline]
pub fn read_word_from_pc_offset(cpu: &Cpu, offset: u16) -> (value: u16)
    ensures
        value == cpu@.word_argument(offset),
{
    cpu.read_word_argument(offset)
}

/// Reads the byte register that `from_reg` names.
#[inline]
pub fn load_from_reg(cpu: &Cpu, from_reg: ByteRegister) -> (value: u8)
    ensures
        value == cpu@.registers.spec_byte(from_reg),
{
    cpu.registers.byte(from_reg)
}

/// Reads the byte that the word register `from_reg` points to.
#[inline]
pub fn load_byte_from_reg_dref(cpu: &Cpu, from_reg: WordRegister) -> (value: u8)
    ensures
        value == cpu@.byte_at(cpu@.registers.spec_word(from_reg)),
{
    let addr = cpu.registers.word(from_reg);

    cpu.mmu.read_byte(addr)
}

/// Puts `v` into the byte register that `to_reg` names. It never fails.
#[inline]
pub fn store_to_reg(cpu: &mut Cpu, to_reg: ByteRegister, v: u8) -> (res: Result<(), Error>)
    ensures
        stored(old(cpu)@, spec_store(old(cpu)@, StoreTo::Reg(to_reg), v), final(cpu)@, res),
        res is Ok,
{
    cpu.registers.set_byte(to_reg, v);

    Ok(())
}

/// Stores `v` at the address that the word register `the_reg` holds.
#[inline]
pub fn store_to_reg_dref(cpu: &mut Cpu, the_reg: WordRegister, v: u8) -> (res: Result<(), Error>)
    ensures
        stored(old(cpu)@, spec_store(old(cpu)@, StoreTo::RegDref(the_reg), v), final(cpu)@, res),
{
    let the_addr = cpu.registers.word(the_reg);

    cpu.mmu.write_byte(the_addr, v)
}

/// Stores `v` at the address that the word `offset` bytes after the
/// program counter holds.
pub fn store_to_pc_offset_dref(cpu: &mut Cpu, offset: u16, v: u8) -> (res: Result<(), Error>)
    ensures
        stored(
            old(cpu)@,
            spec_store(old(cpu)@, StoreTo::PcOffsetDref(offset), v),
            final(cpu)@,
            res,
        ),
{
    let the_addr = cpu.read_word_argument(offset);
    cpu.mmu.write_byte(the_addr, v)?;

    Ok(())
}

/// Reads the byte at `load_from`.
#[inline]
pub fn load(cpu: &Cpu, load_from: &LoadFrom) -> (value: u8)
    ensures
        value == spec_load(cpu@, *load_from),
{
    match load_from {
        LoadFrom::Reg(from_reg) => load_from_reg(cpu, *from_reg),
        LoadFrom::RegDref(from_reg) => load_byte_from_reg_dref(cpu, *from_reg),
        LoadFrom::PcOffset(offset) => read_byte_from_pc_offset(cpu, *offset),
    }
}

/// Puts `v` to `store_to`, or reports that it is not mapped and leaves the
/// machine as it was.
#[inline]
pub fn store(cpu: &mut Cpu, store_to: &StoreTo, v: u8) -> (res: Result<(), Error>)
    ensures
        stored(old(cpu)@, spec_store(old(cpu)@, *store_to, v), final(cpu)@, res),
{
    match store_to {
        StoreTo::Reg(to_reg) => store_to_reg(cpu, *to_reg, v),
        StoreTo::RegDref(the_reg) => store_to_reg_dref(cpu, *the_reg, v),
        StoreTo::PcOffsetDref(offset) => store_to_pc_offset_dref(cpu, *offset, v),
    }
}

/// Loads the byte at `load_from` to `store_to`.
#[inline]
pub fn ld(cpu: &mut Cpu, load_from: &LoadFrom, store_to: &StoreTo) -> (res: Result<(), Error>)
    ensures
        stored(old(cpu)@, spec_ld(old(cpu)@, *load_from, *store_to), final(cpu)@, res),
{
    let value = load(cpu, load_from);

    store(cpu, store_to, value)
}

/// Loads the byte at `load_from` to `store_to`, then moves HL up by one.
pub fn ldi(cpu: &mut Cpu, load_from: &LoadFrom, store_to: &StoreTo) -> (res: Result<(), Error>)
    ensures
        stored(old(cpu)@, spec_ld_step(old(cpu)@, *load_from, *store_to, 1), final(cpu)@, res),
{
    ld(cpu, load_from, store_to)?;

    let hl = cpu.registers.hl();
    cpu.registers.set_hl(hl.wrapping_add(1));

    Ok(())
}

/// Loads the byte at `load_from` to `store_to`, then moves HL down by one.
pub fn ldd(cpu: &mut Cpu, load_from: &LoadFrom, store_to: &StoreTo) -> (res: Result<(), Error>)
    ensures
        stored(old(cpu)@, spec_ld_step(old(cpu)@, *load_from, *store_to, -1), final(cpu)@, res),
{
    ld(cpu, load_from, store_to)?;

    let hl = cpu.registers.hl();
    cpu.registers.set_hl(hl.wrapping_sub(1));

    Ok(())
}

} // verus!
