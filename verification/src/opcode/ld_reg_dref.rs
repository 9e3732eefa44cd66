//! Loads from memory into a byte register: through a pair, through HL
//! with a step, through an address after the opcode, and from the high
//! page.

use vstd::prelude::*;
use super::ld_utils::{ld, ldd, ldi, read_word_from_pc_offset, spec_ld, spec_ld_step, store_to_reg};
use crate::cpu::{Cpu, CpuState};
use crate::mmu::{Addr, Error};
use crate::opcode::table::{Cycle, OpLength};
use crate::opcode::types::{LoadFrom, StoreTo};
use crate::registers::{ByteRegister, Registers, WordRegister};

verus! {

/// The address in the high page that the byte `low` selects: 0xFF00 + `low`.
pub open spec fn spec_high_address(low: u8) -> Addr {
    (0xFF00 + low) as u16
}

/// The machine after A took the byte at `addr`.
pub open spec fn spec_ld_a_from(s: CpuState, addr: Addr) -> CpuState {
    s.with_registers(Registers { a: s.byte_at(addr), ..s.registers })
}

/// The address in the high page that the byte `low` selects.
pub fn high_address(low: u8) -> (addr: Addr)
    ensures
        addr == spec_high_address(low),
{
    0xFF00 + low as u16
}

/// LD A,(BC)
pub fn ld_a_bc_dref(cpu: &mut Cpu) -> (res: (Cycle, OpLength))
    ensures
        spec_ld(
            old(cpu)@,
            LoadFrom::RegDref(WordRegister::BC),
            StoreTo::Reg(ByteRegister::A),
        ) == Ok::<CpuState, Error>(final(cpu)@),
        res == (Cycle(8), OpLength(1)),
{
    let _ = ld(
        cpu,
        &LoadFrom::RegDref(WordRegister::BC),
        &StoreTo::Reg(ByteRegister::A),
    );

    (Cycle(8), OpLength(1))
}

/// LD A,(DE)
pub fn ld_a_de_dref(cpu: &mut Cpu) -> (res: (Cycle, OpLength))
    ensures
        spec_ld(
            old(cpu)@,
            LoadFrom::RegDref(WordRegister::DE),
            StoreTo::Reg(ByteRegister::A),
        ) == Ok::<CpuState, Error>(final(cpu)@),
        res == (Cycle(8), OpLength(1)),
{
    let _ = ld(
        cpu,
        &LoadFrom::RegDref(WordRegister::DE),
        &StoreTo::Reg(ByteRegister::A),
    );

    (Cycle(8), OpLength(1))
}

/// LD A,(HL)
pub fn ld_a_hl_dref(cpu: &mut Cpu) -> (res: (Cycle, OpLength))
    ensures
        spec_ld(
            old(cpu)@,
            LoadFrom::RegDref(WordRegister::HL),
            StoreTo::Reg(ByteRegister::A),
        ) == Ok::<CpuState, Error>(final(cpu)@),
        res == (Cycle(8), OpLength(1)),
{
    let _ = ld(
        cpu,
        &LoadFrom::RegDref(WordRegister::HL),
        &StoreTo::Reg(ByteRegister::A),
    );

    (Cycle(8), OpLength(1))
}

/// LD B,(HL)
pub fn ld_b_hl_dref(cpu: &mut Cpu) -> (res: (Cycle, OpLength))
    ensures
        spec_ld(
            old(cpu)@,
            LoadFrom::RegDref(WordRegister::HL),
            StoreTo::Reg(ByteRegister::B),
        ) == Ok::<CpuState, Error>(final(cpu)@),
        res == (Cycle(8), OpLength(1)),
{
    let _ = ld(
        cpu,
        &LoadFrom::RegDref(WordRegister::HL),
        &StoreTo::Reg(ByteRegister::B),
    );

    (Cycle(8), OpLength(1))
}

/// LD C,(HL)
pub fn ld_c_hl_dref(cpu: &mut Cpu) -> (res: (Cycle, OpLength))
    ensures
        spec_ld(
            old(cpu)@,
            LoadFrom::RegDref(WordRegister::HL),
            StoreTo::Reg(ByteRegister::C),
        ) == Ok::<CpuState, Error>(final(cpu)@),
        res == (Cycle(8), OpLength(1)),
{
    let _ = ld(
        cpu,
        &LoadFrom::RegDref(WordRegister::HL),
        &StoreTo::Reg(ByteRegister::C),
    );

    (Cycle(8), OpLength(1))
}

/// LD D,(HL)
pub fn ld_d_hl_dref(cpu: &mut Cpu) -> (res: (Cycle, OpLength))
    ensures
        spec_ld(
            old(cpu)@,
            LoadFrom::RegDref(WordRegister::HL),
            StoreTo::Reg(ByteRegister::D),
        ) == Ok::<CpuState, Error>(final(cpu)@),
        res == (Cycle(8), OpLength(1)),
{
    let _ = ld(
        cpu,
        &LoadFrom::RegDref(WordRegister::HL),
        &StoreTo::Reg(ByteRegister::D),
    );

    (Cycle(8), OpLength(1))
}

/// LD E,(HL)
pub fn ld_e_hl_dref(cpu: &mut Cpu) -> (res: (Cycle, OpLength))
    ensures
        spec_ld(
            old(cpu)@,
            LoadFrom::RegDref(WordRegister::HL),
            StoreTo::Reg(ByteRegister::E),
        ) == Ok::<CpuState, Error>(final(cpu)@),
        res == (Cycle(8), OpLength(1)),
{
    let _ = ld(
        cpu,
        &LoadFrom::RegDref(WordRegister::HL),
        &StoreTo::Reg(ByteRegister::E),
    );

    (Cycle(8), OpLength(1))
}

/// LD H,(HL)
pub fn ld_h_hl_dref(cpu: &mut Cpu) -> (res: (Cycle, OpLength))
    ensures
        spec_ld(
            old(cpu)@,
            LoadFrom::RegDref(WordRegister::HL),
            StoreTo::Reg(ByteRegister::H),
        ) == Ok::<CpuState, Error>(final(cpu)@),
        res == (Cycle(8), OpLength(1)),
{
    let _ = ld(
        cpu,
        &LoadFrom::RegDref(WordRegister::HL),
        &StoreTo::Reg(ByteRegister::H),
    );

    (Cycle(8), OpLength(1))
}

/// LD L,(HL)
pub fn ld_l_hl_dref(cpu: &mut Cpu) -> (res: (Cycle, OpLength))
    ensures
        spec_ld(
            old(cpu)@,
            LoadFrom::RegDref(WordRegister::HL),
            StoreTo::Reg(ByteRegister::L),
        ) == Ok::<CpuState, Error>(final(cpu)@),
        res == (Cycle(8), OpLength(1)),
{
    let _ = ld(
        cpu,
        &LoadFrom::RegDref(WordRegister::HL),
        &StoreTo::Reg(ByteRegister::L),
    );

    (Cycle(8), OpLength(1))
}

/// LD A,(HL+)
#[inline]
pub fn ldi_a_hl_dref(cpu: &mut Cpu) -> (res: (Cycle, OpLength))
    ensures
        spec_ld_step(
            old(cpu)@,
            LoadFrom::RegDref(WordRegister::HL),
            StoreTo::Reg(ByteRegister::A),
            1,
        ) == Ok::<CpuState, Error>(final(cpu)@),
        res == (Cycle(8), OpLength(1)),
{
    let _ = ldi(cpu, &LoadFrom::RegDref(WordRegister::HL), &StoreTo::Reg(ByteRegister::A));

    (Cycle(8), OpLength(1))
}

/// LD A,(HL-)
#[inline]
pub fn ldd_a_hl_dref(cpu: &mut Cpu) -> (res: (Cycle, OpLength))
    ensures
        spec_ld_step(
            old(cpu)@,
            LoadFrom::RegDref(WordRegister::HL),
            StoreTo::Reg(ByteRegister::A),
            -1,
        ) == Ok::<CpuState, Error>(final(cpu)@),
        res == (Cycle(8), OpLength(1)),
{
    let _ = ldd(cpu, &LoadFrom::RegDref(WordRegister::HL), &StoreTo::Reg(ByteRegister::A));

    (Cycle(8), OpLength(1))
}

/// LDH A,(a8)
#[inline]
pub fn ldh_a_a8_dref(cpu: &mut Cpu) -> (res: (Cycle, OpLength))
    ensures
        final(cpu)@ == spec_ld_a_from(
            old(cpu)@,
            spec_high_address(old(cpu)@.byte_argument(1)),
        ),
        res == (Cycle(12), OpLength(2)),
{
    let addr = high_address(cpu.read_byte_argument(1));
    let value = cpu.mmu.read_byte(addr);
    let _ = store_to_reg(cpu, ByteRegister::A, value);

    (Cycle(12), OpLength(2))
}

/// LD A,(a16)
#[inline]
pub fn ld_a_a16_dref(cpu: &mut Cpu) -> (res: (Cycle, OpLength))
    ensures
        final(cpu)@ == spec_ld_a_from(old(cpu)@, old(cpu)@.word_argument(1)),
        res == (Cycle(16), OpLength(3)),
{
    let addr = read_word_from_pc_offset(cpu, 1);
    let value = cpu.mmu.read_byte(addr);
    let _ = store_to_reg(cpu, ByteRegister::A, value);

    (Cycle(16), OpLength(3))
}

/// LD A,(C)
#[inline]
pub fn ld_a_c_dref(cpu: &mut Cpu) -> (res: (Cycle, OpLength))
    ensures
        final(cpu)@ == spec_ld_a_from(old(cpu)@, spec_high_address(old(cpu)@.registers.c)),
        res == (Cycle(8), OpLength(2)),
{
    let addr = high_address(cpu.registers.c());
    let value = cpu.mmu.read_byte(addr);
    let _ = store_to_reg(cpu, ByteRegister::A, value);

    (Cycle(8), OpLength(2))
}

} // verus!
