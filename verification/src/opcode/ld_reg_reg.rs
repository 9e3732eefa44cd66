//! LD r,r': a byte register takes the byte of another.

use vstd::prelude::*;
use super::ld_utils::{ld, spec_ld};
use crate::cpu::{Cpu, CpuState};
use crate::mmu::Error;
use crate::opcode::table::{Cycle, OpLength};
use crate::opcode::types::{LoadFrom, StoreTo};
use crate::registers::ByteRegister;

verus! {

/// LD A,A
#[inline]
pub fn ld_a_a(cpu: &mut Cpu) -> (res: (Cycle, OpLength))
    ensures
        final(cpu)@ == old(cpu)@,
        res == (Cycle(4), OpLength(1)),
{
    (Cycle(4), OpLength(1))
}

/// LD B,B
#[inline]
pub fn ld_b_b(cpu: &mut Cpu) -> (res: (Cycle, OpLength))
    ensures
        final(cpu)@ == old(cpu)@,
        res == (Cycle(4), OpLength(1)),
{
    (Cycle(4), OpLength(1))
}

/// LD C,C
#[inline]
pub fn ld_c_c(cpu: &mut Cpu) -> (res: (Cycle, OpLength))
    ensures
        final(cpu)@ == old(cpu)@,
        res == (Cycle(4), OpLength(1)),
{
    (Cycle(4), OpLength(1))
}

/// LD D,D
#[inline]
pub fn ld_d_d(cpu: &mut Cpu) -> (res: (Cycle, OpLength))
    ensures
        final(cpu)@ == old(cpu)@,
        res == (Cycle(4), OpLength(1)),
{
    (Cycle(4), OpLength(1))
}

/// LD E,E
#[inline]
pub fn ld_e_e(cpu: &mut Cpu) -> (res: (Cycle, OpLength))
    ensures
        final(cpu)@ == old(cpu)@,
        res == (Cycle(4), OpLength(1)),
{
    (Cycle(4), OpLength(1))
}

/// LD H,H
#[inline]
pub fn ld_h_h(cpu: &mut Cpu) -> (res: (Cycle, OpLength))
    ensures
        final(cpu)@ == old(cpu)@,
        res == (Cycle(4), OpLength(1)),
{
    (Cycle(4), OpLength(1))
}

/// LD L,L
#[inline]
pub fn ld_l_l(cpu: &mut Cpu) -> (res: (Cycle, OpLength))
    ensures
        final(cpu)@ == old(cpu)@,
        res == (Cycle(4), OpLength(1)),
{
    (Cycle(4), OpLength(1))
}

/// LD A,B
pub fn ld_a_b(cpu: &mut Cpu) -> (res: (Cycle, OpLength))
    ensures
        spec_ld(
            old(cpu)@,
            LoadFrom::Reg(ByteRegister::B),
            StoreTo::Reg(ByteRegister::A),
        ) == Ok::<CpuState, Error>(final(cpu)@),
        res == (Cycle(4), OpLength(1)),
{
    let _ = ld(cpu, &LoadFrom::Reg(ByteRegister::B), &StoreTo::Reg(ByteRegister::A));

    (Cycle(4), OpLength(1))
}

/// LD A,C
pub fn ld_a_c(cpu: &mut Cpu) -> (res: (Cycle, OpLength))
    ensures
        spec_ld(
            old(cpu)@,
            LoadFrom::Reg(ByteRegister::C),
            StoreTo::Reg(ByteRegister::A),
        ) == Ok::<CpuState, Error>(final(cpu)@),
        res == (Cycle(4), OpLength(1)),
{
    let _ = ld(cpu, &LoadFrom::Reg(ByteRegister::C), &StoreTo::Reg(ByteRegister::A));

    (Cycle(4), OpLength(1))
}

/// LD A,D
pub fn ld_a_d(cpu: &mut Cpu) -> (res: (Cycle, OpLength))
    ensures
        spec_ld(
            old(cpu)@,
            LoadFrom::Reg(ByteRegister::D),
            StoreTo::Reg(ByteRegister::A),
        ) == Ok::<CpuState, Error>(final(cpu)@),
        res == (Cycle(4), OpLength(1)),
{
    let _ = ld(cpu, &LoadFrom::Reg(ByteRegister::D), &StoreTo::Reg(ByteRegister::A));

    (Cycle(4), OpLength(1))
}

/// LD A,E
pub fn ld_a_e(cpu: &mut Cpu) -> (res: (Cycle, OpLength))
    ensures
        spec_ld(
            old(cpu)@,
            LoadFrom::Reg(ByteRegister::E),
            StoreTo::Reg(ByteRegister::A),
        ) == Ok::<CpuState, Error>(final(cpu)@),
        res == (Cycle(4), OpLength(1)),
{
    let _ = ld(cpu, &LoadFrom::Reg(ByteRegister::E), &StoreTo::Reg(ByteRegister::A));

    (Cycle(4), OpLength(1))
}

/// LD A,H
pub fn ld_a_h(cpu: &mut Cpu) -> (res: (Cycle, OpLength))
    ensures
        spec_ld(
            old(cpu)@,
            LoadFrom::Reg(ByteRegister::H),
            StoreTo::Reg(ByteRegister::A),
        ) == Ok::<CpuState, Error>(final(cpu)@),
        res == (Cycle(4), OpLength(1)),
{
    let _ = ld(cpu, &LoadFrom::Reg(ByteRegister::H), &StoreTo::Reg(ByteRegister::A));

    (Cycle(4), OpLength(1))
}

/// LD A,L
pub fn ld_a_l(cpu: &mut Cpu) -> (res: (Cycle, OpLength))
    ensures
        spec_ld(
            old(cpu)@,
            LoadFrom::Reg(ByteRegister::L),
            StoreTo::Reg(ByteRegister::A),
        ) == Ok::<CpuState, Error>(final(cpu)@),
        res == (Cycle(4), OpLength(1)),
{
    let _ = ld(cpu, &LoadFrom::Reg(ByteRegister::L), &StoreTo::Reg(ByteRegister::A));

    (Cycle(4), OpLength(1))
}

/// LD B,A
pub fn ld_b_a(cpu: &mut Cpu) -> (res: (Cycle, OpLength))
    ensures
        spec_ld(
            old(cpu)@,
            LoadFrom::Reg(ByteRegister::A),
            StoreTo::Reg(ByteRegister::B),
        ) == Ok::<CpuState, Error>(final(cpu)@),
        res == (Cycle(4), OpLength(1)),
{
    let _ = ld(cpu, &LoadFrom::Reg(ByteRegister::A), &StoreTo::Reg(ByteRegister::B));

    (Cycle(4), OpLength(1))
}

/// LD B,C
pub fn ld_b_c(cpu: &mut Cpu) -> (res: (Cycle, OpLength))
    ensures
        spec_ld(
            old(cpu)@,
            LoadFrom::Reg(ByteRegister::C),
            StoreTo::Reg(ByteRegister::B),
        ) == Ok::<CpuState, Error>(final(cpu)@),
        res == (Cycle(4), OpLength(1)),
{
    let _ = ld(cpu, &LoadFrom::Reg(ByteRegister::C), &StoreTo::Reg(ByteRegister::B));

    (Cycle(4), OpLength(1))
}

/// LD B,D
pub fn ld_b_d(cpu: &mut Cpu) -> (res: (Cycle, OpLength))
    ensures
        spec_ld(
            old(cpu)@,
            LoadFrom::Reg(ByteRegister::D),
            StoreTo::Reg(ByteRegister::B),
        ) == Ok::<CpuState, Error>(final(cpu)@),
        res == (Cycle(4), OpLength(1)),
{
    let _ = ld(cpu, &LoadFrom::Reg(ByteRegister::D), &StoreTo::Reg(ByteRegister::B));

    (Cycle(4), OpLength(1))
}

/// LD B,E
pub fn ld_b_e(cpu: &mut Cpu) -> (res: (Cycle, OpLength))
    ensures
        spec_ld(
            old(cpu)@,
            LoadFrom::Reg(ByteRegister::E),
            StoreTo::Reg(ByteRegister::B),
        ) == Ok::<CpuState, Error>(final(cpu)@),
        res == (Cycle(4), OpLength(1)),
{
    let _ = ld(cpu, &LoadFrom::Reg(ByteRegister::E), &StoreTo::Reg(ByteRegister::B));

    (Cycle(4), OpLength(1))
}

/// LD B,H
pub fn ld_b_h(cpu: &mut Cpu) -> (res: (Cycle, OpLength))
    ensures
        spec_ld(
            old(cpu)@,
            LoadFrom::Reg(ByteRegister::H),
            StoreTo::Reg(ByteRegister::B),
        ) == Ok::<CpuState, Error>(final(cpu)@),
        res == (Cycle(4), OpLength(1)),
{
    let _ = ld(cpu, &LoadFrom::Reg(ByteRegister::H), &StoreTo::Reg(ByteRegister::B));

    (Cycle(4), OpLength(1))
}

/// LD B,L
pub fn ld_b_l(cpu: &mut Cpu) -> (res: (Cycle, OpLength))
    ensures
        spec_ld(
            old(cpu)@,
            LoadFrom::Reg(ByteRegister::L),
            StoreTo::Reg(ByteRegister::B),
        ) == Ok::<CpuState, Error>(final(cpu)@),
        res == (Cycle(4), OpLength(1)),
{
    let _ = ld(cpu, &LoadFrom::Reg(ByteRegister::L), &StoreTo::Reg(ByteRegister::B));

    (Cycle(4), OpLength(1))
}

/// LD C,A
pub fn ld_c_a(cpu: &mut Cpu) -> (res: (Cycle, OpLength))
    ensures
        spec_ld(
            old(cpu)@,
            LoadFrom::Reg(ByteRegister::A),
            StoreTo::Reg(ByteRegister::C),
        ) == Ok::<CpuState, Error>(final(cpu)@),
        res == (Cycle(4), OpLength(1)),
{
    let _ = ld(cpu, &LoadFrom::Reg(ByteRegister::A), &StoreTo::Reg(ByteRegister::C));

    (Cycle(4), OpLength(1))
}

/// LD C,B
pub fn ld_c_b(cpu: &mut Cpu) -> (res: (Cycle, OpLength))
    ensures
        spec_ld(
            old(cpu)@,
            LoadFrom::Reg(ByteRegister::B),
            StoreTo::Reg(ByteRegister::C),
        ) == Ok::<CpuState, Error>(final(cpu)@),
        res == (Cycle(4), OpLength(1)),
{
    let _ = ld(cpu, &LoadFrom::Reg(ByteRegister::B), &StoreTo::Reg(ByteRegister::C));

    (Cycle(4), OpLength(1))
}

/// LD C,D
pub fn ld_c_d(cpu: &mut Cpu) -> (res: (Cycle, OpLength))
    ensures
        spec_ld(
            old(cpu)@,
            LoadFrom::Reg(ByteRegister::D),
            StoreTo::Reg(ByteRegister::C),
        ) == Ok::<CpuState, Error>(final(cpu)@),
        res == (Cycle(4), OpLength(1)),
{
    let _ = ld(cpu, &LoadFrom::Reg(ByteRegister::D), &StoreTo::Reg(ByteRegister::C));

    (Cycle(4), OpLength(1))
}

/// LD C,E
pub fn ld_c_e(cpu: &mut Cpu) -> (res: (Cycle, OpLength))
    ensures
        spec_ld(
            old(cpu)@,
            LoadFrom::Reg(ByteRegister::E),
            StoreTo::Reg(ByteRegister::C),
        ) == Ok::<CpuState, Error>(final(cpu)@),
        res == (Cycle(4), OpLength(1)),
{
    let _ = ld(cpu, &LoadFrom::Reg(ByteRegister::E), &StoreTo::Reg(ByteRegister::C));

    (Cycle(4), OpLength(1))
}

/// LD C,H
pub fn ld_c_h(cpu: &mut Cpu) -> (res: (Cycle, OpLength))
    ensures
        spec_ld(
            old(cpu)@,
            LoadFrom::Reg(ByteRegister::H),
            StoreTo::Reg(ByteRegister::C),
        ) == Ok::<CpuState, Error>(final(cpu)@),
        res == (Cycle(4), OpLength(1)),
{
    let _ = ld(cpu, &LoadFrom::Reg(ByteRegister::H), &StoreTo::Reg(ByteRegister::C));

    (Cycle(4), OpLength(1))
}

/// LD C,L
pub fn ld_c_l(cpu: &mut Cpu) -> (res: (Cycle, OpLength))
    ensures
        spec_ld(
            old(cpu)@,
            LoadFrom::Reg(ByteRegister::L),
            StoreTo::Reg(ByteRegister::C),
        ) == Ok::<CpuState, Error>(final(cpu)@),
        res == (Cycle(4), OpLength(1)),
{
    let _ = ld(cpu, &LoadFrom::Reg(ByteRegister::L), &StoreTo::Reg(ByteRegister::C));

    (Cycle(4), OpLength(1))
}

/// LD D,A
pub fn ld_d_a(cpu: &mut Cpu) -> (res: (Cycle, OpLength))
    ensures
        spec_ld(
            old(cpu)@,
            LoadFrom::Reg(ByteRegister::A),
            StoreTo::Reg(ByteRegister::D),
        ) == Ok::<CpuState, Error>(final(cpu)@),
        res == (Cycle(4), OpLength(1)),
{
    let _ = ld(cpu, &LoadFrom::Reg(ByteRegister::A), &StoreTo::Reg(ByteRegister::D));

    (Cycle(4), OpLength(1))
}

/// LD D,B
pub fn ld_d_b(cpu: &mut Cpu) -> (res: (Cycle, OpLength))
    ensures
        spec_ld(
            old(cpu)@,
            LoadFrom::Reg(ByteRegister::B),
            StoreTo::Reg(ByteRegister::D),
        ) == Ok::<CpuState, Error>(final(cpu)@),
        res == (Cycle(4), OpLength(1)),
{
    let _ = ld(cpu, &LoadFrom::Reg(ByteRegister::B), &StoreTo::Reg(ByteRegister::D));

    (Cycle(4), OpLength(1))
}

/// LD D,C
pub fn ld_d_c(cpu: &mut Cpu) -> (res: (Cycle, OpLength))
    ensures
        spec_ld(
            old(cpu)@,
            LoadFrom::Reg(ByteRegister::C),
            StoreTo::Reg(ByteRegister::D),
        ) == Ok::<CpuState, Error>(final(cpu)@),
        res == (Cycle(4), OpLength(1)),
{
    let _ = ld(cpu, &LoadFrom::Reg(ByteRegister::C), &StoreTo::Reg(ByteRegister::D));

    (Cycle(4), OpLength(1))
}

/// LD D,E
pub fn ld_d_e(cpu: &mut Cpu) -> (res: (Cycle, OpLength))
    ensures
        spec_ld(
            old(cpu)@,
            LoadFrom::Reg(ByteRegister::E),
            StoreTo::Reg(ByteRegister::D),
        ) == Ok::<CpuState, Error>(final(cpu)@),
        res == (Cycle(4), OpLength(1)),
{
    let _ = ld(cpu, &LoadFrom::Reg(ByteRegister::E), &StoreTo::Reg(ByteRegister::D));

    (Cycle(4), OpLength(1))
}

/// LD D,H
pub fn ld_d_h(cpu: &mut Cpu) -> (res: (Cycle, OpLength))
    ensures
        spec_ld(
            old(cpu)@,
            LoadFrom::Reg(ByteRegister::H),
            StoreTo::Reg(ByteRegister::D),
        ) == Ok::<CpuState, Error>(final(cpu)@),
        res == (Cycle(4), OpLength(1)),
{
    let _ = ld(cpu, &LoadFrom::Reg(ByteRegister::H), &StoreTo::Reg(ByteRegister::D));

    (Cycle(4), OpLength(1))
}

/// LD D,L
pub fn ld_d_l(cpu: &mut Cpu) -> (res: (Cycle, OpLength))
    ensures
        spec_ld(
            old(cpu)@,
            LoadFrom::Reg(ByteRegister::L),
            StoreTo::Reg(ByteRegister::D),
        ) == Ok::<CpuState, Error>(final(cpu)@),
        res == (Cycle(4), OpLength(1)),
{
    let _ = ld(cpu, &LoadFrom::Reg(ByteRegister::L), &StoreTo::Reg(ByteRegister::D));

    (Cycle(4), OpLength(1))
}

/// LD E,A
pub fn ld_e_a(cpu: &mut Cpu) -> (res: (Cycle, OpLength))
    ensures
        spec_ld(
            old(cpu)@,
            LoadFrom::Reg(ByteRegister::A),
            StoreTo::Reg(ByteRegister::E),
        ) == Ok::<CpuState, Error>(final(cpu)@),
        res == (Cycle(4), OpLength(1)),
{
    let _ = ld(cpu, &LoadFrom::Reg(ByteRegister::A), &StoreTo::Reg(ByteRegister::E));

    (Cycle(4), OpLength(1))
}

/// LD E,B
pub fn ld_e_b(cpu: &mut Cpu) -> (res: (Cycle, OpLength))
    ensures
        spec_ld(
            old(cpu)@,
            LoadFrom::Reg(ByteRegister::B),
            StoreTo::Reg(ByteRegister::E),
        ) == Ok::<CpuState, Error>(final(cpu)@),
        res == (Cycle(4), OpLength(1)),
{
    let _ = ld(cpu, &LoadFrom::Reg(ByteRegister::B), &StoreTo::Reg(ByteRegister::E));

    (Cycle(4), OpLength(1))
}

/// LD E,C
pub fn ld_e_c(cpu: &mut Cpu) -> (res: (Cycle, OpLength))
    ensures
        spec_ld(
            old(cpu)@,
            LoadFrom::Reg(ByteRegister::C),
            StoreTo::Reg(ByteRegister::E),
        ) == Ok::<CpuState, Error>(final(cpu)@),
        res == (Cycle(4), OpLength(1)),
{
    let _ = ld(cpu, &LoadFrom::Reg(ByteRegister::C), &StoreTo::Reg(ByteRegister::E));

    (Cycle(4), OpLength(1))
}

/// LD E,D
pub fn ld_e_d(cpu: &mut Cpu) -> (res: (Cycle, OpLength))
    ensures
        spec_ld(
            old(cpu)@,
            LoadFrom::Reg(ByteRegister::D),
            StoreTo::Reg(ByteRegister::E),
        ) == Ok::<CpuState, Error>(final(cpu)@),
        res == (Cycle(4), OpLength(1)),
{
    let _ = ld(cpu, &LoadFrom::Reg(ByteRegister::D), &StoreTo::Reg(ByteRegister::E));

    (Cycle(4), OpLength(1))
}

/// LD E,H
pub fn ld_e_h(cpu: &mut Cpu) -> (res: (Cycle, OpLength))
    ensures
        spec_ld(
            old(cpu)@,
            LoadFrom::Reg(ByteRegister::H),
            StoreTo::Reg(ByteRegister::E),
        ) == Ok::<CpuState, Error>(final(cpu)@),
        res == (Cycle(4), OpLength(1)),
{
    let _ = ld(cpu, &LoadFrom::Reg(ByteRegister::H), &StoreTo::Reg(ByteRegister::E));

    (Cycle(4), OpLength(1))
}

/// LD E,L
pub fn ld_e_l(cpu: &mut Cpu) -> (res: (Cycle, OpLength))
    ensures
        spec_ld(
            old(cpu)@,
            LoadFrom::Reg(ByteRegister::L),
            StoreTo::Reg(ByteRegister::E),
        ) == Ok::<CpuState, Error>(final(cpu)@),
        res == (Cycle(4), OpLength(1)),
{
    let _ = ld(cpu, &LoadFrom::Reg(ByteRegister::L), &StoreTo::Reg(ByteRegister::E));

    (Cycle(4), OpLength(1))
}

/// LD H,A
pub fn ld_h_a(cpu: &mut Cpu) -> (res: (Cycle, OpLength))
    ensures
        spec_ld(
            old(cpu)@,
            LoadFrom::Reg(ByteRegister::A),
            StoreTo::Reg(ByteRegister::H),
        ) == Ok::<CpuState, Error>(final(cpu)@),
        res == (Cycle(4), OpLength(1)),
{
    let _ = ld(cpu, &LoadFrom::Reg(ByteRegister::A), &StoreTo::Reg(ByteRegister::H));

    (Cycle(4), OpLength(1))
}

/// LD H,B
pub fn ld_h_b(cpu: &mut Cpu) -> (res: (Cycle, OpLength))
    ensures
        spec_ld(
            old(cpu)@,
            LoadFrom::Reg(ByteRegister::B),
            StoreTo::Reg(ByteRegister::H),
        ) == Ok::<CpuState, Error>(final(cpu)@),
        res == (Cycle(4), OpLength(1)),
{
    let _ = ld(cpu, &LoadFrom::Reg(ByteRegister::B), &StoreTo::Reg(ByteRegister::H));

    (Cycle(4), OpLength(1))
}

/// LD H,C
pub fn ld_h_c(cpu: &mut Cpu) -> (res: (Cycle, OpLength))
    ensures
        spec_ld(
            old(cpu)@,
            LoadFrom::Reg(ByteRegister::C),
            StoreTo::Reg(ByteRegister::H),
        ) == Ok::<CpuState, Error>(final(cpu)@),
        res == (Cycle(4), OpLength(1)),
{
    let _ = ld(cpu, &LoadFrom::Reg(ByteRegister::C), &StoreTo::Reg(ByteRegister::H));

    (Cycle(4), OpLength(1))
}

/// LD H,D
pub fn ld_h_d(cpu: &mut Cpu) -> (res: (Cycle, OpLength))
    ensures
        spec_ld(
            old(cpu)@,
            LoadFrom::Reg(ByteRegister::D),
            StoreTo::Reg(ByteRegister::H),
        ) == Ok::<CpuState, Error>(final(cpu)@),
        res == (Cycle(4), OpLength(1)),
{
    let _ = ld(cpu, &LoadFrom::Reg(ByteRegister::D), &StoreTo::Reg(ByteRegister::H));

    (Cycle(4), OpLength(1))
}

/// LD H,E
pub fn ld_h_e(cpu: &mut Cpu) -> (res: (Cycle, OpLength))
    ensures
        spec_ld(
            old(cpu)@,
            LoadFrom::Reg(ByteRegister::E),
            StoreTo::Reg(ByteRegister::H),
        ) == Ok::<CpuState, Error>(final(cpu)@),
        res == (Cycle(4), OpLength(1)),
{
    let _ = ld(cpu, &LoadFrom::Reg(ByteRegister::E), &StoreTo::Reg(ByteRegister::H));

    (Cycle(4), OpLength(1))
}

/// LD H,L
pub fn ld_h_l(cpu: &mut Cpu) -> (res: (Cycle, OpLength))
    ensures
        spec_ld(
            old(cpu)@,
            LoadFrom::Reg(ByteRegister::L),
            StoreTo::Reg(ByteRegister::H),
        ) == Ok::<CpuState, Error>(final(cpu)@),
        res == (Cycle(4), OpLength(1)),
{
    let _ = ld(cpu, &LoadFrom::Reg(ByteRegister::L), &StoreTo::Reg(ByteRegister::H));

    (Cycle(4), OpLength(1))
}

/// LD L,A
pub fn ld_l_a(cpu: &mut Cpu) -> (res: (Cycle, OpLength))
    ensures
        spec_ld(
            old(cpu)@,
            LoadFrom::Reg(ByteRegister::A),
            StoreTo::Reg(ByteRegister::L),
        ) == Ok::<CpuState, Error>(final(cpu)@),
        res == (Cycle(4), OpLength(1)),
{
    let _ = ld(cpu, &LoadFrom::Reg(ByteRegister::A), &StoreTo::Reg(ByteRegister::L));

    (Cycle(4), OpLength(1))
}

/// LD L,B
pub fn ld_l_b(cpu: &mut Cpu) -> (res: (Cycle, OpLength))
    ensures
        spec_ld(
            old(cpu)@,
            LoadFrom::Reg(ByteRegister::B),
            StoreTo::Reg(ByteRegister::L),
        ) == Ok::<CpuState, Error>(final(cpu)@),
        res == (Cycle(4), OpLength(1)),
{
    let _ = ld(cpu, &LoadFrom::Reg(ByteRegister::B), &StoreTo::Reg(ByteRegister::L));

    (Cycle(4), OpLength(1))
}

/// LD L,C
pub fn ld_l_c(cpu: &mut Cpu) -> (res: (Cycle, OpLength))
    ensures
        spec_ld(
            old(cpu)@,
            LoadFrom::Reg(ByteRegister::C),
            StoreTo::Reg(ByteRegister::L),
        ) == Ok::<CpuState, Error>(final(cpu)@),
        res == (Cycle(4), OpLength(1)),
{
    let _ = ld(cpu, &LoadFrom::Reg(ByteRegister::C), &StoreTo::Reg(ByteRegister::L));

    (Cycle(4), OpLength(1))
}

/// LD L,D
pub fn ld_l_d(cpu: &mut Cpu) -> (res: (Cycle, OpLength))
    ensures
        spec_ld(
            old(cpu)@,
            LoadFrom::Reg(ByteRegister::D),
            StoreTo::Reg(ByteRegister::L),
        ) == Ok::<CpuState, Error>(final(cpu)@),
        res == (Cycle(4), OpLength(1)),
{
    let _ = ld(cpu, &LoadFrom::Reg(ByteRegister::D), &StoreTo::Reg(ByteRegister::L));

    (Cycle(4), OpLength(1))
}

/// LD L,E
pub fn ld_l_e(cpu: &mut Cpu) -> (res: (Cycle, OpLength))
    ensures
        spec_ld(
            old(cpu)@,
            LoadFrom::Reg(ByteRegister::E),
            StoreTo::Reg(ByteRegister::L),
        ) == Ok::<CpuState, Error>(final(cpu)@),
        res == (Cycle(4), OpLength(1)),
{
    let _ = ld(cpu, &LoadFrom::Reg(ByteRegister::E), &StoreTo::Reg(ByteRegister::L));

    (Cycle(4), OpLength(1))
}

/// LD L,H
pub fn ld_l_h(cpu: &mut Cpu) -> (res: (Cycle, OpLength))
    ensures
        spec_ld(
            old(cpu)@,
            LoadFrom::Reg(ByteRegister::H),
            StoreTo::Reg(ByteRegister::L),
        ) == Ok::<CpuState, Error>(final(cpu)@),
        res == (Cycle(4), OpLength(1)),
{
    let _ = ld(cpu, &LoadFrom::Reg(ByteRegister::H), &StoreTo::Reg(ByteRegister::L));

    (Cycle(4), OpLength(1))
}

} // verus!
