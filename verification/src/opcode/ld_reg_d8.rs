//! LD r,d8: a byte register takes the byte after the opcode.

use vstd::prelude::*;
use super::ld_utils::{ld, spec_ld};
use crate::cpu::{Cpu, CpuState};
use crate::mmu::Error;
use crate::opcode::table::{Cycle, OpLength};
use crate::opcode::types::{LoadFrom, StoreTo};
use crate::registers::ByteRegister;

verus! {

/// LD A,d8
pub fn ld_a_d8(cpu: &mut Cpu) -> (res: (Cycle, OpLength))
    ensures
        spec_ld(old(cpu)@, LoadFrom::PcOffset(1), StoreTo::Reg(ByteRegister::A)) == Ok::<
            CpuState,
            Error,
        >(final(cpu)@),
        res == (Cycle(8), OpLength(2)),
{
    let _ = ld(cpu, &LoadFrom::PcOffset(1), &StoreTo::Reg(ByteRegister::A));

    (Cycle(8), OpLength(2))
}

/// LD B,d8
pub fn ld_b_d8(cpu: &mut Cpu) -> (res: (Cycle, OpLength))
    ensures
        spec_ld(old(cpu)@, LoadFrom::PcOffset(1), StoreTo::Reg(ByteRegister::B)) == Ok::<
            CpuState,
            Error,
        >(final(cpu)@),
        res == (Cycle(8), OpLength(2)),
{
    let _ = ld(cpu, &LoadFrom::PcOffset(1), &StoreTo::Reg(ByteRegister::B));

    (Cycle(8), OpLength(2))
}

/// LD C,d8
pub fn ld_c_d8(cpu: &mut Cpu) -> (res: (Cycle, OpLength))
    ensures
        spec_ld(old(cpu)@, LoadFrom::PcOffset(1), StoreTo::Reg(ByteRegister::C)) == Ok::<
            CpuState,
            Error,
        >(final(cpu)@),
        res == (Cycle(8), OpLength(2)),
{
    let _ = ld(cpu, &LoadFrom::PcOffset(1), &StoreTo::Reg(ByteRegister::C));

    (Cycle(8), OpLength(2))
}

/// LD D,d8
pub fn ld_d_d8(cpu: &mut Cpu) -> (res: (Cycle, OpLength))
    ensures
        spec_ld(old(cpu)@, LoadFrom::PcOffset(1), StoreTo::Reg(ByteRegister::D)) == Ok::<
            CpuState,
            Error,
        >(final(cpu)@),
        res == (Cycle(8), OpLength(2)),
{
    let _ = ld(cpu, &LoadFrom::PcOffset(1), &StoreTo::Reg(ByteRegister::D));

    (Cycle(8), OpLength(2))
}

/// LD E,d8
pub fn ld_e_d8(cpu: &mut Cpu) -> (res: (Cycle, OpLength))
    ensures
        spec_ld(old(cpu)@, LoadFrom::PcOffset(1), StoreTo::Reg(ByteRegister::E)) == Ok::<
            CpuState,
            Error,
        >(final(cpu)@),
        res == (Cycle(8), OpLength(2)),
{
    let _ = ld(cpu, &LoadFrom::PcOffset(1), &StoreTo::Reg(ByteRegister::E));

    (Cycle(8), OpLength(2))
}

/// LD H,d8
pub fn ld_h_d8(cpu: &mut Cpu) -> (res: (Cycle, OpLength))
    ensures
        spec_ld(old(cpu)@, LoadFrom::PcOffset(1), StoreTo::Reg(ByteRegister::H)) == Ok::<
            CpuState,
            Error,
        >(final(cpu)@),
        res == (Cycle(8), OpLength(2)),
{
    let _ = ld(cpu, &LoadFrom::PcOffset(1), &StoreTo::Reg(ByteRegister::H));

    (Cycle(8), OpLength(2))
}

/// LD L,d8
pub fn ld_l_d8(cpu: &mut Cpu) -> (res: (Cycle, OpLength))
    ensures
        spec_ld(old(cpu)@, LoadFrom::PcOffset(1), StoreTo::Reg(ByteRegister::L)) == Ok::<
            CpuState,
            Error,
        >(final(cpu)@),
        res == (Cycle(8), OpLength(2)),
{
    let _ = ld(cpu, &LoadFrom::PcOffset(1), &StoreTo::Reg(ByteRegister::L));

    (Cycle(8), OpLength(2))
}

} // verus!
