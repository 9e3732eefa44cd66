//! Instructions that steer the processor itself.

use vstd::prelude::*;
use crate::cpu::{Cpu, CpuState};
use crate::opcode::table::{Cycle, OpLength};

verus! {

/// NOP
pub fn nop(cpu: &mut Cpu) -> (res: (Cycle, OpLength))
    ensures
        final(cpu)@ == old(cpu)@,
        res == (Cycle(4), OpLength(1)),
{
    (Cycle(4), OpLength(1))
}

/// HALT. The machine keeps no record of it: waking up is the host's part.
pub fn halt(cpu: &mut Cpu) -> (res: (Cycle, OpLength))
    ensures
        final(cpu)@ == old(cpu)@,
        res == (Cycle(4), OpLength(1)),
{
    (Cycle(4), OpLength(1))
}

/// STOP. It occupies two bytes and changes nothing in the machine.
pub fn stop(cpu: &mut Cpu) -> (res: (Cycle, OpLength))
    ensures
        final(cpu)@ == old(cpu)@,
        res == (Cycle(4), OpLength(2)),
{
    (Cycle(4), OpLength(2))
}

/// The machine after DI: interrupts are disabled at once, and an enable
/// that was still pending is dropped.
pub open spec fn spec_di(s: CpuState) -> CpuState {
    CpuState { ime: false, ime_pending: false, ..s }
}

/// The machine after EI: the enable is pending, and takes effect when the
/// instruction after this one has run.
pub open spec fn spec_ei(s: CpuState) -> CpuState {
    CpuState { ime_pending: true, ..s }
}

/// DI
pub fn di(cpu: &mut Cpu) -> (res: (Cycle, OpLength))
    ensures
        final(cpu)@ == spec_di(old(cpu)@),
        res == (Cycle(4), OpLength(1)),
{
    cpu.ime = false;
    cpu.ime_pending = false;

    (Cycle(4), OpLength(1))
}

/// EI
pub fn ei(cpu: &mut Cpu) -> (res: (Cycle, OpLength))
    ensures
        final(cpu)@ == spec_ei(old(cpu)@),
        res == (Cycle(4), OpLength(1)),
{
    cpu.ime_pending = true;

    (Cycle(4), OpLength(1))
}

} // verus!
