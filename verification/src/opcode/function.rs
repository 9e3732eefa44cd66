//! The stack and what rests on it: PUSH and POP, the calls, the returns
//! and the restarts.

use vstd::prelude::*;
use crate::bits::lemma_bytes_of_join;
use crate::cpu::{Cpu, CpuState};
use crate::mmu::{lemma_write_word_then_read, Error};
use crate::opcode::table::{Cycle, OpLength};
use crate::opcode::types::{done, done_if_stored, stored, InstructionResult, Outcome};
use crate::registers::{lemma_unpack_bits, Registers, WordRegister};

verus! {

/// The machine after `val` was pushed: the word stands at the address that
/// SP held, and SP is two lower, modulo 2^16. Where the store is refused
/// the push ends in its error.
pub open spec fn spec_push(s: CpuState, val: u16) -> Result<CpuState, Error> {
    let old_sp = s.registers.sp;
    match s.store_word(old_sp, val) {
        Ok(state) => Ok(
            state.with_registers(
                Registers { sp: ((old_sp - 2) % 0x1_0000) as u16, ..s.registers },
            ),
        ),
        Err(e) => Err(e),
    }
}

/// The machine after a pop: SP is two higher, modulo 2^16. The word popped
/// is the one at the address that SP held.
pub open spec fn spec_pop(s: CpuState) -> CpuState {
    s.with_registers(Registers { sp: ((s.registers.sp + 2) % 0x1_0000) as u16, ..s.registers })
}

/// The machine after POP rr: the pair `set_reg` holds the word popped.
pub open spec fn spec_pop_reg(s: CpuState, set_reg: WordRegister) -> CpuState {
    let popped = spec_pop(s);
    popped.with_registers(
        popped.registers.spec_with_word(set_reg, s.word_at(s.registers.sp)),
    )
}

/// The machine after a call was taken: SP is two lower, modulo 2^16, the
/// address of the instruction after the call stands where SP now points,
/// and PC is the word after the opcode. Where the store is refused the
/// call ends in its error.
pub open spec fn spec_call(s: CpuState) -> Result<CpuState, Error> {
    let new_pc = s.word_argument(1);
    let new_sp = ((s.registers.sp - 2) % 0x1_0000) as u16;
    let ret_pc = ((s.registers.pc + 3) % 0x1_0000) as u16;
    match s.store_word(new_sp, ret_pc) {
        Ok(state) => Ok(
            state.with_registers(Registers { pc: new_pc, sp: new_sp, ..s.registers }),
        ),
        Err(e) => Err(e),
    }
}

/// A call under a condition: 24 cycles where it is taken, 12 where it is
/// not, and then nothing changes.
pub open spec fn spec_call_if(s: CpuState, taken: bool) -> Outcome {
    if taken {
        done_if_stored(s, spec_call(s), 24, 3)
    } else {
        done(s, 12, 3)
    }
}

/// The machine after a return: PC is the word that SP pointed to, and SP
/// is two higher, modulo 2^16.
pub open spec fn spec_ret(s: CpuState) -> CpuState {
    s.with_registers(
        Registers {
            pc: s.word_at(s.registers.sp),
            sp: ((s.registers.sp + 2) % 0x1_0000) as u16,
            ..s.registers
        },
    )
}

/// The machine after RETI: a return, with interrupts enabled at once.
pub open spec fn spec_reti(s: CpuState) -> CpuState {
    CpuState { ime: true, ..spec_ret(s) }
}

/// The machine after a return under a condition.
pub open spec fn spec_ret_if(s: CpuState, taken: bool) -> CpuState {
    if taken {
        spec_ret(s)
    } else {
        s
    }
}

/// The machine after a restart: the address of the next instruction was
/// pushed, and PC is `new_pc`. Where the store is refused the restart ends
/// in its error.
pub open spec fn spec_rst_to(s: CpuState, new_pc: u16) -> Result<CpuState, Error> {
    match spec_push(s, ((s.registers.pc + 1) % 0x1_0000) as u16) {
        Ok(state) => Ok(state.with_registers(Registers { pc: new_pc, ..state.registers })),
        Err(e) => Err(e),
    }
}

/// PUSH AF
pub fn push_af(cpu: &mut Cpu) -> (res: Result<InstructionResult, Error>)
    ensures
        (Outcome { state: final(cpu)@, result: res }) == done_if_stored(
            old(cpu)@,
            spec_push(old(cpu)@, old(cpu)@.registers.spec_af()),
            16,
            1,
        ),
{
    push_reg(cpu, WordRegister::AF)
}

/// PUSH BC
pub fn push_bc(cpu: &mut Cpu) -> (res: Result<InstructionResult, Error>)
    ensures
        (Outcome { state: final(cpu)@, result: res }) == done_if_stored(
            old(cpu)@,
            spec_push(old(cpu)@, old(cpu)@.registers.spec_bc()),
            16,
            1,
        ),
{
    push_reg(cpu, WordRegister::BC)
}

/// PUSH DE
pub fn push_de(cpu: &mut Cpu) -> (res: Result<InstructionResult, Error>)
    ensures
        (Outcome { state: final(cpu)@, result: res }) == done_if_stored(
            old(cpu)@,
            spec_push(old(cpu)@, old(cpu)@.registers.spec_de()),
            16,
            1,
        ),
{
    push_reg(cpu, WordRegister::DE)
}

/// PUSH HL
pub fn push_hl(cpu: &mut Cpu) -> (res: Result<InstructionResult, Error>)
    ensures
        (Outcome { state: final(cpu)@, result: res }) == done_if_stored(
            old(cpu)@,
            spec_push(old(cpu)@, old(cpu)@.registers.spec_hl()),
            16,
            1,
        ),
{
    push_reg(cpu, WordRegister::HL)
}

/// POP AF
pub fn pop_af(cpu: &mut Cpu) -> (res: InstructionResult)
    ensures
        final(cpu)@ == spec_pop_reg(old(cpu)@, WordRegister::AF),
        res == (Cycle(12), OpLength(1)),
{
    pop_reg(cpu, WordRegister::AF)
}

/// POP BC
pub fn pop_bc(cpu: &mut Cpu) -> (res: InstructionResult)
    ensures
        final(cpu)@ == spec_pop_reg(old(cpu)@, WordRegister::BC),
        res == (Cycle(12), OpLength(1)),
{
    pop_reg(cpu, WordRegister::BC)
}

/// POP DE
pub fn pop_de(cpu: &mut Cpu) -> (res: InstructionResult)
    ensures
        final(cpu)@ == spec_pop_reg(old(cpu)@, WordRegister::DE),
        res == (Cycle(12), OpLength(1)),
{
    pop_reg(cpu, WordRegister::DE)
}

/// POP HL
pub fn pop_hl(cpu: &mut Cpu) -> (res: InstructionResult)
    ensures
        final(cpu)@ == spec_pop_reg(old(cpu)@, WordRegister::HL),
        res == (Cycle(12), OpLength(1)),
{
    pop_reg(cpu, WordRegister::HL)
}

/// Stores `val` at the address in SP and lowers SP by two, or reports that
/// the store was refused and changes nothing.
#[inline]
pub fn push(cpu: &mut Cpu, val: u16) -> (res: Result<(), Error>)
    ensures
        stored(old(cpu)@, spec_push(old(cpu)@, val), final(cpu)@, res),
{
    let old_sp = cpu.registers.sp();
    let new_sp = old_sp.wrapping_sub(2);

    match cpu.mmu.write_word(old_sp, val) {
        Ok(()) => {
            cpu.registers.set_sp(new_sp);
            Ok(())
        },
        Err(e) => Err(e),
    }
}

/// PUSH rr: pushes the pair that `reg` names.
#[inline]
pub fn push_reg(cpu: &mut Cpu, reg: WordRegister) -> (res: Result<InstructionResult, Error>)
    ensures
        (Outcome { state: final(cpu)@, result: res }) == done_if_stored(
            old(cpu)@,
            spec_push(old(cpu)@, old(cpu)@.registers.spec_word(reg)),
            16,
            1,
        ),
{
    let val = cpu.registers.word(reg);
    match push(cpu, val) {
        Ok(()) => Ok((Cycle(16), OpLength(1))),
        Err(e) => Err(e),
    }
}

/// Reads the word at the address in SP and raises SP by two.
#[inline]
pub fn pop(cpu: &mut Cpu) -> (val: u16)
    ensures
        val == old(cpu)@.word_at(old(cpu)@.registers.sp),
        final(cpu)@ == spec_pop(old(cpu)@),
{
    let old_sp = cpu.registers.sp();

    let new_sp = old_sp.wrapping_add(2);
    cpu.registers.set_sp(new_sp);

    cpu.mmu.read_word(old_sp)
}

/// POP rr: pops a word into the pair that `set_reg` names.
#[inline]
pub fn pop_reg(cpu: &mut Cpu, set_reg: WordRegister) -> (res: InstructionResult)
    ensures
        final(cpu)@ == spec_pop_reg(old(cpu)@, set_reg),
        res == (Cycle(12), OpLength(1)),
{
    let value = pop(cpu);
    cpu.registers.set_word(set_reg, value);

    (Cycle(12), OpLength(1))
}

/// CALL a16
pub fn call_nn(cpu: &mut Cpu) -> (res: Result<InstructionResult, Error>)
    ensures
        (Outcome { state: final(cpu)@, result: res }) == spec_call_if(old(cpu)@, true),
{
    call_if(cpu, true)
}

/// CALL NZ,a16
pub fn call_nz(cpu: &mut Cpu) -> (res: Result<InstructionResult, Error>)
    ensures
        (Outcome { state: final(cpu)@, result: res }) == spec_call_if(
            old(cpu)@,
            !old(cpu)@.registers.flag.zero,
        ),
{
    let taken = !cpu.registers.flag.zero();
    call_if(cpu, taken)
}

/// CALL Z,a16
pub fn call_z(cpu: &mut Cpu) -> (res: Result<InstructionResult, Error>)
    ensures
        (Outcome { state: final(cpu)@, result: res }) == spec_call_if(
            old(cpu)@,
            old(cpu)@.registers.flag.zero,
        ),
{
    let taken = cpu.registers.flag.zero();
    call_if(cpu, taken)
}

/// CALL NC,a16
pub fn call_nc(cpu: &mut Cpu) -> (res: Result<InstructionResult, Error>)
    ensures
        (Outcome { state: final(cpu)@, result: res }) == spec_call_if(
            old(cpu)@,
            !old(cpu)@.registers.flag.carry,
        ),
{
    let taken = !cpu.registers.flag.carry();
    call_if(cpu, taken)
}

/// CALL C,a16
pub fn call_c(cpu: &mut Cpu) -> (res: Result<InstructionResult, Error>)
    ensures
        (Outcome { state: final(cpu)@, result: res }) == spec_call_if(
            old(cpu)@,
            old(cpu)@.registers.flag.carry,
        ),
{
    let taken = cpu.registers.flag.carry();
    call_if(cpu, taken)
}

/// CALL under a condition: `taken` tells whether the condition holds.
#[inline]
pub fn call_if(cpu: &mut Cpu, taken: bool) -> (res: Result<InstructionResult, Error>)
    ensures
        (Outcome { state: final(cpu)@, result: res }) == spec_call_if(old(cpu)@, taken),
{
    if taken {
        let new_pc = cpu.read_word_argument(1);
        let new_sp = cpu.registers.sp().wrapping_sub(2);
        let ret_pc = cpu.registers.pc().wrapping_add(3);

        match cpu.mmu.write_word(new_sp, ret_pc) {
            Ok(()) => {
                cpu.registers.set_pc(new_pc);
                cpu.registers.set_sp(new_sp);

                Ok((Cycle(24), OpLength(3)))
            },
            Err(e) => Err(e),
        }
    } else {
        Ok((Cycle(12), OpLength(3)))
    }
}

/// RET
pub fn ret(cpu: &mut Cpu) -> (res: InstructionResult)
    ensures
        final(cpu)@ == spec_ret(old(cpu)@),
        res == (Cycle(16), OpLength(1)),
{
    let sp = cpu.registers.sp();
    let ret_pc = cpu.mmu.read_word(sp);

    cpu.registers.set_sp(sp.wrapping_add(2));
    cpu.registers.set_pc(ret_pc);

    (Cycle(16), OpLength(1))
}

/// RETI
pub fn reti(cpu: &mut Cpu) -> (res: InstructionResult)
    ensures
        final(cpu)@ == spec_reti(old(cpu)@),
        res == (Cycle(16), OpLength(1)),
{
    cpu.set_ime(true);

    ret(cpu)
}

/// RET NZ
pub fn ret_nz(cpu: &mut Cpu) -> (res: InstructionResult)
    ensures
        final(cpu)@ == spec_ret_if(old(cpu)@, !old(cpu)@.registers.flag.zero),
        res == (Cycle(if !old(cpu)@.registers.flag.zero { 20u8 } else { 8u8 }), OpLength(1)),
{
    let taken = !cpu.registers.flag.zero();
    ret_if(cpu, taken)
}

/// RET Z
pub fn ret_z(cpu: &mut Cpu) -> (res: InstructionResult)
    ensures
        final(cpu)@ == spec_ret_if(old(cpu)@, old(cpu)@.registers.flag.zero),
        res == (Cycle(if old(cpu)@.registers.flag.zero { 20u8 } else { 8u8 }), OpLength(1)),
{
    let taken = cpu.registers.flag.zero();
    ret_if(cpu, taken)
}

/// RET NC
pub fn ret_nc(cpu: &mut Cpu) -> (res: InstructionResult)
    ensures
        final(cpu)@ == spec_ret_if(old(cpu)@, !old(cpu)@.registers.flag.carry),
        res == (Cycle(if !old(cpu)@.registers.flag.carry { 20u8 } else { 8u8 }), OpLength(1)),
{
    let taken = !cpu.registers.flag.carry();
    ret_if(cpu, taken)
}

/// RET C
pub fn ret_c(cpu: &mut Cpu) -> (res: InstructionResult)
    ensures
        final(cpu)@ == spec_ret_if(old(cpu)@, old(cpu)@.registers.flag.carry),
        res == (Cycle(if old(cpu)@.registers.flag.carry { 20u8 } else { 8u8 }), OpLength(1)),
{
    let taken = cpu.registers.flag.carry();
    ret_if(cpu, taken)
}

/// RET under a condition: `taken` tells whether the condition holds.
#[inline]
pub fn ret_if(cpu: &mut Cpu, taken: bool) -> (res: InstructionResult)
    ensures
        final(cpu)@ == spec_ret_if(old(cpu)@, taken),
        res == (Cycle(if taken { 20u8 } else { 8u8 }), OpLength(1)),
{
    if taken {
        let _ = ret(cpu);

        (Cycle(20), OpLength(1))
    } else {
        (Cycle(8), OpLength(1))
    }
}

/// RST 00H
pub fn rst_00h(cpu: &mut Cpu) -> (res: Result<InstructionResult, Error>)
    ensures
        (Outcome { state: final(cpu)@, result: res }) == done_if_stored(
            old(cpu)@,
            spec_rst_to(old(cpu)@, 0x00),
            16,
            1,
        ),
{
    rst_to(cpu, 0x00)
}

/// RST 08H
pub fn rst_08h(cpu: &mut Cpu) -> (res: Result<InstructionResult, Error>)
    ensures
        (Outcome { state: final(cpu)@, result: res }) == done_if_stored(
            old(cpu)@,
            spec_rst_to(old(cpu)@, 0x08),
            16,
            1,
        ),
{
    rst_to(cpu, 0x08)
}

/// RST 10H
pub fn rst_10h(cpu: &mut Cpu) -> (res: Result<InstructionResult, Error>)
    ensures
        (Outcome { state: final(cpu)@, result: res }) == done_if_stored(
            old(cpu)@,
            spec_rst_to(old(cpu)@, 0x10),
            16,
            1,
        ),
{
    rst_to(cpu, 0x10)
}

/// RST 18H
pub fn rst_18h(cpu: &mut Cpu) -> (res: Result<InstructionResult, Error>)
    ensures
        (Outcome { state: final(cpu)@, result: res }) == done_if_stored(
            old(cpu)@,
            spec_rst_to(old(cpu)@, 0x18),
            16,
            1,
        ),
{
    rst_to(cpu, 0x18)
}

/// RST 20H
pub fn rst_20h(cpu: &mut Cpu) -> (res: Result<InstructionResult, Error>)
    ensures
        (Outcome { state: final(cpu)@, result: res }) == done_if_stored(
            old(cpu)@,
            spec_rst_to(old(cpu)@, 0x20),
            16,
            1,
        ),
{
    rst_to(cpu, 0x20)
}

/// RST 28H
pub fn rst_28h(cpu: &mut Cpu) -> (res: Result<InstructionResult, Error>)
    ensures
        (Outcome { state: final(cpu)@, result: res }) == done_if_stored(
            old(cpu)@,
            spec_rst_to(old(cpu)@, 0x28),
            16,
            1,
        ),
{
    rst_to(cpu, 0x28)
}

/// RST 30H
pub fn rst_30h(cpu: &mut Cpu) -> (res: Result<InstructionResult, Error>)
    ensures
        (Outcome { state: final(cpu)@, result: res }) == done_if_stored(
            old(cpu)@,
            spec_rst_to(old(cpu)@, 0x30),
            16,
            1,
        ),
{
    rst_to(cpu, 0x30)
}

/// RST 38H
pub fn rst_38h(cpu: &mut Cpu) -> (res: Result<InstructionResult, Error>)
    ensures
        (Outcome { state: final(cpu)@, result: res }) == done_if_stored(
            old(cpu)@,
            spec_rst_to(old(cpu)@, 0x38),
            16,
            1,
        ),
{
    rst_to(cpu, 0x38)
}

/// RST: pushes the address of the next instruction and jumps to `new_pc`.
#[inline]
pub fn rst_to(cpu: &mut Cpu, new_pc: u16) -> (res: Result<InstructionResult, Error>)
    ensures
        (Outcome { state: final(cpu)@, result: res }) == done_if_stored(
            old(cpu)@,
            spec_rst_to(old(cpu)@, new_pc),
            16,
            1,
        ),
{
    let ret_pc = cpu.registers.pc().wrapping_add(1);

    match push(cpu, ret_pc) {
        Ok(()) => {
            cpu.registers.set_pc(new_pc);

            Ok((Cycle(16), OpLength(1)))
        },
        Err(e) => Err(e),
    }
}

/// What POP reads after PUSH: PUSH stores at the address that SP held and
/// then lowers SP by two, so the POP that follows reads the word two below
/// that address, which the PUSH has not touched, and brings SP back.
pub proof fn lemma_push_then_pop(s: CpuState, reg: WordRegister)
    requires
        s.valid(),
        reg != WordRegister::SP,
        reg != WordRegister::PC,
        spec_push(s, s.registers.spec_word(reg)) is Ok,
    ensures
        ({
            let pushed = spec_push(s, s.registers.spec_word(reg))->Ok_0;
            let popped = spec_pop_reg(pushed, reg);
            let below = ((s.registers.sp - 2) % 0x1_0000) as u16;
            &&& popped.registers.sp == s.registers.sp
            &&& popped.registers == s.registers.spec_with_word(reg, s.word_at(below))
            &&& pushed.word_at(below) == s.word_at(below)
            &&& popped.memory == pushed.memory
        }),
{
}

/// PUSH and then POP of the same pair leaves the pair and SP as they
/// were, and the two bytes below the address that SP held as they were,
/// where those two bytes hold the pair already: for PUSH stores at the
/// address that SP held, and POP then reads below it.
pub proof fn lemma_push_then_pop_identity(s: CpuState, reg: WordRegister)
    requires
        s.valid(),
        reg != WordRegister::SP,
        reg != WordRegister::PC,
        spec_push(s, s.registers.spec_word(reg)) is Ok,
        s.word_at(((s.registers.sp - 2) % 0x1_0000) as u16) == s.registers.spec_word(reg),
    ensures
        ({
            let pushed = spec_push(s, s.registers.spec_word(reg))->Ok_0;
            let popped = spec_pop_reg(pushed, reg);
            let below = ((s.registers.sp - 2) % 0x1_0000) as u16;
            &&& popped.registers.spec_word(reg) == s.registers.spec_word(reg)
            &&& popped.registers == s.registers
            &&& pushed.word_at(below) == s.word_at(below)
            &&& popped.word_at(below) == s.word_at(below)
        }),
{
    lemma_push_then_pop(s, reg);
    let value = s.registers.spec_word(reg);
    if reg == WordRegister::AF {
        lemma_unpack_bits(s.registers.flag);
    }
    lemma_bytes_of_join(s.registers.a, s.registers.flag.spec_bits());
    lemma_bytes_of_join(s.registers.b, s.registers.c);
    lemma_bytes_of_join(s.registers.d, s.registers.e);
    lemma_bytes_of_join(s.registers.h, s.registers.l);
}

/// A call that is taken and the return that follows it bring the program
/// counter to the instruction after the call, three bytes on, and SP back
/// to where it was.
pub proof fn lemma_call_then_ret(s: CpuState)
    requires
        s.valid(),
        spec_call(s) is Ok,
    ensures
        spec_ret(spec_call(s)->Ok_0).registers.pc == (s.registers.pc + 3) % 0x1_0000,
        spec_ret(spec_call(s)->Ok_0).registers.sp == s.registers.sp,
{
    let new_sp = ((s.registers.sp - 2) % 0x1_0000) as u16;
    let ret_pc = ((s.registers.pc + 3) % 0x1_0000) as u16;
    lemma_write_word_then_read(s.memory, new_sp, ret_pc);
}

} // verus!
