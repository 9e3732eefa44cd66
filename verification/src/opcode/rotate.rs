//! Rotations and shifts of a byte: those of the accumulator alone, and
//! those of the second opcode plane on any register or on the byte that HL
//! points to.

use vstd::prelude::*;
use super::ld_utils::{load, spec_load, spec_store, store};
use crate::cpu::{Cpu, CpuState};
use crate::mmu::Error;
use crate::opcode::table::{Cycle, OpLength};
use crate::opcode::types::{done_if_stored, InstructionResult, LoadFrom, Outcome, StoreTo};
use crate::registers::{ByteRegister, Flag, WordRegister};

verus! {

/// The rotations and shifts of the second plane, in the order of their
/// opcodes.
#[derive(Debug, PartialEq, Eq, Clone, Copy)]
pub enum Shift {
    /// Rotate left: bit 7 comes back in as bit 0.
    Rlc,
    /// Rotate right: bit 0 comes back in as bit 7.
    Rrc,
    /// Rotate left through the carry flag.
    Rl,
    /// Rotate right through the carry flag.
    Rr,
    /// Shift left: bit 0 becomes 0.
    Sla,
    /// Shift right: bit 7 stays.
    Sra,
    /// Exchange the two nibbles.
    Swap,
    /// Shift right: bit 7 becomes 0.
    Srl,
}

/// The carry flag as a number.
pub open spec fn spec_carry_bit(carry: bool) -> int {
    if carry {
        1
    } else {
        0
    }
}

/// A shifted byte with its flags: Z by the byte, N = 0, H = 0 and C as
/// given.
pub open spec fn spec_shifted(value: u8, carry: bool) -> (u8, Flag) {
    (value, Flag { zero: value == 0, sub: false, half_carry: false, carry })
}

/// RLC: every bit moves up by one, bit 7 goes to bit 0 and to C.
pub open spec fn spec_rlc(input: u8) -> (u8, Flag) {
    spec_shifted(((input * 2) % 0x100 + input / 0x80) as u8, input >= 0x80)
}

/// RL: every bit moves up by one, C goes to bit 0 and bit 7 to C.
pub open spec fn spec_rl(carry: bool, input: u8) -> (u8, Flag) {
    spec_shifted(((input * 2) % 0x100 + spec_carry_bit(carry)) as u8, input >= 0x80)
}

/// RRC: every bit moves down by one, bit 0 goes to bit 7 and to C.
pub open spec fn spec_rrc(input: u8) -> (u8, Flag) {
    spec_shifted((input / 2 + (input % 2) * 0x80) as u8, input % 2 == 1)
}

/// RR: every bit moves down by one, C goes to bit 7 and bit 0 to C.
pub open spec fn spec_rr(carry: bool, input: u8) -> (u8, Flag) {
    spec_shifted((input / 2 + spec_carry_bit(carry) * 0x80) as u8, input % 2 == 1)
}

/// SLA: every bit moves up by one, bit 0 becomes 0 and bit 7 goes to C.
pub open spec fn spec_sla(input: u8) -> (u8, Flag) {
    spec_shifted(((input * 2) % 0x100) as u8, input >= 0x80)
}

/// SRA: every bit moves down by one, bit 7 stays and bit 0 goes to C.
pub open spec fn spec_sra(input: u8) -> (u8, Flag) {
    spec_shifted((input / 2 + (input / 0x80) * 0x80) as u8, input % 2 == 1)
}

/// SWAP: the two nibbles change places. C = 0.
pub open spec fn spec_swap(input: u8) -> (u8, Flag) {
    spec_shifted(((input % 0x10) * 0x10 + input / 0x10) as u8, false)
}

/// SRL: every bit moves down by one, bit 7 becomes 0 and bit 0 goes to C.
pub open spec fn spec_srl(input: u8) -> (u8, Flag) {
    spec_shifted((input / 2) as u8, input % 2 == 1)
}

/// What the rotation or shift `kind` makes of `input` under the carry flag
/// `carry`.
pub open spec fn spec_shift(kind: Shift, carry: bool, input: u8) -> (u8, Flag) {
    match kind {
        Shift::Rlc => spec_rlc(input),
        Shift::Rrc => spec_rrc(input),
        Shift::Rl => spec_rl(carry, input),
        Shift::Rr => spec_rr(carry, input),
        Shift::Sla => spec_sla(input),
        Shift::Sra => spec_sra(input),
        Shift::Swap => spec_swap(input),
        Shift::Srl => spec_srl(input),
    }
}

/// The machine after one of the four rotations of the accumulator: A is
/// rotated, Z = 0, N = 0, H = 0 and C is the bit that left.
pub open spec fn spec_rotate_a(s: CpuState, kind: Shift) -> CpuState {
    let (value, flag) = spec_shift(kind, s.registers.flag.carry, s.registers.a);
    s.with_a(value, Flag { zero: false, ..flag })
}

/// The machine after a rotation or shift of the second plane: the byte
/// from `load_from`, shifted, stands at `store_to`, and the flags are those
/// of the shift. Where the store is refused nothing changes.
pub open spec fn spec_cb_shift(
    s: CpuState,
    kind: Shift,
    load_from: LoadFrom,
    store_to: StoreTo,
) -> Result<CpuState, Error> {
    let (value, flag) = spec_shift(kind, s.registers.flag.carry, spec_load(s, load_from));
    match spec_store(s, store_to, value) {
        Ok(state) => Ok(state.with_flag(flag)),
        Err(e) => Err(e),
    }
}

/// The cycles of an instruction of the second plane: 16 where it works on
/// memory, 8 where it works on a register.
pub open spec fn spec_cb_cycles(load_from: LoadFrom) -> u8 {
    match load_from {
        LoadFrom::Reg(_) => 8,
        _ => 16,
    }
}

/// The cycles of an instruction of the second plane.
pub fn cb_cycles(load_from: &LoadFrom) -> (cycles: u8)
    ensures
        cycles == spec_cb_cycles(*load_from),
{
    match load_from {
        LoadFrom::Reg(_) => 8,
        _ => 16,
    }
}

/// Works the rotation or shift `kind` on the byte from `load_from` and puts
/// the result to `store_to`.
pub fn cb_shift(cpu: &mut Cpu, kind: Shift, load_from: &LoadFrom, store_to: &StoreTo) -> (res:
    Result<InstructionResult, Error>)
    ensures
        (Outcome { state: final(cpu)@, result: res }) == done_if_stored(
            old(cpu)@,
            spec_cb_shift(old(cpu)@, kind, *load_from, *store_to),
            spec_cb_cycles(*load_from),
            2,
        ),
{
    let carry = cpu.registers.flag.carry();
    let input = load(cpu, load_from);
    let (new_value, new_flag) = shift(kind, carry, input);

    store(cpu, store_to, new_value)?;
    cpu.registers.flag = new_flag;

    Ok((Cycle(cb_cycles(load_from)), OpLength(2)))
}

/// RLC A
pub fn cb_rlca(cpu: &mut Cpu) -> (res: InstructionResult)
    ensures
        spec_cb_shift(
            old(cpu)@,
            Shift::Rlc,
            LoadFrom::Reg(ByteRegister::A),
            StoreTo::Reg(ByteRegister::A),
        ) == Ok::<CpuState, Error>(final(cpu)@),
        res == (Cycle(8), OpLength(2)),
{
    let _ = cb_shift(
        cpu,
        Shift::Rlc,
        &LoadFrom::Reg(ByteRegister::A),
        &StoreTo::Reg(ByteRegister::A),
    );

    (Cycle(8), OpLength(2))
}

/// RLC B
pub fn cb_rlcb(cpu: &mut Cpu) -> (res: InstructionResult)
    ensures
        spec_cb_shift(
            old(cpu)@,
            Shift::Rlc,
            LoadFrom::Reg(ByteRegister::B),
            StoreTo::Reg(ByteRegister::B),
        ) == Ok::<CpuState, Error>(final(cpu)@),
        res == (Cycle(8), OpLength(2)),
{
    let _ = cb_shift(
        cpu,
        Shift::Rlc,
        &LoadFrom::Reg(ByteRegister::B),
        &StoreTo::Reg(ByteRegister::B),
    );

    (Cycle(8), OpLength(2))
}

/// RLC C
pub fn cb_rlcc(cpu: &mut Cpu) -> (res: InstructionResult)
    ensures
        spec_cb_shift(
            old(cpu)@,
            Shift::Rlc,
            LoadFrom::Reg(ByteRegister::C),
            StoreTo::Reg(ByteRegister::C),
        ) == Ok::<CpuState, Error>(final(cpu)@),
        res == (Cycle(8), OpLength(2)),
{
    let _ = cb_shift(
        cpu,
        Shift::Rlc,
        &LoadFrom::Reg(ByteRegister::C),
        &StoreTo::Reg(ByteRegister::C),
    );

    (Cycle(8), OpLength(2))
}

/// RLC D
pub fn cb_rlcd(cpu: &mut Cpu) -> (res: InstructionResult)
    ensures
        spec_cb_shift(
            old(cpu)@,
            Shift::Rlc,
            LoadFrom::Reg(ByteRegister::D),
            StoreTo::Reg(ByteRegister::D),
        ) == Ok::<CpuState, Error>(final(cpu)@),
        res == (Cycle(8), OpLength(2)),
{
    let _ = cb_shift(
        cpu,
        Shift::Rlc,
        &LoadFrom::Reg(ByteRegister::D),
        &StoreTo::Reg(ByteRegister::D),
    );

    (Cycle(8), OpLength(2))
}

/// RLC E
pub fn cb_rlce(cpu: &mut Cpu) -> (res: InstructionResult)
    ensures
        spec_cb_shift(
            old(cpu)@,
            Shift::Rlc,
            LoadFrom::Reg(ByteRegister::E),
            StoreTo::Reg(ByteRegister::E),
        ) == Ok::<CpuState, Error>(final(cpu)@),
        res == (Cycle(8), OpLength(2)),
{
    let _ = cb_shift(
        cpu,
        Shift::Rlc,
        &LoadFrom::Reg(ByteRegister::E),
        &StoreTo::Reg(ByteRegister::E),
    );

    (Cycle(8), OpLength(2))
}

/// RLC H
pub fn cb_rlch(cpu: &mut Cpu) -> (res: InstructionResult)
    ensures
        spec_cb_shift(
            old(cpu)@,
            Shift::Rlc,
            LoadFrom::Reg(ByteRegister::H),
            StoreTo::Reg(ByteRegister::H),
        ) == Ok::<CpuState, Error>(final(cpu)@),
        res == (Cycle(8), OpLength(2)),
{
    let _ = cb_shift(
        cpu,
        Shift::Rlc,
        &LoadFrom::Reg(ByteRegister::H),
        &StoreTo::Reg(ByteRegister::H),
    );

    (Cycle(8), OpLength(2))
}

/// RLC L
pub fn cb_rlcl(cpu: &mut Cpu) -> (res: InstructionResult)
    ensures
        spec_cb_shift(
            old(cpu)@,
            Shift::Rlc,
            LoadFrom::Reg(ByteRegister::L),
            StoreTo::Reg(ByteRegister::L),
        ) == Ok::<CpuState, Error>(final(cpu)@),
        res == (Cycle(8), OpLength(2)),
{
    let _ = cb_shift(
        cpu,
        Shift::Rlc,
        &LoadFrom::Reg(ByteRegister::L),
        &StoreTo::Reg(ByteRegister::L),
    );

    (Cycle(8), OpLength(2))
}

/// RLC (HL)
pub fn cb_rlc_hl_dref(cpu: &mut Cpu) -> (res: Result<InstructionResult, Error>)
    ensures
        (Outcome { state: final(cpu)@, result: res }) == done_if_stored(
            old(cpu)@,
            spec_cb_shift(
                old(cpu)@,
                Shift::Rlc,
                LoadFrom::RegDref(WordRegister::HL),
                StoreTo::RegDref(WordRegister::HL),
            ),
            16,
            2,
        ),
{
    cb_shift(
        cpu,
        Shift::Rlc,
        &LoadFrom::RegDref(WordRegister::HL),
        &StoreTo::RegDref(WordRegister::HL),
    )
}

/// RL A
pub fn cb_rla(cpu: &mut Cpu) -> (res: InstructionResult)
    ensures
        spec_cb_shift(
            old(cpu)@,
            Shift::Rl,
            LoadFrom::Reg(ByteRegister::A),
            StoreTo::Reg(ByteRegister::A),
        ) == Ok::<CpuState, Error>(final(cpu)@),
        res == (Cycle(8), OpLength(2)),
{
    let _ = cb_shift(
        cpu,
        Shift::Rl,
        &LoadFrom::Reg(ByteRegister::A),
        &StoreTo::Reg(ByteRegister::A),
    );

    (Cycle(8), OpLength(2))
}

/// RL B
pub fn cb_rlb(cpu: &mut Cpu) -> (res: InstructionResult)
    ensures
        spec_cb_shift(
            old(cpu)@,
            Shift::Rl,
            LoadFrom::Reg(ByteRegister::B),
            StoreTo::Reg(ByteRegister::B),
        ) == Ok::<CpuState, Error>(final(cpu)@),
        res == (Cycle(8), OpLength(2)),
{
    let _ = cb_shift(
        cpu,
        Shift::Rl,
        &LoadFrom::Reg(ByteRegister::B),
        &StoreTo::Reg(ByteRegister::B),
    );

    (Cycle(8), OpLength(2))
}

/// RL C
pub fn cb_rlc(cpu: &mut Cpu) -> (res: InstructionResult)
    ensures
        spec_cb_shift(
            old(cpu)@,
            Shift::Rl,
            LoadFrom::Reg(ByteRegister::C),
            StoreTo::Reg(ByteRegister::C),
        ) == Ok::<CpuState, Error>(final(cpu)@),
        res == (Cycle(8), OpLength(2)),
{
    let _ = cb_shift(
        cpu,
        Shift::Rl,
        &LoadFrom::Reg(ByteRegister::C),
        &StoreTo::Reg(ByteRegister::C),
    );

    (Cycle(8), OpLength(2))
}

/// RL D
pub fn cb_rld(cpu: &mut Cpu) -> (res: InstructionResult)
    ensures
        spec_cb_shift(
            old(cpu)@,
            Shift::Rl,
            LoadFrom::Reg(ByteRegister::D),
            StoreTo::Reg(ByteRegister::D),
        ) == Ok::<CpuState, Error>(final(cpu)@),
        res == (Cycle(8), OpLength(2)),
{
    let _ = cb_shift(
        cpu,
        Shift::Rl,
        &LoadFrom::Reg(ByteRegister::D),
        &StoreTo::Reg(ByteRegister::D),
    );

    (Cycle(8), OpLength(2))
}

/// RL E
pub fn cb_rle(cpu: &mut Cpu) -> (res: InstructionResult)
    ensures
        spec_cb_shift(
            old(cpu)@,
            Shift::Rl,
            LoadFrom::Reg(ByteRegister::E),
            StoreTo::Reg(ByteRegister::E),
        ) == Ok::<CpuState, Error>(final(cpu)@),
        res == (Cycle(8), OpLength(2)),
{
    let _ = cb_shift(
        cpu,
        Shift::Rl,
        &LoadFrom::Reg(ByteRegister::E),
        &StoreTo::Reg(ByteRegister::E),
    );

    (Cycle(8), OpLength(2))
}

/// RL H
pub fn cb_rlh(cpu: &mut Cpu) -> (res: InstructionResult)
    ensures
        spec_cb_shift(
            old(cpu)@,
            Shift::Rl,
            LoadFrom::Reg(ByteRegister::H),
            StoreTo::Reg(ByteRegister::H),
        ) == Ok::<CpuState, Error>(final(cpu)@),
        res == (Cycle(8), OpLength(2)),
{
    let _ = cb_shift(
        cpu,
        Shift::Rl,
        &LoadFrom::Reg(ByteRegister::H),
        &StoreTo::Reg(ByteRegister::H),
    );

    (Cycle(8), OpLength(2))
}

/// RL L
pub fn cb_rll(cpu: &mut Cpu) -> (res: InstructionResult)
    ensures
        spec_cb_shift(
            old(cpu)@,
            Shift::Rl,
            LoadFrom::Reg(ByteRegister::L),
            StoreTo::Reg(ByteRegister::L),
        ) == Ok::<CpuState, Error>(final(cpu)@),
        res == (Cycle(8), OpLength(2)),
{
    let _ = cb_shift(
        cpu,
        Shift::Rl,
        &LoadFrom::Reg(ByteRegister::L),
        &StoreTo::Reg(ByteRegister::L),
    );

    (Cycle(8), OpLength(2))
}

/// RL (HL)
pub fn cb_rl_hl_dref(cpu: &mut Cpu) -> (res: Result<InstructionResult, Error>)
    ensures
        (Outcome { state: final(cpu)@, result: res }) == done_if_stored(
            old(cpu)@,
            spec_cb_shift(
                old(cpu)@,
                Shift::Rl,
                LoadFrom::RegDref(WordRegister::HL),
                StoreTo::RegDref(WordRegister::HL),
            ),
            16,
            2,
        ),
{
    cb_shift(
        cpu,
        Shift::Rl,
        &LoadFrom::RegDref(WordRegister::HL),
        &StoreTo::RegDref(WordRegister::HL),
    )
}

/// RLCA
pub fn rlca(cpu: &mut Cpu) -> (res: InstructionResult)
    ensures
        final(cpu)@ == spec_rotate_a(old(cpu)@, Shift::Rlc),
        res == (Cycle(4), OpLength(1)),
{
    let (new_a, new_flag) = rlc(cpu.registers.a());

    cpu.registers.set_a(new_a);
    cpu.registers.flag = new_flag;
    cpu.registers.flag.set_zero(false);

    (Cycle(4), OpLength(1))
}

/// RLA
pub fn rla(cpu: &mut Cpu) -> (res: InstructionResult)
    ensures
        final(cpu)@ == spec_rotate_a(old(cpu)@, Shift::Rl),
        res == (Cycle(4), OpLength(1)),
{
    let (new_a, new_flag) = rl(cpu.registers.flag.carry(), cpu.registers.a());

    cpu.registers.set_a(new_a);
    cpu.registers.flag = new_flag;
    cpu.registers.flag.set_zero(false);

    (Cycle(4), OpLength(1))
}

/// RRCA
pub fn rrca(cpu: &mut Cpu) -> (res: InstructionResult)
    ensures
        final(cpu)@ == spec_rotate_a(old(cpu)@, Shift::Rrc),
        res == (Cycle(4), OpLength(1)),
{
    let (new_a, new_flag) = rrc(cpu.registers.a());

    cpu.registers.set_a(new_a);
    cpu.registers.flag = new_flag;
    cpu.registers.flag.set_zero(false);

    (Cycle(4), OpLength(1))
}

/// RRA
pub fn rra(cpu: &mut Cpu) -> (res: InstructionResult)
    ensures
        final(cpu)@ == spec_rotate_a(old(cpu)@, Shift::Rr),
        res == (Cycle(4), OpLength(1)),
{
    let (new_a, new_flag) = rr(cpu.registers.flag.carry(), cpu.registers.a());

    cpu.registers.set_a(new_a);
    cpu.registers.flag = new_flag;
    cpu.registers.flag.set_zero(false);

    (Cycle(4), OpLength(1))
}

/// Works the rotation or shift `kind` on `input`.
pub fn shift(kind: Shift, carry: bool, input: u8) -> (res: (u8, Flag))
    ensures
        res == spec_shift(kind, carry, input),
{
    match kind {
        Shift::Rlc => rlc(input),
        Shift::Rrc => rrc(input),
        Shift::Rl => rl(carry, input),
        Shift::Rr => rr(carry, input),
        Shift::Sla => sla(input),
        Shift::Sra => sra(input),
        Shift::Swap => swap(input),
        Shift::Srl => srl(input),
    }
}

/// Rotates `input` left by one bit.
#[inline]
pub fn rlc(input: u8) -> (res: (u8, Flag))
    ensures
        res == spec_rlc(input),
{
    let carry = 0b1000_0000 & input != 0;
    let new_value = (input << 1) | (input >> 7);
    assert(((input << 1) | (input >> 7)) == (input * 2) % 0x100 + input / 0x80 && (0b1000_0000
        & input != 0) == (input >= 0x80)) by (bit_vector);

    (new_value, Flag::new(new_value == 0, false, false, carry))
}

/// Rotates `input` left by one bit through the carry flag `carry`.
#[inline]
pub fn rl(carry: bool, input: u8) -> (res: (u8, Flag))
    ensures
        res == spec_rl(carry, input),
{
    let carry_bit: u8 = if carry {
        1
    } else {
        0
    };

    let new_carry = 0b1000_0000 & input != 0;
    assert((input << 1) == (input * 2) % 0x100 && (input << 1) <= 0xFE && (0b1000_0000 & input
        != 0) == (input >= 0x80)) by (bit_vector);
    let new_value = (input << 1) + carry_bit;

    (new_value, Flag::new(new_value == 0, false, false, new_carry))
}

/// Rotates `input` right by one bit.
#[inline]
pub fn rrc(input: u8) -> (res: (u8, Flag))
    ensures
        res == spec_rrc(input),
{
    let carry = 0b0000_0001 & input != 0;
    let new_value = (input >> 1) | (input << 7);
    assert(((input >> 1) | (input << 7)) == input / 2 + (input % 2) * 0x80 && (0b0000_0001
        & input != 0) == (input % 2 == 1)) by (bit_vector);

    (new_value, Flag::new(new_value == 0, false, false, carry))
}

/// Rotates `input` right by one bit through the carry flag `carry`.
#[inline]
pub fn rr(carry: bool, input: u8) -> (res: (u8, Flag))
    ensures
        res == spec_rr(carry, input),
{
    let carry_bit: u8 = if carry {
        0b1000_0000
    } else {
        0
    };

    let new_carry = 0b0000_0001 & input != 0;
    assert((input >> 1) == input / 2 && (0b0000_0001 & input != 0) == (input % 2 == 1))
        by (bit_vector);
    let new_value = (input >> 1) + carry_bit;

    (new_value, Flag::new(new_value == 0, false, false, new_carry))
}

/// Shifts `input` left by one bit.
#[inline]
pub fn sla(input: u8) -> (res: (u8, Flag))
    ensures
        res == spec_sla(input),
{
    let carry = 0b1000_0000 & input != 0;
    let new_value = input << 1;
    assert((input << 1) == (input * 2) % 0x100 && (0b1000_0000 & input != 0) == (input >= 0x80))
        by (bit_vector);

    (new_value, Flag::new(new_value == 0, false, false, carry))
}

/// Shifts `input` right by one bit and keeps bit 7.
#[inline]
pub fn sra(input: u8) -> (res: (u8, Flag))
    ensures
        res == spec_sra(input),
{
    let carry = 0b0000_0001 & input != 0;
    let new_value = (input >> 1) | (input & 0b1000_0000);
    assert(((input >> 1) | (input & 0b1000_0000)) == input / 2 + (input / 0x80) * 0x80 && (
    0b0000_0001 & input != 0) == (input % 2 == 1)) by (bit_vector);

    (new_value, Flag::new(new_value == 0, false, false, carry))
}

/// Exchanges the two nibbles of `input`.
#[inline]
pub fn swap(input: u8) -> (res: (u8, Flag))
    ensures
        res == spec_swap(input),
{
    let new_value = (input << 4) | (input >> 4);
    assert(((input << 4) | (input >> 4)) == (input % 0x10) * 0x10 + input / 0x10)
        by (bit_vector);

    (new_value, Flag::new(new_value == 0, false, false, false))
}

/// Shifts `input` right by one bit and clears bit 7.
#[inline]
pub fn srl(input: u8) -> (res: (u8, Flag))
    ensures
        res == spec_srl(input),
{
    let carry = 0b0000_0001 & input != 0;
    let new_value = input >> 1;
    assert((input >> 1) == input / 2 && (0b0000_0001 & input != 0) == (input % 2 == 1))
        by (bit_vector);

    (new_value, Flag::new(new_value == 0, false, false, carry))
}

} // verus!
