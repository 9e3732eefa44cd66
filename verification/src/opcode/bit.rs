//! The single-bit instructions of the second opcode plane: BIT, RES and
//! SET on any register or on the byte that HL points to.

use vstd::prelude::*;
use super::ld_utils::{load, spec_load, spec_store, store};
use super::rotate::{cb_cycles, spec_cb_cycles};
use crate::bits::spec_bit;
use crate::cpu::{Cpu, CpuState};
use crate::mmu::Error;
use crate::opcode::table::{Cycle, OpLength};
use crate::opcode::types::{done_if_stored, InstructionResult, LoadFrom, Outcome, StoreTo};
use crate::registers::Flag;

verus! {

/// `x` with bit `n` set.
pub open spec fn spec_set_bit(x: u8, n: u8) -> u8 {
    x | (1u8 << n)
}

/// `x` with bit `n` cleared.
pub open spec fn spec_reset_bit(x: u8, n: u8) -> u8 {
    x & !(1u8 << n)
}

/// The weight of bit `n` in a byte: 2 to the power of `n`.
pub open spec fn spec_weight(n: u8) -> u8 {
    if n == 0 {
        0x01
    } else if n == 1 {
        0x02
    } else if n == 2 {
        0x04
    } else if n == 3 {
        0x08
    } else if n == 4 {
        0x10
    } else if n == 5 {
        0x20
    } else if n == 6 {
        0x40
    } else {
        0x80
    }
}

/// Bit `n` of a byte is its digit of weight 2^`n` in base two; to set it
/// adds that weight where the digit is 0, and to clear it takes the weight
/// away where the digit is 1.
pub proof fn lemma_bits_as_digits(x: u8, n: u8)
    requires
        n < 8,
    ensures
        spec_bit(x, n) == (x / spec_weight(n) % 2 == 1),
        spec_set_bit(x, n) == if spec_bit(x, n) {
            x as int
        } else {
            x + spec_weight(n)
        },
        spec_reset_bit(x, n) == if spec_bit(x, n) {
            x - spec_weight(n)
        } else {
            x as int
        },
{
    let w = 1u8 << n;
    assert(w == spec_weight(n)) by (bit_vector)
        requires
            n < 8,
            w == 1u8 << n,
    ;
    assert(w != 0 && ((x & w != 0) == (x / w % 2 == 1)) && (x | w) == (if x & w != 0 {
        x
    } else {
        (x + w) as u8
    }) && (x & !w) == (if x & w != 0 {
        (x - w) as u8
    } else {
        x
    }) && (x & w != 0 ==> x >= w) && (x & w == 0 ==> x + w <= 0xFF)) by (bit_vector)
        requires
            n < 8,
            w == 1u8 << n,
    ;
}

/// The machine after BIT n: Z is set where bit `n` of the byte from
/// `load_from` is 0. N = 0, H = 1, C as it was.
pub open spec fn spec_bit_test(s: CpuState, n: u8, load_from: LoadFrom) -> CpuState {
    s.with_flag(
        Flag {
            zero: !spec_bit(spec_load(s, load_from), n),
            sub: false,
            half_carry: true,
            carry: s.registers.flag.carry,
        },
    )
}

/// The machine after SET n: the byte from `load_from`, with bit `n` set,
/// stands at `store_to`. The flags stay.
pub open spec fn spec_set(s: CpuState, n: u8, load_from: LoadFrom, store_to: StoreTo) -> Result<
    CpuState,
    Error,
> {
    spec_store(s, store_to, spec_set_bit(spec_load(s, load_from), n))
}

/// The machine after RES n: the byte from `load_from`, with bit `n`
/// cleared, stands at `store_to`. The flags stay.
pub open spec fn spec_res(s: CpuState, n: u8, load_from: LoadFrom, store_to: StoreTo) -> Result<
    CpuState,
    Error,
> {
    spec_store(s, store_to, spec_reset_bit(spec_load(s, load_from), n))
}

/// BIT n
pub fn bit(cpu: &mut Cpu, n: u8, load_from: &LoadFrom) -> (res: InstructionResult)
    requires
        n < 8,
    ensures
        final(cpu)@ == spec_bit_test(old(cpu)@, n, *load_from),
        res == (Cycle(spec_cb_cycles(*load_from)), OpLength(2)),
{
    let input = load(cpu, load_from);

    cpu.registers.flag.set_zero(input & (1u8 << n) == 0);
    cpu.registers.flag.set_sub(false);
    cpu.registers.flag.set_half_carry(true);

    (Cycle(cb_cycles(load_from)), OpLength(2))
}

/// SET n
pub fn set(cpu: &mut Cpu, n: u8, load_from: &LoadFrom, store_to: &StoreTo) -> (res: Result<
    InstructionResult,
    Error,
>)
    requires
        n < 8,
    ensures
        (Outcome { state: final(cpu)@, result: res }) == done_if_stored(
            old(cpu)@,
            spec_set(old(cpu)@, n, *load_from, *store_to),
            spec_cb_cycles(*load_from),
            2,
        ),
{
    let input = load(cpu, load_from);

    store(cpu, store_to, input | (1u8 << n))?;

    Ok((Cycle(cb_cycles(load_from)), OpLength(2)))
}

/// RES n
pub fn res(cpu: &mut Cpu, n: u8, load_from: &LoadFrom, store_to: &StoreTo) -> (res: Result<
    InstructionResult,
    Error,
>)
    requires
        n < 8,
    ensures
        (Outcome { state: final(cpu)@, result: res }) == done_if_stored(
            old(cpu)@,
            spec_res(old(cpu)@, n, *load_from, *store_to),
            spec_cb_cycles(*load_from),
            2,
        ),
{
    let input = load(cpu, load_from);

    store(cpu, store_to, input & !(1u8 << n))?;

    Ok((Cycle(cb_cycles(load_from)), OpLength(2)))
}

} // verus!
