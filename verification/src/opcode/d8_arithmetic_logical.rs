//! Arithmetic and logic on bytes: the accumulator against a register, the
//! byte that HL points to or an immediate byte, and the increments,
//! decrements and adjustments of single bytes.

use vstd::prelude::*;
use crate::carry_test::{add_bytes, sub_bytes, CarryTest, CarryTestResult};
use crate::cpu::{Cpu, CpuState};
use crate::mmu::Error;
use crate::opcode::table::{Cycle, OpLength};
use crate::opcode::types::{done_if_stored, InstructionResult, Outcome};
use crate::registers::{Flag, Registers};

verus! {

/// The carry flag as a number.
pub open spec fn spec_carry_in(s: CpuState) -> int {
    if s.registers.flag.carry {
        1
    } else {
        0
    }
}

/// ADD: A becomes A + `val`. Z by the result, N = 0, H the carry out of bit
/// 3, C the carry out of bit 7.
pub open spec fn spec_add(s: CpuState, val: u8) -> CpuState {
    let r = add_bytes(s.registers.a, val);
    s.with_a(
        r.val,
        Flag { zero: r.val == 0, sub: false, half_carry: r.half_carry, carry: r.carry },
    )
}

/// ADC: A becomes A + `val` + C. Z by the result, N = 0, H and C the
/// carries of the whole sum out of bit 3 and out of bit 7.
pub open spec fn spec_adc(s: CpuState, val: u8) -> CpuState {
    let a = s.registers.a;
    let cy = spec_carry_in(s);
    let result = ((a + val + cy) % 0x100) as u8;
    s.with_a(
        result,
        Flag {
            zero: result == 0,
            sub: false,
            half_carry: a % 0x10 + val % 0x10 + cy >= 0x10,
            carry: a + val + cy >= 0x100,
        },
    )
}

/// SUB: A becomes A - `val`. Z by the result, N = 1, H the borrow into bit
/// 3, C the borrow into bit 7.
pub open spec fn spec_sub(s: CpuState, val: u8) -> CpuState {
    let r = sub_bytes(s.registers.a, val);
    s.with_a(
        r.val,
        Flag { zero: r.val == 0, sub: true, half_carry: r.half_carry, carry: r.carry },
    )
}

/// SBC: A becomes A - `val` - C. Z by the result, N = 1, H and C the
/// borrows of the whole difference into bit 3 and into bit 7.
pub open spec fn spec_sbc(s: CpuState, val: u8) -> CpuState {
    let a = s.registers.a;
    let cy = spec_carry_in(s);
    let result = ((a - val - cy) % 0x100) as u8;
    s.with_a(
        result,
        Flag {
            zero: result == 0,
            sub: true,
            half_carry: a % 0x10 < val % 0x10 + cy,
            carry: a < val + cy,
        },
    )
}

/// AND: A becomes A & `val`. Z by the result, N = 0, H = 1, C = 0.
pub open spec fn spec_and(s: CpuState, val: u8) -> CpuState {
    let result = s.registers.a & val;
    s.with_a(result, Flag { zero: result == 0, sub: false, half_carry: true, carry: false })
}

/// XOR: A becomes A ^ `val`. Z by the result, N = 0, H = 0, C = 0.
pub open spec fn spec_xor(s: CpuState, val: u8) -> CpuState {
    let result = s.registers.a ^ val;
    s.with_a(result, Flag { zero: result == 0, sub: false, half_carry: false, carry: false })
}

/// OR: A becomes A | `val`. Z by the result, N = 0, H = 0, C = 0.
pub open spec fn spec_or(s: CpuState, val: u8) -> CpuState {
    let result = s.registers.a | val;
    s.with_a(result, Flag { zero: result == 0, sub: false, half_carry: false, carry: false })
}

/// CP: the flags of A - `val`, with A left as it was.
pub open spec fn spec_cp(s: CpuState, val: u8) -> CpuState {
    let r = sub_bytes(s.registers.a, val);
    s.with_flag(Flag { zero: r.val == 0, sub: true, half_carry: r.half_carry, carry: r.carry })
}

/// `val` + 1 modulo 2^8.
pub open spec fn spec_inc_value(val: u8) -> u8 {
    ((val + 1) % 0x100) as u8
}

/// `val` - 1 modulo 2^8.
pub open spec fn spec_dec_value(val: u8) -> u8 {
    ((val - 1) % 0x100) as u8
}

/// The flags after `val` was incremented: Z by the result, N = 0, H the
/// carry out of bit 3, C as it was.
pub open spec fn spec_inc_flag(flag: Flag, val: u8) -> Flag {
    Flag {
        zero: spec_inc_value(val) == 0,
        sub: false,
        half_carry: val % 0x10 == 0x0F,
        carry: flag.carry,
    }
}

/// The flags after `val` was decremented: Z by the result, N = 1, H the
/// borrow into bit 3, C as it was.
pub open spec fn spec_dec_flag(flag: Flag, val: u8) -> Flag {
    Flag {
        zero: spec_dec_value(val) == 0,
        sub: true,
        half_carry: val % 0x10 == 0,
        carry: flag.carry,
    }
}

/// Whether DAA adds or subtracts 0x60: after an addition where a carry came
/// out or A is above 0x99, after a subtraction where a borrow came out.
pub open spec fn spec_daa_high(s: CpuState) -> bool {
    let flag = s.registers.flag;
    flag.carry || (!flag.sub && s.registers.a > 0x99)
}

/// Whether DAA adds or subtracts 0x06: after an addition where a half
/// carry came out or the low digit is above 9, after a subtraction where a
/// half borrow came out.
pub open spec fn spec_daa_low(s: CpuState) -> bool {
    let flag = s.registers.flag;
    flag.half_carry || (!flag.sub && s.registers.a % 0x10 > 0x09)
}

/// DAA: A is brought back to two decimal digits after an addition or a
/// subtraction of such numbers. Z by the result, N as it was, H = 0, C set
/// where 0x60 was added or subtracted.
pub open spec fn spec_daa(s: CpuState) -> CpuState {
    let flag = s.registers.flag;
    let high: int = if spec_daa_high(s) {
        0x60
    } else {
        0
    };
    let low: int = if spec_daa_low(s) {
        0x06
    } else {
        0
    };
    let result = if flag.sub {
        ((s.registers.a - high - low) % 0x100) as u8
    } else {
        ((s.registers.a + high + low) % 0x100) as u8
    };
    s.with_a(
        result,
        Flag { zero: result == 0, sub: flag.sub, half_carry: false, carry: spec_daa_high(s) },
    )
}

/// CPL: every bit of A is turned over. N = 1, H = 1, Z and C as they were.
pub open spec fn spec_cpl(s: CpuState) -> CpuState {
    s.with_a(
        (0xFF - s.registers.a) as u8,
        Flag { sub: true, half_carry: true, ..s.registers.flag },
    )
}

/// SCF: C = 1, N = 0, H = 0, Z as it was.
pub open spec fn spec_scf(s: CpuState) -> CpuState {
    s.with_flag(Flag { sub: false, half_carry: false, carry: true, ..s.registers.flag })
}

/// CCF: C is turned over, N = 0, H = 0, Z as it was.
pub open spec fn spec_ccf(s: CpuState) -> CpuState {
    s.with_flag(
        Flag {
            sub: false,
            half_carry: false,
            carry: !s.registers.flag.carry,
            ..s.registers.flag
        },
    )
}

/// ADD and SUB agree with arithmetic on whole numbers: A is the sum or the
/// difference cut to eight bits, C tells whether it went past them, and H
/// whether the sum or the difference of the low nibbles went past four.
pub proof fn lemma_add_sub_wide_arithmetic(s: CpuState, val: u8)
    ensures
        spec_add(s, val).registers.a == (s.registers.a + val) % 0x100,
        spec_add(s, val).registers.flag.carry == (s.registers.a + val > 0xFF),
        spec_add(s, val).registers.flag.half_carry == (s.registers.a % 0x10 + val % 0x10 > 0x0F),
        spec_sub(s, val).registers.a == (s.registers.a - val) % 0x100,
        spec_sub(s, val).registers.flag.carry == (s.registers.a - val < 0),
        spec_sub(s, val).registers.flag.half_carry == (s.registers.a % 0x10 - val % 0x10 < 0),
{
}

/// ADC is two additions, of `val` and then of the carry flag: the result is
/// that of the second, and each of H and C is set where either of the two
/// sets it.
pub proof fn lemma_adc_in_two_steps(s: CpuState, val: u8)
    ensures
        ({
            let cy: u8 = if s.registers.flag.carry {
                1
            } else {
                0
            };
            let first = add_bytes(s.registers.a, val);
            let second = add_bytes(first.val, cy);
            let after = spec_adc(s, val).registers;
            &&& after.a == second.val
            &&& after.flag.half_carry == (first.half_carry || second.half_carry)
            &&& after.flag.carry == (first.carry || second.carry)
        }),
{
    let a = s.registers.a;
    let cy = spec_carry_in(s);
    let first = add_bytes(a, val);
    assert(first.val == if a + val >= 0x100 {
        a + val - 0x100
    } else {
        a + val
    });
    assert(first.val % 0x10 == (a % 0x10 + val % 0x10) % 0x10);
    assert((a + val + cy) % 0x100 == if a + val + cy >= 0x100 {
        a + val + cy - 0x100
    } else {
        a + val + cy
    });
}

/// SBC is two subtractions, of `val` and then of the carry flag: the result
/// is that of the second, and each of H and C is set where either of the
/// two sets it.
pub proof fn lemma_sbc_in_two_steps(s: CpuState, val: u8)
    ensures
        ({
            let cy: u8 = if s.registers.flag.carry {
                1
            } else {
                0
            };
            let first = sub_bytes(s.registers.a, val);
            let second = sub_bytes(first.val, cy);
            let after = spec_sbc(s, val).registers;
            &&& after.a == second.val
            &&& after.flag.half_carry == (first.half_carry || second.half_carry)
            &&& after.flag.carry == (first.carry || second.carry)
        }),
{
    let a = s.registers.a;
    let cy = spec_carry_in(s);
    let first = sub_bytes(a, val);
    assert(first.val == if a < val {
        a - val + 0x100
    } else {
        a - val
    });
    assert(first.val % 0x10 == (a % 0x10 - val % 0x10) % 0x10);
    assert((a - val - cy) % 0x100 == if a - val - cy < 0 {
        a - val - cy + 0x100
    } else {
        a - val - cy
    });
}

// Z 0 H C
pub fn add(cpu: &mut Cpu, val: u8)
    ensures
        final(cpu)@ == spec_add(old(cpu)@, val),
{
    let a = cpu.registers.a();

    let CarryTestResult { val: result, half_carry, carry } = a.carry_add(val);

    cpu.registers.set_a(result);

    cpu.registers.flag.set_zero(result == 0);
    cpu.registers.flag.set_sub(false);
    cpu.registers.flag.set_half_carry(half_carry);
    cpu.registers.flag.set_carry(carry);
}

// Z 0 H C
pub fn adc(cpu: &mut Cpu, val: u8)
    ensures
        final(cpu)@ == spec_adc(old(cpu)@, val),
{
    let a = cpu.registers.a();
    let cy: u8 = if cpu.registers.flag.carry() {
        1
    } else {
        0
    };

    let CarryTestResult { val: partial, half_carry: half_carry_a, carry: carry_a } = a.carry_add(
        val,
    );

    let CarryTestResult { val: result, half_carry: half_carry_b, carry: carry_b } =
        partial.carry_add(cy);

    // Since (a + b + 1) could only carry once, we use 'or' here.
    let half_carry = half_carry_a || half_carry_b;
    let carry = carry_a || carry_b;

    cpu.registers.set_a(result);

    cpu.registers.flag.set_zero(result == 0);
    cpu.registers.flag.set_sub(false);
    cpu.registers.flag.set_half_carry(half_carry);
    cpu.registers.flag.set_carry(carry);
}

// Z 1 H C
pub fn sub(cpu: &mut Cpu, val: u8)
    ensures
        final(cpu)@ == spec_sub(old(cpu)@, val),
{
    let a = cpu.registers.a();

    let CarryTestResult { val: result, half_carry, carry } = a.carry_sub(val);

    cpu.registers.set_a(result);
    cpu.registers.flag.set_zero(result == 0);
    cpu.registers.flag.set_sub(true);
    cpu.registers.flag.set_half_carry(half_carry);
    cpu.registers.flag.set_carry(carry);
}

// Z 1 H C
pub fn sbc(cpu: &mut Cpu, val: u8)
    ensures
        final(cpu)@ == spec_sbc(old(cpu)@, val),
{
    let a = cpu.registers.a();
    let cy: u8 = if cpu.registers.flag.carry() {
        1
    } else {
        0
    };

    let CarryTestResult { val: partial, half_carry: half_carry_a, carry: carry_a } = a.carry_sub(
        val,
    );

    let CarryTestResult { val: result, half_carry: half_carry_b, carry: carry_b } =
        partial.carry_sub(cy);

    // Since (a - b - 1) could only carry once, we use 'or' here.
    let half_carry = half_carry_a || half_carry_b;
    let carry = carry_a || carry_b;

    cpu.registers.set_a(result);

    cpu.registers.flag.set_zero(result == 0);
    cpu.registers.flag.set_sub(true);
    cpu.registers.flag.set_half_carry(half_carry);
    cpu.registers.flag.set_carry(carry);
}

// Z 0 1 0
pub fn and(cpu: &mut Cpu, val: u8)
    ensures
        final(cpu)@ == spec_and(old(cpu)@, val),
{
    let a = cpu.registers.a();

    let result = a & val;

    cpu.registers.set_a(result);

    cpu.registers.flag.set_zero(result == 0);
    cpu.registers.flag.set_sub(false);
    cpu.registers.flag.set_half_carry(true);
    cpu.registers.flag.set_carry(false);
}

// Z 0 0 0
pub fn xor(cpu: &mut Cpu, val: u8)
    ensures
        final(cpu)@ == spec_xor(old(cpu)@, val),
{
    let a = cpu.registers.a();

    let result = a ^ val;

    cpu.registers.set_a(result);

    cpu.registers.flag.set_zero(result == 0);
    cpu.registers.flag.set_sub(false);
    cpu.registers.flag.set_half_carry(false);
    cpu.registers.flag.set_carry(false);
}

// Z 1 H C
pub fn cp(cpu: &mut Cpu, val: u8)
    ensures
        final(cpu)@ == spec_cp(old(cpu)@, val),
{
    let a = cpu.registers.a();

    let CarryTestResult { val: result, half_carry, carry } = a.carry_sub(val);

    cpu.registers.flag.set_zero(result == 0);
    cpu.registers.flag.set_sub(true);
    cpu.registers.flag.set_half_carry(half_carry);
    cpu.registers.flag.set_carry(carry);
}

// Z 0 0 0
pub fn or(cpu: &mut Cpu, val: u8)
    ensures
        final(cpu)@ == spec_or(old(cpu)@, val),
{
    let a = cpu.registers.a();

    let result = a | val;

    cpu.registers.set_a(result);

    cpu.registers.flag.set_zero(result == 0);
    cpu.registers.flag.set_sub(false);
    cpu.registers.flag.set_half_carry(false);
    cpu.registers.flag.set_carry(false);
}

/// Increments `val` and sets the flags by it.
// Z 0 H -
pub fn inc(cpu: &mut Cpu, val: u8) -> (result: u8)
    ensures
        result == spec_inc_value(val),
        final(cpu)@ == old(cpu)@.with_flag(spec_inc_flag(old(cpu)@.registers.flag, val)),
{
    let CarryTestResult { val: result, half_carry, carry: _ } = val.carry_add(1);

    cpu.registers.flag.set_zero(result == 0);
    cpu.registers.flag.set_sub(false);
    cpu.registers.flag.set_half_carry(half_carry);

    result
}

/// Decrements `val` and sets the flags by it.
// Z 1 H -
pub fn dec(cpu: &mut Cpu, val: u8) -> (result: u8)
    ensures
        result == spec_dec_value(val),
        final(cpu)@ == old(cpu)@.with_flag(spec_dec_flag(old(cpu)@.registers.flag, val)),
{
    let CarryTestResult { val: result, half_carry, carry: _ } = val.carry_sub(1);

    cpu.registers.flag.set_zero(result == 0);
    cpu.registers.flag.set_sub(true);
    cpu.registers.flag.set_half_carry(half_carry);

    result
}

// ADD A,r
// 1  4

/// ADD A,A
pub fn add_a_a(cpu: &mut Cpu) -> (res: InstructionResult)
    ensures
        final(cpu)@ == spec_add(old(cpu)@, old(cpu)@.registers.a),
        res == (Cycle(4), OpLength(1)),
{
    let val = cpu.registers.a();
    self::add(cpu, val);

    (Cycle(4), OpLength(1))
}

/// ADD A,B
pub fn add_a_b(cpu: &mut Cpu) -> (res: InstructionResult)
    ensures
        final(cpu)@ == spec_add(old(cpu)@, old(cpu)@.registers.b),
        res == (Cycle(4), OpLength(1)),
{
    let val = cpu.registers.b();
    self::add(cpu, val);

    (Cycle(4), OpLength(1))
}

/// ADD A,C
pub fn add_a_c(cpu: &mut Cpu) -> (res: InstructionResult)
    ensures
        final(cpu)@ == spec_add(old(cpu)@, old(cpu)@.registers.c),
        res == (Cycle(4), OpLength(1)),
{
    let val = cpu.registers.c();
    self::add(cpu, val);

    (Cycle(4), OpLength(1))
}

/// ADD A,D
pub fn add_a_d(cpu: &mut Cpu) -> (res: InstructionResult)
    ensures
        final(cpu)@ == spec_add(old(cpu)@, old(cpu)@.registers.d),
        res == (Cycle(4), OpLength(1)),
{
    let val = cpu.registers.d();
    self::add(cpu, val);

    (Cycle(4), OpLength(1))
}

/// ADD A,E
pub fn add_a_e(cpu: &mut Cpu) -> (res: InstructionResult)
    ensures
        final(cpu)@ == spec_add(old(cpu)@, old(cpu)@.registers.e),
        res == (Cycle(4), OpLength(1)),
{
    let val = cpu.registers.e();
    self::add(cpu, val);

    (Cycle(4), OpLength(1))
}

/// ADD A,H
pub fn add_a_h(cpu: &mut Cpu) -> (res: InstructionResult)
    ensures
        final(cpu)@ == spec_add(old(cpu)@, old(cpu)@.registers.h),
        res == (Cycle(4), OpLength(1)),
{
    let val = cpu.registers.h();
    self::add(cpu, val);

    (Cycle(4), OpLength(1))
}

/// ADD A,L
pub fn add_a_l(cpu: &mut Cpu) -> (res: InstructionResult)
    ensures
        final(cpu)@ == spec_add(old(cpu)@, old(cpu)@.registers.l),
        res == (Cycle(4), OpLength(1)),
{
    let val = cpu.registers.l();
    self::add(cpu, val);

    (Cycle(4), OpLength(1))
}

/// ADD A,(HL)
// 1  8
pub fn add_a_hl_dref(cpu: &mut Cpu) -> (res: InstructionResult)
    ensures
        final(cpu)@ == spec_add(old(cpu)@, old(cpu)@.hl_dref()),
        res == (Cycle(8), OpLength(1)),
{
    let val = cpu.read_hl_dref();
    self::add(cpu, val);

    (Cycle(8), OpLength(1))
}

/// ADD A,d8
// 2  8
pub fn add_a_d8(cpu: &mut Cpu) -> (res: InstructionResult)
    ensures
        final(cpu)@ == spec_add(old(cpu)@, old(cpu)@.byte_argument(1)),
        res == (Cycle(8), OpLength(2)),
{
    let val = cpu.read_byte_argument(1);
    self::add(cpu, val);

    (Cycle(8), OpLength(2))
}

// ADC A,r
// 1  4

/// ADC A,B
pub fn adc_a_b(cpu: &mut Cpu) -> (res: InstructionResult)
    ensures
        final(cpu)@ == spec_adc(old(cpu)@, old(cpu)@.registers.b),
        res == (Cycle(4), OpLength(1)),
{
    let val = cpu.registers.b();
    self::adc(cpu, val);

    (Cycle(4), OpLength(1))
}

/// ADC A,C
pub fn adc_a_c(cpu: &mut Cpu) -> (res: InstructionResult)
    ensures
        final(cpu)@ == spec_adc(old(cpu)@, old(cpu)@.registers.c),
        res == (Cycle(4), OpLength(1)),
{
    let val = cpu.registers.c();
    self::adc(cpu, val);

    (Cycle(4), OpLength(1))
}

/// ADC A,D
pub fn adc_a_d(cpu: &mut Cpu) -> (res: InstructionResult)
    ensures
        final(cpu)@ == spec_adc(old(cpu)@, old(cpu)@.registers.d),
        res == (Cycle(4), OpLength(1)),
{
    let val = cpu.registers.d();
    self::adc(cpu, val);

    (Cycle(4), OpLength(1))
}

/// ADC A,E
pub fn adc_a_e(cpu: &mut Cpu) -> (res: InstructionResult)
    ensures
        final(cpu)@ == spec_adc(old(cpu)@, old(cpu)@.registers.e),
        res == (Cycle(4), OpLength(1)),
{
    let val = cpu.registers.e();
    self::adc(cpu, val);

    (Cycle(4), OpLength(1))
}

/// ADC A,H
pub fn adc_a_h(cpu: &mut Cpu) -> (res: InstructionResult)
    ensures
        final(cpu)@ == spec_adc(old(cpu)@, old(cpu)@.registers.h),
        res == (Cycle(4), OpLength(1)),
{
    let val = cpu.registers.h();
    self::adc(cpu, val);

    (Cycle(4), OpLength(1))
}

/// ADC A,L
pub fn adc_a_l(cpu: &mut Cpu) -> (res: InstructionResult)
    ensures
        final(cpu)@ == spec_adc(old(cpu)@, old(cpu)@.registers.l),
        res == (Cycle(4), OpLength(1)),
{
    let val = cpu.registers.l();
    self::adc(cpu, val);

    (Cycle(4), OpLength(1))
}

/// ADC A,A
pub fn adc_a_a(cpu: &mut Cpu) -> (res: InstructionResult)
    ensures
        final(cpu)@ == spec_adc(old(cpu)@, old(cpu)@.registers.a),
        res == (Cycle(4), OpLength(1)),
{
    let val = cpu.registers.a();
    self::adc(cpu, val);

    (Cycle(4), OpLength(1))
}

/// ADC A,(HL)
// 1  8
pub fn adc_a_hl_dref(cpu: &mut Cpu) -> (res: InstructionResult)
    ensures
        final(cpu)@ == spec_adc(old(cpu)@, old(cpu)@.hl_dref()),
        res == (Cycle(8), OpLength(1)),
{
    let val = cpu.read_hl_dref();
    self::adc(cpu, val);

    (Cycle(8), OpLength(1))
}

/// ADC A,d8
// 2  8
pub fn adc_a_d8(cpu: &mut Cpu) -> (res: InstructionResult)
    ensures
        final(cpu)@ == spec_adc(old(cpu)@, old(cpu)@.byte_argument(1)),
        res == (Cycle(8), OpLength(2)),
{
    let val = cpu.read_byte_argument(1);
    self::adc(cpu, val);

    (Cycle(8), OpLength(2))
}

// SUB r
// 1  4

/// SUB B
pub fn sub_a_b(cpu: &mut Cpu) -> (res: InstructionResult)
    ensures
        final(cpu)@ == spec_sub(old(cpu)@, old(cpu)@.registers.b),
        res == (Cycle(4), OpLength(1)),
{
    let val = cpu.registers.b();
    self::sub(cpu, val);

    (Cycle(4), OpLength(1))
}

/// SUB C
pub fn sub_a_c(cpu: &mut Cpu) -> (res: InstructionResult)
    ensures
        final(cpu)@ == spec_sub(old(cpu)@, old(cpu)@.registers.c),
        res == (Cycle(4), OpLength(1)),
{
    let val = cpu.registers.c();
    self::sub(cpu, val);

    (Cycle(4), OpLength(1))
}

/// SUB D
pub fn sub_a_d(cpu: &mut Cpu) -> (res: InstructionResult)
    ensures
        final(cpu)@ == spec_sub(old(cpu)@, old(cpu)@.registers.d),
        res == (Cycle(4), OpLength(1)),
{
    let val = cpu.registers.d();
    self::sub(cpu, val);

    (Cycle(4), OpLength(1))
}

/// SUB E
pub fn sub_a_e(cpu: &mut Cpu) -> (res: InstructionResult)
    ensures
        final(cpu)@ == spec_sub(old(cpu)@, old(cpu)@.registers.e),
        res == (Cycle(4), OpLength(1)),
{
    let val = cpu.registers.e();
    self::sub(cpu, val);

    (Cycle(4), OpLength(1))
}

/// SUB H
pub fn sub_a_h(cpu: &mut Cpu) -> (res: InstructionResult)
    ensures
        final(cpu)@ == spec_sub(old(cpu)@, old(cpu)@.registers.h),
        res == (Cycle(4), OpLength(1)),
{
    let val = cpu.registers.h();
    self::sub(cpu, val);

    (Cycle(4), OpLength(1))
}

/// SUB L
pub fn sub_a_l(cpu: &mut Cpu) -> (res: InstructionResult)
    ensures
        final(cpu)@ == spec_sub(old(cpu)@, old(cpu)@.registers.l),
        res == (Cycle(4), OpLength(1)),
{
    let val = cpu.registers.l();
    self::sub(cpu, val);

    (Cycle(4), OpLength(1))
}

/// SUB A
pub fn sub_a_a(cpu: &mut Cpu) -> (res: InstructionResult)
    ensures
        final(cpu)@ == spec_sub(old(cpu)@, old(cpu)@.registers.a),
        res == (Cycle(4), OpLength(1)),
{
    let val = cpu.registers.a();
    self::sub(cpu, val);

    (Cycle(4), OpLength(1))
}

/// SUB (HL)
// 1  8
pub fn sub_hl_dref(cpu: &mut Cpu) -> (res: InstructionResult)
    ensures
        final(cpu)@ == spec_sub(old(cpu)@, old(cpu)@.hl_dref()),
        res == (Cycle(8), OpLength(1)),
{
    let val = cpu.read_hl_dref();
    self::sub(cpu, val);

    (Cycle(8), OpLength(1))
}

/// SUB d8
// 2  8
pub fn sub_d8(cpu: &mut Cpu) -> (res: InstructionResult)
    ensures
        final(cpu)@ == spec_sub(old(cpu)@, old(cpu)@.byte_argument(1)),
        res == (Cycle(8), OpLength(2)),
{
    let val = cpu.read_byte_argument(1);
    self::sub(cpu, val);

    (Cycle(8), OpLength(2))
}

// SBC A,r
// 1  4

/// SBC A,B
pub fn sbc_a_b(cpu: &mut Cpu) -> (res: InstructionResult)
    ensures
        final(cpu)@ == spec_sbc(old(cpu)@, old(cpu)@.registers.b),
        res == (Cycle(4), OpLength(1)),
{
    let val = cpu.registers.b();
    self::sbc(cpu, val);

    (Cycle(4), OpLength(1))
}

/// SBC A,C
pub fn sbc_a_c(cpu: &mut Cpu) -> (res: InstructionResult)
    ensures
        final(cpu)@ == spec_sbc(old(cpu)@, old(cpu)@.registers.c),
        res == (Cycle(4), OpLength(1)),
{
    let val = cpu.registers.c();
    self::sbc(cpu, val);

    (Cycle(4), OpLength(1))
}

/// SBC A,D
pub fn sbc_a_d(cpu: &mut Cpu) -> (res: InstructionResult)
    ensures
        final(cpu)@ == spec_sbc(old(cpu)@, old(cpu)@.registers.d),
        res == (Cycle(4), OpLength(1)),
{
    let val = cpu.registers.d();
    self::sbc(cpu, val);

    (Cycle(4), OpLength(1))
}

/// SBC A,E
pub fn sbc_a_e(cpu: &mut Cpu) -> (res: InstructionResult)
    ensures
        final(cpu)@ == spec_sbc(old(cpu)@, old(cpu)@.registers.e),
        res == (Cycle(4), OpLength(1)),
{
    let val = cpu.registers.e();
    self::sbc(cpu, val);

    (Cycle(4), OpLength(1))
}

/// SBC A,H
pub fn sbc_a_h(cpu: &mut Cpu) -> (res: InstructionResult)
    ensures
        final(cpu)@ == spec_sbc(old(cpu)@, old(cpu)@.registers.h),
        res == (Cycle(4), OpLength(1)),
{
    let val = cpu.registers.h();
    self::sbc(cpu, val);

    (Cycle(4), OpLength(1))
}

/// SBC A,L
pub fn sbc_a_l(cpu: &mut Cpu) -> (res: InstructionResult)
    ensures
        final(cpu)@ == spec_sbc(old(cpu)@, old(cpu)@.registers.l),
        res == (Cycle(4), OpLength(1)),
{
    let val = cpu.registers.l();
    self::sbc(cpu, val);

    (Cycle(4), OpLength(1))
}

/// SBC A,A
pub fn sbc_a_a(cpu: &mut Cpu) -> (res: InstructionResult)
    ensures
        final(cpu)@ == spec_sbc(old(cpu)@, old(cpu)@.registers.a),
        res == (Cycle(4), OpLength(1)),
{
    let val = cpu.registers.a();
    self::sbc(cpu, val);

    (Cycle(4), OpLength(1))
}

/// SBC A,(HL)
// 1  8
pub fn sbc_a_hl_dref(cpu: &mut Cpu) -> (res: InstructionResult)
    ensures
        final(cpu)@ == spec_sbc(old(cpu)@, old(cpu)@.hl_dref()),
        res == (Cycle(8), OpLength(1)),
{
    let val = cpu.read_hl_dref();
    self::sbc(cpu, val);

    (Cycle(8), OpLength(1))
}

/// SBC A,d8
// 2  8
pub fn sbc_a_d8(cpu: &mut Cpu) -> (res: InstructionResult)
    ensures
        final(cpu)@ == spec_sbc(old(cpu)@, old(cpu)@.byte_argument(1)),
        res == (Cycle(8), OpLength(2)),
{
    let val = cpu.read_byte_argument(1);
    self::sbc(cpu, val);

    (Cycle(8), OpLength(2))
}

// AND r
// 1  4

/// AND B
pub fn and_b(cpu: &mut Cpu) -> (res: InstructionResult)
    ensures
        final(cpu)@ == spec_and(old(cpu)@, old(cpu)@.registers.b),
        res == (Cycle(4), OpLength(1)),
{
    let val = cpu.registers.b();
    self::and(cpu, val);

    (Cycle(4), OpLength(1))
}

/// AND C
pub fn and_c(cpu: &mut Cpu) -> (res: InstructionResult)
    ensures
        final(cpu)@ == spec_and(old(cpu)@, old(cpu)@.registers.c),
        res == (Cycle(4), OpLength(1)),
{
    let val = cpu.registers.c();
    self::and(cpu, val);

    (Cycle(4), OpLength(1))
}

/// AND D
pub fn and_d(cpu: &mut Cpu) -> (res: InstructionResult)
    ensures
        final(cpu)@ == spec_and(old(cpu)@, old(cpu)@.registers.d),
        res == (Cycle(4), OpLength(1)),
{
    let val = cpu.registers.d();
    self::and(cpu, val);

    (Cycle(4), OpLength(1))
}

/// AND E
pub fn and_e(cpu: &mut Cpu) -> (res: InstructionResult)
    ensures
        final(cpu)@ == spec_and(old(cpu)@, old(cpu)@.registers.e),
        res == (Cycle(4), OpLength(1)),
{
    let val = cpu.registers.e();
    self::and(cpu, val);

    (Cycle(4), OpLength(1))
}

/// AND H
pub fn and_h(cpu: &mut Cpu) -> (res: InstructionResult)
    ensures
        final(cpu)@ == spec_and(old(cpu)@, old(cpu)@.registers.h),
        res == (Cycle(4), OpLength(1)),
{
    let val = cpu.registers.h();
    self::and(cpu, val);

    (Cycle(4), OpLength(1))
}

/// AND L
pub fn and_l(cpu: &mut Cpu) -> (res: InstructionResult)
    ensures
        final(cpu)@ == spec_and(old(cpu)@, old(cpu)@.registers.l),
        res == (Cycle(4), OpLength(1)),
{
    let val = cpu.registers.l();
    self::and(cpu, val);

    (Cycle(4), OpLength(1))
}

/// AND A
pub fn and_a(cpu: &mut Cpu) -> (res: InstructionResult)
    ensures
        final(cpu)@ == spec_and(old(cpu)@, old(cpu)@.registers.a),
        res == (Cycle(4), OpLength(1)),
{
    let val = cpu.registers.a();
    self::and(cpu, val);

    (Cycle(4), OpLength(1))
}

/// AND (HL)
// 1  8
pub fn and_hl_dref(cpu: &mut Cpu) -> (res: InstructionResult)
    ensures
        final(cpu)@ == spec_and(old(cpu)@, old(cpu)@.hl_dref()),
        res == (Cycle(8), OpLength(1)),
{
    let val = cpu.read_hl_dref();
    self::and(cpu, val);

    (Cycle(8), OpLength(1))
}

/// AND d8
// 2  8
pub fn and_d8(cpu: &mut Cpu) -> (res: InstructionResult)
    ensures
        final(cpu)@ == spec_and(old(cpu)@, old(cpu)@.byte_argument(1)),
        res == (Cycle(8), OpLength(2)),
{
    let val = cpu.read_byte_argument(1);
    self::and(cpu, val);

    (Cycle(8), OpLength(2))
}

// XOR r
// 1  4

/// XOR B
pub fn xor_b(cpu: &mut Cpu) -> (res: InstructionResult)
    ensures
        final(cpu)@ == spec_xor(old(cpu)@, old(cpu)@.registers.b),
        res == (Cycle(4), OpLength(1)),
{
    let val = cpu.registers.b();
    self::xor(cpu, val);

    (Cycle(4), OpLength(1))
}

/// XOR C
pub fn xor_c(cpu: &mut Cpu) -> (res: InstructionResult)
    ensures
        final(cpu)@ == spec_xor(old(cpu)@, old(cpu)@.registers.c),
        res == (Cycle(4), OpLength(1)),
{
    let val = cpu.registers.c();
    self::xor(cpu, val);

    (Cycle(4), OpLength(1))
}

/// XOR D
pub fn xor_d(cpu: &mut Cpu) -> (res: InstructionResult)
    ensures
        final(cpu)@ == spec_xor(old(cpu)@, old(cpu)@.registers.d),
        res == (Cycle(4), OpLength(1)),
{
    let val = cpu.registers.d();
    self::xor(cpu, val);

    (Cycle(4), OpLength(1))
}

/// XOR E
pub fn xor_e(cpu: &mut Cpu) -> (res: InstructionResult)
    ensures
        final(cpu)@ == spec_xor(old(cpu)@, old(cpu)@.registers.e),
        res == (Cycle(4), OpLength(1)),
{
    let val = cpu.registers.e();
    self::xor(cpu, val);

    (Cycle(4), OpLength(1))
}

/// XOR H
pub fn xor_h(cpu: &mut Cpu) -> (res: InstructionResult)
    ensures
        final(cpu)@ == spec_xor(old(cpu)@, old(cpu)@.registers.h),
        res == (Cycle(4), OpLength(1)),
{
    let val = cpu.registers.h();
    self::xor(cpu, val);

    (Cycle(4), OpLength(1))
}

/// XOR L
pub fn xor_l(cpu: &mut Cpu) -> (res: InstructionResult)
    ensures
        final(cpu)@ == spec_xor(old(cpu)@, old(cpu)@.registers.l),
        res == (Cycle(4), OpLength(1)),
{
    let val = cpu.registers.l();
    self::xor(cpu, val);

    (Cycle(4), OpLength(1))
}

/// XOR A
pub fn xor_a(cpu: &mut Cpu) -> (res: InstructionResult)
    ensures
        final(cpu)@ == spec_xor(old(cpu)@, old(cpu)@.registers.a),
        res == (Cycle(4), OpLength(1)),
{
    let val = cpu.registers.a();
    self::xor(cpu, val);

    (Cycle(4), OpLength(1))
}

/// XOR (HL)
// 1  8
pub fn xor_hl_dref(cpu: &mut Cpu) -> (res: InstructionResult)
    ensures
        final(cpu)@ == spec_xor(old(cpu)@, old(cpu)@.hl_dref()),
        res == (Cycle(8), OpLength(1)),
{
    let val = cpu.read_hl_dref();
    self::xor(cpu, val);

    (Cycle(8), OpLength(1))
}

/// XOR d8
// 2  8
pub fn xor_d8(cpu: &mut Cpu) -> (res: InstructionResult)
    ensures
        final(cpu)@ == spec_xor(old(cpu)@, old(cpu)@.byte_argument(1)),
        res == (Cycle(8), OpLength(2)),
{
    let val = cpu.read_byte_argument(1);
    self::xor(cpu, val);

    (Cycle(8), OpLength(2))
}

// OR r
// 1  4

/// OR B
pub fn or_b(cpu: &mut Cpu) -> (res: InstructionResult)
    ensures
        final(cpu)@ == spec_or(old(cpu)@, old(cpu)@.registers.b),
        res == (Cycle(4), OpLength(1)),
{
    let val = cpu.registers.b();
    self::or(cpu, val);

    (Cycle(4), OpLength(1))
}

/// OR C
pub fn or_c(cpu: &mut Cpu) -> (res: InstructionResult)
    ensures
        final(cpu)@ == spec_or(old(cpu)@, old(cpu)@.registers.c),
        res == (Cycle(4), OpLength(1)),
{
    let val = cpu.registers.c();
    self::or(cpu, val);

    (Cycle(4), OpLength(1))
}

/// OR D
pub fn or_d(cpu: &mut Cpu) -> (res: InstructionResult)
    ensures
        final(cpu)@ == spec_or(old(cpu)@, old(cpu)@.registers.d),
        res == (Cycle(4), OpLength(1)),
{
    let val = cpu.registers.d();
    self::or(cpu, val);

    (Cycle(4), OpLength(1))
}

/// OR E
pub fn or_e(cpu: &mut Cpu) -> (res: InstructionResult)
    ensures
        final(cpu)@ == spec_or(old(cpu)@, old(cpu)@.registers.e),
        res == (Cycle(4), OpLength(1)),
{
    let val = cpu.registers.e();
    self::or(cpu, val);

    (Cycle(4), OpLength(1))
}

/// OR H
pub fn or_h(cpu: &mut Cpu) -> (res: InstructionResult)
    ensures
        final(cpu)@ == spec_or(old(cpu)@, old(cpu)@.registers.h),
        res == (Cycle(4), OpLength(1)),
{
    let val = cpu.registers.h();
    self::or(cpu, val);

    (Cycle(4), OpLength(1))
}

/// OR L
pub fn or_l(cpu: &mut Cpu) -> (res: InstructionResult)
    ensures
        final(cpu)@ == spec_or(old(cpu)@, old(cpu)@.registers.l),
        res == (Cycle(4), OpLength(1)),
{
    let val = cpu.registers.l();
    self::or(cpu, val);

    (Cycle(4), OpLength(1))
}

/// OR A
pub fn or_a(cpu: &mut Cpu) -> (res: InstructionResult)
    ensures
        final(cpu)@ == spec_or(old(cpu)@, old(cpu)@.registers.a),
        res == (Cycle(4), OpLength(1)),
{
    let val = cpu.registers.a();
    self::or(cpu, val);

    (Cycle(4), OpLength(1))
}

/// OR (HL)
// 1  8
pub fn or_hl_dref(cpu: &mut Cpu) -> (res: InstructionResult)
    ensures
        final(cpu)@ == spec_or(old(cpu)@, old(cpu)@.hl_dref()),
        res == (Cycle(8), OpLength(1)),
{
    let val = cpu.read_hl_dref();
    self::or(cpu, val);

    (Cycle(8), OpLength(1))
}

/// OR d8
// 2  8
pub fn or_d8(cpu: &mut Cpu) -> (res: InstructionResult)
    ensures
        final(cpu)@ == spec_or(old(cpu)@, old(cpu)@.byte_argument(1)),
        res == (Cycle(8), OpLength(2)),
{
    let val = cpu.read_byte_argument(1);
    self::or(cpu, val);

    (Cycle(8), OpLength(2))
}

// CP r
// 1  4

/// CP B
pub fn cp_b(cpu: &mut Cpu) -> (res: InstructionResult)
    ensures
        final(cpu)@ == spec_cp(old(cpu)@, old(cpu)@.registers.b),
        res == (Cycle(4), OpLength(1)),
{
    let val = cpu.registers.b();
    self::cp(cpu, val);

    (Cycle(4), OpLength(1))
}

/// CP C
pub fn cp_c(cpu: &mut Cpu) -> (res: InstructionResult)
    ensures
        final(cpu)@ == spec_cp(old(cpu)@, old(cpu)@.registers.c),
        res == (Cycle(4), OpLength(1)),
{
    let val = cpu.registers.c();
    self::cp(cpu, val);

    (Cycle(4), OpLength(1))
}

/// CP D
pub fn cp_d(cpu: &mut Cpu) -> (res: InstructionResult)
    ensures
        final(cpu)@ == spec_cp(old(cpu)@, old(cpu)@.registers.d),
        res == (Cycle(4), OpLength(1)),
{
    let val = cpu.registers.d();
    self::cp(cpu, val);

    (Cycle(4), OpLength(1))
}

/// CP E
pub fn cp_e(cpu: &mut Cpu) -> (res: InstructionResult)
    ensures
        final(cpu)@ == spec_cp(old(cpu)@, old(cpu)@.registers.e),
        res == (Cycle(4), OpLength(1)),
{
    let val = cpu.registers.e();
    self::cp(cpu, val);

    (Cycle(4), OpLength(1))
}

/// CP H
pub fn cp_h(cpu: &mut Cpu) -> (res: InstructionResult)
    ensures
        final(cpu)@ == spec_cp(old(cpu)@, old(cpu)@.registers.h),
        res == (Cycle(4), OpLength(1)),
{
    let val = cpu.registers.h();
    self::cp(cpu, val);

    (Cycle(4), OpLength(1))
}

/// CP L
pub fn cp_l(cpu: &mut Cpu) -> (res: InstructionResult)
    ensures
        final(cpu)@ == spec_cp(old(cpu)@, old(cpu)@.registers.l),
        res == (Cycle(4), OpLength(1)),
{
    let val = cpu.registers.l();
    self::cp(cpu, val);

    (Cycle(4), OpLength(1))
}

/// CP A
pub fn cp_a(cpu: &mut Cpu) -> (res: InstructionResult)
    ensures
        final(cpu)@ == spec_cp(old(cpu)@, old(cpu)@.registers.a),
        res == (Cycle(4), OpLength(1)),
{
    let val = cpu.registers.a();
    self::cp(cpu, val);

    (Cycle(4), OpLength(1))
}

/// CP (HL)
// 1  8
pub fn cp_hl_dref(cpu: &mut Cpu) -> (res: InstructionResult)
    ensures
        final(cpu)@ == spec_cp(old(cpu)@, old(cpu)@.hl_dref()),
        res == (Cycle(8), OpLength(1)),
{
    let val = cpu.read_hl_dref();
    self::cp(cpu, val);

    (Cycle(8), OpLength(1))
}

/// CP d8
// 2  8
pub fn cp_d8(cpu: &mut Cpu) -> (res: InstructionResult)
    ensures
        final(cpu)@ == spec_cp(old(cpu)@, old(cpu)@.byte_argument(1)),
        res == (Cycle(8), OpLength(2)),
{
    let val = cpu.read_byte_argument(1);
    self::cp(cpu, val);

    (Cycle(8), OpLength(2))
}

// INC r
// 1  4

/// INC B
pub fn inc_b(cpu: &mut Cpu) -> (res: InstructionResult)
    ensures
        final(cpu)@ == old(cpu)@.with_registers(
            Registers {
                b: spec_inc_value(old(cpu)@.registers.b),
                flag: spec_inc_flag(old(cpu)@.registers.flag, old(cpu)@.registers.b),
                ..old(cpu)@.registers
            },
        ),
        res == (Cycle(4), OpLength(1)),
{
    let val = cpu.registers.b();
    let result = self::inc(cpu, val);
    cpu.registers.set_b(result);

    (Cycle(4), OpLength(1))
}

/// INC C
pub fn inc_c(cpu: &mut Cpu) -> (res: InstructionResult)
    ensures
        final(cpu)@ == old(cpu)@.with_registers(
            Registers {
                c: spec_inc_value(old(cpu)@.registers.c),
                flag: spec_inc_flag(old(cpu)@.registers.flag, old(cpu)@.registers.c),
                ..old(cpu)@.registers
            },
        ),
        res == (Cycle(4), OpLength(1)),
{
    let val = cpu.registers.c();
    let result = self::inc(cpu, val);
    cpu.registers.set_c(result);

    (Cycle(4), OpLength(1))
}

/// INC D
pub fn inc_d(cpu: &mut Cpu) -> (res: InstructionResult)
    ensures
        final(cpu)@ == old(cpu)@.with_registers(
            Registers {
                d: spec_inc_value(old(cpu)@.registers.d),
                flag: spec_inc_flag(old(cpu)@.registers.flag, old(cpu)@.registers.d),
                ..old(cpu)@.registers
            },
        ),
        res == (Cycle(4), OpLength(1)),
{
    let val = cpu.registers.d();
    let result = self::inc(cpu, val);
    cpu.registers.set_d(result);

    (Cycle(4), OpLength(1))
}

/// INC E
pub fn inc_e(cpu: &mut Cpu) -> (res: InstructionResult)
    ensures
        final(cpu)@ == old(cpu)@.with_registers(
            Registers {
                e: spec_inc_value(old(cpu)@.registers.e),
                flag: spec_inc_flag(old(cpu)@.registers.flag, old(cpu)@.registers.e),
                ..old(cpu)@.registers
            },
        ),
        res == (Cycle(4), OpLength(1)),
{
    let val = cpu.registers.e();
    let result = self::inc(cpu, val);
    cpu.registers.set_e(result);

    (Cycle(4), OpLength(1))
}

/// INC H
pub fn inc_h(cpu: &mut Cpu) -> (res: InstructionResult)
    ensures
        final(cpu)@ == old(cpu)@.with_registers(
            Registers {
                h: spec_inc_value(old(cpu)@.registers.h),
                flag: spec_inc_flag(old(cpu)@.registers.flag, old(cpu)@.registers.h),
                ..old(cpu)@.registers
            },
        ),
        res == (Cycle(4), OpLength(1)),
{
    let val = cpu.registers.h();
    let result = self::inc(cpu, val);
    cpu.registers.set_h(result);

    (Cycle(4), OpLength(1))
}

/// INC L
pub fn inc_l(cpu: &mut Cpu) -> (res: InstructionResult)
    ensures
        final(cpu)@ == old(cpu)@.with_registers(
            Registers {
                l: spec_inc_value(old(cpu)@.registers.l),
                flag: spec_inc_flag(old(cpu)@.registers.flag, old(cpu)@.registers.l),
                ..old(cpu)@.registers
            },
        ),
        res == (Cycle(4), OpLength(1)),
{
    let val = cpu.registers.l();
    let result = self::inc(cpu, val);
    cpu.registers.set_l(result);

    (Cycle(4), OpLength(1))
}

/// INC A
pub fn inc_a(cpu: &mut Cpu) -> (res: InstructionResult)
    ensures
        final(cpu)@ == old(cpu)@.with_registers(
            Registers {
                a: spec_inc_value(old(cpu)@.registers.a),
                flag: spec_inc_flag(old(cpu)@.registers.flag, old(cpu)@.registers.a),
                ..old(cpu)@.registers
            },
        ),
        res == (Cycle(4), OpLength(1)),
{
    let val = cpu.registers.a();
    let result = self::inc(cpu, val);
    cpu.registers.set_a(result);

    (Cycle(4), OpLength(1))
}

/// The machine after INC (HL), or the error that its store ends in.
pub open spec fn spec_inc_hl_dref(s: CpuState) -> Result<CpuState, Error> {
    match s.store_byte(s.registers.spec_hl(), spec_inc_value(s.hl_dref())) {
        Ok(stored) => Ok(stored.with_flag(spec_inc_flag(s.registers.flag, s.hl_dref()))),
        Err(e) => Err(e),
    }
}

/// INC (HL)
// 1  12
pub fn inc_hl_dref(cpu: &mut Cpu) -> (res: Result<InstructionResult, Error>)
    ensures
        (Outcome { state: final(cpu)@, result: res }) == done_if_stored(
            old(cpu)@,
            spec_inc_hl_dref(old(cpu)@),
            12,
            1,
        ),
{
    let hl = cpu.registers.hl();
    let val = cpu.read_hl_dref();

    // The store comes first: where it is refused the flags stay.
    cpu.mmu.write_byte(hl, val.wrapping_add(1))?;
    let _ = self::inc(cpu, val);

    Ok((Cycle(12), OpLength(1)))
}

// DEC r
// 1  4

/// DEC B
pub fn dec_b(cpu: &mut Cpu) -> (res: InstructionResult)
    ensures
        final(cpu)@ == old(cpu)@.with_registers(
            Registers {
                b: spec_dec_value(old(cpu)@.registers.b),
                flag: spec_dec_flag(old(cpu)@.registers.flag, old(cpu)@.registers.b),
                ..old(cpu)@.registers
            },
        ),
        res == (Cycle(4), OpLength(1)),
{
    let val = cpu.registers.b();
    let result = self::dec(cpu, val);
    cpu.registers.set_b(result);

    (Cycle(4), OpLength(1))
}

/// DEC C
pub fn dec_c(cpu: &mut Cpu) -> (res: InstructionResult)
    ensures
        final(cpu)@ == old(cpu)@.with_registers(
            Registers {
                c: spec_dec_value(old(cpu)@.registers.c),
                flag: spec_dec_flag(old(cpu)@.registers.flag, old(cpu)@.registers.c),
                ..old(cpu)@.registers
            },
        ),
        res == (Cycle(4), OpLength(1)),
{
    let val = cpu.registers.c();
    let result = self::dec(cpu, val);
    cpu.registers.set_c(result);

    (Cycle(4), OpLength(1))
}

/// DEC D
pub fn dec_d(cpu: &mut Cpu) -> (res: InstructionResult)
    ensures
        final(cpu)@ == old(cpu)@.with_registers(
            Registers {
                d: spec_dec_value(old(cpu)@.registers.d),
                flag: spec_dec_flag(old(cpu)@.registers.flag, old(cpu)@.registers.d),
                ..old(cpu)@.registers
            },
        ),
        res == (Cycle(4), OpLength(1)),
{
    let val = cpu.registers.d();
    let result = self::dec(cpu, val);
    cpu.registers.set_d(result);

    (Cycle(4), OpLength(1))
}

/// DEC E
pub fn dec_e(cpu: &mut Cpu) -> (res: InstructionResult)
    ensures
        final(cpu)@ == old(cpu)@.with_registers(
            Registers {
                e: spec_dec_value(old(cpu)@.registers.e),
                flag: spec_dec_flag(old(cpu)@.registers.flag, old(cpu)@.registers.e),
                ..old(cpu)@.registers
            },
        ),
        res == (Cycle(4), OpLength(1)),
{
    let val = cpu.registers.e();
    let result = self::dec(cpu, val);
    cpu.registers.set_e(result);

    (Cycle(4), OpLength(1))
}

/// DEC H
pub fn dec_h(cpu: &mut Cpu) -> (res: InstructionResult)
    ensures
        final(cpu)@ == old(cpu)@.with_registers(
            Registers {
                h: spec_dec_value(old(cpu)@.registers.h),
                flag: spec_dec_flag(old(cpu)@.registers.flag, old(cpu)@.registers.h),
                ..old(cpu)@.registers
            },
        ),
        res == (Cycle(4), OpLength(1)),
{
    let val = cpu.registers.h();
    let result = self::dec(cpu, val);
    cpu.registers.set_h(result);

    (Cycle(4), OpLength(1))
}

/// DEC L
pub fn dec_l(cpu: &mut Cpu) -> (res: InstructionResult)
    ensures
        final(cpu)@ == old(cpu)@.with_registers(
            Registers {
                l: spec_dec_value(old(cpu)@.registers.l),
                flag: spec_dec_flag(old(cpu)@.registers.flag, old(cpu)@.registers.l),
                ..old(cpu)@.registers
            },
        ),
        res == (Cycle(4), OpLength(1)),
{
    let val = cpu.registers.l();
    let result = self::dec(cpu, val);
    cpu.registers.set_l(result);

    (Cycle(4), OpLength(1))
}

/// DEC A
pub fn dec_a(cpu: &mut Cpu) -> (res: InstructionResult)
    ensures
        final(cpu)@ == old(cpu)@.with_registers(
            Registers {
                a: spec_dec_value(old(cpu)@.registers.a),
                flag: spec_dec_flag(old(cpu)@.registers.flag, old(cpu)@.registers.a),
                ..old(cpu)@.registers
            },
        ),
        res == (Cycle(4), OpLength(1)),
{
    let val = cpu.registers.a();
    let result = self::dec(cpu, val);
    cpu.registers.set_a(result);

    (Cycle(4), OpLength(1))
}

/// The machine after DEC (HL), or the error that its store ends in.
pub open spec fn spec_dec_hl_dref(s: CpuState) -> Result<CpuState, Error> {
    match s.store_byte(s.registers.spec_hl(), spec_dec_value(s.hl_dref())) {
        Ok(stored) => Ok(stored.with_flag(spec_dec_flag(s.registers.flag, s.hl_dref()))),
        Err(e) => Err(e),
    }
}

/// DEC (HL)
// 1  12
pub fn dec_hl_dref(cpu: &mut Cpu) -> (res: Result<InstructionResult, Error>)
    ensures
        (Outcome { state: final(cpu)@, result: res }) == done_if_stored(
            old(cpu)@,
            spec_dec_hl_dref(old(cpu)@),
            12,
            1,
        ),
{
    let hl = cpu.registers.hl();
    let val = cpu.read_hl_dref();

    // The store comes first: where it is refused the flags stay.
    cpu.mmu.write_byte(hl, val.wrapping_sub(1))?;
    let _ = self::dec(cpu, val);

    Ok((Cycle(12), OpLength(1)))
}

/// DAA
// 1  4
#[verifier::rlimit(40)]
pub fn daa(cpu: &mut Cpu) -> (res: InstructionResult)
    ensures
        final(cpu)@ == spec_daa(old(cpu)@),
        res == (Cycle(4), OpLength(1)),
{
    let mut a = cpu.registers.a();
    let mut carry = cpu.registers.flag.carry();

    if !cpu.registers.flag.sub() {
        if carry || a > 0x99 {
            a = a.wrapping_add(0x60);
            carry = true;
        }
        if cpu.registers.flag.half_carry() || a % 0x10 > 0x09 {
            a = a.wrapping_add(0x06);
        }
    } else {
        if carry {
            a = a.wrapping_sub(0x60);
        }
        if cpu.registers.flag.half_carry() {
            a = a.wrapping_sub(0x06);
        }
    }

    cpu.registers.set_a(a);

    cpu.registers.flag.set_zero(a == 0);
    cpu.registers.flag.set_half_carry(false);
    cpu.registers.flag.set_carry(carry);

    (Cycle(4), OpLength(1))
}

/// CPL
// 1  4
pub fn cpl(cpu: &mut Cpu) -> (res: InstructionResult)
    ensures
        final(cpu)@ == spec_cpl(old(cpu)@),
        res == (Cycle(4), OpLength(1)),
{
    let a = cpu.registers.a();
    assert(!a == 0xFF - a) by (bit_vector);

    cpu.registers.set_a(!a);

    cpu.registers.flag.set_sub(true);
    cpu.registers.flag.set_half_carry(true);

    (Cycle(4), OpLength(1))
}

/// SCF
// 1  4
pub fn scf(cpu: &mut Cpu) -> (res: InstructionResult)
    ensures
        final(cpu)@ == spec_scf(old(cpu)@),
        res == (Cycle(4), OpLength(1)),
{
    cpu.registers.flag.set_sub(false);
    cpu.registers.flag.set_half_carry(false);
    cpu.registers.flag.set_carry(true);

    (Cycle(4), OpLength(1))
}

/// CCF
// 1  4
pub fn ccf(cpu: &mut Cpu) -> (res: InstructionResult)
    ensures
        final(cpu)@ == spec_ccf(old(cpu)@),
        res == (Cycle(4), OpLength(1)),
{
    let carry = cpu.registers.flag.carry();

    cpu.registers.flag.set_sub(false);
    cpu.registers.flag.set_half_carry(false);
    cpu.registers.flag.set_carry(!carry);

    (Cycle(4), OpLength(1))
}

} // verus!
