//! The dispatch tables of the two opcode planes.

use vstd::prelude::*;
use crate::cpu::Cpu;
use crate::mmu::Error;
use crate::opcode::bit;
use crate::opcode::control;
use crate::opcode::d16_arithmetic_logical;
use crate::opcode::d8_arithmetic_logical;
use crate::opcode::decode::{
    lemma_fields, spec_execute, spec_execute_cb, spec_operand_source, spec_operand_target,
    spec_shift_kind, spec_unimplemented, spec_writes_pc,
};
use crate::opcode::function;
use crate::opcode::jumps;
use crate::opcode::ld_dref_reg;
use crate::opcode::ld_reg_d16;
use crate::opcode::ld_reg_d8;
use crate::opcode::ld_reg_dref;
use crate::opcode::ld_reg_reg;
use crate::opcode::load_16_bit;
use crate::opcode::rotate;
use crate::opcode::rotate::Shift;
use crate::opcode::types::{InstructionResult, LoadFrom, Outcome, StoreTo};
use crate::registers::{ByteRegister, Flag, WordRegister};

verus! {

/// The machine cycles that an instruction takes.
#[derive(Debug, PartialEq, Eq, Clone, Copy)]
pub struct Cycle(pub u8);

/// The bytes that an instruction occupies, its opcode included.
#[derive(Debug, PartialEq, Eq, Clone, Copy)]
pub struct OpLength(pub u8);

/// The slot of an opcode that has no handler: it reports the opcode and the
/// address it was fetched from, and changes nothing.
pub fn unimplement_op_fn(cpu: &mut Cpu, op_code: u8) -> (res: Result<InstructionResult, Error>)
    ensures
        (Outcome { state: final(cpu)@, result: res }) == spec_unimplemented(old(cpu)@, op_code),
{
    Err(Error::UnimplementedOpcode { opcode: op_code, pc: cpu.registers.pc() })
}

/// Runs the instruction of the first plane that `op_code` selects. The
/// program counter is left to the caller, but for what a jump, a call, a
/// return or a restart does to it.
#[verifier::rlimit(50)]
pub fn op_table(cpu: &mut Cpu, op_code: u8) -> (res: Result<InstructionResult, Error>)
    ensures
        (Outcome { state: final(cpu)@, result: res }) == spec_execute(old(cpu)@, op_code),
{
    proof {
        reveal(spec_execute);
    }
    match op_code {
        // control
        0x00 => Ok(control::nop(cpu)),
        0x10 => Ok(control::stop(cpu)),
        0x76 => Ok(control::halt(cpu)),
        0xF3 => Ok(control::di(cpu)),
        0xFB => Ok(control::ei(cpu)),

        // ld reg d8.
        0x06 => Ok(ld_reg_d8::ld_b_d8(cpu)),
        0x0E => Ok(ld_reg_d8::ld_c_d8(cpu)),
        0x16 => Ok(ld_reg_d8::ld_d_d8(cpu)),
        0x1E => Ok(ld_reg_d8::ld_e_d8(cpu)),
        0x26 => Ok(ld_reg_d8::ld_h_d8(cpu)),
        0x2E => Ok(ld_reg_d8::ld_l_d8(cpu)),
        0x3E => Ok(ld_reg_d8::ld_a_d8(cpu)),

        // ld reg reg.
        0x40 => Ok(ld_reg_reg::ld_b_b(cpu)),
        0x41 => Ok(ld_reg_reg::ld_b_c(cpu)),
        0x42 => Ok(ld_reg_reg::ld_b_d(cpu)),
        0x43 => Ok(ld_reg_reg::ld_b_e(cpu)),
        0x44 => Ok(ld_reg_reg::ld_b_h(cpu)),
        0x45 => Ok(ld_reg_reg::ld_b_l(cpu)),
        0x47 => Ok(ld_reg_reg::ld_b_a(cpu)),
        0x48 => Ok(ld_reg_reg::ld_c_b(cpu)),
        0x49 => Ok(ld_reg_reg::ld_c_c(cpu)),
        0x4A => Ok(ld_reg_reg::ld_c_d(cpu)),
        0x4B => Ok(ld_reg_reg::ld_c_e(cpu)),
        0x4C => Ok(ld_reg_reg::ld_c_h(cpu)),
        0x4D => Ok(ld_reg_reg::ld_c_l(cpu)),
        0x4F => Ok(ld_reg_reg::ld_c_a(cpu)),
        0x50 => Ok(ld_reg_reg::ld_d_b(cpu)),
        0x51 => Ok(ld_reg_reg::ld_d_c(cpu)),
        0x52 => Ok(ld_reg_reg::ld_d_d(cpu)),
        0x53 => Ok(ld_reg_reg::ld_d_e(cpu)),
        0x54 => Ok(ld_reg_reg::ld_d_h(cpu)),
        0x55 => Ok(ld_reg_reg::ld_d_l(cpu)),
        0x57 => Ok(ld_reg_reg::ld_d_a(cpu)),
        0x58 => Ok(ld_reg_reg::ld_e_b(cpu)),
        0x59 => Ok(ld_reg_reg::ld_e_c(cpu)),
        0x5A => Ok(ld_reg_reg::ld_e_d(cpu)),
        0x5B => Ok(ld_reg_reg::ld_e_e(cpu)),
        0x5C => Ok(ld_reg_reg::ld_e_h(cpu)),
        0x5D => Ok(ld_reg_reg::ld_e_l(cpu)),
        0x5F => Ok(ld_reg_reg::ld_e_a(cpu)),
        0x60 => Ok(ld_reg_reg::ld_h_b(cpu)),
        0x61 => Ok(ld_reg_reg::ld_h_c(cpu)),
        0x62 => Ok(ld_reg_reg::ld_h_d(cpu)),
        0x63 => Ok(ld_reg_reg::ld_h_e(cpu)),
        0x64 => Ok(ld_reg_reg::ld_h_h(cpu)),
        0x65 => Ok(ld_reg_reg::ld_h_l(cpu)),
        0x67 => Ok(ld_reg_reg::ld_h_a(cpu)),
        0x68 => Ok(ld_reg_reg::ld_l_b(cpu)),
        0x69 => Ok(ld_reg_reg::ld_l_c(cpu)),
        0x6A => Ok(ld_reg_reg::ld_l_d(cpu)),
        0x6B => Ok(ld_reg_reg::ld_l_e(cpu)),
        0x6C => Ok(ld_reg_reg::ld_l_h(cpu)),
        0x6D => Ok(ld_reg_reg::ld_l_l(cpu)),
        0x6F => Ok(ld_reg_reg::ld_l_a(cpu)),
        0x78 => Ok(ld_reg_reg::ld_a_b(cpu)),
        0x79 => Ok(ld_reg_reg::ld_a_c(cpu)),
        0x7A => Ok(ld_reg_reg::ld_a_d(cpu)),
        0x7B => Ok(ld_reg_reg::ld_a_e(cpu)),
        0x7C => Ok(ld_reg_reg::ld_a_h(cpu)),
        0x7D => Ok(ld_reg_reg::ld_a_l(cpu)),
        0x7F => Ok(ld_reg_reg::ld_a_a(cpu)),

        // ld reg dref
        0x0A => Ok(ld_reg_dref::ld_a_bc_dref(cpu)),
        0x1A => Ok(ld_reg_dref::ld_a_de_dref(cpu)),
        0x2A => Ok(ld_reg_dref::ldi_a_hl_dref(cpu)),
        0x3A => Ok(ld_reg_dref::ldd_a_hl_dref(cpu)),
        0x46 => Ok(ld_reg_dref::ld_b_hl_dref(cpu)),
        0x4E => Ok(ld_reg_dref::ld_c_hl_dref(cpu)),
        0x56 => Ok(ld_reg_dref::ld_d_hl_dref(cpu)),
        0x5E => Ok(ld_reg_dref::ld_e_hl_dref(cpu)),
        0x66 => Ok(ld_reg_dref::ld_h_hl_dref(cpu)),
        0x6E => Ok(ld_reg_dref::ld_l_hl_dref(cpu)),
        0x7E => Ok(ld_reg_dref::ld_a_hl_dref(cpu)),
        0xF0 => Ok(ld_reg_dref::ldh_a_a8_dref(cpu)),
        0xF2 => Ok(ld_reg_dref::ld_a_c_dref(cpu)),
        0xFA => Ok(ld_reg_dref::ld_a_a16_dref(cpu)),

        // ld dref reg
        0x02 => ld_dref_reg::ld_bc_dref_a(cpu),
        0x12 => ld_dref_reg::ld_de_dref_a(cpu),
        0x22 => ld_dref_reg::ldi_hl_dref_a(cpu),
        0x32 => ld_dref_reg::ldd_hl_dref_a(cpu),
        0x36 => ld_dref_reg::ld_hl_dref_d8(cpu),
        0x70 => ld_dref_reg::ld_hl_dref_b(cpu),
        0x71 => ld_dref_reg::ld_hl_dref_c(cpu),
        0x72 => ld_dref_reg::ld_hl_dref_d(cpu),
        0x73 => ld_dref_reg::ld_hl_dref_e(cpu),
        0x74 => ld_dref_reg::ld_hl_dref_h(cpu),
        0x75 => ld_dref_reg::ld_hl_dref_l(cpu),
        0x77 => ld_dref_reg::ld_hl_dref_a(cpu),
        0xE0 => ld_dref_reg::ldh_a8_dref_a(cpu),
        0xE2 => ld_dref_reg::ld_c_dref_a(cpu),
        0xEA => ld_dref_reg::ld_a16_dref_a(cpu),

        // ld reg d16.
        0x01 => Ok(ld_reg_d16::ld_bc_d16(cpu)),
        0x11 => Ok(ld_reg_d16::ld_de_d16(cpu)),
        0x21 => Ok(ld_reg_d16::ld_hl_d16(cpu)),
        0x31 => Ok(ld_reg_d16::ld_sp_d16(cpu)),

        // 16 bit load.
        0x08 => load_16_bit::ld_a16_sp(cpu),
        0xF8 => Ok(load_16_bit::ld_hl_sp_n(cpu)),
        0xF9 => Ok(load_16_bit::ld_sp_hl(cpu)),

        // d16 arithmetic/logical
        0x03 => Ok(d16_arithmetic_logical::inc_bc(cpu)),
        0x09 => Ok(d16_arithmetic_logical::add_hl_bc(cpu)),
        0x0B => Ok(d16_arithmetic_logical::dec_bc(cpu)),
        0x13 => Ok(d16_arithmetic_logical::inc_de(cpu)),
        0x19 => Ok(d16_arithmetic_logical::add_hl_de(cpu)),
        0x1B => Ok(d16_arithmetic_logical::dec_de(cpu)),
        0x23 => Ok(d16_arithmetic_logical::inc_hl(cpu)),
        0x29 => Ok(d16_arithmetic_logical::add_hl_hl(cpu)),
        0x2B => Ok(d16_arithmetic_logical::dec_hl(cpu)),
        0x33 => Ok(d16_arithmetic_logical::inc_sp(cpu)),
        0x39 => Ok(d16_arithmetic_logical::add_hl_sp(cpu)),
        0x3B => Ok(d16_arithmetic_logical::dec_sp(cpu)),
        0xE8 => Ok(d16_arithmetic_logical::add_sp_r8(cpu)),

        // d8 arithmetic/logical
        0x04 => Ok(d8_arithmetic_logical::inc_b(cpu)),
        0x05 => Ok(d8_arithmetic_logical::dec_b(cpu)),
        0x0C => Ok(d8_arithmetic_logical::inc_c(cpu)),
        0x0D => Ok(d8_arithmetic_logical::dec_c(cpu)),
        0x14 => Ok(d8_arithmetic_logical::inc_d(cpu)),
        0x15 => Ok(d8_arithmetic_logical::dec_d(cpu)),
        0x1C => Ok(d8_arithmetic_logical::inc_e(cpu)),
        0x1D => Ok(d8_arithmetic_logical::dec_e(cpu)),
        0x24 => Ok(d8_arithmetic_logical::inc_h(cpu)),
        0x25 => Ok(d8_arithmetic_logical::dec_h(cpu)),
        0x27 => Ok(d8_arithmetic_logical::daa(cpu)),
        0x2C => Ok(d8_arithmetic_logical::inc_l(cpu)),
        0x2D => Ok(d8_arithmetic_logical::dec_l(cpu)),
        0x2F => Ok(d8_arithmetic_logical::cpl(cpu)),
        0x34 => d8_arithmetic_logical::inc_hl_dref(cpu),
        0x35 => d8_arithmetic_logical::dec_hl_dref(cpu),
        0x37 => Ok(d8_arithmetic_logical::scf(cpu)),
        0x3C => Ok(d8_arithmetic_logical::inc_a(cpu)),
        0x3D => Ok(d8_arithmetic_logical::dec_a(cpu)),
        0x3F => Ok(d8_arithmetic_logical::ccf(cpu)),
        0x80 => Ok(d8_arithmetic_logical::add_a_b(cpu)),
        0x81 => Ok(d8_arithmetic_logical::add_a_c(cpu)),
        0x82 => Ok(d8_arithmetic_logical::add_a_d(cpu)),
        0x83 => Ok(d8_arithmetic_logical::add_a_e(cpu)),
        0x84 => Ok(d8_arithmetic_logical::add_a_h(cpu)),
        0x85 => Ok(d8_arithmetic_logical::add_a_l(cpu)),
        0x86 => Ok(d8_arithmetic_logical::add_a_hl_dref(cpu)),
        0x87 => Ok(d8_arithmetic_logical::add_a_a(cpu)),
        0x88 => Ok(d8_arithmetic_logical::adc_a_b(cpu)),
        0x89 => Ok(d8_arithmetic_logical::adc_a_c(cpu)),
        0x8A => Ok(d8_arithmetic_logical::adc_a_d(cpu)),
        0x8B => Ok(d8_arithmetic_logical::adc_a_e(cpu)),
        0x8C => Ok(d8_arithmetic_logical::adc_a_h(cpu)),
        0x8D => Ok(d8_arithmetic_logical::adc_a_l(cpu)),
        0x8E => Ok(d8_arithmetic_logical::adc_a_hl_dref(cpu)),
        0x8F => Ok(d8_arithmetic_logical::adc_a_a(cpu)),
        0x90 => Ok(d8_arithmetic_logical::sub_a_b(cpu)),
        0x91 => Ok(d8_arithmetic_logical::sub_a_c(cpu)),
        0x92 => Ok(d8_arithmetic_logical::sub_a_d(cpu)),
        0x93 => Ok(d8_arithmetic_logical::sub_a_e(cpu)),
        0x94 => Ok(d8_arithmetic_logical::sub_a_h(cpu)),
        0x95 => Ok(d8_arithmetic_logical::sub_a_l(cpu)),
        0x96 => Ok(d8_arithmetic_logical::sub_hl_dref(cpu)),
        0x97 => Ok(d8_arithmetic_logical::sub_a_a(cpu)),
        0x98 => Ok(d8_arithmetic_logical::sbc_a_b(cpu)),
        0x99 => Ok(d8_arithmetic_logical::sbc_a_c(cpu)),
        0x9A => Ok(d8_arithmetic_logical::sbc_a_d(cpu)),
        0x9B => Ok(d8_arithmetic_logical::sbc_a_e(cpu)),
        0x9C => Ok(d8_arithmetic_logical::sbc_a_h(cpu)),
        0x9D => Ok(d8_arithmetic_logical::sbc_a_l(cpu)),
        0x9E => Ok(d8_arithmetic_logical::sbc_a_hl_dref(cpu)),
        0x9F => Ok(d8_arithmetic_logical::sbc_a_a(cpu)),
        0xA0 => Ok(d8_arithmetic_logical::and_b(cpu)),
        0xA1 => Ok(d8_arithmetic_logical::and_c(cpu)),
        0xA2 => Ok(d8_arithmetic_logical::and_d(cpu)),
        0xA3 => Ok(d8_arithmetic_logical::and_e(cpu)),
        0xA4 => Ok(d8_arithmetic_logical::and_h(cpu)),
        0xA5 => Ok(d8_arithmetic_logical::and_l(cpu)),
        0xA6 => Ok(d8_arithmetic_logical::and_hl_dref(cpu)),
        0xA7 => Ok(d8_arithmetic_logical::and_a(cpu)),
        0xA8 => Ok(d8_arithmetic_logical::xor_b(cpu)),
        0xA9 => Ok(d8_arithmetic_logical::xor_c(cpu)),
        0xAA => Ok(d8_arithmetic_logical::xor_d(cpu)),
        0xAB => Ok(d8_arithmetic_logical::xor_e(cpu)),
        0xAC => Ok(d8_arithmetic_logical::xor_h(cpu)),
        0xAD => Ok(d8_arithmetic_logical::xor_l(cpu)),
        0xAE => Ok(d8_arithmetic_logical::xor_hl_dref(cpu)),
        0xAF => Ok(d8_arithmetic_logical::xor_a(cpu)),
        0xB0 => Ok(d8_arithmetic_logical::or_b(cpu)),
        0xB1 => Ok(d8_arithmetic_logical::or_c(cpu)),
        0xB2 => Ok(d8_arithmetic_logical::or_d(cpu)),
        0xB3 => Ok(d8_arithmetic_logical::or_e(cpu)),
        0xB4 => Ok(d8_arithmetic_logical::or_h(cpu)),
        0xB5 => Ok(d8_arithmetic_logical::or_l(cpu)),
        0xB6 => Ok(d8_arithmetic_logical::or_hl_dref(cpu)),
        0xB7 => Ok(d8_arithmetic_logical::or_a(cpu)),
        0xB8 => Ok(d8_arithmetic_logical::cp_b(cpu)),
        0xB9 => Ok(d8_arithmetic_logical::cp_c(cpu)),
        0xBA => Ok(d8_arithmetic_logical::cp_d(cpu)),
        0xBB => Ok(d8_arithmetic_logical::cp_e(cpu)),
        0xBC => Ok(d8_arithmetic_logical::cp_h(cpu)),
        0xBD => Ok(d8_arithmetic_logical::cp_l(cpu)),
        0xBE => Ok(d8_arithmetic_logical::cp_hl_dref(cpu)),
        0xBF => Ok(d8_arithmetic_logical::cp_a(cpu)),
        0xC6 => Ok(d8_arithmetic_logical::add_a_d8(cpu)),
        0xCE => Ok(d8_arithmetic_logical::adc_a_d8(cpu)),
        0xD6 => Ok(d8_arithmetic_logical::sub_d8(cpu)),
        0xDE => Ok(d8_arithmetic_logical::sbc_a_d8(cpu)),
        0xE6 => Ok(d8_arithmetic_logical::and_d8(cpu)),
        0xEE => Ok(d8_arithmetic_logical::xor_d8(cpu)),
        0xF6 => Ok(d8_arithmetic_logical::or_d8(cpu)),
        0xFE => Ok(d8_arithmetic_logical::cp_d8(cpu)),

        // rotate
        0x07 => Ok(rotate::rlca(cpu)),
        0x0F => Ok(rotate::rrca(cpu)),
        0x17 => Ok(rotate::rla(cpu)),
        0x1F => Ok(rotate::rra(cpu)),

        // jumps
        0x18 => Ok(jumps::jr_n(cpu)),
        0x20 => Ok(jumps::jr_nz(cpu)),
        0x28 => Ok(jumps::jr_z(cpu)),
        0x30 => Ok(jumps::jr_nc(cpu)),
        0x38 => Ok(jumps::jr_c(cpu)),
        0xC2 => Ok(jumps::jp_nz(cpu)),
        0xC3 => Ok(jumps::jp_nn(cpu)),
        0xCA => Ok(jumps::jp_z(cpu)),
        0xD2 => Ok(jumps::jp_nc(cpu)),
        0xDA => Ok(jumps::jp_c(cpu)),
        0xE9 => Ok(jumps::jp_hl(cpu)),

        // stack, call, ret, rst
        0xC0 => Ok(function::ret_nz(cpu)),
        0xC1 => Ok(function::pop_bc(cpu)),
        0xC4 => function::call_nz(cpu),
        0xC5 => function::push_bc(cpu),
        0xC7 => function::rst_00h(cpu),
        0xC8 => Ok(function::ret_z(cpu)),
        0xC9 => Ok(function::ret(cpu)),
        0xCC => function::call_z(cpu),
        0xCD => function::call_nn(cpu),
        0xCF => function::rst_08h(cpu),
        0xD0 => Ok(function::ret_nc(cpu)),
        0xD1 => Ok(function::pop_de(cpu)),
        0xD4 => function::call_nc(cpu),
        0xD5 => function::push_de(cpu),
        0xD7 => function::rst_10h(cpu),
        0xD8 => Ok(function::ret_c(cpu)),
        0xD9 => Ok(function::reti(cpu)),
        0xDC => function::call_c(cpu),
        0xDF => function::rst_18h(cpu),
        0xE1 => Ok(function::pop_hl(cpu)),
        0xE5 => function::push_hl(cpu),
        0xE7 => function::rst_20h(cpu),
        0xEF => function::rst_28h(cpu),
        0xF1 => Ok(function::pop_af(cpu)),
        0xF5 => function::push_af(cpu),
        0xF7 => function::rst_30h(cpu),
        0xFF => function::rst_38h(cpu),

        _ => unimplement_op_fn(cpu, op_code),
    }
}

/// The byte operand that the low three bits of an opcode select, as the
/// place a byte is read from.
pub fn operand_source(index: u8) -> (load_from: LoadFrom)
    ensures
        load_from == spec_operand_source(index),
{
    match index {
        0 => LoadFrom::Reg(ByteRegister::B),
        1 => LoadFrom::Reg(ByteRegister::C),
        2 => LoadFrom::Reg(ByteRegister::D),
        3 => LoadFrom::Reg(ByteRegister::E),
        4 => LoadFrom::Reg(ByteRegister::H),
        5 => LoadFrom::Reg(ByteRegister::L),
        6 => LoadFrom::RegDref(WordRegister::HL),
        _ => LoadFrom::Reg(ByteRegister::A),
    }
}

/// The byte operand that the low three bits of an opcode select, as the
/// place a byte is written to.
pub fn operand_target(index: u8) -> (store_to: StoreTo)
    ensures
        store_to == spec_operand_target(index),
{
    match index {
        0 => StoreTo::Reg(ByteRegister::B),
        1 => StoreTo::Reg(ByteRegister::C),
        2 => StoreTo::Reg(ByteRegister::D),
        3 => StoreTo::Reg(ByteRegister::E),
        4 => StoreTo::Reg(ByteRegister::H),
        5 => StoreTo::Reg(ByteRegister::L),
        6 => StoreTo::RegDref(WordRegister::HL),
        _ => StoreTo::Reg(ByteRegister::A),
    }
}

/// The rotation or shift that three bits of an opcode of the second plane
/// select.
pub fn shift_kind(index: u8) -> (kind: Shift)
    ensures
        kind == spec_shift_kind(index),
{
    match index {
        0 => Shift::Rlc,
        1 => Shift::Rrc,
        2 => Shift::Rl,
        3 => Shift::Rr,
        4 => Shift::Sla,
        5 => Shift::Sra,
        6 => Shift::Swap,
        _ => Shift::Srl,
    }
}

/// Runs the instruction of the second plane that `op_code` selects: the
/// byte that follows the prefix 0xCB.
pub fn cb_op_table(cpu: &mut Cpu, op_code: u8) -> (res: Result<InstructionResult, Error>)
    ensures
        (Outcome { state: final(cpu)@, result: res }) == spec_execute_cb(old(cpu)@, op_code),
{
    proof {
        reveal(spec_execute_cb);
        lemma_fields(op_code);
    }
    let load_from = operand_source(op_code % 8);
    let store_to = operand_target(op_code % 8);
    let n = op_code / 8 % 8;

    match op_code / 0x40 {
        0 => rotate::cb_shift(cpu, shift_kind(n), &load_from, &store_to),
        1 => Ok(bit::bit(cpu, n, &load_from)),
        2 => bit::res(cpu, n, &load_from, &store_to),
        _ => bit::set(cpu, n, &load_from, &store_to),
    }
}

/// Whether the instruction of the first plane that `op_code` selects sets
/// the program counter itself when it runs under the flags `flag`.
pub fn writes_pc(flag: &Flag, op_code: u8) -> (writes: bool)
    ensures
        writes == spec_writes_pc(*flag, op_code),
{
    match op_code {
        // jr, jp, call, ret, reti, rst
        0x18 | 0xC3 | 0xE9 | 0xCD | 0xC9 | 0xD9 => true,
        0xC7 | 0xCF | 0xD7 | 0xDF | 0xE7 | 0xEF | 0xF7 | 0xFF => true,

        // under a condition
        0x20 | 0xC0 | 0xC2 | 0xC4 => !flag.zero(),
        0x28 | 0xC8 | 0xCA | 0xCC => flag.zero(),
        0x30 | 0xD0 | 0xD2 | 0xD4 => !flag.carry(),
        0x38 | 0xD8 | 0xDA | 0xDC => flag.carry(),

        _ => false,
    }
}

} // verus!
