//! What each opcode means. A plane of 256 opcodes is read as four quarters
//! of eight rows and eight columns: the two high bits of an opcode give its
//! quarter, the next three its row and the low three its column. The
//! quarter chooses the kind of instruction, the row and the column choose
//! the operation and its operands.

use vstd::prelude::*;
use super::arithmetic_logical_utils::{spec_dec_d16, spec_inc_d16};
use super::bit::{spec_bit_test, spec_res, spec_set};
use super::control::{spec_di, spec_ei};
use super::d16_arithmetic_logical::{spec_add_hl, spec_add_sp_r8};
use super::d8_arithmetic_logical::{
    spec_adc, spec_add, spec_and, spec_ccf, spec_cp, spec_cpl, spec_daa, spec_dec_flag,
    spec_dec_value, spec_inc_flag, spec_inc_value, spec_or, spec_sbc, spec_scf, spec_sub,
    spec_xor,
};
use super::function::{
    spec_call_if, spec_pop_reg, spec_push, spec_ret, spec_ret_if, spec_reti, spec_rst_to,
};
use super::jumps::{spec_jp, spec_jp_hl, spec_jp_if, spec_jr_if};
use super::ld_reg_d16::spec_ld_reg_d16;
use super::ld_reg_dref::{spec_high_address, spec_ld_a_from};
use super::ld_utils::{spec_ld, spec_ld_step, spec_load, spec_store};
use super::load_16_bit::{spec_ld_a16_sp, spec_ld_hl_sp_n, spec_ld_sp_hl};
use super::rotate::{spec_cb_cycles, spec_cb_shift, spec_rotate_a, Shift};
use crate::cpu::CpuState;
use crate::mmu::Error;
use crate::opcode::table::{Cycle, OpLength};
use crate::opcode::types::{
    aborted, done, done_if_stored, InstructionResult, LoadFrom, Outcome, StoreTo,
};
use crate::registers::{ByteRegister, Flag, WordRegister};

verus! {

/// The first opcode of the quarter of its plane that `op_code` stands in.
pub open spec fn spec_quarter(op_code: u8) -> u8 {
    if op_code < 0x40 {
        0x00
    } else if op_code < 0x80 {
        0x40
    } else if op_code < 0xC0 {
        0x80
    } else {
        0xC0
    }
}

/// The row of `op_code` in its quarter: bits 5 to 3 of the opcode.
pub open spec fn spec_row(op_code: u8) -> u8 {
    let within = op_code - spec_quarter(op_code);
    if within < 8 {
        0
    } else if within < 16 {
        1
    } else if within < 24 {
        2
    } else if within < 32 {
        3
    } else if within < 40 {
        4
    } else if within < 48 {
        5
    } else if within < 56 {
        6
    } else {
        7
    }
}

/// The column of `op_code` in its row: bits 2 to 0 of the opcode.
pub open spec fn spec_column(op_code: u8) -> u8 {
    (op_code - spec_quarter(op_code) - 8 * spec_row(op_code)) as u8
}

/// An opcode is 64 times the number of its quarter, plus 8 times its row,
/// plus its column.
pub proof fn lemma_fields(op_code: u8)
    ensures
        spec_quarter(op_code) == op_code / 0x40 * 0x40,
        spec_row(op_code) == op_code / 8 % 8,
        spec_column(op_code) == op_code % 8,
{
}

/// The byte operand that three bits of an opcode select, as the place a
/// byte is read from: B, C, D, E, H, L, the byte that HL points to, A.
pub open spec fn spec_operand_source(index: u8) -> LoadFrom {
    if index == 0 {
        LoadFrom::Reg(ByteRegister::B)
    } else if index == 1 {
        LoadFrom::Reg(ByteRegister::C)
    } else if index == 2 {
        LoadFrom::Reg(ByteRegister::D)
    } else if index == 3 {
        LoadFrom::Reg(ByteRegister::E)
    } else if index == 4 {
        LoadFrom::Reg(ByteRegister::H)
    } else if index == 5 {
        LoadFrom::Reg(ByteRegister::L)
    } else if index == 6 {
        LoadFrom::RegDref(WordRegister::HL)
    } else {
        LoadFrom::Reg(ByteRegister::A)
    }
}

/// The byte operand that three bits of an opcode select, as the place a
/// byte is written to.
pub open spec fn spec_operand_target(index: u8) -> StoreTo {
    if index == 0 {
        StoreTo::Reg(ByteRegister::B)
    } else if index == 1 {
        StoreTo::Reg(ByteRegister::C)
    } else if index == 2 {
        StoreTo::Reg(ByteRegister::D)
    } else if index == 3 {
        StoreTo::Reg(ByteRegister::E)
    } else if index == 4 {
        StoreTo::Reg(ByteRegister::H)
    } else if index == 5 {
        StoreTo::Reg(ByteRegister::L)
    } else if index == 6 {
        StoreTo::RegDref(WordRegister::HL)
    } else {
        StoreTo::Reg(ByteRegister::A)
    }
}

/// The word register that two bits of an opcode select: BC, DE, HL, SP.
pub open spec fn spec_pair(index: u8) -> WordRegister {
    if index == 0 {
        WordRegister::BC
    } else if index == 1 {
        WordRegister::DE
    } else if index == 2 {
        WordRegister::HL
    } else {
        WordRegister::SP
    }
}

/// The word register that two bits of a PUSH or a POP select: BC, DE, HL,
/// AF.
pub open spec fn spec_stack_pair(index: u8) -> WordRegister {
    if index == 0 {
        WordRegister::BC
    } else if index == 1 {
        WordRegister::DE
    } else if index == 2 {
        WordRegister::HL
    } else {
        WordRegister::AF
    }
}

/// Whether the condition that two bits of an opcode select holds: NZ, Z,
/// NC, C.
pub open spec fn spec_condition(flag: Flag, index: u8) -> bool {
    if index == 0 {
        !flag.zero
    } else if index == 1 {
        flag.zero
    } else if index == 2 {
        !flag.carry
    } else {
        flag.carry
    }
}

/// The machine after the operation on A that three bits of an opcode
/// select: ADD, ADC, SUB, SBC, AND, XOR, OR, CP.
pub open spec fn spec_alu(s: CpuState, index: u8, val: u8) -> CpuState {
    if index == 0 {
        spec_add(s, val)
    } else if index == 1 {
        spec_adc(s, val)
    } else if index == 2 {
        spec_sub(s, val)
    } else if index == 3 {
        spec_sbc(s, val)
    } else if index == 4 {
        spec_and(s, val)
    } else if index == 5 {
        spec_xor(s, val)
    } else if index == 6 {
        spec_or(s, val)
    } else {
        spec_cp(s, val)
    }
}

/// The rotation or shift that three bits of an opcode of the second plane
/// select.
pub open spec fn spec_shift_kind(index: u8) -> Shift {
    if index == 0 {
        Shift::Rlc
    } else if index == 1 {
        Shift::Rrc
    } else if index == 2 {
        Shift::Rl
    } else if index == 3 {
        Shift::Rr
    } else if index == 4 {
        Shift::Sla
    } else if index == 5 {
        Shift::Sra
    } else if index == 6 {
        Shift::Swap
    } else {
        Shift::Srl
    }
}

/// The machine after INC on the byte operand `index`, or the error that
/// its store ends in.
pub open spec fn spec_inc_operand(s: CpuState, index: u8) -> Result<CpuState, Error> {
    let val = spec_load(s, spec_operand_source(index));
    match spec_store(s, spec_operand_target(index), spec_inc_value(val)) {
        Ok(state) => Ok(state.with_flag(spec_inc_flag(s.registers.flag, val))),
        Err(e) => Err(e),
    }
}

/// The machine after DEC on the byte operand `index`, or the error that
/// its store ends in.
pub open spec fn spec_dec_operand(s: CpuState, index: u8) -> Result<CpuState, Error> {
    let val = spec_load(s, spec_operand_source(index));
    match spec_store(s, spec_operand_target(index), spec_dec_value(val)) {
        Ok(state) => Ok(state.with_flag(spec_dec_flag(s.registers.flag, val))),
        Err(e) => Err(e),
    }
}

/// The cycles of an instruction that takes `on_register` cycles on a
/// register and `on_memory` cycles on the byte that HL points to.
pub open spec fn spec_cycles(index: u8, on_register: u8, on_memory: u8) -> u8 {
    if index == 6 {
        on_memory
    } else {
        on_register
    }
}

/// The opcode has no handler: nothing changes, and the error names the
/// opcode and where it was fetched.
pub open spec fn spec_unimplemented(s: CpuState, op_code: u8) -> Outcome {
    aborted(s, Error::UnimplementedOpcode { opcode: op_code, pc: s.registers.pc })
}

/// The opcodes 0x00 to 0x3F: loads of immediates, loads through pairs,
/// increments and decrements, relative jumps, and the operations on A and
/// on the flags alone.
pub open spec fn spec_execute_block_0(s: CpuState, op_code: u8) -> Outcome {
    let y = spec_row(op_code);
    let z = spec_column(op_code);
    let p = y / 2;
    let q = y % 2;
    if z == 0 {
        if y == 0 {
            done(s, 4, 1)
        } else if y == 1 {
            done_if_stored(s, spec_ld_a16_sp(s), 20, 3)
        } else if y == 2 {
            done(s, 4, 2)
        } else {
            let taken = y == 3 || spec_condition(s.registers.flag, (y - 4) as u8);
            done(spec_jr_if(s, taken), if taken { 12 } else { 8 }, 2)
        }
    } else if z == 1 {
        if q == 0 {
            done(spec_ld_reg_d16(s, spec_pair(p)), 12, 3)
        } else {
            done(spec_add_hl(s, s.registers.spec_word(spec_pair(p))), 8, 1)
        }
    } else if z == 2 {
        let a = ByteRegister::A;
        let attempt = if q == 0 {
            if p == 0 {
                spec_ld(s, LoadFrom::Reg(a), StoreTo::RegDref(WordRegister::BC))
            } else if p == 1 {
                spec_ld(s, LoadFrom::Reg(a), StoreTo::RegDref(WordRegister::DE))
            } else if p == 2 {
                spec_ld_step(s, LoadFrom::Reg(a), StoreTo::RegDref(WordRegister::HL), 1)
            } else {
                spec_ld_step(s, LoadFrom::Reg(a), StoreTo::RegDref(WordRegister::HL), -1)
            }
        } else {
            if p == 0 {
                spec_ld(s, LoadFrom::RegDref(WordRegister::BC), StoreTo::Reg(a))
            } else if p == 1 {
                spec_ld(s, LoadFrom::RegDref(WordRegister::DE), StoreTo::Reg(a))
            } else if p == 2 {
                spec_ld_step(s, LoadFrom::RegDref(WordRegister::HL), StoreTo::Reg(a), 1)
            } else {
                spec_ld_step(s, LoadFrom::RegDref(WordRegister::HL), StoreTo::Reg(a), -1)
            }
        };
        done_if_stored(s, attempt, 8, 1)
    } else if z == 3 {
        if q == 0 {
            done(spec_inc_d16(s, spec_pair(p), spec_pair(p)), 8, 1)
        } else {
            done(spec_dec_d16(s, spec_pair(p), spec_pair(p)), 8, 1)
        }
    } else if z == 4 {
        done_if_stored(s, spec_inc_operand(s, y), spec_cycles(y, 4, 12), 1)
    } else if z == 5 {
        done_if_stored(s, spec_dec_operand(s, y), spec_cycles(y, 4, 12), 1)
    } else if z == 6 {
        done_if_stored(
            s,
            spec_ld(s, LoadFrom::PcOffset(1), spec_operand_target(y)),
            spec_cycles(y, 8, 12),
            2,
        )
    } else {
        let state = if y == 0 {
            spec_rotate_a(s, Shift::Rlc)
        } else if y == 1 {
            spec_rotate_a(s, Shift::Rrc)
        } else if y == 2 {
            spec_rotate_a(s, Shift::Rl)
        } else if y == 3 {
            spec_rotate_a(s, Shift::Rr)
        } else if y == 4 {
            spec_daa(s)
        } else if y == 5 {
            spec_cpl(s)
        } else if y == 6 {
            spec_scf(s)
        } else {
            spec_ccf(s)
        };
        done(state, 4, 1)
    }
}

/// The opcodes 0x40 to 0x7F: the loads between byte operands, with HALT
/// where the load from memory to memory would stand.
pub open spec fn spec_execute_block_1(s: CpuState, op_code: u8) -> Outcome {
    let y = spec_row(op_code);
    let z = spec_column(op_code);
    if y == 6 && z == 6 {
        done(s, 4, 1)
    } else {
        done_if_stored(
            s,
            spec_ld(s, spec_operand_source(z), spec_operand_target(y)),
            if y == 6 || z == 6 {
                8
            } else {
                4
            },
            1,
        )
    }
}

/// The opcodes 0x80 to 0xBF: the operations on A against a byte operand.
pub open spec fn spec_execute_block_2(s: CpuState, op_code: u8) -> Outcome {
    let y = spec_row(op_code);
    let z = spec_column(op_code);
    done(
        spec_alu(s, y, spec_load(s, spec_operand_source(z))),
        spec_cycles(z, 4, 8),
        1,
    )
}

/// The opcodes 0xC0 to 0xFF: returns, jumps, calls and restarts, the
/// stack, the operations on A against an immediate byte, the loads to and
/// from the high page and through an address, and the interrupt switch.
pub open spec fn spec_execute_block_3(s: CpuState, op_code: u8) -> Outcome {
    let y = spec_row(op_code);
    let z = spec_column(op_code);
    let p = y / 2;
    let q = y % 2;
    let flag = s.registers.flag;
    if z == 0 {
        if y < 4 {
            let taken = spec_condition(flag, y);
            done(spec_ret_if(s, taken), if taken { 20 } else { 8 }, 1)
        } else if y == 4 {
            done_if_stored(
                s,
                s.store_byte(spec_high_address(s.byte_argument(1)), s.registers.a),
                12,
                2,
            )
        } else if y == 5 {
            done(spec_add_sp_r8(s), 16, 2)
        } else if y == 6 {
            done(spec_ld_a_from(s, spec_high_address(s.byte_argument(1))), 12, 2)
        } else {
            done(spec_ld_hl_sp_n(s), 12, 2)
        }
    } else if z == 1 {
        if q == 0 {
            done(spec_pop_reg(s, spec_stack_pair(p)), 12, 1)
        } else if p == 0 {
            done(spec_ret(s), 16, 1)
        } else if p == 1 {
            done(spec_reti(s), 16, 1)
        } else if p == 2 {
            done(spec_jp_hl(s), 4, 1)
        } else {
            done(spec_ld_sp_hl(s), 8, 1)
        }
    } else if z == 2 {
        if y < 4 {
            let taken = spec_condition(flag, y);
            done(spec_jp_if(s, taken), if taken { 16 } else { 12 }, 3)
        } else if y == 4 {
            done_if_stored(
                s,
                s.store_byte(spec_high_address(s.registers.c), s.registers.a),
                8,
                2,
            )
        } else if y == 5 {
            done_if_stored(
                s,
                spec_ld(s, LoadFrom::Reg(ByteRegister::A), StoreTo::PcOffsetDref(1)),
                16,
                3,
            )
        } else if y == 6 {
            done(spec_ld_a_from(s, spec_high_address(s.registers.c)), 8, 2)
        } else {
            done(spec_ld_a_from(s, s.word_argument(1)), 16, 3)
        }
    } else if z == 3 {
        if y == 0 {
            done(spec_jp(s), 12, 3)
        } else if y == 6 {
            done(spec_di(s), 4, 1)
        } else if y == 7 {
            done(spec_ei(s), 4, 1)
        } else {
            spec_unimplemented(s, op_code)
        }
    } else if z == 4 {
        if y < 4 {
            spec_call_if(s, spec_condition(flag, y))
        } else {
            spec_unimplemented(s, op_code)
        }
    } else if z == 5 {
        if q == 0 {
            done_if_stored(
                s,
                spec_push(s, s.registers.spec_word(spec_stack_pair(p))),
                16,
                1,
            )
        } else if p == 0 {
            spec_call_if(s, true)
        } else {
            spec_unimplemented(s, op_code)
        }
    } else if z == 6 {
        done(spec_alu(s, y, s.byte_argument(1)), 8, 2)
    } else {
        done_if_stored(s, spec_rst_to(s, (y * 8) as u16), 16, 1)
    }
}

/// What the instruction with the opcode `op_code` of the first plane
/// leaves behind when it runs on `s`. The program counter is advanced
/// later, by the one who dispatches. The prefix 0xCB has no handler of its
/// own in this plane.
#[verifier::opaque]
pub open spec fn spec_execute(s: CpuState, op_code: u8) -> Outcome {
    if op_code < 0x40 {
        spec_execute_block_0(s, op_code)
    } else if op_code < 0x80 {
        spec_execute_block_1(s, op_code)
    } else if op_code < 0xC0 {
        spec_execute_block_2(s, op_code)
    } else {
        spec_execute_block_3(s, op_code)
    }
}

/// What the instruction with the opcode `op_code` of the second plane
/// leaves behind when it runs on `s`: a rotation or shift, BIT, RES or
/// SET, on the byte operand that the low three bits select.
#[verifier::opaque]
pub open spec fn spec_execute_cb(s: CpuState, op_code: u8) -> Outcome {
    let y = spec_row(op_code);
    let load_from = spec_operand_source(spec_column(op_code));
    let store_to = spec_operand_target(spec_column(op_code));
    let cycles = spec_cb_cycles(load_from);
    if op_code < 0x40 {
        done_if_stored(
            s,
            spec_cb_shift(s, spec_shift_kind(y), load_from, store_to),
            cycles,
            2,
        )
    } else if op_code < 0x80 {
        done(spec_bit_test(s, y, load_from), cycles, 2)
    } else if op_code < 0xC0 {
        done_if_stored(s, spec_res(s, y, load_from, store_to), cycles, 2)
    } else {
        done_if_stored(s, spec_set(s, y, load_from, store_to), cycles, 2)
    }
}

/// Whether the instruction with the opcode `op_code` of the first plane
/// sets the program counter itself when it runs under the flags `flag`: a
/// jump, a call, a return or a restart, and under a condition only where
/// the condition holds. The one who dispatches leaves the program counter
/// of such an instruction alone.
pub open spec fn spec_writes_pc(flag: Flag, op_code: u8) -> bool {
    let y = spec_row(op_code);
    let z = spec_column(op_code);
    if op_code < 0x40 {
        z == 0 && (y == 3 || (y >= 4 && spec_condition(flag, (y - 4) as u8)))
    } else if op_code < 0xC0 {
        false
    } else if z == 0 || z == 2 || z == 4 {
        y < 4 && spec_condition(flag, y)
    } else if z == 1 {
        y == 1 || y == 3 || y == 5
    } else if z == 3 {
        y == 0
    } else if z == 5 {
        y == 1
    } else {
        z == 7
    }
}

/// Whether `op_code` selects a jump, a call or a return under a condition.
pub open spec fn spec_conditional(op_code: u8) -> bool {
    ||| op_code == 0x20 || op_code == 0x28 || op_code == 0x30 || op_code == 0x38
    ||| op_code == 0xC0 || op_code == 0xC8 || op_code == 0xD0 || op_code == 0xD8
    ||| op_code == 0xC2 || op_code == 0xCA || op_code == 0xD2 || op_code == 0xDA
    ||| op_code == 0xC4 || op_code == 0xCC || op_code == 0xD4 || op_code == 0xDC
}

/// Whether the condition of the jump, call or return that `op_code`
/// selects holds under the flags `flag`.
pub open spec fn spec_condition_of(flag: Flag, op_code: u8) -> bool {
    spec_condition(flag, (spec_row(op_code) % 4) as u8)
}

/// The cycles and the length of an instruction under a condition: the
/// cycles where it is taken, the cycles where it is not, and its bytes.
pub open spec fn spec_conditional_timing(op_code: u8) -> (u8, u8, u8) {
    if op_code < 0x40 {
        (12, 8, 2)
    } else if spec_column(op_code) == 0 {
        (20, 8, 1)
    } else if spec_column(op_code) == 2 {
        (16, 12, 3)
    } else {
        (24, 12, 3)
    }
}

/// A jump, a call or a return under a condition sets the program counter
/// where its condition holds, and only there; it takes the cycles of the
/// taken branch where the condition holds and it does not end in an error,
/// and those of the other branch where the condition does not hold, and
/// then it changes nothing.
#[verifier::rlimit(50)]
pub proof fn lemma_conditional(s: CpuState, op_code: u8)
    requires
        spec_conditional(op_code),
    ensures
        ({
            let holds = spec_condition_of(s.registers.flag, op_code);
            let (taken, not_taken, length) = spec_conditional_timing(op_code);
            let outcome = spec_execute(s, op_code);
            &&& spec_writes_pc(s.registers.flag, op_code) == holds
            &&& holds && outcome.result is Ok ==> outcome.result == Ok::<InstructionResult, Error>(
                (Cycle(taken), OpLength(length)),
            )
            &&& !holds ==> outcome == done(s, not_taken, length)
        }),
{
    reveal(spec_execute);
}

} // verus!
