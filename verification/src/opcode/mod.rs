//! The instruction set: one handler for each opcode, by family, and the
//! tables that dispatch to them.

pub mod arithmetic_logical_utils;
pub mod bit;
pub mod control;
pub mod d16_arithmetic_logical;
pub mod d8_arithmetic_logical;
pub mod decode;
pub mod function;
pub mod jumps;
pub mod ld_dref_reg;
pub mod ld_reg_d16;
pub mod ld_reg_d8;
pub mod ld_reg_dref;
pub mod ld_reg_reg;
pub mod ld_utils;
pub mod load_16_bit;
pub mod rotate;
pub mod table;
pub mod types;
