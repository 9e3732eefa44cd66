//! Execution core of a Game Boy (Sharp LR35902) emulator: the register file,
//! the memory image and a cycle-counting instruction interpreter.
//!
//! The host builds a [`cpu::Cpu`] over an image of memory and calls
//! [`cpu::Cpu::step`], which fetches the instruction at the program counter,
//! runs it and reports the cycles that it took. A store to an address that
//! is not mapped, and an opcode without a handler, end the instruction in an
//! [`mmu::Error`] and leave the machine as it was.
//!
//! Words stand in memory with their high byte first, and so do the words
//! that follow an opcode.

pub mod bits;
pub mod cpu;
pub mod mmu;
pub mod opcode;
pub mod registers;
