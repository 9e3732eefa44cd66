//! What the handlers exchange: where a load takes its byte from, where it
//! puts it, and what an instruction leaves behind.

use vstd::prelude::*;
use crate::cpu::CpuState;
use crate::mmu::Error;
use crate::opcode::table::{Cycle, OpLength};
use crate::registers::{ByteRegister, WordRegister};

verus! {

pub type InstructionResult = (Cycle, OpLength);

/// Where a load takes its byte from.
#[derive(Debug, PartialEq, Eq, Clone, Copy)]
pub enum LoadFrom {
    /// A byte register.
    Reg(ByteRegister),
    /// The byte that a word register points to.
    RegDref(WordRegister),
    /// The byte that follows the program counter at this distance.
    PcOffset(u16),
}

/// Where a load puts its byte.
#[derive(Debug, PartialEq, Eq, Clone, Copy)]
pub enum StoreTo {
    /// A byte register.
    Reg(ByteRegister),
    /// The address that a word register holds.
    RegDref(WordRegister),
    /// The address that the word following the program counter at this
    /// distance holds.
    PcOffsetDref(u16),
}

/// What an instruction leaves behind: the machine after it, and the cycles
/// and length that it reports, or the error that it ended in.
pub struct Outcome {
    pub state: CpuState,
    pub result: Result<InstructionResult, Error>,
}

/// An instruction that ran to its end.
pub open spec fn done(state: CpuState, cycles: u8, length: u8) -> Outcome {
    Outcome { state, result: Ok((Cycle(cycles), OpLength(length))) }
}

/// An instruction that was aborted: the machine is as it was before.
pub open spec fn aborted(before: CpuState, error: Error) -> Outcome {
    Outcome { state: before, result: Err(error) }
}

/// An instruction that stores: it ran to its end where the store was
/// accepted, and was aborted where it was not.
pub open spec fn done_if_stored(
    before: CpuState,
    attempt: Result<CpuState, Error>,
    cycles: u8,
    length: u8,
) -> Outcome {
    match attempt {
        Ok(state) => done(state, cycles, length),
        Err(error) => aborted(before, error),
    }
}

/// A step that stores and reports nothing but its error: the machine is the
/// one after the store where it was accepted, and as it was before where it
/// was not.
pub open spec fn stored(
    before: CpuState,
    attempt: Result<CpuState, Error>,
    after: CpuState,
    res: Result<(), Error>,
) -> bool {
    match attempt {
        Ok(state) => after == state && res == Ok::<(), Error>(()),
        Err(error) => after == before && res == Err::<(), Error>(error),
    }
}

} // verus!
