//! The processor: the register file, the memory image and the interrupt
//! master enable.

use vstd::prelude::*;
use crate::mmu::{
    spec_read_byte, spec_read_word, spec_write_byte, spec_write_word, Addr, Error, Mmu, MEM_SIZE,
};
use crate::opcode::decode::{
    lemma_conditional, spec_condition_of, spec_conditional, spec_conditional_timing,
    spec_execute, spec_execute_cb, spec_writes_pc,
};
use crate::opcode::table::{cb_op_table, op_table, writes_pc, Cycle, OpLength};
use crate::opcode::types::Outcome;
use crate::registers::{Flag, Registers};

verus! {

/// The machine as the contracts speak of it: the registers, the mapped
/// bytes, the interrupt master enable, and whether an enable has been
/// asked for that has not taken effect yet.
pub struct CpuState {
    pub registers: Registers,
    pub memory: Seq<u8>,
    pub ime: bool,
    pub ime_pending: bool,
}

/// The machine: the registers, the memory, the interrupt master enable, and
/// whether EI has asked for an enable that has not taken effect yet.
#[derive(Debug, PartialEq, Clone)]
pub struct Cpu {
    pub registers: Registers,
    pub mmu: Mmu,
    pub ime: bool,
    pub ime_pending: bool,
}

impl View for Cpu {
    type V = CpuState;

    open spec fn view(&self) -> CpuState {
        CpuState {
            registers: self.registers,
            memory: self.mmu@,
            ime: self.ime,
            ime_pending: self.ime_pending,
        }
    }
}

/// What one step leaves behind: the machine after it, and the cycles that
/// the instruction took or the error that it ended in.
pub struct Stepped {
    pub state: CpuState,
    pub cycles: Result<u8, Error>,
}

/// The opcode that selects the second plane.
pub const CB_PREFIX: u8 = 0xCB;

/// What the instruction that `op_code` selects leaves behind when it runs
/// on `s`, before the program counter is advanced. After the prefix 0xCB
/// the byte that follows it selects the instruction, in the second plane.
pub open spec fn spec_dispatch(s: CpuState, op_code: u8) -> Outcome {
    if op_code == CB_PREFIX {
        spec_execute_cb(s, s.byte_argument(1))
    } else {
        spec_execute(s, op_code)
    }
}

/// The machine with the program counter moved past an instruction of
/// `length` bytes, modulo 2^16.
pub open spec fn spec_advance(s: CpuState, length: u8) -> CpuState {
    s.with_registers(
        Registers { pc: ((s.registers.pc + length) % 0x1_0000) as u16, ..s.registers },
    )
}

/// The machine with interrupts enabled, if an enable was pending in
/// `before` and the instruction that has run since has left it pending.
pub open spec fn spec_enable(before: CpuState, ran: CpuState) -> CpuState {
    if before.ime_pending && ran.ime_pending {
        CpuState { ime: true, ime_pending: false, ..ran }
    } else {
        ran
    }
}

/// What the machine `s` is after the instruction that `op_code` selects
/// has run, `op_code` being the byte at the program counter. The program
/// counter then stands behind the instruction, unless the instruction set
/// it itself; an enable of interrupts that was pending before takes
/// effect. An instruction that ends in an error leaves the machine as it
/// was: see `lemma_error_changes_nothing`.
pub open spec fn spec_execute_instruction(s: CpuState, op_code: u8) -> Stepped {
    let outcome = spec_dispatch(s, op_code);
    match outcome.result {
        Ok((cycle, length)) => {
            let ran = if spec_writes_pc(s.registers.flag, op_code) {
                outcome.state
            } else {
                spec_advance(outcome.state, length.0)
            };
            Stepped { state: spec_enable(s, ran), cycles: Ok(cycle.0) }
        },
        Err(e) => Stepped { state: outcome.state, cycles: Err(e) },
    }
}

/// What the machine `s` is after one step: the instruction at the program
/// counter has run.
pub open spec fn spec_step(s: CpuState) -> Stepped {
    spec_execute_instruction(s, s.byte_at(s.registers.pc))
}

/// An instruction that ends in an error leaves the machine as it was.
#[verifier::rlimit(50)]
pub proof fn lemma_error_changes_nothing(s: CpuState, op_code: u8)
    ensures
        spec_dispatch(s, op_code).result is Err ==> spec_dispatch(s, op_code).state == s,
        spec_execute_instruction(s, op_code).cycles is Err ==> spec_execute_instruction(
            s,
            op_code,
        ).state == s,
{
    reveal(spec_execute);
    reveal(spec_execute_cb);
}

/// A jump, a call or a return under a condition takes the cycles of the
/// taken branch where its condition holds, and those of the other branch
/// where it does not; and where it is not taken, the program counter
/// stands behind the instruction and nothing else has changed, but for an
/// enable of interrupts that was pending.
pub proof fn lemma_conditional_timing(s: CpuState, op_code: u8)
    requires
        spec_conditional(op_code),
    ensures
        ({
            let holds = spec_condition_of(s.registers.flag, op_code);
            let (taken, not_taken, length) = spec_conditional_timing(op_code);
            let stepped = spec_execute_instruction(s, op_code);
            &&& holds && stepped.cycles is Ok ==> stepped.cycles == Ok::<u8, Error>(taken)
            &&& !holds ==> stepped.cycles == Ok::<u8, Error>(not_taken)
            &&& !holds ==> stepped.state == spec_enable(s, spec_advance(s, length))
            &&& !holds ==> stepped.state.registers.pc == (s.registers.pc + length) % 0x1_0000
        }),
{
    lemma_conditional(s, op_code);
}

/// The address of the argument `index` bytes after the instruction at
/// `pc`. It stops at the last address.
pub open spec fn spec_argument_address(pc: u16, index: u16) -> Addr {
    if pc + index > 0xFFFF {
        0xFFFFu16
    } else {
        (pc + index) as u16
    }
}

/// The image that a machine starts from: the given bytes as far as they are
/// mapped, and zero after them.
pub open spec fn spec_image(initial_memory: Seq<u8>) -> Seq<u8> {
    Seq::new(
        MEM_SIZE as nat,
        |i: int|
            if i < initial_memory.len() {
                initial_memory[i]
            } else {
                0u8
            },
    )
}

impl CpuState {
    /// Every mapped address holds a byte.
    pub open spec fn valid(self) -> bool {
        self.memory.len() == MEM_SIZE
    }

    /// The machine with other registers.
    pub open spec fn with_registers(self, registers: Registers) -> CpuState {
        CpuState { registers, ..self }
    }

    /// The machine with other flags.
    pub open spec fn with_flag(self, flag: Flag) -> CpuState {
        CpuState { registers: Registers { flag, ..self.registers }, ..self }
    }

    /// The machine with another accumulator and other flags.
    pub open spec fn with_a(self, a: u8, flag: Flag) -> CpuState {
        CpuState { registers: Registers { a, flag, ..self.registers }, ..self }
    }

    /// The byte at `addr`.
    pub open spec fn byte_at(self, addr: Addr) -> u8 {
        spec_read_byte(self.memory, addr)
    }

    /// The word at `addr`.
    pub open spec fn word_at(self, addr: Addr) -> u16 {
        spec_read_word(self.memory, addr)
    }

    /// The byte that HL points to.
    pub open spec fn hl_dref(self) -> u8 {
        self.byte_at(self.registers.spec_hl())
    }

    /// The byte `index` bytes after the program counter.
    pub open spec fn byte_argument(self, index: u16) -> u8 {
        self.byte_at(spec_argument_address(self.registers.pc, index))
    }

    /// The word `index` bytes after the program counter.
    pub open spec fn word_argument(self, index: u16) -> u16 {
        self.word_at(spec_argument_address(self.registers.pc, index))
    }

    /// The machine after a byte was stored at `addr`, or the error that the
    /// store ends in.
    pub open spec fn store_byte(self, addr: Addr, value: u8) -> Result<CpuState, Error> {
        match spec_write_byte(self.memory, addr, value) {
            Ok(memory) => Ok(CpuState { memory, ..self }),
            Err(e) => Err(e),
        }
    }

    /// The machine after a word was stored at `addr`, or the error that the
    /// store ends in.
    pub open spec fn store_word(self, addr: Addr, value: u16) -> Result<CpuState, Error> {
        match spec_write_word(self.memory, addr, value) {
            Ok(memory) => Ok(CpuState { memory, ..self }),
            Err(e) => Err(e),
        }
    }
}

impl Default for Cpu {
    fn default() -> (cpu: Self)
        ensures
            cpu@ == Cpu::default_state(),
    {
        Cpu {
            registers: Registers::default(),
            mmu: Mmu::default(),
            ime: false,
            ime_pending: false,
        }
    }
}

impl Cpu {
    /// A machine whose memory starts as `initial_memory`, with every
    /// register zero, every flag clear and interrupts disabled.
    pub fn new(initial_memory: &[u8]) -> (cpu: Self)
        ensures
            cpu@ == (CpuState { memory: spec_image(initial_memory@), ..Cpu::default_state() }),
    {
        let mut cpu = Cpu::default();
        let mut i: usize = 0;
        while i < initial_memory.len() && i < 0xFFFF
            invariant
                i <= initial_memory.len(),
                i <= 0xFFFF,
                cpu.registers == Cpu::default_state().registers,
                !cpu.ime,
                !cpu.ime_pending,
                forall|j: int| 0 <= j < i ==> cpu.mmu@[j] == initial_memory@[j],
                forall|j: int| i <= j < 0xFFFF ==> cpu.mmu@[j] == 0u8,
            decreases initial_memory.len() - i,
        {
            let ghost before = cpu.mmu@;
            cpu.mmu.memory[i] = initial_memory[i];
            assert(cpu.mmu@ == before.update(i as int, initial_memory@[i as int]));
            i += 1;
        }
        assert(cpu.mmu@ =~= spec_image(initial_memory@));
        cpu
    }

    /// The machine that `default` builds: every register and every byte of
    /// memory zero, every flag clear, interrupts disabled.
    pub open spec fn default_state() -> CpuState {
        CpuState {
            registers: Registers {
                a: 0,
                b: 0,
                c: 0,
                d: 0,
                e: 0,
                h: 0,
                l: 0,
                sp: 0,
                pc: 0,
                flag: Flag { zero: false, sub: false, half_carry: false, carry: false },
            },
            memory: Seq::new(MEM_SIZE as nat, |i: int| 0u8),
            ime: false,
            ime_pending: false,
        }
    }

    /// Runs the instruction that `op_code` selects and leaves the program
    /// counter to the caller. After the prefix 0xCB the byte that follows
    /// it selects the instruction, in the second plane.
    pub fn dispatch(&mut self, op_code: u8) -> (res: Result<(Cycle, OpLength), Error>)
        ensures
            (Outcome { state: final(self)@, result: res }) == spec_dispatch(old(self)@, op_code),
    {
        if op_code == CB_PREFIX {
            let cb_op_code = self.read_byte_argument(1);
            cb_op_table(self, cb_op_code)
        } else {
            op_table(self, op_code)
        }
    }

    /// Runs the instruction that `op_code` selects, `op_code` being the byte
    /// at the program counter, and reports the cycles that it took.
    pub fn execute_instruction(&mut self, op_code: u8) -> (res: Result<u8, Error>)
        ensures
            (Stepped { state: final(self)@, cycles: res }) == spec_execute_instruction(
                old(self)@,
                op_code,
            ),
            res is Err ==> final(self)@ == old(self)@,
    {
        proof {
            lemma_error_changes_nothing(self@, op_code);
        }
        let enable = self.ime_pending;
        let jumps = writes_pc(&self.registers.flag, op_code);

        let (Cycle(cycle), OpLength(len)) = self.dispatch(op_code)?;

        if !jumps {
            let pc = self.registers.pc();
            self.registers.set_pc(pc.wrapping_add(len as u16));
        }
        if enable && self.ime_pending {
            self.ime = true;
            self.ime_pending = false;
        }

        Ok(cycle)
    }

    /// Fetches the instruction at the program counter, runs it, and reports
    /// the cycles that it took.
    pub fn step(&mut self) -> (res: Result<u8, Error>)
        ensures
            (Stepped { state: final(self)@, cycles: res }) == spec_step(old(self)@),
            res is Err ==> final(self)@ == old(self)@,
    {
        let op_code = self.mmu.read_byte(self.registers.pc());

        self.execute_instruction(op_code)
    }

    /// Reads the byte that HL points to.
    pub fn read_hl_dref(&self) -> (value: u8)
        ensures
            value == self@.hl_dref(),
    {
        let hl = self.registers.hl();

        self.mmu.read_byte(hl)
    }

    /// Reads the byte `index` bytes after the program counter. The address
    /// stops at the last one.
    pub fn read_byte_argument(&self, index: u16) -> (value: u8)
        ensures
            value == self@.byte_argument(index),
    {
        let arg_addr = self.registers.pc().saturating_add(index);

        self.mmu.read_byte(arg_addr)
    }

    /// Reads the word `index` bytes after the program counter, high byte
    /// first. The address stops at the last one.
    pub fn read_word_argument(&self, index: u16) -> (value: u16)
        ensures
            value == self@.word_argument(index),
    {
        let arg_addr = self.registers.pc().saturating_add(index);

        self.mmu.read_word(arg_addr)
    }

    /// Reads the byte at `addr`; an unmapped address reads as zero.
    pub fn memory_read(&self, addr: Addr) -> (value: u8)
        ensures
            value == self@.byte_at(addr),
    {
        self.mmu.read_byte(addr)
    }

    /// Stores `value` at `addr`, or reports that `addr` is not mapped and
    /// leaves the machine as it was.
    pub fn memory_write(&mut self, addr: Addr, value: u8) -> (res: Result<(), Error>)
        ensures
            match old(self)@.store_byte(addr, value) {
                Ok(s) => res == Ok::<(), Error>(()) && final(self)@ == s,
                Err(e) => res == Err::<(), Error>(e) && final(self)@ == old(self)@,
            },
    {
        self.mmu.write_byte(addr, value)
    }

    /// The interrupt master enable.
    pub fn ime(&self) -> (enabled: bool)
        ensures
            enabled == self@.ime,
    {
        self.ime
    }

    /// Sets the interrupt master enable at once.
    pub fn set_ime(&mut self, enabled: bool)
        ensures
            final(self)@ == (CpuState { ime: enabled, ..old(self)@ }),
    {
        self.ime = enabled;
    }
}

} // verus!
