//! The memory image: a flat store of bytes under 16-bit addresses.

use vstd::prelude::*;
use crate::bits::{high_byte, join, low_byte, spec_high_byte, spec_join, spec_low_byte};

verus! {

/// What the core reports to its host.
#[derive(Debug, PartialEq, Eq, Clone, Copy)]
pub enum Error {
    /// A write went to an address that is not mapped.
    OutOfBound,
    /// The byte `opcode`, fetched at `pc`, selects a slot without a handler.
    UnimplementedOpcode { opcode: u8, pc: u16 },
}

/// An address of the machine.
pub type Addr = u16;

/// The number of mapped bytes: the addresses below it are mapped.
pub const MEM_SIZE: u16 = 0xFFFF;

/// What a read of an unmapped address yields.
pub const INVALID_READ_DEFAULT_VALUE: u8 = 0;

/// The memory: one byte for each mapped address.
#[derive(Debug, PartialEq, Clone)]
pub struct Mmu {
    pub memory: [u8; 0xFFFF],
}

impl View for Mmu {
    type V = Seq<u8>;

    open spec fn view(&self) -> Seq<u8> {
        self.memory@
    }
}

/// Whether `addr` is mapped.
pub open spec fn mapped(addr: Addr) -> bool {
    addr < MEM_SIZE
}

/// The byte that a read at `addr` yields: the byte that stands there, or
/// the default where `addr` is not mapped.
pub open spec fn spec_read_byte(mem: Seq<u8>, addr: Addr) -> u8 {
    if mapped(addr) {
        mem[addr as int]
    } else {
        INVALID_READ_DEFAULT_VALUE
    }
}

/// The word that a read at `addr` yields: the byte at `addr` above the byte
/// that follows it. Past the last address the low byte reads as unmapped.
pub open spec fn spec_read_word(mem: Seq<u8>, addr: Addr) -> u16 {
    spec_join(
        spec_read_byte(mem, addr),
        if addr < 0xFFFF {
            spec_read_byte(mem, (addr + 1) as u16)
        } else {
            INVALID_READ_DEFAULT_VALUE
        },
    )
}

/// The memory after a write of `value` at `addr`, or the error that the
/// write ends in.
pub open spec fn spec_write_byte(mem: Seq<u8>, addr: Addr, value: u8) -> Result<Seq<u8>, Error> {
    if mapped(addr) {
        Ok(mem.update(addr as int, value))
    } else {
        Err(Error::OutOfBound)
    }
}

/// The memory after a write of the word `value` at `addr`, high byte first,
/// or the error that the write ends in. Nothing is written unless both
/// bytes are mapped.
pub open spec fn spec_write_word(mem: Seq<u8>, addr: Addr, value: u16) -> Result<Seq<u8>, Error> {
    if addr < MEM_SIZE - 1 {
        Ok(mem.update(addr as int, spec_high_byte(value)).update(addr + 1, spec_low_byte(value)))
    } else {
        Err(Error::OutOfBound)
    }
}

impl Default for Mmu {
    fn default() -> (mmu: Self)
        ensures
            mmu@ == Seq::new(MEM_SIZE as nat, |i: int| 0u8),
    {
        let mmu = Self { memory: [0; 0xFFFF] };
        assert(mmu@ =~= Seq::new(MEM_SIZE as nat, |i: int| 0u8));
        mmu
    }
}

impl Mmu {
    /// Reads the byte at `addr`. An address that is not mapped reads as the
    /// default.
    #[inline]
    pub fn read_byte(&self, addr: Addr) -> (value: u8)
        ensures
            value == spec_read_byte(self@, addr),
    {
        if addr < MEM_SIZE {
            self.memory[addr as usize]
        } else {
            INVALID_READ_DEFAULT_VALUE
        }
    }

    /// Reads the word at `addr`, high byte first. A byte of it that is not
    /// mapped reads as the default.
    #[inline]
    pub fn read_word(&self, addr: Addr) -> (value: u16)
        ensures
            value == spec_read_word(self@, addr),
    {
        let h = self.read_byte(addr);
        let l = if addr < 0xFFFF {
            self.read_byte(addr + 1)
        } else {
            INVALID_READ_DEFAULT_VALUE
        };
        join(h, l)
    }

    /// Writes `value` at `addr`, or reports that `addr` is not mapped and
    /// writes nothing.
    #[inline]
    pub fn write_byte(&mut self, addr: Addr, value: u8) -> (res: Result<(), Error>)
        ensures
            match spec_write_byte(old(self)@, addr, value) {
                Ok(mem) => res == Ok::<(), Error>(()) && final(self)@ == mem,
                Err(e) => res == Err::<(), Error>(e) && final(self)@ == old(self)@,
            },
    {
        if addr < MEM_SIZE {
            self.memory[addr as usize] = value;
            Ok(())
        } else {
            Err(Error::OutOfBound)
        }
    }

    /// Writes the word `value` at `addr`, high byte first, or reports that
    /// one of its two addresses is not mapped and writes nothing.
    #[inline]
    pub fn write_word(&mut self, addr: Addr, value: u16) -> (res: Result<(), Error>)
        ensures
            match spec_write_word(old(self)@, addr, value) {
                Ok(mem) => res == Ok::<(), Error>(()) && final(self)@ == mem,
                Err(e) => res == Err::<(), Error>(e) && final(self)@ == old(self)@,
            },
    {
        if addr < MEM_SIZE - 1 {
            self.memory[addr as usize] = high_byte(value);
            self.memory[addr as usize + 1] = low_byte(value);
            Ok(())
        } else {
            Err(Error::OutOfBound)
        }
    }
}

/// A byte that was written to a mapped address is the byte read there.
pub proof fn lemma_write_byte_then_read(mem: Seq<u8>, addr: Addr, value: u8)
    requires
        mem.len() == MEM_SIZE,
        mapped(addr),
    ensures
        spec_write_byte(mem, addr, value) is Ok,
        spec_read_byte(spec_write_byte(mem, addr, value)->Ok_0, addr) == value,
{
}

/// A word that was written where both of its bytes are mapped is the word
/// read there.
pub proof fn lemma_write_word_then_read(mem: Seq<u8>, addr: Addr, value: u16)
    requires
        mem.len() == MEM_SIZE,
        addr < MEM_SIZE - 1,
    ensures
        spec_write_word(mem, addr, value) is Ok,
        spec_read_word(spec_write_word(mem, addr, value)->Ok_0, addr) == value,
{
}

} // verus!
