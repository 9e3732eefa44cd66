//! The register file: seven byte registers, the stack pointer, the program
//! counter and the four flags, with the paired views AF, BC, DE and HL.

use vstd::prelude::*;
use crate::bits::{high_byte, join, low_byte, spec_high_byte, spec_join, spec_low_byte};

verus! {

/// The flags Z (zero), N (subtract), H (half carry) and C (carry).
#[derive(Debug, PartialEq, Clone)]
pub struct Flag {
    pub zero: bool,
    pub sub: bool,
    pub half_carry: bool,
    pub carry: bool,
}

/// The flags that a byte packs: Z in bit 7, N in bit 6, H in bit 5 and C in
/// bit 4. The low nibble is ignored.
pub open spec fn spec_unpack(val: u8) -> Flag {
    Flag {
        zero: val / 0x80 % 2 == 1,
        sub: val / 0x40 % 2 == 1,
        half_carry: val / 0x20 % 2 == 1,
        carry: val / 0x10 % 2 == 1,
    }
}

impl Default for Flag {
    fn default() -> (flag: Self)
        ensures
            flag == (Flag { zero: false, sub: false, half_carry: false, carry: false }),
    {
        Self { zero: false, sub: false, half_carry: false, carry: false }
    }
}

impl vstd::std_specs::convert::FromSpecImpl<u8> for Flag {
    open spec fn obeys_from_spec() -> bool {
        true
    }

    open spec fn from_spec(val: u8) -> Flag {
        spec_unpack(val)
    }
}

impl From<u8> for Flag {
    fn from(val: u8) -> (flag: Flag) {
        assert(((val & 128 > 0) == (val / 0x80 % 2 == 1)) && ((val & 64 > 0) == (val / 0x40 % 2
            == 1)) && ((val & 32 > 0) == (val / 0x20 % 2 == 1)) && ((val & 16 > 0) == (val / 0x10
            % 2 == 1))) by (bit_vector);
        Flag {
            zero: val & 128 > 0,
            sub: val & 64 > 0,
            half_carry: val & 32 > 0,
            carry: val & 16 > 0,
        }
    }
}

impl Flag {
    /// The byte F that packs the flags: Z in bit 7, N in bit 6, H in bit 5
    /// and C in bit 4, with a low nibble of zero.
    pub open spec fn spec_bits(self) -> u8 {
        ((if self.zero {
            0x80int
        } else {
            0
        }) + (if self.sub {
            0x40int
        } else {
            0
        }) + (if self.half_carry {
            0x20int
        } else {
            0
        }) + (if self.carry {
            0x10int
        } else {
            0
        })) as u8
    }

    pub fn new(zero: bool, sub: bool, half_carry: bool, carry: bool) -> (flag: Self)
        ensures
            flag == (Flag { zero, sub, half_carry, carry }),
    {
        Self { zero, sub, half_carry, carry }
    }

    /// Packs the flags into the byte F.
    pub fn bits(&self) -> (val: u8)
        ensures
            val == self.spec_bits(),
    {
        let z: u8 = if self.zero { 0x80 } else { 0 };
        let n: u8 = if self.sub { 0x40 } else { 0 };
        let h: u8 = if self.half_carry { 0x20 } else { 0 };
        let c: u8 = if self.carry { 0x10 } else { 0 };
        z + n + h + c
    }

    pub fn zero(&self) -> (val: bool)
        ensures
            val == self.zero,
    {
        self.zero
    }

    pub fn set_zero(&mut self, val: bool)
        ensures
            *final(self) == (Flag { zero: val, ..*old(self) }),
    {
        self.zero = val;
    }

    pub fn sub(&self) -> (val: bool)
        ensures
            val == self.sub,
    {
        self.sub
    }

    pub fn set_sub(&mut self, val: bool)
        ensures
            *final(self) == (Flag { sub: val, ..*old(self) }),
    {
        self.sub = val;
    }

    pub fn half_carry(&self) -> (val: bool)
        ensures
            val == self.half_carry,
    {
        self.half_carry
    }

    pub fn set_half_carry(&mut self, val: bool)
        ensures
            *final(self) == (Flag { half_carry: val, ..*old(self) }),
    {
        self.half_carry = val;
    }

    pub fn carry(&self) -> (val: bool)
        ensures
            val == self.carry,
    {
        self.carry
    }

    pub fn set_carry(&mut self, val: bool)
        ensures
            *final(self) == (Flag { carry: val, ..*old(self) }),
    {
        self.carry = val;
    }
}

/// The packed flags never hold a bit of the low nibble.
pub proof fn lemma_bits_low_nibble(flag: Flag)
    ensures
        flag.spec_bits() % 0x10 == 0,
{
}

/// Unpacking a packed flag byte gives the flags back.
pub proof fn lemma_unpack_bits(flag: Flag)
    ensures
        spec_unpack(flag.spec_bits()) == flag,
{
}

/// Packing the flags of a byte keeps its high nibble and clears the low one.
pub proof fn lemma_bits_unpack(val: u8)
    ensures
        spec_unpack(val).spec_bits() == val - val % 0x10,
{
    let z = if val / 0x80 % 2 == 1 {
        0x80u8
    } else {
        0u8
    };
    let n = if val / 0x40 % 2 == 1 {
        0x40u8
    } else {
        0u8
    };
    let h = if val / 0x20 % 2 == 1 {
        0x20u8
    } else {
        0u8
    };
    let c = if val / 0x10 % 2 == 1 {
        0x10u8
    } else {
        0u8
    };
    assert(z + n + h + c == val - val % 0x10) by (bit_vector)
        requires
            z == (if val / 0x80 % 2 == 1 {
                0x80u8
            } else {
                0u8
            }),
            n == (if val / 0x40 % 2 == 1 {
                0x40u8
            } else {
                0u8
            }),
            h == (if val / 0x20 % 2 == 1 {
                0x20u8
            } else {
                0u8
            }),
            c == (if val / 0x10 % 2 == 1 {
                0x10u8
            } else {
                0u8
            }),
    ;
}

/// The names of the byte registers.
#[derive(Debug, PartialEq, Eq, Clone, Copy)]
pub enum ByteRegister {
    A,
    B,
    C,
    D,
    E,
    H,
    L,
}

/// The names of the word registers: the four pairs, the stack pointer and
/// the program counter.
#[derive(Debug, PartialEq, Eq, Clone, Copy)]
pub enum WordRegister {
    AF,
    BC,
    DE,
    HL,
    SP,
    PC,
}

/// The registers: A, B, C, D, E, H and L, the stack pointer, the program
/// counter and the flags.
#[derive(Debug, PartialEq, Clone)]
pub struct Registers {
    pub a: u8,
    pub b: u8,
    pub c: u8,
    pub d: u8,
    pub e: u8,
    pub h: u8,
    pub l: u8,
    pub sp: u16,
    pub pc: u16,
    pub flag: Flag,
}

impl Default for Registers {
    fn default() -> (registers: Self)
        ensures
            registers == (Registers {
                a: 0,
                b: 0,
                c: 0,
                d: 0,
                e: 0,
                h: 0,
                l: 0,
                sp: 0,
                pc: 0,
                flag: Flag { zero: false, sub: false, half_carry: false, carry: false },
            }),
    {
        Registers {
            a: 0,
            b: 0,
            c: 0,
            d: 0,
            e: 0,
            h: 0,
            l: 0,
            sp: 0,
            pc: 0,
            flag: Flag::default(),
        }
    }
}

impl Registers {
    /// The pair AF: A above the packed flags.
    pub open spec fn spec_af(self) -> u16 {
        spec_join(self.a, self.flag.spec_bits())
    }

    /// The pair BC: B above C.
    pub open spec fn spec_bc(self) -> u16 {
        spec_join(self.b, self.c)
    }

    /// The pair DE: D above E.
    pub open spec fn spec_de(self) -> u16 {
        spec_join(self.d, self.e)
    }

    /// The pair HL: H above L.
    pub open spec fn spec_hl(self) -> u16 {
        spec_join(self.h, self.l)
    }

    /// The registers after AF was written: A takes the high byte, the flags
    /// take bits 7 to 4 of the low byte.
    pub open spec fn spec_with_af(self, val: u16) -> Registers {
        Registers { a: spec_high_byte(val), flag: spec_unpack(spec_low_byte(val)), ..self }
    }

    /// The registers after BC was written.
    pub open spec fn spec_with_bc(self, val: u16) -> Registers {
        Registers { b: spec_high_byte(val), c: spec_low_byte(val), ..self }
    }

    /// The registers after DE was written.
    pub open spec fn spec_with_de(self, val: u16) -> Registers {
        Registers { d: spec_high_byte(val), e: spec_low_byte(val), ..self }
    }

    /// The registers after HL was written.
    pub open spec fn spec_with_hl(self, val: u16) -> Registers {
        Registers { h: spec_high_byte(val), l: spec_low_byte(val), ..self }
    }

    /// The byte register that `reg` names.
    pub open spec fn spec_byte(self, reg: ByteRegister) -> u8 {
        match reg {
            ByteRegister::A => self.a,
            ByteRegister::B => self.b,
            ByteRegister::C => self.c,
            ByteRegister::D => self.d,
            ByteRegister::E => self.e,
            ByteRegister::H => self.h,
            ByteRegister::L => self.l,
        }
    }

    /// The registers after the byte register that `reg` names was written.
    pub open spec fn spec_with_byte(self, reg: ByteRegister, val: u8) -> Registers {
        match reg {
            ByteRegister::A => Registers { a: val, ..self },
            ByteRegister::B => Registers { b: val, ..self },
            ByteRegister::C => Registers { c: val, ..self },
            ByteRegister::D => Registers { d: val, ..self },
            ByteRegister::E => Registers { e: val, ..self },
            ByteRegister::H => Registers { h: val, ..self },
            ByteRegister::L => Registers { l: val, ..self },
        }
    }

    /// The word register that `reg` names.
    pub open spec fn spec_word(self, reg: WordRegister) -> u16 {
        match reg {
            WordRegister::AF => self.spec_af(),
            WordRegister::BC => self.spec_bc(),
            WordRegister::DE => self.spec_de(),
            WordRegister::HL => self.spec_hl(),
            WordRegister::SP => self.sp,
            WordRegister::PC => self.pc,
        }
    }

    /// The registers after the word register that `reg` names was written.
    pub open spec fn spec_with_word(self, reg: WordRegister, val: u16) -> Registers {
        match reg {
            WordRegister::AF => self.spec_with_af(val),
            WordRegister::BC => self.spec_with_bc(val),
            WordRegister::DE => self.spec_with_de(val),
            WordRegister::HL => self.spec_with_hl(val),
            WordRegister::SP => Registers { sp: val, ..self },
            WordRegister::PC => Registers { pc: val, ..self },
        }
    }

    pub fn a(&self) -> (val: u8)
        ensures
            val == self.a,
    {
        self.a
    }

    pub fn set_a(&mut self, val: u8)
        ensures
            *final(self) == (Registers { a: val, ..*old(self) }),
    {
        self.a = val;
    }

    pub fn b(&self) -> (val: u8)
        ensures
            val == self.b,
    {
        self.b
    }

    pub fn set_b(&mut self, val: u8)
        ensures
            *final(self) == (Registers { b: val, ..*old(self) }),
    {
        self.b = val;
    }

    pub fn c(&self) -> (val: u8)
        ensures
            val == self.c,
    {
        self.c
    }

    pub fn set_c(&mut self, val: u8)
        ensures
            *final(self) == (Registers { c: val, ..*old(self) }),
    {
        self.c = val;
    }

    pub fn d(&self) -> (val: u8)
        ensures
            val == self.d,
    {
        self.d
    }

    pub fn set_d(&mut self, val: u8)
        ensures
            *final(self) == (Registers { d: val, ..*old(self) }),
    {
        self.d = val;
    }

    pub fn e(&self) -> (val: u8)
        ensures
            val == self.e,
    {
        self.e
    }

    pub fn set_e(&mut self, val: u8)
        ensures
            *final(self) == (Registers { e: val, ..*old(self) }),
    {
        self.e = val;
    }

    pub fn h(&self) -> (val: u8)
        ensures
            val == self.h,
    {
        self.h
    }

    pub fn set_h(&mut self, val: u8)
        ensures
            *final(self) == (Registers { h: val, ..*old(self) }),
    {
        self.h = val;
    }

    pub fn l(&self) -> (val: u8)
        ensures
            val == self.l,
    {
        self.l
    }

    pub fn set_l(&mut self, val: u8)
        ensures
            *final(self) == (Registers { l: val, ..*old(self) }),
    {
        self.l = val;
    }

    pub fn sp(&self) -> (val: u16)
        ensures
            val == self.sp,
    {
        self.sp
    }

    pub fn set_sp(&mut self, val: u16)
        ensures
            *final(self) == (Registers { sp: val, ..*old(self) }),
    {
        self.sp = val;
    }

    pub fn pc(&self) -> (val: u16)
        ensures
            val == self.pc,
    {
        self.pc
    }

    pub fn set_pc(&mut self, val: u16)
        ensures
            *final(self) == (Registers { pc: val, ..*old(self) }),
    {
        self.pc = val;
    }

    pub fn bc(&self) -> (val: u16)
        ensures
            val == self.spec_bc(),
    {
        join(self.b, self.c)
    }

    pub fn set_bc(&mut self, val: u16)
        ensures
            *final(self) == old(self).spec_with_bc(val),
    {
        self.b = high_byte(val);
        self.c = low_byte(val);
    }

    pub fn de(&self) -> (val: u16)
        ensures
            val == self.spec_de(),
    {
        join(self.d, self.e)
    }

    pub fn set_de(&mut self, val: u16)
        ensures
            *final(self) == old(self).spec_with_de(val),
    {
        self.d = high_byte(val);
        self.e = low_byte(val);
    }

    pub fn hl(&self) -> (val: u16)
        ensures
            val == self.spec_hl(),
    {
        join(self.h, self.l)
    }

    pub fn set_hl(&mut self, val: u16)
        ensures
            *final(self) == old(self).spec_with_hl(val),
    {
        self.h = high_byte(val);
        self.l = low_byte(val);
    }

    pub fn af(&self) -> (val: u16)
        ensures
            val == self.spec_af(),
    {
        join(self.a, self.flag.bits())
    }

    pub fn set_af(&mut self, val: u16)
        ensures
            *final(self) == old(self).spec_with_af(val),
    {
        self.a = high_byte(val);
        self.flag = Flag::from(low_byte(val));
    }

    /// Reads the byte register that `reg` names.
    pub fn byte(&self, reg: ByteRegister) -> (val: u8)
        ensures
            val == self.spec_byte(reg),
    {
        match reg {
            ByteRegister::A => self.a,
            ByteRegister::B => self.b,
            ByteRegister::C => self.c,
            ByteRegister::D => self.d,
            ByteRegister::E => self.e,
            ByteRegister::H => self.h,
            ByteRegister::L => self.l,
        }
    }

    /// Writes the byte register that `reg` names.
    pub fn set_byte(&mut self, reg: ByteRegister, val: u8)
        ensures
            *final(self) == old(self).spec_with_byte(reg, val),
    {
        match reg {
            ByteRegister::A => self.a = val,
            ByteRegister::B => self.b = val,
            ByteRegister::C => self.c = val,
            ByteRegister::D => self.d = val,
            ByteRegister::E => self.e = val,
            ByteRegister::H => self.h = val,
            ByteRegister::L => self.l = val,
        }
    }

    /// Reads the word register that `reg` names.
    pub fn word(&self, reg: WordRegister) -> (val: u16)
        ensures
            val == self.spec_word(reg),
    {
        match reg {
            WordRegister::AF => self.af(),
            WordRegister::BC => self.bc(),
            WordRegister::DE => self.de(),
            WordRegister::HL => self.hl(),
            WordRegister::SP => self.sp,
            WordRegister::PC => self.pc,
        }
    }

    /// Writes the word register that `reg` names.
    pub fn set_word(&mut self, reg: WordRegister, val: u16)
        ensures
            *final(self) == old(self).spec_with_word(reg, val),
    {
        match reg {
            WordRegister::AF => self.set_af(val),
            WordRegister::BC => self.set_bc(val),
            WordRegister::DE => self.set_de(val),
            WordRegister::HL => self.set_hl(val),
            WordRegister::SP => self.sp = val,
            WordRegister::PC => self.pc = val,
        }
    }
}

/// A pair that was written reads back as the word that was written; for AF
/// the low nibble reads back as zero.
pub proof fn lemma_pair_write_then_read(registers: Registers, reg: WordRegister, val: u16)
    ensures
        registers.spec_with_word(reg, val).spec_word(reg) == if reg == WordRegister::AF {
            (val - val % 0x10) as u16
        } else {
            val
        },
{
    if reg == WordRegister::AF {
        lemma_bits_unpack(spec_low_byte(val));
    }
}

/// A pair reads as its high half above its low half, whatever was written
/// to the two halves; of the flags only the high nibble is kept.
pub proof fn lemma_pair_of_halves(registers: Registers, high: u8, low: u8)
    ensures
        (Registers { b: high, c: low, ..registers }).spec_bc() == high * 0x100 + low,
        (Registers { d: high, e: low, ..registers }).spec_de() == high * 0x100 + low,
        (Registers { h: high, l: low, ..registers }).spec_hl() == high * 0x100 + low,
        (Registers { a: high, flag: spec_unpack(low), ..registers }).spec_af() == high * 0x100 + (
        low - low % 0x10),
{
    lemma_bits_unpack(low);
}

} // verus!
