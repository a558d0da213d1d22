//! The register file: eight 8-bit registers (the flags byte included) and
//! the two 16-bit pointers, with their paired 16-bit views.
use vstd::prelude::*;

verus! {

/// One of the four condition flags.
#[derive(Clone, Copy, Debug, PartialEq, Eq, Structural)]
pub enum Flag {
    Z,
    N,
    H,
    C,
}

/// The four condition flags: Zero, Subtract, Half-Carry and Carry.
#[derive(Clone, Copy, Debug, PartialEq, Eq, Structural)]
pub struct Flags {
    pub z: bool,
    pub h: bool,
    pub n: bool,
    pub c: bool,
}

/// The packed byte of a set of flags: bit 7 Zero, bit 6 Subtract,
/// bit 5 Half-Carry, bit 4 Carry, low nibble zero.
pub open spec fn pack_flags(z: bool, n: bool, h: bool, c: bool) -> u8 {
    (if z { 0x80u8 } else { 0u8 }) | (if n { 0x40u8 } else { 0u8 }) | (if h { 0x20u8 } else {
        0u8
    }) | (if c { 0x10u8 } else { 0u8 })
}

impl Flags {
    pub open spec fn spec_get(self, flag: Flag) -> bool {
        match flag {
            Flag::Z => self.z,
            Flag::N => self.n,
            Flag::H => self.h,
            Flag::C => self.c,
        }
    }

    pub open spec fn spec_set(self, flag: Flag, value: bool) -> Flags {
        match flag {
            Flag::Z => Flags { z: value, ..self },
            Flag::N => Flags { n: value, ..self },
            Flag::H => Flags { h: value, ..self },
            Flag::C => Flags { c: value, ..self },
        }
    }

    pub open spec fn spec_to_u8(self) -> u8 {
        pack_flags(self.z, self.n, self.h, self.c)
    }

    pub open spec fn spec_from_u8(f: u8) -> Flags {
        Flags { z: f & 0x80 != 0, n: f & 0x40 != 0, h: f & 0x20 != 0, c: f & 0x10 != 0 }
    }

    /// All four flags cleared.
    pub fn new() -> (r: Self)
        ensures
            r == (Flags { z: false, h: false, n: false, c: false }),
    {
        Flags { z: false, n: false, h: false, c: false }
    }

    pub fn set_flag(&mut self, flag: Flag, value: bool)
        ensures
            *final(self) == old(self).spec_set(flag, value),
    {
        match flag {
            Flag::Z => self.z = value,
            Flag::N => self.n = value,
            Flag::H => self.h = value,
            Flag::C => self.c = value,
        }
    }

    pub fn get_flag(&self, flag: Flag) -> (r: bool)
        ensures
            r == self.spec_get(flag),
    {
        match flag {
            Flag::Z => self.z,
            Flag::N => self.n,
            Flag::H => self.h,
            Flag::C => self.c,
        }
    }

    pub fn to_u8(&self) -> (r: u8)
        ensures
            r == self.spec_to_u8(),
    {
        (if self.z { 0x80u8 } else { 0u8 }) | (if self.n { 0x40u8 } else { 0u8 }) | (if self.h {
            0x20u8
        } else {
            0u8
        }) | (if self.c { 0x10u8 } else { 0u8 })
    }

    pub fn from_u8(f: u8) -> (r: Self)
        ensures
            r == Flags::spec_from_u8(f),
    {
        Flags { z: f & 0x80 != 0, n: f & 0x40 != 0, h: f & 0x20 != 0, c: f & 0x10 != 0 }
    }
}

/// The packed byte always has a zero low nibble.
pub proof fn lemma_flags_low_nibble_clear(f: Flags)
    ensures
        f.spec_to_u8() & 0x0F == 0,
{
    let (z, n, h, c) = (f.z, f.n, f.h, f.c);
    assert(pack_flags(z, n, h, c) & 0x0F == 0) by (bit_vector);
}

/// Packing and unpacking are inverse: unpacking a packed set of flags gives
/// it back, and packing an unpacked byte gives that byte with its low nibble
/// cleared.
pub proof fn lemma_flags_round_trip(f: Flags, b: u8)
    ensures
        Flags::spec_from_u8(f.spec_to_u8()) == f,
        Flags::spec_from_u8(b).spec_to_u8() == b & 0xF0,
{
    let (z, n, h, c) = (f.z, f.n, f.h, f.c);
    assert(pack_flags(z, n, h, c) & 0x80 != 0 <==> z) by (bit_vector);
    assert(pack_flags(z, n, h, c) & 0x40 != 0 <==> n) by (bit_vector);
    assert(pack_flags(z, n, h, c) & 0x20 != 0 <==> h) by (bit_vector);
    assert(pack_flags(z, n, h, c) & 0x10 != 0 <==> c) by (bit_vector);
    assert(pack_flags(b & 0x80 != 0, b & 0x40 != 0, b & 0x20 != 0, b & 0x10 != 0) == b & 0xF0)
        by (bit_vector);
}

/// An 8-bit register.
#[derive(Clone, Copy, Debug, PartialEq, Eq, Structural)]
pub enum Reg8 {
    A,
    B,
    C,
    D,
    E,
    H,
    L,
}

/// A 16-bit register: one of the four pairs, or a pointer.
#[derive(Clone, Copy, Debug, PartialEq, Eq, Structural)]
pub enum Reg16 {
    AF,
    BC,
    DE,
    HL,
    PC,
    SP,
}

/// The 16-bit value whose high byte is `hi` and low byte is `lo`.
pub open spec fn word(hi: u8, lo: u8) -> u16 {
    (hi as int * 256 + lo as int) as u16
}

/// The high byte of a 16-bit value.
pub open spec fn hi_byte(v: u16) -> u8 {
    (v as int / 256) as u8
}

/// The low byte of a 16-bit value.
pub open spec fn lo_byte(v: u16) -> u8 {
    (v as int % 256) as u8
}

/// Builds a 16-bit value from its two bytes.
pub fn join_bytes(hi: u8, lo: u8) -> (r: u16)
    ensures
        r == word(hi, lo),
{
    let r = ((hi as u16) << 8) | (lo as u16);
    assert(((hi as u16) << 8) | (lo as u16) == hi as u16 * 256 + lo as u16) by (bit_vector);
    r
}

/// Splits a 16-bit value into its high and low bytes.
pub fn split_word(v: u16) -> (r: (u8, u8))
    ensures
        r.0 == hi_byte(v),
        r.1 == lo_byte(v),
{
    assert(v >> 8 == v / 256 && v >> 8 < 256) by (bit_vector);
    assert(v & 0xFF == v % 256) by (bit_vector);
    ((v >> 8) as u8, (v & 0xFF) as u8)
}

pub proof fn lemma_word_split(v: u16)
    ensures
        word(hi_byte(v), lo_byte(v)) == v,
{
}

pub proof fn lemma_split_word(hi: u8, lo: u8)
    ensures
        hi_byte(word(hi, lo)) == hi,
        lo_byte(word(hi, lo)) == lo,
{
}

/// The register file.
#[derive(Clone, Copy, Debug, PartialEq, Eq, Structural)]
pub struct Registers {
    pub pc: u16,
    pub sp: u16,
    pub a: u8,
    pub f: Flags,
    pub b: u8,
    pub c: u8,
    pub d: u8,
    pub e: u8,
    pub h: u8,
    pub l: u8,
}

impl Registers {
    pub open spec fn spec_get8(self, reg: Reg8) -> u8 {
        match reg {
            Reg8::A => self.a,
            Reg8::B => self.b,
            Reg8::C => self.c,
            Reg8::D => self.d,
            Reg8::E => self.e,
            Reg8::H => self.h,
            Reg8::L => self.l,
        }
    }

    pub open spec fn spec_set8(self, reg: Reg8, v: u8) -> Registers {
        match reg {
            Reg8::A => Registers { a: v, ..self },
            Reg8::B => Registers { b: v, ..self },
            Reg8::C => Registers { c: v, ..self },
            Reg8::D => Registers { d: v, ..self },
            Reg8::E => Registers { e: v, ..self },
            Reg8::H => Registers { h: v, ..self },
            Reg8::L => Registers { l: v, ..self },
        }
    }

    pub open spec fn spec_get16(self, reg: Reg16) -> u16 {
        match reg {
            Reg16::AF => word(self.a, self.f.spec_to_u8()),
            Reg16::BC => word(self.b, self.c),
            Reg16::DE => word(self.d, self.e),
            Reg16::HL => word(self.h, self.l),
            Reg16::SP => self.sp,
            Reg16::PC => self.pc,
        }
    }

    pub open spec fn spec_set16(self, reg: Reg16, v: u16) -> Registers {
        match reg {
            Reg16::AF => Registers {
                a: hi_byte(v),
                f: Flags::spec_from_u8(lo_byte(v) & 0xF0),
                ..self
            },
            Reg16::BC => Registers { b: hi_byte(v), c: lo_byte(v), ..self },
            Reg16::DE => Registers { d: hi_byte(v), e: lo_byte(v), ..self },
            Reg16::HL => Registers { h: hi_byte(v), l: lo_byte(v), ..self },
            Reg16::SP => Registers { sp: v, ..self },
            Reg16::PC => Registers { pc: v, ..self },
        }
    }

    pub fn get8(&self, reg: Reg8) -> (r: u8)
        ensures
            r == self.spec_get8(reg),
    {
        match reg {
            Reg8::A => self.a,
            Reg8::B => self.b,
            Reg8::C => self.c,
            Reg8::D => self.d,
            Reg8::E => self.e,
            Reg8::H => self.h,
            Reg8::L => self.l,
        }
    }

    pub fn set8(&mut self, reg: Reg8, val: u8)
        ensures
            *final(self) == old(self).spec_set8(reg, val),
    {
        match reg {
            Reg8::A => self.a = val,
            Reg8::B => self.b = val,
            Reg8::C => self.c = val,
            Reg8::D => self.d = val,
            Reg8::E => self.e = val,
            Reg8::H => self.h = val,
            Reg8::L => self.l = val,
        }
    }

    pub fn set16(&mut self, reg: Reg16, val: u16)
        ensures
            *final(self) == old(self).spec_set16(reg, val),
    {
        let (hi, lo) = split_word(val);
        match reg {
            Reg16::AF => {
                self.a = hi;
                self.f = Flags::from_u8(lo & 0xF0);
            },
            Reg16::BC => {
                self.b = hi;
                self.c = lo;
            },
            Reg16::DE => {
                self.d = hi;
                self.e = lo;
            },
            Reg16::HL => {
                self.h = hi;
                self.l = lo;
            },
            Reg16::SP => self.sp = val,
            Reg16::PC => self.pc = val,
        }
    }

    pub fn get16(&self, reg: Reg16) -> (r: u16)
        ensures
            r == self.spec_get16(reg),
    {
        match reg {
            Reg16::AF => join_bytes(self.a, self.f.to_u8()),
            Reg16::BC => join_bytes(self.b, self.c),
            Reg16::DE => join_bytes(self.d, self.e),
            Reg16::HL => join_bytes(self.h, self.l),
            Reg16::SP => self.sp,
            Reg16::PC => self.pc,
        }
    }
}

/// Writing a 16-bit register and reading it back gives the value written;
/// for AF, with the low nibble cleared.
pub proof fn lemma_set16_get16(r: Registers, p: Reg16, v: u16)
    ensures
        r.spec_set16(p, v).spec_get16(p) == (if p == Reg16::AF {
            v & 0xFFF0
        } else {
            v
        }),
{
    lemma_word_split(v);
    if p == Reg16::AF {
        lemma_flags_round_trip(Flags::spec_from_u8(lo_byte(v) & 0xF0), lo_byte(v) & 0xF0);
        let lo = lo_byte(v);
        assert((lo & 0xF0) & 0xF0 == lo & 0xF0) by (bit_vector);
        assert(word(hi_byte(v), lo & 0xF0) == v & 0xFFF0) by {
            assert(v & 0xFFF0 == (v as int / 256) * 256 + (v as int % 256) / 16 * 16) by (bit_vector);
            assert((lo & 0xF0) == (lo as int / 16) * 16) by (bit_vector);
        }
    }
}

/// Writing one 8-bit half of a pair is seen at once through the pair.
pub proof fn lemma_set8_visible_in_pair(r: Registers, v: u8)
    ensures
        r.spec_set8(Reg8::B, v).spec_get16(Reg16::BC) == word(v, r.c),
        r.spec_set8(Reg8::C, v).spec_get16(Reg16::BC) == word(r.b, v),
        r.spec_set8(Reg8::D, v).spec_get16(Reg16::DE) == word(v, r.e),
        r.spec_set8(Reg8::E, v).spec_get16(Reg16::DE) == word(r.d, v),
        r.spec_set8(Reg8::H, v).spec_get16(Reg16::HL) == word(v, r.l),
        r.spec_set8(Reg8::L, v).spec_get16(Reg16::HL) == word(r.h, v),
        r.spec_set8(Reg8::A, v).spec_get16(Reg16::AF) == word(v, r.f.spec_to_u8()),
{
}

} // verus!
