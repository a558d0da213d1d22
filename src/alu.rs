//! Stateless 8- and 16-bit arithmetic and logic, each operation returning
//! its result together with the four flags it produces.
use vstd::prelude::*;

verus! {

/// The arithmetic-logic unit. It holds no state.
pub struct Alu {}

/// The result of an 8-bit operation and the flags it produces.
#[derive(Clone, Copy, Debug, PartialEq, Eq, Structural)]
pub struct AluResult8 {
    pub result: u8,
    pub z: bool,
    pub n: bool,
    pub h: bool,
    pub c: bool,
}

/// The result of a 16-bit operation and the flags it produces.
#[derive(Clone, Copy, Debug, PartialEq, Eq, Structural)]
pub struct AluResult16 {
    pub result: u16,
    pub z: bool,
    pub n: bool,
    pub h: bool,
    pub c: bool,
}

pub open spec fn carry_in(c: bool) -> int {
    if c {
        1
    } else {
        0
    }
}

/// An 8-bit result with Zero computed from it.
pub open spec fn res8(result: int, n: bool, h: bool, c: bool) -> AluResult8 {
    AluResult8 { result: result as u8, z: result as u8 == 0, n, h, c }
}

#[verifier::opaque]
pub open spec fn add8(a: u8, b: u8) -> AluResult8 {
    res8((a + b) % 256, false, a % 16 + b % 16 > 15, a + b > 255)
}

#[verifier::opaque]
pub open spec fn adc8(carry: bool, a: u8, b: u8) -> AluResult8 {
    let cin = carry_in(carry);
    res8((a + b + cin) % 256, false, a % 16 + b % 16 + cin > 15, a + b + cin > 255)
}

#[verifier::opaque]
pub open spec fn sub8(a: u8, b: u8) -> AluResult8 {
    res8((a - b + 256) % 256, true, a % 16 < b % 16, a < b)
}

#[verifier::opaque]
pub open spec fn sbc8(carry: bool, a: u8, b: u8) -> AluResult8 {
    let cin = carry_in(carry);
    res8((a - b - cin + 512) % 256, true, a % 16 < b % 16 + cin, a < b + cin)
}

#[verifier::opaque]
pub open spec fn add16(a: u16, b: u16) -> AluResult16 {
    let r = ((a + b) % 65536) as u16;
    AluResult16 { result: r, z: r == 0, n: false, h: a % 4096 + b % 4096 > 4095, c: a + b > 65535 }
}

#[verifier::opaque]
pub open spec fn and8(a: u8, b: u8) -> AluResult8 {
    res8((a & b) as int, false, true, false)
}

#[verifier::opaque]
pub open spec fn or8(a: u8, b: u8) -> AluResult8 {
    res8((a | b) as int, false, false, false)
}

#[verifier::opaque]
pub open spec fn xor8(a: u8, b: u8) -> AluResult8 {
    res8((a ^ b) as int, false, false, false)
}

#[verifier::opaque]
pub open spec fn rlc8(v: u8) -> AluResult8 {
    res8((v * 2) % 256 + v / 128, false, false, v >= 128)
}

#[verifier::opaque]
pub open spec fn rrc8(v: u8) -> AluResult8 {
    res8(v / 2 + (v % 2) * 128, false, false, v % 2 == 1)
}

#[verifier::opaque]
pub open spec fn rl8(v: u8, carry: bool) -> AluResult8 {
    res8((v * 2) % 256 + carry_in(carry), false, false, v >= 128)
}

#[verifier::opaque]
pub open spec fn rr8(v: u8, carry: bool) -> AluResult8 {
    res8(v / 2 + carry_in(carry) * 128, false, false, v % 2 == 1)
}

#[verifier::opaque]
pub open spec fn sla8(v: u8) -> AluResult8 {
    res8((v * 2) % 256, false, false, v >= 128)
}

#[verifier::opaque]
pub open spec fn sra8(v: u8) -> AluResult8 {
    res8(v / 2 + (v / 128) * 128, false, false, v % 2 == 1)
}

#[verifier::opaque]
pub open spec fn srl8(v: u8) -> AluResult8 {
    res8(v as int / 2, false, false, v % 2 == 1)
}

#[verifier::opaque]
pub open spec fn swap8(v: u8) -> AluResult8 {
    res8((v % 16) * 16 + v / 16, false, false, false)
}

proof fn lemma_nibble(a: u8)
    ensures
        a & 0x0F == a % 16,
{
    assert(a & 0x0F == a % 16) by (bit_vector);
}

fn low_nibble(a: u8) -> (r: u8)
    ensures
        r == a % 16,
{
    proof {
        lemma_nibble(a);
    }
    a & 0x0F
}

fn bit_of(c: bool) -> (r: u8)
    ensures
        r == carry_in(c),
{
    if c {
        1
    } else {
        0
    }
}

impl Alu {
    pub fn new() -> Self {
        Alu {  }
    }

    /// ADD: Half-Carry on overflow of the low nibble, Carry on overflow of
    /// the byte.
    pub fn add_8bit(&self, a: u8, b: u8) -> (r: AluResult8)
        ensures
            r == add8(a, b),
    {
        reveal(add8);
        let wide: u16 = a as u16 + b as u16;
        let result = (wide % 256) as u8;
        AluResult8 {
            result,
            z: result == 0,
            n: false,
            h: low_nibble(a) + low_nibble(b) > 0x0F,
            c: wide > 0xFF,
        }
    }

    /// ADD of 16-bit values: Half-Carry on overflow out of bit 11, Carry on
    /// overflow out of bit 15.
    pub fn add_16bit(&self, a: u16, b: u16) -> (r: AluResult16)
        ensures
            r == add16(a, b),
    {
        reveal(add16);
        let wide: u32 = a as u32 + b as u32;
        let result = (wide % 65536) as u16;
        assert(a & 0x0FFF == a % 4096 && b & 0x0FFF == b % 4096) by (bit_vector);
        let half_carry = (a & 0x0FFF) + (b & 0x0FFF) > 0x0FFF;
        AluResult16 { result, z: result == 0, n: false, h: half_carry, c: wide > 0xFFFF }
    }

    /// ADC: ADD with the incoming carry added in.
    pub fn adc_8bit(&self, cpu_flag: bool, a: u8, b: u8) -> (r: AluResult8)
        ensures
            r == adc8(cpu_flag, a, b),
    {
        reveal(adc8);
        let cin = bit_of(cpu_flag);
        let wide: u16 = a as u16 + b as u16 + cin as u16;
        let result = (wide % 256) as u8;
        AluResult8 {
            result,
            z: result == 0,
            n: false,
            h: low_nibble(a) + low_nibble(b) + cin > 0x0F,
            c: wide > 0xFF,
        }
    }

    /// SUB: Half-Carry on a borrow from the high nibble, Carry on a borrow
    /// below zero.
    pub fn sub_8bit(&self, a: u8, b: u8) -> (r: AluResult8)
        ensures
            r == sub8(a, b),
    {
        reveal(sub8);
        let wide: u16 = a as u16 + 256 - b as u16;
        let result = (wide % 256) as u8;
        AluResult8 {
            result,
            z: result == 0,
            n: true,
            h: low_nibble(a) < low_nibble(b),
            c: a < b,
        }
    }

    /// SBC: SUB with the incoming carry subtracted as well.
    pub fn sbc_8bit(&self, cpu_flag: bool, a: u8, b: u8) -> (r: AluResult8)
        ensures
            r == sbc8(cpu_flag, a, b),
    {
        reveal(sbc8);
        let cin = bit_of(cpu_flag);
        let wide: u16 = a as u16 + 512 - b as u16 - cin as u16;
        let result = (wide % 256) as u8;
        AluResult8 {
            result,
            z: result == 0,
            n: true,
            h: (low_nibble(a) as u16) < low_nibble(b) as u16 + cin as u16,
            c: (a as u16) < b as u16 + cin as u16,
        }
    }

    pub fn xor_8bit(&self, a: u8, b: u8) -> (r: AluResult8)
        ensures
            r == xor8(a, b),
    {
        reveal(xor8);
        let result = a ^ b;
        AluResult8 { result, z: result == 0, n: false, h: false, c: false }
    }

    pub fn and_8bit(&self, a: u8, b: u8) -> (r: AluResult8)
        ensures
            r == and8(a, b),
    {
        reveal(and8);
        let result = a & b;
        AluResult8 { result, z: result == 0, n: false, h: true, c: false }
    }

    pub fn or_8bit(&self, a: u8, b: u8) -> (r: AluResult8)
        ensures
            r == or8(a, b),
    {
        reveal(or8);
        let result = a | b;
        AluResult8 { result, z: result == 0, n: false, h: false, c: false }
    }

    /// CP: the flags of SUB; the caller discards the numeric result.
    pub fn cp_8bit(&self, a: u8, b: u8) -> (r: AluResult8)
        ensures
            r == sub8(a, b),
    {
        reveal(sub8);
        self.sub_8bit(a, b)
    }

    /// RLC: rotate left; bit 7 goes to Carry and to bit 0.
    pub fn rlc_byte(&self, v: u8) -> (r: AluResult8)
        ensures
            r == rlc8(v),
    {
        reveal(rlc8);
        assert((v << 1u8) | (v >> 7u8) == (v * 2) % 256 + v / 128) by (bit_vector);
        assert((v & 0x80 != 0) == (v >= 128)) by (bit_vector);
        let result = (v << 1u8) | (v >> 7u8);
        AluResult8 { result, z: result == 0, n: false, h: false, c: (v & 0x80) != 0 }
    }

    /// RRC: rotate right; bit 0 goes to Carry and to bit 7.
    pub fn rrc_byte(&self, v: u8) -> (r: AluResult8)
        ensures
            r == rrc8(v),
    {
        reveal(rrc8);
        assert((v >> 1u8) | (v << 7u8) == v / 2 + (v % 2) * 128) by (bit_vector);
        assert((v & 0x01 != 0) == (v % 2 == 1)) by (bit_vector);
        let result = (v >> 1u8) | (v << 7u8);
        AluResult8 { result, z: result == 0, n: false, h: false, c: (v & 0x01) != 0 }
    }

    /// RL: rotate left through Carry; bit 7 goes to Carry, the old Carry to
    /// bit 0.
    pub fn rl_byte(&self, v: u8, cpu_flag: bool) -> (r: AluResult8)
        ensures
            r == rl8(v, cpu_flag),
    {
        reveal(rl8);
        let old_c = bit_of(cpu_flag);
        assert(old_c <= 1 ==> (v << 1u8) | old_c == (v * 2) % 256 + old_c) by (bit_vector);
        assert((v & 0x80 != 0) == (v >= 128)) by (bit_vector);
        let result = (v << 1u8) | old_c;
        AluResult8 { result, z: result == 0, n: false, h: false, c: (v & 0x80) != 0 }
    }

    /// RR: rotate right through Carry; bit 0 goes to Carry, the old Carry to
    /// bit 7.
    pub fn rr_byte(&self, v: u8, cpu_flag: bool) -> (r: AluResult8)
        ensures
            r == rr8(v, cpu_flag),
    {
        reveal(rr8);
        let old_c = bit_of(cpu_flag);
        assert(old_c <= 1 ==> (v >> 1u8) | (old_c << 7u8) == v / 2 + old_c * 128) by (bit_vector);
        assert((v & 0x01 != 0) == (v % 2 == 1)) by (bit_vector);
        let result = (v >> 1u8) | (old_c << 7u8);
        AluResult8 { result, z: result == 0, n: false, h: false, c: (v & 0x01) != 0 }
    }

    /// SLA: shift left; bit 7 goes to Carry, bit 0 becomes zero.
    pub fn sla_byte(&self, v: u8) -> (r: AluResult8)
        ensures
            r == sla8(v),
    {
        reveal(sla8);
        assert(v << 1u8 == (v * 2) % 256) by (bit_vector);
        assert((v & 0x80 != 0) == (v >= 128)) by (bit_vector);
        let result = v << 1u8;
        AluResult8 { result, z: result == 0, n: false, h: false, c: (v & 0x80) != 0 }
    }

    /// SRA: arithmetic shift right; bit 0 goes to Carry, bit 7 is kept.
    pub fn sra_byte(&self, v: u8) -> (r: AluResult8)
        ensures
            r == sra8(v),
    {
        reveal(sra8);
        assert((v >> 1u8) | (v & 0x80) == v / 2 + (v / 128) * 128) by (bit_vector);
        assert((v & 0x01 != 0) == (v % 2 == 1)) by (bit_vector);
        let result = (v >> 1u8) | (v & 0x80);
        AluResult8 { result, z: result == 0, n: false, h: false, c: (v & 0x01) != 0 }
    }

    /// SRL: logical shift right; bit 0 goes to Carry, bit 7 becomes zero.
    pub fn srl_byte(&self, v: u8) -> (r: AluResult8)
        ensures
            r == srl8(v),
    {
        reveal(srl8);
        assert(v >> 1u8 == v / 2) by (bit_vector);
        assert((v & 0x01 != 0) == (v % 2 == 1)) by (bit_vector);
        let result = v >> 1u8;
        AluResult8 { result, z: result == 0, n: false, h: false, c: (v & 0x01) != 0 }
    }

    /// SWAP: exchange the two nibbles; Carry is cleared.
    pub fn swap_byte(&self, v: u8) -> (r: AluResult8)
        ensures
            r == swap8(v),
    {
        reveal(swap8);
        assert((v << 4u8) | (v >> 4u8) == (v % 16) * 16 + v / 16) by (bit_vector);
        let result = (v << 4u8) | (v >> 4u8);
        AluResult8 { result, z: result == 0, n: false, h: false, c: false }
    }
}

/// The 8-bit additions and subtractions: Half-Carry is set exactly when the
/// low nibbles overflow 0x0F (or borrow below zero), Carry exactly when the
/// bytes overflow 0xFF (or borrow below zero), and Zero exactly when the
/// result is zero.
pub proof fn lemma_add_sub_flags(a: u8, b: u8, carry: bool)
    ensures
        ({
            let r = add8(a, b);
            &&& r.result == (a + b) % 256
            &&& r.h == (a % 16 + b % 16 > 0x0F)
            &&& r.c == (a + b > 0xFF)
            &&& r.z == (r.result == 0)
        }),
        ({
            let r = adc8(carry, a, b);
            &&& r.result == (a + b + carry_in(carry)) % 256
            &&& r.h == (a % 16 + b % 16 + carry_in(carry) > 0x0F)
            &&& r.c == (a + b + carry_in(carry) > 0xFF)
            &&& r.z == (r.result == 0)
        }),
        ({
            let r = sub8(a, b);
            &&& r.result == (a - b + 256) % 256
            &&& r.h == (a % 16 - b % 16 < 0)
            &&& r.c == (a - b < 0)
            &&& r.z == (r.result == 0)
        }),
        ({
            let r = sbc8(carry, a, b);
            &&& r.result == (a - b - carry_in(carry) + 512) % 256
            &&& r.h == (a % 16 - b % 16 - carry_in(carry) < 0)
            &&& r.c == (a - b - carry_in(carry) < 0)
            &&& r.z == (r.result == 0)
        }),
{
    reveal(add8);
    reveal(adc8);
    reveal(sub8);
    reveal(sbc8);
}

/// The 16-bit addition: Half-Carry is set exactly on overflow out of bit
/// 11, Carry exactly on overflow out of bit 15.
pub proof fn lemma_add16_flags(a: u16, b: u16)
    ensures
        add16(a, b).result == (a + b) % 0x10000,
        add16(a, b).h == (a % 0x1000 + b % 0x1000 > 0x0FFF),
        add16(a, b).c == (a + b > 0xFFFF),
{
    reveal(add16);
}

} // verus!
