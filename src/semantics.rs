//! The mathematical model of the CPU state and what each micro-operation
//! does to it.
use crate::alu::{
    adc8, add16, add8, and8, or8, rl8, rlc8, rr8, rrc8, sbc8, sla8, sra8, srl8, sub8, swap8, xor8,
    AluResult8,
};
use crate::interconnect::mapped;
use crate::microops::MicroOp;
use crate::registers::{hi_byte, lo_byte, word, Flag, Flags, Reg16, Reg8, Registers};
use vstd::prelude::*;

verus! {

/// What the CPU holds: its registers, the 64 KiB seen through the bus, and
/// the interrupt master enable with its pending one-instruction delay.
pub struct CpuState {
    pub regs: Registers,
    pub mem: Seq<u8>,
    pub ime: bool,
    pub ime_pending: bool,
}

/// The address space after a write; writes to unmapped addresses vanish.
pub open spec fn write_mem(mem: Seq<u8>, addr: u16, v: u8) -> Seq<u8> {
    if mapped(addr) {
        mem.update(addr as int, v)
    } else {
        mem
    }
}

pub open spec fn flags_of(r: AluResult8) -> Flags {
    Flags { z: r.z, h: r.h, n: r.n, c: r.c }
}

/// The value of a signed displacement as an unsigned byte.
pub open spec fn disp_byte(d: i8) -> int {
    if d < 0 {
        d + 256
    } else {
        d as int
    }
}

/// SP plus a signed byte, with the flags of the add on the low byte.
#[verifier::opaque]
pub open spec fn sp_plus(sp: u16, d: i8) -> (u16, Flags) {
    (
        sp.wrapping_add_signed(d as i16),
        Flags {
            z: false,
            n: false,
            h: sp % 16 + disp_byte(d) % 16 > 15,
            c: sp % 256 + disp_byte(d) > 255,
        },
    )
}

/// INC of a byte: Carry is kept.
#[verifier::opaque]
pub open spec fn inc8(v: u8, f: Flags) -> (u8, Flags) {
    let r = ((v + 1) % 256) as u8;
    (r, Flags { z: r == 0, n: false, h: v % 16 == 15, c: f.c })
}

/// DEC of a byte: Carry is kept.
#[verifier::opaque]
pub open spec fn dec8(v: u8, f: Flags) -> (u8, Flags) {
    let r = ((v + 255) % 256) as u8;
    (r, Flags { z: r == 0, n: true, h: v % 16 == 0, c: f.c })
}

/// BCD correction of the accumulator after an addition or subtraction.
#[verifier::opaque]
pub open spec fn daa(a: u8, f: Flags) -> (u8, Flags) {
    if !f.n {
        let low = f.h || a % 16 > 9;
        let high = f.c || a > 0x99;
        let r = ((a + (if low { 6int } else { 0 }) + (if high { 0x60int } else { 0 })) % 256) as u8;
        (r, Flags { z: r == 0, n: f.n, h: false, c: high })
    } else {
        let r = ((a - (if f.h { 6int } else { 0 }) - (if f.c { 0x60int } else { 0 }) + 256)
            % 256) as u8;
        (r, Flags { z: r == 0, n: f.n, h: false, c: f.c })
    }
}

/// Bit `b` of `v` (the index taken modulo 8).
#[verifier::opaque]
pub open spec fn bit_set(v: u8, b: u8) -> bool {
    (v as int / pow2_8(b % 8)) % 2 == 1
}

pub open spec fn pow2_8(b: u8) -> int {
    if b == 0 {
        1
    } else if b == 1 {
        2
    } else if b == 2 {
        4
    } else if b == 3 {
        8
    } else if b == 4 {
        16
    } else if b == 5 {
        32
    } else if b == 6 {
        64
    } else {
        128
    }
}

/// `v` with bit `b` (modulo 8) cleared.
#[verifier::opaque]
pub open spec fn res_bit(v: u8, b: u8) -> u8 {
    if bit_set(v, b) {
        (v - pow2_8(b % 8)) as u8
    } else {
        v
    }
}

/// `v` with bit `b` (modulo 8) set.
#[verifier::opaque]
pub open spec fn set_bit(v: u8, b: u8) -> u8 {
    if bit_set(v, b) {
        v
    } else {
        (v + pow2_8(b % 8)) as u8
    }
}

/// BIT: Zero when the bit is clear; Carry kept.
pub open spec fn bit_flags(v: u8, b: u8, f: Flags) -> Flags {
    Flags { z: !bit_set(v, b), n: false, h: true, c: f.c }
}

impl CpuState {
    pub open spec fn get8(self, r: Reg8) -> u8 {
        self.regs.spec_get8(r)
    }

    pub open spec fn get16(self, r: Reg16) -> u16 {
        self.regs.spec_get16(r)
    }

    pub open spec fn read(self, a: u16) -> u8 {
        self.mem[a as int]
    }

    pub open spec fn hl(self) -> u16 {
        self.get16(Reg16::HL)
    }

    pub open spec fn flag(self, f: Flag) -> bool {
        self.regs.f.spec_get(f)
    }

    pub open spec fn set8(self, r: Reg8, v: u8) -> CpuState {
        CpuState { regs: self.regs.spec_set8(r, v), ..self }
    }

    pub open spec fn set16(self, r: Reg16, v: u16) -> CpuState {
        CpuState { regs: self.regs.spec_set16(r, v), ..self }
    }

    pub open spec fn write(self, a: u16, v: u8) -> CpuState {
        CpuState { mem: write_mem(self.mem, a, v), ..self }
    }

    pub open spec fn with_flags(self, f: Flags) -> CpuState {
        CpuState { regs: Registers { f, ..self.regs }, ..self }
    }

    /// Writes an ALU result to `dst` and all four of its flags.
    pub open spec fn result8(self, dst: Reg8, r: AluResult8) -> CpuState {
        self.set8(dst, r.result).with_flags(flags_of(r))
    }

    /// Writes an ALU result to the byte at HL and all four of its flags.
    pub open spec fn result_hl(self, r: AluResult8) -> CpuState {
        self.write(self.hl(), r.result).with_flags(flags_of(r))
    }

    /// Pushes a word: SP is decremented, the high byte stored, SP is
    /// decremented again and the low byte stored.
    pub open spec fn push16(self, v: u16) -> CpuState {
        let sp1 = self.regs.sp.wrapping_sub(1);
        let sp2 = sp1.wrapping_sub(1);
        self.write(sp1, hi_byte(v)).write(sp2, lo_byte(v)).set16(Reg16::SP, sp2)
    }

    /// The word on top of the stack: low byte at SP, high byte above it.
    pub open spec fn top16(self) -> u16 {
        word(self.read(self.regs.sp.wrapping_add(1)), self.read(self.regs.sp))
    }

    /// Removes the word on top of the stack.
    pub open spec fn drop16(self) -> CpuState {
        self.set16(Reg16::SP, self.regs.sp.wrapping_add(1).wrapping_add(1))
    }

    pub open spec fn jump(self, a: u16) -> CpuState {
        self.set16(Reg16::PC, a)
    }

    pub open spec fn call(self, a: u16) -> CpuState {
        self.push16(self.regs.pc).jump(a)
    }

    pub open spec fn ret(self) -> CpuState {
        self.drop16().jump(self.top16())
    }
}

/// Whether a micro-operation's condition holds in `s`; true for one that has
/// none.
pub open spec fn condition_holds(s: CpuState, op: MicroOp) -> bool {
    match op {
        MicroOp::JumpAbsoluteIf { flag, expected, .. } => s.flag(flag) == expected,
        MicroOp::JumpRelativeIf { flag, expected, .. } => s.flag(flag) == expected,
        MicroOp::CallAbsoluteIf { flag, expected, .. } => s.flag(flag) == expected,
        MicroOp::ReturnIf { flag, expected } => s.flag(flag) == expected,
        _ => true,
    }
}

/// The state after applying one micro-operation.
pub open spec fn execute(s: CpuState, op: MicroOp) -> CpuState {
    let f = s.regs.f;
    let a = s.get8(Reg8::A);
    match op {
        MicroOp::Nop | MicroOp::Halt | MicroOp::Stop => s,
        MicroOp::LdReg8FromReg8 { dst, src } => s.set8(dst, s.get8(src)),
        MicroOp::LdReg8FromMem { dst, src } => s.set8(dst, s.read(s.get16(src))),
        MicroOp::LdReg8FromReg16 { dst, src } => s.set8(dst, s.read(s.get16(src))),
        MicroOp::LdReg8FromImm { dst, value } => s.set8(dst, value),
        MicroOp::LdReg8FromMemIncHL { dst } => s.set8(dst, s.read(s.hl())).set16(
            Reg16::HL,
            s.hl().wrapping_add(1),
        ),
        MicroOp::LdReg8FromMemDecHL { dst } => s.set8(dst, s.read(s.hl())).set16(
            Reg16::HL,
            s.hl().wrapping_sub(1),
        ),
        MicroOp::LdMemFromReg8IncHL { src } => s.write(s.hl(), s.get8(src)).set16(
            Reg16::HL,
            s.hl().wrapping_add(1),
        ),
        MicroOp::LdMemFromReg8DecHL { src } => s.write(s.hl(), s.get8(src)).set16(
            Reg16::HL,
            s.hl().wrapping_sub(1),
        ),
        MicroOp::LdMemFromReg8 { addr, src } => s.write(s.get16(addr), s.get8(src)),
        MicroOp::LdA8FromA { offset } => s.write((0xFF00 + offset) as u16, a),
        MicroOp::LdAFromA8 { offset } => s.set8(Reg8::A, s.read((0xFF00 + offset) as u16)),
        MicroOp::LdCFromA => s.write((0xFF00 + s.get8(Reg8::C)) as u16, a),
        MicroOp::LdAFromC => s.set8(Reg8::A, s.read((0xFF00 + s.get8(Reg8::C)) as u16)),
        MicroOp::LdMemFromA { addr } => s.write(addr, a),
        MicroOp::LdAFromMem { addr } => s.set8(Reg8::A, s.read(addr)),
        MicroOp::LdReg16FromMem { dst, src } => {
            let at = s.get16(src);
            s.set16(dst, word(s.read(at.wrapping_add(1)), s.read(at)))
        },
        MicroOp::LdReg16FromImm { dst, value } => s.set16(dst, value),
        MicroOp::LdReg16FromReg16 { dst, src } => s.set16(dst, s.get16(src)),
        MicroOp::LdMemImm16FromReg16 { addr, src } => {
            let v = s.get16(src);
            s.write(addr, lo_byte(v)).write(addr.wrapping_add(1), hi_byte(v))
        },
        MicroOp::LdMemFromImm8 { addr, value } => s.write(s.get16(addr), value),
        MicroOp::IncReg8 { reg } => {
            let (r, nf) = inc8(s.get8(reg), f);
            s.set8(reg, r).with_flags(nf)
        },
        MicroOp::DecReg8 { reg } => {
            let (r, nf) = dec8(s.get8(reg), f);
            s.set8(reg, r).with_flags(nf)
        },
        MicroOp::IncMemHL => {
            let (r, nf) = inc8(s.read(s.hl()), f);
            s.write(s.hl(), r).with_flags(nf)
        },
        MicroOp::DecMemHL => {
            let (r, nf) = dec8(s.read(s.hl()), f);
            s.write(s.hl(), r).with_flags(nf)
        },
        MicroOp::IncReg16 { reg } => s.set16(reg, s.get16(reg).wrapping_add(1)),
        MicroOp::DecReg16 { reg } => s.set16(reg, s.get16(reg).wrapping_sub(1)),
        MicroOp::AddReg8 { dst, src } => s.result8(dst, add8(s.get8(dst), s.get8(src))),
        MicroOp::AddReg8Mem { dst, src } => s.result8(dst, add8(s.get8(dst), s.read(s.get16(src)))),
        MicroOp::AddReg8Imm { dst, addr } => s.result8(dst, add8(s.get8(dst), addr)),
        MicroOp::AddReg16 { dst, src } => {
            let r = add16(s.get16(dst), s.get16(src));
            s.set16(dst, r.result).with_flags(Flags { z: f.z, n: false, h: r.h, c: r.c })
        },
        MicroOp::AddCarry8 { dst, src } => s.result8(dst, adc8(f.c, s.get8(dst), s.get8(src))),
        MicroOp::AddCarry8Mem { dst, src } => s.result8(
            dst,
            adc8(f.c, s.get8(dst), s.read(s.get16(src))),
        ),
        MicroOp::AddCarry8Imm { dst, addr } => s.result8(dst, adc8(f.c, s.get8(dst), addr)),
        MicroOp::SubReg8 { dst, src } => s.result8(dst, sub8(s.get8(dst), s.get8(src))),
        MicroOp::SubReg8Mem { dst, src } => s.result8(dst, sub8(s.get8(dst), s.read(s.get16(src)))),
        MicroOp::SubReg8Imm { dst, addr } => s.result8(dst, sub8(s.get8(dst), addr)),
        MicroOp::SubCarry8 { dst, src } => s.result8(dst, sbc8(f.c, s.get8(dst), s.get8(src))),
        MicroOp::SubCarry8Mem { dst, src } => s.result8(
            dst,
            sbc8(f.c, s.get8(dst), s.read(s.get16(src))),
        ),
        MicroOp::SubCarry8Imm { dst, addr } => s.result8(dst, sbc8(f.c, s.get8(dst), addr)),
        MicroOp::XorReg8 { dst, src } => s.result8(dst, xor8(s.get8(dst), s.get8(src))),
        MicroOp::XorReg8Mem { dst, src } => s.result8(dst, xor8(s.get8(dst), s.read(s.get16(src)))),
        MicroOp::XorReg8Imm { dst, addr } => s.result8(dst, xor8(s.get8(dst), addr)),
        MicroOp::OrReg8 { dst, src } => s.result8(dst, or8(s.get8(dst), s.get8(src))),
        MicroOp::OrReg8Mem { dst, src } => s.result8(dst, or8(s.get8(dst), s.read(s.get16(src)))),
        MicroOp::OrReg8Imm { dst, addr } => s.result8(dst, or8(s.get8(dst), addr)),
        MicroOp::AndReg8 { dst, src } => s.result8(dst, and8(s.get8(dst), s.get8(src))),
        MicroOp::AndReg8Mem { dst, src } => s.result8(dst, and8(s.get8(dst), s.read(s.get16(src)))),
        MicroOp::AndReg8Imm { dst, addr } => s.result8(dst, and8(s.get8(dst), addr)),
        MicroOp::CpReg8 { dst, src } => s.with_flags(flags_of(sub8(s.get8(dst), s.get8(src)))),
        MicroOp::CpReg8Mem { dst, src } => s.with_flags(
            flags_of(sub8(s.get8(dst), s.read(s.get16(src)))),
        ),
        MicroOp::CpReg8Imm { dst, addr } => s.with_flags(flags_of(sub8(s.get8(dst), addr))),
        MicroOp::PushReg16 { reg } => s.push16(s.get16(reg)),
        MicroOp::PopReg16 { reg } => s.drop16().set16(reg, s.top16()),
        MicroOp::JumpAbsolute { addr } => s.jump(addr),
        MicroOp::JumpAbsoluteIf { addr, flag, expected } => if s.flag(flag) == expected {
            s.jump(addr)
        } else {
            s
        },
        MicroOp::JumpRelative { offset } => s.jump(s.regs.pc.wrapping_add_signed(offset as i16)),
        MicroOp::JumpRelativeIf { offset, flag, expected } => if s.flag(flag) == expected {
            s.jump(s.regs.pc.wrapping_add_signed(offset as i16))
        } else {
            s
        },
        MicroOp::JumpHL => s.jump(s.hl()),
        MicroOp::CallAbsolute { addr } => s.call(addr),
        MicroOp::CallAbsoluteIf { addr, flag, expected } => if s.flag(flag) == expected {
            s.call(addr)
        } else {
            s
        },
        MicroOp::Return => s.ret(),
        MicroOp::ReturnIf { flag, expected } => if s.flag(flag) == expected {
            s.ret()
        } else {
            s
        },
        MicroOp::Reti => CpuState { ime: true, ..s.ret() },
        MicroOp::Restart { vector } => s.call(vector),
        MicroOp::Rlca => {
            let r = rlc8(a);
            s.result8(Reg8::A, AluResult8 { z: false, ..r })
        },
        MicroOp::Rrca => {
            let r = rrc8(a);
            s.result8(Reg8::A, AluResult8 { z: false, ..r })
        },
        MicroOp::Rla => {
            let r = rl8(a, f.c);
            s.result8(Reg8::A, AluResult8 { z: false, ..r })
        },
        MicroOp::Rra => {
            let r = rr8(a, f.c);
            s.result8(Reg8::A, AluResult8 { z: false, ..r })
        },
        MicroOp::Di => CpuState { ime: false, ime_pending: false, ..s },
        MicroOp::Ei => CpuState { ime_pending: true, ..s },
        MicroOp::Cpl => s.set8(Reg8::A, (255 - a) as u8).with_flags(Flags { n: true, h: true, ..f }),
        MicroOp::Ccf => s.with_flags(Flags { n: false, h: false, c: !f.c, ..f }),
        MicroOp::Scf => s.with_flags(Flags { n: false, h: false, c: true, ..f }),
        MicroOp::Daa => {
            let (r, nf) = daa(a, f);
            s.set8(Reg8::A, r).with_flags(nf)
        },
        MicroOp::RlReg8 { dst } => s.result8(dst, rl8(s.get8(dst), f.c)),
        MicroOp::RlcReg8 { dst } => s.result8(dst, rlc8(s.get8(dst))),
        MicroOp::RrReg8 { dst } => s.result8(dst, rr8(s.get8(dst), f.c)),
        MicroOp::RrcReg8 { dst } => s.result8(dst, rrc8(s.get8(dst))),
        MicroOp::SlaReg8 { dst } => s.result8(dst, sla8(s.get8(dst))),
        MicroOp::SraReg8 { dst } => s.result8(dst, sra8(s.get8(dst))),
        MicroOp::SrlReg8 { dst } => s.result8(dst, srl8(s.get8(dst))),
        MicroOp::SwapReg8 { dst } => s.result8(dst, swap8(s.get8(dst))),
        MicroOp::RlRegHl => s.result_hl(rl8(s.read(s.hl()), f.c)),
        MicroOp::RlcRegHl => s.result_hl(rlc8(s.read(s.hl()))),
        MicroOp::RrRegHl => s.result_hl(rr8(s.read(s.hl()), f.c)),
        MicroOp::RrcRegHl => s.result_hl(rrc8(s.read(s.hl()))),
        MicroOp::SlaRegHl => s.result_hl(sla8(s.read(s.hl()))),
        MicroOp::SraRegHl => s.result_hl(sra8(s.read(s.hl()))),
        MicroOp::SrlRegHl => s.result_hl(srl8(s.read(s.hl()))),
        MicroOp::SwapRegHl => s.result_hl(swap8(s.read(s.hl()))),
        MicroOp::AddImmToSP { imm } => {
            let (r, nf) = sp_plus(s.regs.sp, imm);
            s.set16(Reg16::SP, r).with_flags(nf)
        },
        MicroOp::LdHLSPPlusR8 { offset } => {
            let (r, nf) = sp_plus(s.regs.sp, offset);
            s.set16(Reg16::HL, r).with_flags(nf)
        },
        MicroOp::BitReg8 { bit, reg } => s.with_flags(bit_flags(s.get8(reg), bit, f)),
        MicroOp::BitRegHl { bit } => s.with_flags(bit_flags(s.read(s.hl()), bit, f)),
        MicroOp::ResReg8 { bit, reg } => s.set8(reg, res_bit(s.get8(reg), bit)),
        MicroOp::ResRegHl { bit } => s.write(s.hl(), res_bit(s.read(s.hl()), bit)),
        MicroOp::SetReg8 { bit, reg } => s.set8(reg, set_bit(s.get8(reg), bit)),
        MicroOp::SetRegHl { bit } => s.write(s.hl(), set_bit(s.read(s.hl()), bit)),
    }
}

/// The machine cycles (in clock ticks) that a micro-operation takes, when
/// its condition holds (`taken`) or not. For a CB-prefixed operation the
/// count includes the prefix.
pub open spec fn cycles(op: MicroOp, taken: bool) -> u8 {
    match op {
        MicroOp::JumpRelativeIf { .. } => if taken { 12 } else { 8 },
        MicroOp::JumpAbsoluteIf { .. } => if taken { 16 } else { 12 },
        MicroOp::CallAbsoluteIf { .. } => if taken { 24 } else { 12 },
        MicroOp::ReturnIf { .. } => if taken { 20 } else { 8 },
        MicroOp::LdReg8FromMem { .. } | MicroOp::LdReg8FromReg16 { .. } | MicroOp::LdReg8FromImm {
            ..
        } | MicroOp::LdReg8FromMemIncHL { .. } | MicroOp::LdReg8FromMemDecHL { .. }
        | MicroOp::LdMemFromReg8IncHL { .. } | MicroOp::LdMemFromReg8DecHL { .. }
        | MicroOp::LdMemFromReg8 { .. } | MicroOp::LdCFromA | MicroOp::LdAFromC
        | MicroOp::LdReg16FromReg16 { .. } | MicroOp::IncReg16 { .. } | MicroOp::DecReg16 { .. }
        | MicroOp::AddReg8Mem { .. } | MicroOp::AddReg8Imm { .. } | MicroOp::AddReg16 { .. }
        | MicroOp::AddCarry8Mem { .. } | MicroOp::AddCarry8Imm { .. } | MicroOp::SubReg8Mem { .. }
        | MicroOp::SubReg8Imm { .. } | MicroOp::SubCarry8Mem { .. } | MicroOp::SubCarry8Imm { .. }
        | MicroOp::XorReg8Mem { .. } | MicroOp::XorReg8Imm { .. } | MicroOp::OrReg8Mem { .. }
        | MicroOp::OrReg8Imm { .. } | MicroOp::AndReg8Mem { .. } | MicroOp::AndReg8Imm { .. }
        | MicroOp::CpReg8Mem { .. } | MicroOp::CpReg8Imm { .. } | MicroOp::RlReg8 { .. }
        | MicroOp::RlcReg8 { .. } | MicroOp::RrReg8 { .. } | MicroOp::RrcReg8 { .. }
        | MicroOp::SlaReg8 { .. } | MicroOp::SraReg8 { .. } | MicroOp::SrlReg8 { .. }
        | MicroOp::SwapReg8 { .. } | MicroOp::BitReg8 { .. } | MicroOp::ResReg8 { .. }
        | MicroOp::SetReg8 { .. } => 8,
        MicroOp::LdA8FromA { .. } | MicroOp::LdAFromA8 { .. } | MicroOp::LdReg16FromMem { .. }
        | MicroOp::LdReg16FromImm { .. } | MicroOp::LdMemFromImm8 { .. } | MicroOp::IncMemHL
        | MicroOp::DecMemHL | MicroOp::PopReg16 { .. } | MicroOp::JumpRelative { .. }
        | MicroOp::BitRegHl { .. } | MicroOp::LdHLSPPlusR8 { .. } => 12,
        MicroOp::LdMemFromA { .. } | MicroOp::LdAFromMem { .. } | MicroOp::PushReg16 { .. }
        | MicroOp::JumpAbsolute { .. } | MicroOp::Return | MicroOp::Reti | MicroOp::Restart { .. }
        | MicroOp::RlRegHl | MicroOp::RlcRegHl | MicroOp::RrRegHl | MicroOp::RrcRegHl
        | MicroOp::SlaRegHl | MicroOp::SraRegHl | MicroOp::SrlRegHl | MicroOp::SwapRegHl
        | MicroOp::ResRegHl { .. } | MicroOp::SetRegHl { .. } | MicroOp::AddImmToSP { .. } => 16,
        MicroOp::LdMemImm16FromReg16 { .. } => 20,
        MicroOp::CallAbsolute { .. } => 24,
        _ => 4,
    }
}

/// The family an operation belongs to, which decides the part of the
/// executor that applies it.
pub open spec fn family(op: MicroOp) -> int {
    match op {
        MicroOp::Nop | MicroOp::Halt | MicroOp::Stop | MicroOp::LdReg8FromReg8 { .. } | MicroOp::LdReg8FromMem { .. } | MicroOp::LdReg8FromReg16 { .. } | MicroOp::LdReg8FromImm { .. } | MicroOp::LdReg8FromMemIncHL { .. } | MicroOp::LdReg8FromMemDecHL { .. } | MicroOp::LdMemFromReg8IncHL { .. } | MicroOp::LdMemFromReg8DecHL { .. } | MicroOp::LdMemFromReg8 { .. } | MicroOp::LdA8FromA { .. } | MicroOp::LdAFromA8 { .. } | MicroOp::LdCFromA | MicroOp::LdAFromC | MicroOp::LdMemFromA { .. } | MicroOp::LdAFromMem { .. } | MicroOp::LdReg16FromMem { .. } | MicroOp::LdReg16FromImm { .. } | MicroOp::LdReg16FromReg16 { .. } | MicroOp::LdMemImm16FromReg16 { .. } | MicroOp::LdMemFromImm8 { .. } => 0,
        MicroOp::AddReg8 { .. } | MicroOp::AddReg8Mem { .. } | MicroOp::AddReg8Imm { .. } | MicroOp::AddCarry8 { .. } | MicroOp::AddCarry8Mem { .. } | MicroOp::AddCarry8Imm { .. } | MicroOp::SubReg8 { .. } | MicroOp::SubReg8Mem { .. } | MicroOp::SubReg8Imm { .. } | MicroOp::SubCarry8 { .. } | MicroOp::SubCarry8Mem { .. } | MicroOp::SubCarry8Imm { .. } => 1,
        MicroOp::PushReg16 { .. } | MicroOp::PopReg16 { .. } | MicroOp::JumpAbsolute { .. } | MicroOp::JumpAbsoluteIf { .. } | MicroOp::JumpRelative { .. } | MicroOp::JumpRelativeIf { .. } | MicroOp::JumpHL | MicroOp::CallAbsolute { .. } | MicroOp::CallAbsoluteIf { .. } | MicroOp::Return | MicroOp::ReturnIf { .. } | MicroOp::Reti | MicroOp::Restart { .. } | MicroOp::Di | MicroOp::Ei => 2,
        MicroOp::Rlca | MicroOp::Rrca | MicroOp::Rla | MicroOp::Rra | MicroOp::Cpl | MicroOp::Ccf | MicroOp::Scf | MicroOp::Daa => 3,
        MicroOp::IncReg8 { .. } | MicroOp::DecReg8 { .. } | MicroOp::IncMemHL | MicroOp::DecMemHL | MicroOp::IncReg16 { .. } | MicroOp::DecReg16 { .. } | MicroOp::AddReg16 { .. } | MicroOp::AddImmToSP { .. } | MicroOp::LdHLSPPlusR8 { .. } => 4,
        MicroOp::XorReg8 { .. } | MicroOp::XorReg8Mem { .. } | MicroOp::XorReg8Imm { .. } | MicroOp::OrReg8 { .. } | MicroOp::OrReg8Mem { .. } | MicroOp::OrReg8Imm { .. } | MicroOp::AndReg8 { .. } | MicroOp::AndReg8Mem { .. } | MicroOp::AndReg8Imm { .. } | MicroOp::CpReg8 { .. } | MicroOp::CpReg8Mem { .. } | MicroOp::CpReg8Imm { .. } => 5,
        MicroOp::RlReg8 { .. } | MicroOp::RlcReg8 { .. } | MicroOp::RrReg8 { .. } | MicroOp::RrcReg8 { .. } | MicroOp::SlaReg8 { .. } | MicroOp::SraReg8 { .. } | MicroOp::SrlReg8 { .. } | MicroOp::SwapReg8 { .. } | MicroOp::RlRegHl | MicroOp::RlcRegHl | MicroOp::RrRegHl | MicroOp::RrcRegHl | MicroOp::SlaRegHl | MicroOp::SraRegHl | MicroOp::SrlRegHl | MicroOp::SwapRegHl => 6,
        _ => 7,
    }
}

/// The 16-bit pointers wrap around: incrementing 0xFFFF gives 0x0000 and
/// decrementing 0x0000 gives 0xFFFF, for SP and PC alike.
pub proof fn lemma_pointer_wraparound(s: CpuState)
    ensures
        s.regs.sp == 0xFFFF ==> execute(s, MicroOp::IncReg16 { reg: Reg16::SP }).regs.sp == 0,
        s.regs.sp == 0 ==> execute(s, MicroOp::DecReg16 { reg: Reg16::SP }).regs.sp == 0xFFFF,
        s.regs.pc == 0xFFFF ==> execute(s, MicroOp::IncReg16 { reg: Reg16::PC }).regs.pc == 0,
        s.regs.pc == 0 ==> execute(s, MicroOp::DecReg16 { reg: Reg16::PC }).regs.pc == 0xFFFF,
        s.regs.sp == 0x0001 ==> s.push16(0).regs.sp == 0xFFFF,
        s.regs.sp == 0xFFFF ==> s.drop16().regs.sp == 0x0001,
{
}

} // verus!
