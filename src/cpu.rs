//! The CPU: register file, interrupt master enable and memory bus, with the
//! executor that applies micro-operations and the fetch-decode-execute step.
use crate::alu::{Alu, AluResult8};
use crate::decoder::{decode_spec, CpuError};
use crate::interconnect::Interconnect;
use crate::microops::MicroOp;
use crate::registers::{join_bytes, split_word, Flags, Reg16, Reg8, Registers};
use crate::semantics::{
    bit_set, condition_holds, cycles, daa, dec8, disp_byte, execute, family, flags_of, inc8,
    pow2_8, res_bit, set_bit, sp_plus, CpuState,
};
use vstd::prelude::*;

verus! {

/// The address execution starts at.
pub const ENTRY_POINT: u16 = 0x0100;

pub struct Cpu {
    pub regs: Registers,
    pub alu: Alu,
    /// The interrupt master enable.
    pub interrupt: bool,
    /// Set by EI: the master enable turns on once the next instruction is
    /// done.
    pub interrupt_enable_next: bool,
    pub inter: Interconnect,
    /// Clock ticks spent so far, modulo 2^64.
    pub cycles: u64,
}

fn flags_from(r: AluResult8) -> (f: Flags)
    ensures
        f == flags_of(r),
{
    Flags { z: r.z, h: r.h, n: r.n, c: r.c }
}

fn inc_byte(v: u8, f: Flags) -> (r: (u8, Flags))
    ensures
        r == inc8(v, f),
{
    reveal(inc8);
    let r: u8 = if v == 255 {
        0
    } else {
        v + 1
    };
    (r, Flags { z: r == 0, n: false, h: v % 16 == 15, c: f.c })
}

fn dec_byte(v: u8, f: Flags) -> (r: (u8, Flags))
    ensures
        r == dec8(v, f),
{
    reveal(dec8);
    let r: u8 = if v == 0 {
        255
    } else {
        v - 1
    };
    (r, Flags { z: r == 0, n: true, h: v % 16 == 0, c: f.c })
}

fn daa_byte(a: u8, f: Flags) -> (r: (u8, Flags))
    ensures
        r == daa(a, f),
{
    reveal(daa);
    if !f.n {
        let low = f.h || a % 16 > 9;
        let high = f.c || a > 0x99;
        let mut correction: u16 = 0;
        if low {
            correction = correction + 0x06;
        }
        if high {
            correction = correction + 0x60;
        }
        let r = ((a as u16 + correction) % 256) as u8;
        (r, Flags { z: r == 0, n: f.n, h: false, c: high })
    } else {
        let mut correction: u16 = 0;
        if f.h {
            correction = correction + 0x06;
        }
        if f.c {
            correction = correction + 0x60;
        }
        let r = ((a as u16 + 256 - correction) % 256) as u8;
        (r, Flags { z: r == 0, n: f.n, h: false, c: f.c })
    }
}

fn pow2(b: u8) -> (r: u8)
    requires
        b < 8,
    ensures
        r == pow2_8(b),
{
    if b == 0 {
        1
    } else if b == 1 {
        2
    } else if b == 2 {
        4
    } else if b == 3 {
        8
    } else if b == 4 {
        16
    } else if b == 5 {
        32
    } else if b == 6 {
        64
    } else {
        128
    }
}

fn test_bit(v: u8, b: u8) -> (r: bool)
    ensures
        r == bit_set(v, b),
{
    reveal(bit_set);
    let m = pow2(b % 8);
    (v / m) % 2 == 1
}

fn clear_bit(v: u8, b: u8) -> (r: u8)
    ensures
        r == res_bit(v, b),
{
    reveal(res_bit);
    reveal(bit_set);
    if test_bit(v, b) {
        let m = pow2(b % 8);
        assert(v >= m) by (nonlinear_arith)
            requires
                (v as int / m as int) % 2 == 1,
                m > 0,
        ;
        v - m
    } else {
        v
    }
}

fn put_bit(v: u8, b: u8) -> (r: u8)
    ensures
        r == set_bit(v, b),
{
    reveal(set_bit);
    reveal(bit_set);
    if test_bit(v, b) {
        v
    } else {
        let m = pow2(b % 8);
        assert(v as int + m as int <= 255) by (nonlinear_arith)
            requires
                (v as int / m as int) % 2 == 0,
                m == 1 || m == 2 || m == 4 || m == 8 || m == 16 || m == 32 || m == 64 || m == 128,
                v <= 255,
        ;
        v + m
    }
}

fn add_sp_signed(sp: u16, d: i8) -> (r: (u16, Flags))
    ensures
        r == sp_plus(sp, d),
{
    reveal(sp_plus);
    let db: u16 = if d < 0 {
        (d as i16 + 256) as u16
    } else {
        d as u16
    };
    assert(db == disp_byte(d));
    let result = sp.wrapping_add_signed(d as i16);
    (
        result,
        Flags { z: false, n: false, h: sp % 16 + db % 16 > 15, c: sp % 256 + db > 255 },
    )
}

impl Cpu {
    pub open spec fn wf(&self) -> bool {
        self.inter.wf()
    }

    pub open spec fn view(&self) -> CpuState {
        CpuState {
            regs: self.regs,
            mem: self.inter@,
            ime: self.interrupt,
            ime_pending: self.interrupt_enable_next,
        }
    }

    fn read(&self, a: u16) -> (r: u8)
        requires
            self.wf(),
        ensures
            r == self@.read(a),
    {
        self.inter.read_byte(a)
    }

    fn write(&mut self, a: u16, v: u8)
        requires
            old(self).wf(),
        ensures
            final(self).wf(),
            final(self)@ == old(self)@.write(a, v),
            final(self).cycles == old(self).cycles,
    {
        self.inter.write_byte(a, v);
    }

    fn result8(&mut self, dst: Reg8, r: AluResult8)
        ensures
            final(self).wf() == old(self).wf(),
            final(self)@ == old(self)@.result8(dst, r),
            final(self).cycles == old(self).cycles,
    {
        self.regs.set8(dst, r.result);
        self.regs.f = flags_from(r);
    }

    fn result_hl(&mut self, r: AluResult8)
        requires
            old(self).wf(),
        ensures
            final(self).wf(),
            final(self)@ == old(self)@.result_hl(r),
            final(self).cycles == old(self).cycles,
    {
        let hl = self.regs.get16(Reg16::HL);
        self.write(hl, r.result);
        self.regs.f = flags_from(r);
    }

    /// Pushes one byte: SP is decremented, then the byte stored there.
    fn push(&mut self, value: u8)
        requires
            old(self).wf(),
        ensures
            final(self).wf(),
            final(self)@ == old(self)@.write(old(self).regs.sp.wrapping_sub(1), value).set16(
                Reg16::SP,
                old(self).regs.sp.wrapping_sub(1),
            ),
            final(self).cycles == old(self).cycles,
    {
        let sp = self.regs.sp.wrapping_sub(1);
        self.write(sp, value);
        self.regs.sp = sp;
    }

    /// Pops one byte: it is read at SP, then SP is incremented.
    fn pop(&mut self) -> (r: u8)
        requires
            old(self).wf(),
        ensures
            final(self).wf(),
            r == old(self)@.read(old(self).regs.sp),
            final(self)@ == old(self)@.set16(Reg16::SP, old(self).regs.sp.wrapping_add(1)),
            final(self).cycles == old(self).cycles,
    {
        let value = self.read(self.regs.sp);
        self.regs.sp = self.regs.sp.wrapping_add(1);
        value
    }

    fn push16(&mut self, v: u16)
        requires
            old(self).wf(),
        ensures
            final(self).wf(),
            final(self)@ == old(self)@.push16(v),
            final(self).cycles == old(self).cycles,
    {
        let (hi, lo) = split_word(v);
        self.push(hi);
        self.push(lo);
    }

    fn pop16(&mut self) -> (r: u16)
        requires
            old(self).wf(),
        ensures
            final(self).wf(),
            r == old(self)@.top16(),
            final(self)@ == old(self)@.drop16(),
            final(self).cycles == old(self).cycles,
    {
        let lo = self.pop();
        let hi = self.pop();
        join_bytes(hi, lo)
    }

    fn call(&mut self, addr: u16)
        requires
            old(self).wf(),
        ensures
            final(self).wf(),
            final(self)@ == old(self)@.call(addr),
            final(self).cycles == old(self).cycles,
    {
        let pc = self.regs.pc;
        self.push16(pc);
        self.regs.pc = addr;
    }

    fn ret(&mut self)
        requires
            old(self).wf(),
        ensures
            final(self).wf(),
            final(self)@ == old(self)@.ret(),
            final(self).cycles == old(self).cycles,
    {
        let v = self.pop16();
        self.regs.pc = v;
    }

    /// Whether the condition of `op` holds now (true for an operation that
    /// has none).
    pub fn condition(&self, op: MicroOp) -> (r: bool)
        ensures
            r == condition_holds(self@, op),
    {
        match op {
            MicroOp::JumpAbsoluteIf { flag, expected, .. } => self.regs.f.get_flag(flag)
                == expected,
            MicroOp::JumpRelativeIf { flag, expected, .. } => self.regs.f.get_flag(flag)
                == expected,
            MicroOp::CallAbsoluteIf { flag, expected, .. } => self.regs.f.get_flag(flag)
                == expected,
            MicroOp::ReturnIf { flag, expected } => self.regs.f.get_flag(flag) == expected,
            _ => true,
        }
    }
}


/// The clock ticks that `op` takes, when its condition holds or not.
pub fn op_cycles(op: MicroOp, taken: bool) -> (r: u8)
    ensures
        r == cycles(op, taken),
{
    match op {
        MicroOp::JumpRelativeIf { .. } => if taken { 12 } else { 8 },
        MicroOp::JumpAbsoluteIf { .. } => if taken { 16 } else { 12 },
        MicroOp::CallAbsoluteIf { .. } => if taken { 24 } else { 12 },
        MicroOp::ReturnIf { .. } => if taken { 20 } else { 8 },
        MicroOp::LdReg8FromMem { .. } | MicroOp::LdReg8FromReg16 { .. } | MicroOp::LdReg8FromImm {
            ..
        } | MicroOp::LdReg8FromMemIncHL { .. } | MicroOp::LdReg8FromMemDecHL { .. }
        | MicroOp::LdMemFromReg8IncHL { .. } | MicroOp::LdMemFromReg8DecHL { .. }
        | MicroOp::LdMemFromReg8 { .. } | MicroOp::LdCFromA | MicroOp::LdAFromC
        | MicroOp::LdReg16FromReg16 { .. } | MicroOp::IncReg16 { .. } | MicroOp::DecReg16 { .. }
        | MicroOp::AddReg8Mem { .. } | MicroOp::AddReg8Imm { .. } | MicroOp::AddReg16 { .. }
        | MicroOp::AddCarry8Mem { .. } | MicroOp::AddCarry8Imm { .. } | MicroOp::SubReg8Mem { .. }
        | MicroOp::SubReg8Imm { .. } | MicroOp::SubCarry8Mem { .. } | MicroOp::SubCarry8Imm { .. }
        | MicroOp::XorReg8Mem { .. } | MicroOp::XorReg8Imm { .. } | MicroOp::OrReg8Mem { .. }
        | MicroOp::OrReg8Imm { .. } | MicroOp::AndReg8Mem { .. } | MicroOp::AndReg8Imm { .. }
        | MicroOp::CpReg8Mem { .. } | MicroOp::CpReg8Imm { .. } | MicroOp::RlReg8 { .. }
        | MicroOp::RlcReg8 { .. } | MicroOp::RrReg8 { .. } | MicroOp::RrcReg8 { .. }
        | MicroOp::SlaReg8 { .. } | MicroOp::SraReg8 { .. } | MicroOp::SrlReg8 { .. }
        | MicroOp::SwapReg8 { .. } | MicroOp::BitReg8 { .. } | MicroOp::ResReg8 { .. }
        | MicroOp::SetReg8 { .. } => 8,
        MicroOp::LdA8FromA { .. } | MicroOp::LdAFromA8 { .. } | MicroOp::LdReg16FromMem { .. }
        | MicroOp::LdReg16FromImm { .. } | MicroOp::LdMemFromImm8 { .. } | MicroOp::IncMemHL
        | MicroOp::DecMemHL | MicroOp::PopReg16 { .. } | MicroOp::JumpRelative { .. }
        | MicroOp::BitRegHl { .. } | MicroOp::LdHLSPPlusR8 { .. } => 12,
        MicroOp::LdMemFromA { .. } | MicroOp::LdAFromMem { .. } | MicroOp::PushReg16 { .. }
        | MicroOp::JumpAbsolute { .. } | MicroOp::Return | MicroOp::Reti | MicroOp::Restart { .. }
        | MicroOp::RlRegHl | MicroOp::RlcRegHl | MicroOp::RrRegHl | MicroOp::RrcRegHl
        | MicroOp::SlaRegHl | MicroOp::SraRegHl | MicroOp::SrlRegHl | MicroOp::SwapRegHl
        | MicroOp::ResRegHl { .. } | MicroOp::SetRegHl { .. } | MicroOp::AddImmToSP { .. } => 16,
        MicroOp::LdMemImm16FromReg16 { .. } => 20,
        MicroOp::CallAbsolute { .. } => 24,
        _ => 4,
    }
}

/// The family of an operation.
pub fn op_family(op: MicroOp) -> (r: u8)
    ensures
        r == family(op),
{
    match op {
        MicroOp::Nop | MicroOp::Halt | MicroOp::Stop | MicroOp::LdReg8FromReg8 { .. } | MicroOp::LdReg8FromMem { .. } | MicroOp::LdReg8FromReg16 { .. } | MicroOp::LdReg8FromImm { .. } | MicroOp::LdReg8FromMemIncHL { .. } | MicroOp::LdReg8FromMemDecHL { .. } | MicroOp::LdMemFromReg8IncHL { .. } | MicroOp::LdMemFromReg8DecHL { .. } | MicroOp::LdMemFromReg8 { .. } | MicroOp::LdA8FromA { .. } | MicroOp::LdAFromA8 { .. } | MicroOp::LdCFromA | MicroOp::LdAFromC | MicroOp::LdMemFromA { .. } | MicroOp::LdAFromMem { .. } | MicroOp::LdReg16FromMem { .. } | MicroOp::LdReg16FromImm { .. } | MicroOp::LdReg16FromReg16 { .. } | MicroOp::LdMemImm16FromReg16 { .. } | MicroOp::LdMemFromImm8 { .. } => 0,
        MicroOp::AddReg8 { .. } | MicroOp::AddReg8Mem { .. } | MicroOp::AddReg8Imm { .. } | MicroOp::AddCarry8 { .. } | MicroOp::AddCarry8Mem { .. } | MicroOp::AddCarry8Imm { .. } | MicroOp::SubReg8 { .. } | MicroOp::SubReg8Mem { .. } | MicroOp::SubReg8Imm { .. } | MicroOp::SubCarry8 { .. } | MicroOp::SubCarry8Mem { .. } | MicroOp::SubCarry8Imm { .. } => 1,
        MicroOp::PushReg16 { .. } | MicroOp::PopReg16 { .. } | MicroOp::JumpAbsolute { .. } | MicroOp::JumpAbsoluteIf { .. } | MicroOp::JumpRelative { .. } | MicroOp::JumpRelativeIf { .. } | MicroOp::JumpHL | MicroOp::CallAbsolute { .. } | MicroOp::CallAbsoluteIf { .. } | MicroOp::Return | MicroOp::ReturnIf { .. } | MicroOp::Reti | MicroOp::Restart { .. } | MicroOp::Di | MicroOp::Ei => 2,
        MicroOp::Rlca | MicroOp::Rrca | MicroOp::Rla | MicroOp::Rra | MicroOp::Cpl | MicroOp::Ccf | MicroOp::Scf | MicroOp::Daa => 3,
        MicroOp::IncReg8 { .. } | MicroOp::DecReg8 { .. } | MicroOp::IncMemHL | MicroOp::DecMemHL | MicroOp::IncReg16 { .. } | MicroOp::DecReg16 { .. } | MicroOp::AddReg16 { .. } | MicroOp::AddImmToSP { .. } | MicroOp::LdHLSPPlusR8 { .. } => 4,
        MicroOp::XorReg8 { .. } | MicroOp::XorReg8Mem { .. } | MicroOp::XorReg8Imm { .. } | MicroOp::OrReg8 { .. } | MicroOp::OrReg8Mem { .. } | MicroOp::OrReg8Imm { .. } | MicroOp::AndReg8 { .. } | MicroOp::AndReg8Mem { .. } | MicroOp::AndReg8Imm { .. } | MicroOp::CpReg8 { .. } | MicroOp::CpReg8Mem { .. } | MicroOp::CpReg8Imm { .. } => 5,
        MicroOp::RlReg8 { .. } | MicroOp::RlcReg8 { .. } | MicroOp::RrReg8 { .. } | MicroOp::RrcReg8 { .. } | MicroOp::SlaReg8 { .. } | MicroOp::SraReg8 { .. } | MicroOp::SrlReg8 { .. } | MicroOp::SwapReg8 { .. } | MicroOp::RlRegHl | MicroOp::RlcRegHl | MicroOp::RrRegHl | MicroOp::RrcRegHl | MicroOp::SlaRegHl | MicroOp::SraRegHl | MicroOp::SrlRegHl | MicroOp::SwapRegHl => 6,
        _ => 7,
    }
}

impl Cpu {
    /// Applies one micro-operation and returns the clock ticks it took.
    pub fn execute_microop(&mut self, op: MicroOp) -> (ticks: u8)
        requires
            old(self).wf(),
        ensures
            final(self).wf(),
            final(self)@ == execute(old(self)@, op),
            ticks == cycles(op, condition_holds(old(self)@, op)),
            final(self).cycles == old(self).cycles,
    {
        let taken = self.condition(op);
        let ticks = op_cycles(op, taken);
        let g = op_family(op);
        if g == 0 {
            self.execute_load(op);
        } else if g == 1 {
            self.execute_alu_add(op);
        } else if g == 2 {
            self.execute_control(op, taken);
        } else if g == 3 {
            self.execute_accumulator(op);
        } else if g == 4 {
            self.execute_inc_dec(op);
        } else if g == 5 {
            self.execute_alu_logic(op);
        } else if g == 6 {
            self.execute_shift(op);
        } else {
            self.execute_bit(op);
        }
        ticks
    }

    /// Applies a load.
    fn execute_load(&mut self, op: MicroOp)
        requires
            old(self).wf(),
            family(op) == 0,
        ensures
            final(self).wf(),
            final(self)@ == execute(old(self)@, op),
            final(self).cycles == old(self).cycles,
    {
        let a = self.regs.a;
        match op {
            MicroOp::Nop | MicroOp::Halt | MicroOp::Stop => {},
            MicroOp::LdReg8FromReg8 { dst, src } => {
                let v = self.regs.get8(src);
                self.regs.set8(dst, v);
            },
            MicroOp::LdReg8FromMem { dst, src } | MicroOp::LdReg8FromReg16 { dst, src } => {
                let at = self.regs.get16(src);
                let v = self.read(at);
                self.regs.set8(dst, v);
            },
            MicroOp::LdReg8FromImm { dst, value } => self.regs.set8(dst, value),
            MicroOp::LdReg8FromMemIncHL { dst } => {
                let hl = self.regs.get16(Reg16::HL);
                let v = self.read(hl);
                self.regs.set8(dst, v);
                self.regs.set16(Reg16::HL, hl.wrapping_add(1));
            },
            MicroOp::LdReg8FromMemDecHL { dst } => {
                let hl = self.regs.get16(Reg16::HL);
                let v = self.read(hl);
                self.regs.set8(dst, v);
                self.regs.set16(Reg16::HL, hl.wrapping_sub(1));
            },
            MicroOp::LdMemFromReg8IncHL { src } => {
                let hl = self.regs.get16(Reg16::HL);
                let v = self.regs.get8(src);
                self.write(hl, v);
                self.regs.set16(Reg16::HL, hl.wrapping_add(1));
            },
            MicroOp::LdMemFromReg8DecHL { src } => {
                let hl = self.regs.get16(Reg16::HL);
                let v = self.regs.get8(src);
                self.write(hl, v);
                self.regs.set16(Reg16::HL, hl.wrapping_sub(1));
            },
            MicroOp::LdMemFromReg8 { addr, src } => {
                let at = self.regs.get16(addr);
                let v = self.regs.get8(src);
                self.write(at, v);
            },
            MicroOp::LdA8FromA { offset } => self.write(0xFF00u16 + offset as u16, a),
            MicroOp::LdAFromA8 { offset } => {
                let v = self.read(0xFF00u16 + offset as u16);
                self.regs.a = v;
            },
            MicroOp::LdCFromA => self.write(0xFF00u16 + self.regs.c as u16, a),
            MicroOp::LdAFromC => {
                let v = self.read(0xFF00u16 + self.regs.c as u16);
                self.regs.a = v;
            },
            MicroOp::LdMemFromA { addr } => self.write(addr, a),
            MicroOp::LdAFromMem { addr } => {
                let v = self.read(addr);
                self.regs.a = v;
            },
            MicroOp::LdReg16FromMem { dst, src } => {
                let at = self.regs.get16(src);
                let lo = self.read(at);
                let hi = self.read(at.wrapping_add(1));
                self.regs.set16(dst, join_bytes(hi, lo));
            },
            MicroOp::LdReg16FromImm { dst, value } => self.regs.set16(dst, value),
            MicroOp::LdReg16FromReg16 { dst, src } => {
                let v = self.regs.get16(src);
                self.regs.set16(dst, v);
            },
            MicroOp::LdMemImm16FromReg16 { addr, src } => {
                let v = self.regs.get16(src);
                let (hi, lo) = split_word(v);
                self.write(addr, lo);
                self.write(addr.wrapping_add(1), hi);
            },
            MicroOp::LdMemFromImm8 { addr, value } => {
                let at = self.regs.get16(addr);
                self.write(at, value);
            },
            _ => {},
        }
    }

    /// Applies an 8-bit addition or subtraction.
    fn execute_alu_add(&mut self, op: MicroOp)
        requires
            old(self).wf(),
            family(op) == 1,
        ensures
            final(self).wf(),
            final(self)@ == execute(old(self)@, op),
            final(self).cycles == old(self).cycles,
    {
        let f = self.regs.f;
        match op {
            MicroOp::AddReg8 { dst, src } => {
                let r = self.alu.add_8bit(self.regs.get8(dst), self.regs.get8(src));
                self.result8(dst, r);
            },
            MicroOp::AddReg8Mem { dst, src } => {
                let v = self.read(self.regs.get16(src));
                let r = self.alu.add_8bit(self.regs.get8(dst), v);
                self.result8(dst, r);
            },
            MicroOp::AddReg8Imm { dst, addr } => {
                let r = self.alu.add_8bit(self.regs.get8(dst), addr);
                self.result8(dst, r);
            },
            MicroOp::AddCarry8 { dst, src } => {
                let r = self.alu.adc_8bit(f.c, self.regs.get8(dst), self.regs.get8(src));
                self.result8(dst, r);
            },
            MicroOp::AddCarry8Mem { dst, src } => {
                let v = self.read(self.regs.get16(src));
                let r = self.alu.adc_8bit(f.c, self.regs.get8(dst), v);
                self.result8(dst, r);
            },
            MicroOp::AddCarry8Imm { dst, addr } => {
                let r = self.alu.adc_8bit(f.c, self.regs.get8(dst), addr);
                self.result8(dst, r);
            },
            MicroOp::SubReg8 { dst, src } => {
                let r = self.alu.sub_8bit(self.regs.get8(dst), self.regs.get8(src));
                self.result8(dst, r);
            },
            MicroOp::SubReg8Mem { dst, src } => {
                let v = self.read(self.regs.get16(src));
                let r = self.alu.sub_8bit(self.regs.get8(dst), v);
                self.result8(dst, r);
            },
            MicroOp::SubReg8Imm { dst, addr } => {
                let r = self.alu.sub_8bit(self.regs.get8(dst), addr);
                self.result8(dst, r);
            },
            MicroOp::SubCarry8 { dst, src } => {
                let r = self.alu.sbc_8bit(f.c, self.regs.get8(dst), self.regs.get8(src));
                self.result8(dst, r);
            },
            MicroOp::SubCarry8Mem { dst, src } => {
                let v = self.read(self.regs.get16(src));
                let r = self.alu.sbc_8bit(f.c, self.regs.get8(dst), v);
                self.result8(dst, r);
            },
            MicroOp::SubCarry8Imm { dst, addr } => {
                let r = self.alu.sbc_8bit(f.c, self.regs.get8(dst), addr);
                self.result8(dst, r);
            },
            _ => {},
        }
    }

    /// Applies a stack or control-transfer operation.
    fn execute_control(&mut self, op: MicroOp, taken: bool)
        requires
            old(self).wf(),
            family(op) == 2,
            taken == condition_holds(old(self)@, op),
        ensures
            final(self).wf(),
            final(self)@ == execute(old(self)@, op),
            final(self).cycles == old(self).cycles,
    {
        match op {
            MicroOp::PushReg16 { reg } => {
                let v = self.regs.get16(reg);
                self.push16(v);
            },
            MicroOp::PopReg16 { reg } => {
                let v = self.pop16();
                self.regs.set16(reg, v);
            },
            MicroOp::JumpAbsolute { addr } => self.regs.pc = addr,
            MicroOp::JumpAbsoluteIf { addr, .. } => {
                if taken {
                    self.regs.pc = addr;
                }
            },
            MicroOp::JumpRelative { offset } => {
                self.regs.pc = self.regs.pc.wrapping_add_signed(offset as i16);
            },
            MicroOp::JumpRelativeIf { offset, .. } => {
                if taken {
                    self.regs.pc = self.regs.pc.wrapping_add_signed(offset as i16);
                }
            },
            MicroOp::JumpHL => self.regs.pc = self.regs.get16(Reg16::HL),
            MicroOp::CallAbsolute { addr } => self.call(addr),
            MicroOp::CallAbsoluteIf { addr, .. } => {
                if taken {
                    self.call(addr);
                }
            },
            MicroOp::Return => self.ret(),
            MicroOp::ReturnIf { .. } => {
                if taken {
                    self.ret();
                }
            },
            MicroOp::Reti => {
                self.ret();
                self.interrupt = true;
            },
            MicroOp::Restart { vector } => self.call(vector),
            MicroOp::Di => {
                self.interrupt = false;
                self.interrupt_enable_next = false;
            },
            MicroOp::Ei => self.interrupt_enable_next = true,
            _ => {},
        }
    }

    /// Applies an accumulator rotate or a flag operation.
    fn execute_accumulator(&mut self, op: MicroOp)
        requires
            old(self).wf(),
            family(op) == 3,
        ensures
            final(self).wf(),
            final(self)@ == execute(old(self)@, op),
            final(self).cycles == old(self).cycles,
    {
        let f = self.regs.f;
        let a = self.regs.a;
        match op {
            MicroOp::Rlca => {
                let r = self.alu.rlc_byte(a);
                self.result8(Reg8::A, AluResult8 { z: false, ..r });
            },
            MicroOp::Rrca => {
                let r = self.alu.rrc_byte(a);
                self.result8(Reg8::A, AluResult8 { z: false, ..r });
            },
            MicroOp::Rla => {
                let r = self.alu.rl_byte(a, f.c);
                self.result8(Reg8::A, AluResult8 { z: false, ..r });
            },
            MicroOp::Rra => {
                let r = self.alu.rr_byte(a, f.c);
                self.result8(Reg8::A, AluResult8 { z: false, ..r });
            },
            MicroOp::Cpl => {
                self.regs.a = 255 - a;
                self.regs.f = Flags { n: true, h: true, ..f };
            },
            MicroOp::Ccf => self.regs.f = Flags { n: false, h: false, c: !f.c, ..f },
            MicroOp::Scf => self.regs.f = Flags { n: false, h: false, c: true, ..f },
            MicroOp::Daa => {
                let (r, nf) = daa_byte(a, f);
                self.regs.a = r;
                self.regs.f = nf;
            },
            _ => {},
        }
    }

    /// Applies an increment, decrement or 16-bit addition.
    fn execute_inc_dec(&mut self, op: MicroOp)
        requires
            old(self).wf(),
            family(op) == 4,
        ensures
            final(self).wf(),
            final(self)@ == execute(old(self)@, op),
            final(self).cycles == old(self).cycles,
    {
        let f = self.regs.f;
        match op {
            MicroOp::IncReg8 { reg } => {
                let (r, nf) = inc_byte(self.regs.get8(reg), f);
                self.regs.set8(reg, r);
                self.regs.f = nf;
            },
            MicroOp::DecReg8 { reg } => {
                let (r, nf) = dec_byte(self.regs.get8(reg), f);
                self.regs.set8(reg, r);
                self.regs.f = nf;
            },
            MicroOp::IncMemHL => {
                let hl = self.regs.get16(Reg16::HL);
                let (r, nf) = inc_byte(self.read(hl), f);
                self.write(hl, r);
                self.regs.f = nf;
            },
            MicroOp::DecMemHL => {
                let hl = self.regs.get16(Reg16::HL);
                let (r, nf) = dec_byte(self.read(hl), f);
                self.write(hl, r);
                self.regs.f = nf;
            },
            MicroOp::IncReg16 { reg } => {
                let v = self.regs.get16(reg);
                self.regs.set16(reg, v.wrapping_add(1));
            },
            MicroOp::DecReg16 { reg } => {
                let v = self.regs.get16(reg);
                self.regs.set16(reg, v.wrapping_sub(1));
            },
            MicroOp::AddReg16 { dst, src } => {
                let r = self.alu.add_16bit(self.regs.get16(dst), self.regs.get16(src));
                self.regs.set16(dst, r.result);
                self.regs.f = Flags { z: f.z, n: false, h: r.h, c: r.c };
            },
            MicroOp::AddImmToSP { imm } => {
                let (r, nf) = add_sp_signed(self.regs.sp, imm);
                self.regs.sp = r;
                self.regs.f = nf;
            },
            MicroOp::LdHLSPPlusR8 { offset } => {
                let (r, nf) = add_sp_signed(self.regs.sp, offset);
                self.regs.set16(Reg16::HL, r);
                self.regs.f = nf;
            },
            _ => {},
        }
    }

    /// Applies an 8-bit logic operation or comparison.
    fn execute_alu_logic(&mut self, op: MicroOp)
        requires
            old(self).wf(),
            family(op) == 5,
        ensures
            final(self).wf(),
            final(self)@ == execute(old(self)@, op),
            final(self).cycles == old(self).cycles,
    {
        match op {
            MicroOp::XorReg8 { dst, src } => {
                let r = self.alu.xor_8bit(self.regs.get8(dst), self.regs.get8(src));
                self.result8(dst, r);
            },
            MicroOp::XorReg8Mem { dst, src } => {
                let v = self.read(self.regs.get16(src));
                let r = self.alu.xor_8bit(self.regs.get8(dst), v);
                self.result8(dst, r);
            },
            MicroOp::XorReg8Imm { dst, addr } => {
                let r = self.alu.xor_8bit(self.regs.get8(dst), addr);
                self.result8(dst, r);
            },
            MicroOp::OrReg8 { dst, src } => {
                let r = self.alu.or_8bit(self.regs.get8(dst), self.regs.get8(src));
                self.result8(dst, r);
            },
            MicroOp::OrReg8Mem { dst, src } => {
                let v = self.read(self.regs.get16(src));
                let r = self.alu.or_8bit(self.regs.get8(dst), v);
                self.result8(dst, r);
            },
            MicroOp::OrReg8Imm { dst, addr } => {
                let r = self.alu.or_8bit(self.regs.get8(dst), addr);
                self.result8(dst, r);
            },
            MicroOp::AndReg8 { dst, src } => {
                let r = self.alu.and_8bit(self.regs.get8(dst), self.regs.get8(src));
                self.result8(dst, r);
            },
            MicroOp::AndReg8Mem { dst, src } => {
                let v = self.read(self.regs.get16(src));
                let r = self.alu.and_8bit(self.regs.get8(dst), v);
                self.result8(dst, r);
            },
            MicroOp::AndReg8Imm { dst, addr } => {
                let r = self.alu.and_8bit(self.regs.get8(dst), addr);
                self.result8(dst, r);
            },
            MicroOp::CpReg8 { dst, src } => {
                let r = self.alu.cp_8bit(self.regs.get8(dst), self.regs.get8(src));
                self.regs.f = flags_from(r);
            },
            MicroOp::CpReg8Mem { dst, src } => {
                let v = self.read(self.regs.get16(src));
                let r = self.alu.cp_8bit(self.regs.get8(dst), v);
                self.regs.f = flags_from(r);
            },
            MicroOp::CpReg8Imm { dst, addr } => {
                let r = self.alu.cp_8bit(self.regs.get8(dst), addr);
                self.regs.f = flags_from(r);
            },
            _ => {},
        }
    }

    /// Applies a CB-prefixed rotate or shift.
    fn execute_shift(&mut self, op: MicroOp)
        requires
            old(self).wf(),
            family(op) == 6,
        ensures
            final(self).wf(),
            final(self)@ == execute(old(self)@, op),
            final(self).cycles == old(self).cycles,
    {
        let f = self.regs.f;
        match op {
            MicroOp::RlReg8 { dst } => {
                let r = self.alu.rl_byte(self.regs.get8(dst), f.c);
                self.result8(dst, r);
            },
            MicroOp::RlcReg8 { dst } => {
                let r = self.alu.rlc_byte(self.regs.get8(dst));
                self.result8(dst, r);
            },
            MicroOp::RrReg8 { dst } => {
                let r = self.alu.rr_byte(self.regs.get8(dst), f.c);
                self.result8(dst, r);
            },
            MicroOp::RrcReg8 { dst } => {
                let r = self.alu.rrc_byte(self.regs.get8(dst));
                self.result8(dst, r);
            },
            MicroOp::SlaReg8 { dst } => {
                let r = self.alu.sla_byte(self.regs.get8(dst));
                self.result8(dst, r);
            },
            MicroOp::SraReg8 { dst } => {
                let r = self.alu.sra_byte(self.regs.get8(dst));
                self.result8(dst, r);
            },
            MicroOp::SrlReg8 { dst } => {
                let r = self.alu.srl_byte(self.regs.get8(dst));
                self.result8(dst, r);
            },
            MicroOp::SwapReg8 { dst } => {
                let r = self.alu.swap_byte(self.regs.get8(dst));
                self.result8(dst, r);
            },
            MicroOp::RlRegHl => {
                let r = self.alu.rl_byte(self.read(self.regs.get16(Reg16::HL)), f.c);
                self.result_hl(r);
            },
            MicroOp::RlcRegHl => {
                let r = self.alu.rlc_byte(self.read(self.regs.get16(Reg16::HL)));
                self.result_hl(r);
            },
            MicroOp::RrRegHl => {
                let r = self.alu.rr_byte(self.read(self.regs.get16(Reg16::HL)), f.c);
                self.result_hl(r);
            },
            MicroOp::RrcRegHl => {
                let r = self.alu.rrc_byte(self.read(self.regs.get16(Reg16::HL)));
                self.result_hl(r);
            },
            MicroOp::SlaRegHl => {
                let r = self.alu.sla_byte(self.read(self.regs.get16(Reg16::HL)));
                self.result_hl(r);
            },
            MicroOp::SraRegHl => {
                let r = self.alu.sra_byte(self.read(self.regs.get16(Reg16::HL)));
                self.result_hl(r);
            },
            MicroOp::SrlRegHl => {
                let r = self.alu.srl_byte(self.read(self.regs.get16(Reg16::HL)));
                self.result_hl(r);
            },
            MicroOp::SwapRegHl => {
                let r = self.alu.swap_byte(self.read(self.regs.get16(Reg16::HL)));
                self.result_hl(r);
            },
            _ => {},
        }
    }

    /// Applies a CB-prefixed bit test, reset or set.
    fn execute_bit(&mut self, op: MicroOp)
        requires
            old(self).wf(),
            family(op) == 7,
        ensures
            final(self).wf(),
            final(self)@ == execute(old(self)@, op),
            final(self).cycles == old(self).cycles,
    {
        let f = self.regs.f;
        match op {
            MicroOp::BitReg8 { bit, reg } => {
                let v = self.regs.get8(reg);
                self.regs.f = Flags { z: !test_bit(v, bit), n: false, h: true, c: f.c };
            },
            MicroOp::BitRegHl { bit } => {
                let v = self.read(self.regs.get16(Reg16::HL));
                self.regs.f = Flags { z: !test_bit(v, bit), n: false, h: true, c: f.c };
            },
            MicroOp::ResReg8 { bit, reg } => {
                let v = self.regs.get8(reg);
                self.regs.set8(reg, clear_bit(v, bit));
            },
            MicroOp::ResRegHl { bit } => {
                let hl = self.regs.get16(Reg16::HL);
                let v = self.read(hl);
                self.write(hl, clear_bit(v, bit));
            },
            MicroOp::SetReg8 { bit, reg } => {
                let v = self.regs.get8(reg);
                self.regs.set8(reg, put_bit(v, bit));
            },
            MicroOp::SetRegHl { bit } => {
                let hl = self.regs.get16(Reg16::HL);
                let v = self.read(hl);
                self.write(hl, put_bit(v, bit));
            },
            _ => {},
        }
    }
}

/// The outcome of carrying out the instruction whose opcode byte was just
/// fetched: the state after it and the clock ticks it took, or the error.
pub open spec fn dispatch_spec(s: CpuState, opcode: u8) -> Result<(CpuState, u8), CpuError> {
    match decode_spec(s, opcode) {
        Ok((ops, s2)) => Ok(
            (execute(s2, ops[0]), cycles(ops[0], condition_holds(s2, ops[0]))),
        ),
        Err(e) => Err(e),
    }
}

/// The interrupt master enable after an instruction: an EI pending before
/// it, and not cancelled by it, takes effect now.
pub open spec fn after_instruction(before: CpuState, after: CpuState) -> CpuState {
    if before.ime_pending && after.ime_pending {
        CpuState { ime: true, ime_pending: false, ..after }
    } else {
        after
    }
}

/// The outcome of one fetch-decode-execute step from `s`. On an undefined
/// opcode the state is left with PC past the opcode byte.
pub open spec fn step_spec(s: CpuState) -> (CpuState, Result<u8, CpuError>) {
    let opcode = s.read(s.regs.pc);
    let s1 = s.set16(Reg16::PC, s.regs.pc.wrapping_add(1));
    match dispatch_spec(s1, opcode) {
        Ok((s2, ticks)) => (after_instruction(s, s2), Ok(ticks)),
        Err(e) => (s1, Err(e)),
    }
}

impl Cpu {
    /// A CPU on the given bus, with PC at the entry point and every other
    /// register, every flag and the interrupt master enable cleared.
    pub fn new(inter: Interconnect) -> (r: Cpu)
        requires
            inter.wf(),
        ensures
            r.wf(),
            r.regs == (Registers {
                pc: ENTRY_POINT,
                sp: 0,
                a: 0,
                f: Flags { z: false, h: false, n: false, c: false },
                b: 0,
                c: 0,
                d: 0,
                e: 0,
                h: 0,
                l: 0,
            }),
            r.inter@ == inter@,
            !r.interrupt,
            !r.interrupt_enable_next,
            r.cycles == 0,
    {
        let regs = Registers {
            pc: ENTRY_POINT,
            sp: 0,
            a: 0,
            b: 0,
            f: Flags::new(),
            c: 0,
            d: 0,
            e: 0,
            h: 0,
            l: 0,
        };
        Cpu {
            regs,
            alu: Alu::new(),
            inter,
            interrupt: false,
            interrupt_enable_next: false,
            cycles: 0,
        }
    }

    /// Carries out the instruction whose opcode byte was just fetched:
    /// decodes it, reading its operands, and applies its operations.
    /// Returns the clock ticks it took.
    pub fn dispatch(&mut self, opcode: u8) -> (r: Result<u8, CpuError>)
        requires
            old(self).wf(),
        ensures
            final(self).wf(),
            final(self).cycles == old(self).cycles,
            dispatch_spec(old(self)@, opcode) is Ok ==> r is Ok && (final(self)@, r->Ok_0)
                == dispatch_spec(old(self)@, opcode)->Ok_0,
            dispatch_spec(old(self)@, opcode) is Err ==> r is Err && r->Err_0 == dispatch_spec(
                old(self)@,
                opcode,
            )->Err_0 && final(self)@ == old(self)@,
    {
        match self.decode(opcode) {
            Ok(ops) => {
                let op = ops[0];
                Ok(self.execute_microop(op))
            },
            Err(e) => Err(e),
        }
    }

    /// One fetch-decode-execute step: reads the opcode at PC, advances PC,
    /// decodes and executes the instruction, and adds its clock ticks to
    /// the running count. An EI from the previous instruction takes effect
    /// once this one is done.
    pub fn step(&mut self) -> (r: Result<u8, CpuError>)
        requires
            old(self).wf(),
        ensures
            final(self).wf(),
            (final(self)@, r) == step_spec(old(self)@),
            r is Ok ==> final(self).cycles == old(self).cycles.wrapping_add(r->Ok_0 as u64),
            r is Err ==> final(self).cycles == old(self).cycles,
    {
        let enable_after = self.interrupt_enable_next;
        let opcode = self.fetch8();
        let r = self.dispatch(opcode);
        if let Ok(ticks) = r {
            if enable_after && self.interrupt_enable_next {
                self.interrupt = true;
                self.interrupt_enable_next = false;
            }
            self.cycles = self.cycles.wrapping_add(ticks as u64);
        }
        r
    }
}

} // verus!
