//! The decoder: from an opcode byte and the operand bytes that follow it to
//! the micro-operation that carries out the instruction.
//!
//! Opcodes are read the way the instruction set is laid out: for a byte `op`,
//! the column `z = op % 8` and the row `y = (op / 8) % 8` select the
//! operation within each quarter of the table.
use crate::cpu::Cpu;
use crate::microops::MicroOp;
use crate::registers::{join_bytes, word, Flag, Reg16, Reg8};
use crate::semantics::CpuState;
use vstd::prelude::*;

verus! {

/// What a failed decode reports: the offending byte and where it was read.
#[derive(Clone, Copy, Debug, PartialEq, Eq, Structural)]
pub enum CpuError {
    IllegalOpcode { opcode: u8, pc: u16 },
}

/// The byte that prefixes the secondary opcode table.
pub const CB_PREFIX: u8 = 0xCB;

/// The 8-bit register that operand field `i` names; 6 names the byte at HL
/// and is handled by the caller.
pub open spec fn reg_of(i: u8) -> Reg8 {
    if i == 0 {
        Reg8::B
    } else if i == 1 {
        Reg8::C
    } else if i == 2 {
        Reg8::D
    } else if i == 3 {
        Reg8::E
    } else if i == 4 {
        Reg8::H
    } else if i == 5 {
        Reg8::L
    } else {
        Reg8::A
    }
}

/// The register pair of field `p` in loads and arithmetic: BC, DE, HL, SP.
pub open spec fn pair_of(p: u8) -> Reg16 {
    if p == 0 {
        Reg16::BC
    } else if p == 1 {
        Reg16::DE
    } else if p == 2 {
        Reg16::HL
    } else {
        Reg16::SP
    }
}

/// The register pair of field `p` in PUSH and POP: BC, DE, HL, AF.
pub open spec fn stack_pair_of(p: u8) -> Reg16 {
    if p == 3 {
        Reg16::AF
    } else {
        pair_of(p)
    }
}

/// The flag and expected value of condition field `c`: NZ, Z, NC, C.
pub open spec fn cond_of(c: u8) -> (Flag, bool) {
    if c == 0 {
        (Flag::Z, false)
    } else if c == 1 {
        (Flag::Z, true)
    } else if c == 2 {
        (Flag::C, false)
    } else {
        (Flag::C, true)
    }
}

/// The 8-bit arithmetic operation `k` (ADD, ADC, SUB, SBC, AND, XOR, OR, CP)
/// on A and a register.
pub open spec fn alu_reg_op(k: u8, r: Reg8) -> MicroOp {
    let dst = Reg8::A;
    if k == 0 {
        MicroOp::AddReg8 { dst, src: r }
    } else if k == 1 {
        MicroOp::AddCarry8 { dst, src: r }
    } else if k == 2 {
        MicroOp::SubReg8 { dst, src: r }
    } else if k == 3 {
        MicroOp::SubCarry8 { dst, src: r }
    } else if k == 4 {
        MicroOp::AndReg8 { dst, src: r }
    } else if k == 5 {
        MicroOp::XorReg8 { dst, src: r }
    } else if k == 6 {
        MicroOp::OrReg8 { dst, src: r }
    } else {
        MicroOp::CpReg8 { dst, src: r }
    }
}

/// Operation `k` on A and the byte at HL.
pub open spec fn alu_mem_op(k: u8) -> MicroOp {
    let dst = Reg8::A;
    let src = Reg16::HL;
    if k == 0 {
        MicroOp::AddReg8Mem { dst, src }
    } else if k == 1 {
        MicroOp::AddCarry8Mem { dst, src }
    } else if k == 2 {
        MicroOp::SubReg8Mem { dst, src }
    } else if k == 3 {
        MicroOp::SubCarry8Mem { dst, src }
    } else if k == 4 {
        MicroOp::AndReg8Mem { dst, src }
    } else if k == 5 {
        MicroOp::XorReg8Mem { dst, src }
    } else if k == 6 {
        MicroOp::OrReg8Mem { dst, src }
    } else {
        MicroOp::CpReg8Mem { dst, src }
    }
}

/// Operation `k` on A and an immediate byte.
pub open spec fn alu_imm_op(k: u8, d8: u8) -> MicroOp {
    let dst = Reg8::A;
    if k == 0 {
        MicroOp::AddReg8Imm { dst, addr: d8 }
    } else if k == 1 {
        MicroOp::AddCarry8Imm { dst, addr: d8 }
    } else if k == 2 {
        MicroOp::SubReg8Imm { dst, addr: d8 }
    } else if k == 3 {
        MicroOp::SubCarry8Imm { dst, addr: d8 }
    } else if k == 4 {
        MicroOp::AndReg8Imm { dst, addr: d8 }
    } else if k == 5 {
        MicroOp::XorReg8Imm { dst, addr: d8 }
    } else if k == 6 {
        MicroOp::OrReg8Imm { dst, addr: d8 }
    } else {
        MicroOp::CpReg8Imm { dst, addr: d8 }
    }
}

/// The operation of a CB-prefixed byte. Every one of the 256 is defined.
pub open spec fn cb_op(cb: u8) -> MicroOp {
    let k = cb / 8;
    let i = cb % 8;
    let r = reg_of(i);
    let hl = i == 6;
    if k == 0 {
        if hl { MicroOp::RlcRegHl } else { MicroOp::RlcReg8 { dst: r } }
    } else if k == 1 {
        if hl { MicroOp::RrcRegHl } else { MicroOp::RrcReg8 { dst: r } }
    } else if k == 2 {
        if hl { MicroOp::RlRegHl } else { MicroOp::RlReg8 { dst: r } }
    } else if k == 3 {
        if hl { MicroOp::RrRegHl } else { MicroOp::RrReg8 { dst: r } }
    } else if k == 4 {
        if hl { MicroOp::SlaRegHl } else { MicroOp::SlaReg8 { dst: r } }
    } else if k == 5 {
        if hl { MicroOp::SraRegHl } else { MicroOp::SraReg8 { dst: r } }
    } else if k == 6 {
        if hl { MicroOp::SwapRegHl } else { MicroOp::SwapReg8 { dst: r } }
    } else if k == 7 {
        if hl { MicroOp::SrlRegHl } else { MicroOp::SrlReg8 { dst: r } }
    } else if k < 16 {
        if hl { MicroOp::BitRegHl { bit: (k - 8) as u8 } } else { MicroOp::BitReg8 { bit: (k - 8) as u8, reg: r } }
    } else if k < 24 {
        if hl { MicroOp::ResRegHl { bit: (k - 16) as u8 } } else { MicroOp::ResReg8 { bit: (k - 16) as u8, reg: r } }
    } else {
        if hl { MicroOp::SetRegHl { bit: (k - 24) as u8 } } else { MicroOp::SetReg8 { bit: (k - 24) as u8, reg: r } }
    }
}

/// How many operand bytes follow an opcode (for the CB prefix: the
/// secondary opcode byte).
pub open spec fn operand_len(op: u8) -> nat {
    let z = op % 8;
    let y = (op / 8) % 8;
    if op < 0x40 {
        if (z == 1 && y % 2 == 0) || (z == 0 && y == 1) {
            2
        } else if z == 6 || (z == 0 && y >= 2) {
            1
        } else {
            0
        }
    } else if op < 0xC0 {
        0
    } else if (z == 2 && (y <= 3 || y == 5 || y == 7)) || (z == 3 && y == 0) || (z == 4 && y <= 3)
        || (z == 5 && y == 1) {
        2
    } else if (z == 0 && y >= 4) || (z == 3 && y == 1) || z == 6 {
        1
    } else {
        0
    }
}

/// Opcodes 0x00-0x3F.
pub open spec fn low_quarter_op(op: u8, d8: u8, d16: u16) -> MicroOp {
    let z = op % 8;
    let y = op / 8;
    let p = y / 2;
    if z == 0 {
        if y == 0 {
            MicroOp::Nop
        } else if y == 1 {
            MicroOp::LdMemImm16FromReg16 { addr: d16, src: Reg16::SP }
        } else if y == 2 {
            MicroOp::Stop
        } else if y == 3 {
            MicroOp::JumpRelative { offset: d8 as i8 }
        } else {
            MicroOp::JumpRelativeIf { offset: d8 as i8, flag: cond_of((y - 4) as u8).0, expected: cond_of((y - 4) as u8).1 }
        }
    } else if z == 1 {
        if y % 2 == 0 {
            MicroOp::LdReg16FromImm { dst: pair_of(p), value: d16 }
        } else {
            MicroOp::AddReg16 { dst: Reg16::HL, src: pair_of(p) }
        }
    } else if z == 2 {
        if y == 0 {
            MicroOp::LdMemFromReg8 { addr: Reg16::BC, src: Reg8::A }
        } else if y == 1 {
            MicroOp::LdReg8FromMem { dst: Reg8::A, src: Reg16::BC }
        } else if y == 2 {
            MicroOp::LdMemFromReg8 { addr: Reg16::DE, src: Reg8::A }
        } else if y == 3 {
            MicroOp::LdReg8FromMem { dst: Reg8::A, src: Reg16::DE }
        } else if y == 4 {
            MicroOp::LdMemFromReg8IncHL { src: Reg8::A }
        } else if y == 5 {
            MicroOp::LdReg8FromMemIncHL { dst: Reg8::A }
        } else if y == 6 {
            MicroOp::LdMemFromReg8DecHL { src: Reg8::A }
        } else {
            MicroOp::LdReg8FromMemDecHL { dst: Reg8::A }
        }
    } else if z == 3 {
        if y % 2 == 0 {
            MicroOp::IncReg16 { reg: pair_of(p) }
        } else {
            MicroOp::DecReg16 { reg: pair_of(p) }
        }
    } else if z == 4 {
        if y == 6 { MicroOp::IncMemHL } else { MicroOp::IncReg8 { reg: reg_of(y) } }
    } else if z == 5 {
        if y == 6 { MicroOp::DecMemHL } else { MicroOp::DecReg8 { reg: reg_of(y) } }
    } else if z == 6 {
        if y == 6 {
            MicroOp::LdMemFromImm8 { addr: Reg16::HL, value: d8 }
        } else {
            MicroOp::LdReg8FromImm { dst: reg_of(y), value: d8 }
        }
    } else {
        if y == 0 {
            MicroOp::Rlca
        } else if y == 1 {
            MicroOp::Rrca
        } else if y == 2 {
            MicroOp::Rla
        } else if y == 3 {
            MicroOp::Rra
        } else if y == 4 {
            MicroOp::Daa
        } else if y == 5 {
            MicroOp::Cpl
        } else if y == 6 {
            MicroOp::Scf
        } else {
            MicroOp::Ccf
        }
    }
}

/// Opcodes 0x40-0x7F: register-to-register loads, and HALT where the byte
/// at HL would be loaded into itself.
pub open spec fn load_quarter_op(op: u8) -> MicroOp {
    let d = (op / 8) % 8;
    let s = op % 8;
    if d == 6 && s == 6 {
        MicroOp::Halt
    } else if d == 6 {
        MicroOp::LdMemFromReg8 { addr: Reg16::HL, src: reg_of(s) }
    } else if s == 6 {
        MicroOp::LdReg8FromReg16 { dst: reg_of(d), src: Reg16::HL }
    } else {
        MicroOp::LdReg8FromReg8 { dst: reg_of(d), src: reg_of(s) }
    }
}

/// Opcodes 0x80-0xBF: arithmetic on A.
pub open spec fn alu_quarter_op(op: u8) -> MicroOp {
    let k = (op / 8) % 8;
    let s = op % 8;
    if s == 6 {
        alu_mem_op(k)
    } else {
        alu_reg_op(k, reg_of(s))
    }
}

/// Opcodes 0xC0-0xFF; `None` for the eleven that are not defined.
pub open spec fn high_quarter_op(op: u8, d8: u8, d16: u16) -> Option<MicroOp> {
    let z = op % 8;
    let y = (op / 8) % 8;
    let p = y / 2;
    if z == 0 {
        if y <= 3 {
            Some(MicroOp::ReturnIf { flag: cond_of(y).0, expected: cond_of(y).1 })
        } else if y == 4 {
            Some(MicroOp::LdA8FromA { offset: d8 })
        } else if y == 5 {
            Some(MicroOp::AddImmToSP { imm: d8 as i8 })
        } else if y == 6 {
            Some(MicroOp::LdAFromA8 { offset: d8 })
        } else {
            Some(MicroOp::LdHLSPPlusR8 { offset: d8 as i8 })
        }
    } else if z == 1 {
        if y % 2 == 0 {
            Some(MicroOp::PopReg16 { reg: stack_pair_of(p) })
        } else if y == 1 {
            Some(MicroOp::Return)
        } else if y == 3 {
            Some(MicroOp::Reti)
        } else if y == 5 {
            Some(MicroOp::JumpHL)
        } else {
            Some(MicroOp::LdReg16FromReg16 { dst: Reg16::SP, src: Reg16::HL })
        }
    } else if z == 2 {
        if y <= 3 {
            Some(MicroOp::JumpAbsoluteIf { addr: d16, flag: cond_of(y).0, expected: cond_of(y).1 })
        } else if y == 4 {
            Some(MicroOp::LdCFromA)
        } else if y == 5 {
            Some(MicroOp::LdMemFromA { addr: d16 })
        } else if y == 6 {
            Some(MicroOp::LdAFromC)
        } else {
            Some(MicroOp::LdAFromMem { addr: d16 })
        }
    } else if z == 3 {
        if y == 0 {
            Some(MicroOp::JumpAbsolute { addr: d16 })
        } else if y == 1 {
            Some(cb_op(d8))
        } else if y == 6 {
            Some(MicroOp::Di)
        } else if y == 7 {
            Some(MicroOp::Ei)
        } else {
            None
        }
    } else if z == 4 {
        if y <= 3 {
            Some(MicroOp::CallAbsoluteIf { addr: d16, flag: cond_of(y).0, expected: cond_of(y).1 })
        } else {
            None
        }
    } else if z == 5 {
        if y % 2 == 0 {
            Some(MicroOp::PushReg16 { reg: stack_pair_of(p) })
        } else if y == 1 {
            Some(MicroOp::CallAbsolute { addr: d16 })
        } else {
            None
        }
    } else if z == 6 {
        Some(alu_imm_op(y, d8))
    } else {
        Some(MicroOp::Restart { vector: (y * 8) as u16 })
    }
}

/// The operation of an opcode given its first operand byte `d8` and its
/// little-endian operand word `d16`; `None` for an undefined opcode.
pub open spec fn decode_op(op: u8, d8: u8, d16: u16) -> Option<MicroOp> {
    if op < 0x40 {
        Some(low_quarter_op(op, d8, d16))
    } else if op < 0x80 {
        Some(load_quarter_op(op))
    } else if op < 0xC0 {
        Some(alu_quarter_op(op))
    } else {
        high_quarter_op(op, d8, d16)
    }
}

/// The operation of an opcode followed by the operand bytes `bytes`, as
/// many as `operand_len` says.
pub open spec fn decode_bytes(op: u8, bytes: Seq<u8>) -> Option<MicroOp> {
    let d8 = if bytes.len() >= 1 { bytes[0] } else { 0u8 };
    let d16 = if bytes.len() >= 2 { word(bytes[1], bytes[0]) } else { d8 as u16 };
    decode_op(op, d8, d16)
}

/// The `n` bytes of the instruction stream from `pc` on.
pub open spec fn stream(mem: Seq<u8>, pc: u16, n: nat) -> Seq<u8> {
    Seq::new(n, |i: int| mem[pc.wrapping_add(i as u16) as int])
}

/// The outcome of decoding `opcode`, fetched already, in state `s`: the
/// operations and the state with PC past the operand bytes, or the error.
pub open spec fn decode_spec(s: CpuState, opcode: u8) -> Result<(Seq<MicroOp>, CpuState), CpuError> {
    let n = operand_len(opcode);
    match decode_bytes(opcode, stream(s.mem, s.regs.pc, n)) {
        Some(op) => Ok((seq![op], s.set16(Reg16::PC, s.regs.pc.wrapping_add(n as u16)))),
        None => Err(CpuError::IllegalOpcode { opcode, pc: s.regs.pc.wrapping_sub(1) }),
    }
}

/// Decoding is a function of the opcode and the operand bytes alone: two
/// states that agree on the bytes that the opcode consumes decode to the
/// same operations, and consume as many bytes.
pub proof fn lemma_decode_pure(s1: CpuState, s2: CpuState, opcode: u8)
    requires
        stream(s1.mem, s1.regs.pc, operand_len(opcode)) == stream(
            s2.mem,
            s2.regs.pc,
            operand_len(opcode),
        ),
    ensures
        decode_spec(s1, opcode) is Ok <==> decode_spec(s2, opcode) is Ok,
        decode_spec(s1, opcode) is Ok ==> decode_spec(s1, opcode)->Ok_0.0 == decode_spec(
            s2,
            opcode,
        )->Ok_0.0,
        decode_spec(s1, opcode) is Ok ==> decode_spec(s1, opcode)->Ok_0.1.regs.pc
            == s1.regs.pc.wrapping_add(operand_len(opcode) as u16),
        decode_spec(s2, opcode) is Ok ==> decode_spec(s2, opcode)->Ok_0.1.regs.pc
            == s2.regs.pc.wrapping_add(operand_len(opcode) as u16),
{
}

/// The register of operand field `i`.
fn register(i: u8) -> (r: Reg8)
    ensures
        r == reg_of(i),
{
    if i == 0 {
        Reg8::B
    } else if i == 1 {
        Reg8::C
    } else if i == 2 {
        Reg8::D
    } else if i == 3 {
        Reg8::E
    } else if i == 4 {
        Reg8::H
    } else if i == 5 {
        Reg8::L
    } else {
        Reg8::A
    }
}

/// The register pair of field `p` in loads and arithmetic.
fn pair(p: u8) -> (r: Reg16)
    ensures
        r == pair_of(p),
{
    if p == 0 {
        Reg16::BC
    } else if p == 1 {
        Reg16::DE
    } else if p == 2 {
        Reg16::HL
    } else {
        Reg16::SP
    }
}

/// The register pair of field `p` in PUSH and POP.
fn stack_pair(p: u8) -> (r: Reg16)
    ensures
        r == stack_pair_of(p),
{
    if p == 3 {
        Reg16::AF
    } else {
        pair(p)
    }
}

/// The flag and expected value of condition field `c`.
fn condition_field(c: u8) -> (r: (Flag, bool))
    ensures
        r == cond_of(c),
{
    if c == 0 {
        (Flag::Z, false)
    } else if c == 1 {
        (Flag::Z, true)
    } else if c == 2 {
        (Flag::C, false)
    } else {
        (Flag::C, true)
    }
}

/// Arithmetic operation `k` on A and a register.
fn alu_reg(k: u8, r: Reg8) -> (res: MicroOp)
    ensures
        res == alu_reg_op(k, r),
{
    let dst = Reg8::A;
    if k == 0 {
        MicroOp::AddReg8 { dst, src: r }
    } else if k == 1 {
        MicroOp::AddCarry8 { dst, src: r }
    } else if k == 2 {
        MicroOp::SubReg8 { dst, src: r }
    } else if k == 3 {
        MicroOp::SubCarry8 { dst, src: r }
    } else if k == 4 {
        MicroOp::AndReg8 { dst, src: r }
    } else if k == 5 {
        MicroOp::XorReg8 { dst, src: r }
    } else if k == 6 {
        MicroOp::OrReg8 { dst, src: r }
    } else {
        MicroOp::CpReg8 { dst, src: r }
    }
}

/// Arithmetic operation `k` on A and the byte at HL.
fn alu_mem(k: u8) -> (r: MicroOp)
    ensures
        r == alu_mem_op(k),
{
    let dst = Reg8::A;
    let src = Reg16::HL;
    if k == 0 {
        MicroOp::AddReg8Mem { dst, src }
    } else if k == 1 {
        MicroOp::AddCarry8Mem { dst, src }
    } else if k == 2 {
        MicroOp::SubReg8Mem { dst, src }
    } else if k == 3 {
        MicroOp::SubCarry8Mem { dst, src }
    } else if k == 4 {
        MicroOp::AndReg8Mem { dst, src }
    } else if k == 5 {
        MicroOp::XorReg8Mem { dst, src }
    } else if k == 6 {
        MicroOp::OrReg8Mem { dst, src }
    } else {
        MicroOp::CpReg8Mem { dst, src }
    }
}

/// Arithmetic operation `k` on A and an immediate byte.
fn alu_imm(k: u8, d8: u8) -> (r: MicroOp)
    ensures
        r == alu_imm_op(k, d8),
{
    let dst = Reg8::A;
    if k == 0 {
        MicroOp::AddReg8Imm { dst, addr: d8 }
    } else if k == 1 {
        MicroOp::AddCarry8Imm { dst, addr: d8 }
    } else if k == 2 {
        MicroOp::SubReg8Imm { dst, addr: d8 }
    } else if k == 3 {
        MicroOp::SubCarry8Imm { dst, addr: d8 }
    } else if k == 4 {
        MicroOp::AndReg8Imm { dst, addr: d8 }
    } else if k == 5 {
        MicroOp::XorReg8Imm { dst, addr: d8 }
    } else if k == 6 {
        MicroOp::OrReg8Imm { dst, addr: d8 }
    } else {
        MicroOp::CpReg8Imm { dst, addr: d8 }
    }
}

/// The operation of a CB-prefixed byte.
pub fn cb_operation(cb: u8) -> (r: MicroOp)
    ensures
        r == cb_op(cb),
{
    let k = cb / 8;
    let i = cb % 8;
    let r = register(i);
    let hl = i == 6;
    if k == 0 {
        if hl { MicroOp::RlcRegHl } else { MicroOp::RlcReg8 { dst: r } }
    } else if k == 1 {
        if hl { MicroOp::RrcRegHl } else { MicroOp::RrcReg8 { dst: r } }
    } else if k == 2 {
        if hl { MicroOp::RlRegHl } else { MicroOp::RlReg8 { dst: r } }
    } else if k == 3 {
        if hl { MicroOp::RrRegHl } else { MicroOp::RrReg8 { dst: r } }
    } else if k == 4 {
        if hl { MicroOp::SlaRegHl } else { MicroOp::SlaReg8 { dst: r } }
    } else if k == 5 {
        if hl { MicroOp::SraRegHl } else { MicroOp::SraReg8 { dst: r } }
    } else if k == 6 {
        if hl { MicroOp::SwapRegHl } else { MicroOp::SwapReg8 { dst: r } }
    } else if k == 7 {
        if hl { MicroOp::SrlRegHl } else { MicroOp::SrlReg8 { dst: r } }
    } else if k < 16 {
        if hl { MicroOp::BitRegHl { bit: (k - 8) as u8 } } else { MicroOp::BitReg8 { bit: (k - 8) as u8, reg: r } }
    } else if k < 24 {
        if hl { MicroOp::ResRegHl { bit: (k - 16) as u8 } } else { MicroOp::ResReg8 { bit: (k - 16) as u8, reg: r } }
    } else {
        if hl { MicroOp::SetRegHl { bit: (k - 24) as u8 } } else { MicroOp::SetReg8 { bit: (k - 24) as u8, reg: r } }
    }
}

/// Decodes opcodes 0x00-0x3F.
fn low_quarter(op: u8, d8: u8, d16: u16) -> (r: MicroOp)
    ensures
        r == low_quarter_op(op, d8, d16),
{
    let z = op % 8;
    let y = op / 8;
    let p = y / 2;
    if z == 0 {
        if y == 0 {
            MicroOp::Nop
        } else if y == 1 {
            MicroOp::LdMemImm16FromReg16 { addr: d16, src: Reg16::SP }
        } else if y == 2 {
            MicroOp::Stop
        } else if y == 3 {
            MicroOp::JumpRelative { offset: d8 as i8 }
        } else {
            MicroOp::JumpRelativeIf { offset: d8 as i8, flag: condition_field((y - 4) as u8).0, expected: condition_field((y - 4) as u8).1 }
        }
    } else if z == 1 {
        if y % 2 == 0 {
            MicroOp::LdReg16FromImm { dst: pair(p), value: d16 }
        } else {
            MicroOp::AddReg16 { dst: Reg16::HL, src: pair(p) }
        }
    } else if z == 2 {
        if y == 0 {
            MicroOp::LdMemFromReg8 { addr: Reg16::BC, src: Reg8::A }
        } else if y == 1 {
            MicroOp::LdReg8FromMem { dst: Reg8::A, src: Reg16::BC }
        } else if y == 2 {
            MicroOp::LdMemFromReg8 { addr: Reg16::DE, src: Reg8::A }
        } else if y == 3 {
            MicroOp::LdReg8FromMem { dst: Reg8::A, src: Reg16::DE }
        } else if y == 4 {
            MicroOp::LdMemFromReg8IncHL { src: Reg8::A }
        } else if y == 5 {
            MicroOp::LdReg8FromMemIncHL { dst: Reg8::A }
        } else if y == 6 {
            MicroOp::LdMemFromReg8DecHL { src: Reg8::A }
        } else {
            MicroOp::LdReg8FromMemDecHL { dst: Reg8::A }
        }
    } else if z == 3 {
        if y % 2 == 0 {
            MicroOp::IncReg16 { reg: pair(p) }
        } else {
            MicroOp::DecReg16 { reg: pair(p) }
        }
    } else if z == 4 {
        if y == 6 { MicroOp::IncMemHL } else { MicroOp::IncReg8 { reg: register(y) } }
    } else if z == 5 {
        if y == 6 { MicroOp::DecMemHL } else { MicroOp::DecReg8 { reg: register(y) } }
    } else if z == 6 {
        if y == 6 {
            MicroOp::LdMemFromImm8 { addr: Reg16::HL, value: d8 }
        } else {
            MicroOp::LdReg8FromImm { dst: register(y), value: d8 }
        }
    } else {
        if y == 0 {
            MicroOp::Rlca
        } else if y == 1 {
            MicroOp::Rrca
        } else if y == 2 {
            MicroOp::Rla
        } else if y == 3 {
            MicroOp::Rra
        } else if y == 4 {
            MicroOp::Daa
        } else if y == 5 {
            MicroOp::Cpl
        } else if y == 6 {
            MicroOp::Scf
        } else {
            MicroOp::Ccf
        }
    }
}

/// Decodes opcodes 0x40-0x7F.
fn load_quarter(op: u8) -> (r: MicroOp)
    ensures
        r == load_quarter_op(op),
{
    let d = (op / 8) % 8;
    let s = op % 8;
    if d == 6 && s == 6 {
        MicroOp::Halt
    } else if d == 6 {
        MicroOp::LdMemFromReg8 { addr: Reg16::HL, src: register(s) }
    } else if s == 6 {
        MicroOp::LdReg8FromReg16 { dst: register(d), src: Reg16::HL }
    } else {
        MicroOp::LdReg8FromReg8 { dst: register(d), src: register(s) }
    }
}

/// Decodes opcodes 0x80-0xBF.
fn alu_quarter(op: u8) -> (r: MicroOp)
    ensures
        r == alu_quarter_op(op),
{
    let k = (op / 8) % 8;
    let s = op % 8;
    if s == 6 {
        alu_mem(k)
    } else {
        alu_reg(k, register(s))
    }
}

/// Decodes opcodes 0xC0-0xFF.
fn high_quarter(op: u8, d8: u8, d16: u16) -> (r: Option<MicroOp>)
    ensures
        r == high_quarter_op(op, d8, d16),
{
    let z = op % 8;
    let y = (op / 8) % 8;
    let p = y / 2;
    if z == 0 {
        if y <= 3 {
            Some(MicroOp::ReturnIf { flag: condition_field(y).0, expected: condition_field(y).1 })
        } else if y == 4 {
            Some(MicroOp::LdA8FromA { offset: d8 })
        } else if y == 5 {
            Some(MicroOp::AddImmToSP { imm: d8 as i8 })
        } else if y == 6 {
            Some(MicroOp::LdAFromA8 { offset: d8 })
        } else {
            Some(MicroOp::LdHLSPPlusR8 { offset: d8 as i8 })
        }
    } else if z == 1 {
        if y % 2 == 0 {
            Some(MicroOp::PopReg16 { reg: stack_pair(p) })
        } else if y == 1 {
            Some(MicroOp::Return)
        } else if y == 3 {
            Some(MicroOp::Reti)
        } else if y == 5 {
            Some(MicroOp::JumpHL)
        } else {
            Some(MicroOp::LdReg16FromReg16 { dst: Reg16::SP, src: Reg16::HL })
        }
    } else if z == 2 {
        if y <= 3 {
            Some(MicroOp::JumpAbsoluteIf { addr: d16, flag: condition_field(y).0, expected: condition_field(y).1 })
        } else if y == 4 {
            Some(MicroOp::LdCFromA)
        } else if y == 5 {
            Some(MicroOp::LdMemFromA { addr: d16 })
        } else if y == 6 {
            Some(MicroOp::LdAFromC)
        } else {
            Some(MicroOp::LdAFromMem { addr: d16 })
        }
    } else if z == 3 {
        if y == 0 {
            Some(MicroOp::JumpAbsolute { addr: d16 })
        } else if y == 1 {
            Some(cb_operation(d8))
        } else if y == 6 {
            Some(MicroOp::Di)
        } else if y == 7 {
            Some(MicroOp::Ei)
        } else {
            None
        }
    } else if z == 4 {
        if y <= 3 {
            Some(MicroOp::CallAbsoluteIf { addr: d16, flag: condition_field(y).0, expected: condition_field(y).1 })
        } else {
            None
        }
    } else if z == 5 {
        if y % 2 == 0 {
            Some(MicroOp::PushReg16 { reg: stack_pair(p) })
        } else if y == 1 {
            Some(MicroOp::CallAbsolute { addr: d16 })
        } else {
            None
        }
    } else if z == 6 {
        Some(alu_imm(y, d8))
    } else {
        Some(MicroOp::Restart { vector: (y * 8) as u16 })
    }
}

/// The operation of an opcode given its operand byte and word.
pub fn decode_operation(op: u8, d8: u8, d16: u16) -> (r: Option<MicroOp>)
    ensures
        r == decode_op(op, d8, d16),
{
    if op < 0x40 {
        Some(low_quarter(op, d8, d16))
    } else if op < 0x80 {
        Some(load_quarter(op))
    } else if op < 0xC0 {
        Some(alu_quarter(op))
    } else {
        high_quarter(op, d8, d16)
    }
}

/// How many operand bytes follow an opcode.
pub fn operand_length(op: u8) -> (r: u8)
    ensures
        r == operand_len(op),
{
    let z = op % 8;
    let y = (op / 8) % 8;
    if op < 0x40 {
        if (z == 1 && y % 2 == 0) || (z == 0 && y == 1) {
            2
        } else if z == 6 || (z == 0 && y >= 2) {
            1
        } else {
            0
        }
    } else if op < 0xC0 {
        0
    } else if (z == 2 && (y <= 3 || y == 5 || y == 7)) || (z == 3 && y == 0) || (z == 4 && y <= 3)
        || (z == 5 && y == 1) {
        2
    } else if (z == 0 && y >= 4) || (z == 3 && y == 1) || z == 6 {
        1
    } else {
        0
    }
}

/// Whether an operation addresses memory through a register or an address
/// (the stack and the instruction stream aside).
pub open spec fn addresses_memory(op: MicroOp) -> bool {
    match op {
        MicroOp::LdReg8FromMem { .. }
        | MicroOp::LdReg8FromReg16 { .. }
        | MicroOp::LdReg8FromMemIncHL { .. }
        | MicroOp::LdReg8FromMemDecHL { .. }
        | MicroOp::LdMemFromReg8IncHL { .. }
        | MicroOp::LdMemFromReg8DecHL { .. }
        | MicroOp::LdMemFromReg8 { .. }
        | MicroOp::LdA8FromA { .. }
        | MicroOp::LdAFromA8 { .. }
        | MicroOp::LdCFromA
        | MicroOp::LdAFromC
        | MicroOp::LdMemFromA { .. }
        | MicroOp::LdAFromMem { .. }
        | MicroOp::LdReg16FromMem { .. }
        | MicroOp::LdMemImm16FromReg16 { .. }
        | MicroOp::LdMemFromImm8 { .. }
        | MicroOp::IncMemHL
        | MicroOp::DecMemHL
        | MicroOp::AddReg8Mem { .. }
        | MicroOp::AddCarry8Mem { .. }
        | MicroOp::SubReg8Mem { .. }
        | MicroOp::SubCarry8Mem { .. }
        | MicroOp::XorReg8Mem { .. }
        | MicroOp::OrReg8Mem { .. }
        | MicroOp::AndReg8Mem { .. }
        | MicroOp::CpReg8Mem { .. }
        | MicroOp::RlRegHl
        | MicroOp::RlcRegHl
        | MicroOp::RrRegHl
        | MicroOp::RrcRegHl
        | MicroOp::SlaRegHl
        | MicroOp::SraRegHl
        | MicroOp::SrlRegHl
        | MicroOp::SwapRegHl
        | MicroOp::BitRegHl { .. }
        | MicroOp::ResRegHl { .. }
        | MicroOp::SetRegHl { .. } => true,
        _ => false,
    }
}

/// Whether an operation addresses memory through a register or an address.
fn operation_addresses_memory(op: MicroOp) -> (r: bool)
    ensures
        r == addresses_memory(op),
{
    match op {
        MicroOp::LdReg8FromMem { .. }
        | MicroOp::LdReg8FromReg16 { .. }
        | MicroOp::LdReg8FromMemIncHL { .. }
        | MicroOp::LdReg8FromMemDecHL { .. }
        | MicroOp::LdMemFromReg8IncHL { .. }
        | MicroOp::LdMemFromReg8DecHL { .. }
        | MicroOp::LdMemFromReg8 { .. }
        | MicroOp::LdA8FromA { .. }
        | MicroOp::LdAFromA8 { .. }
        | MicroOp::LdCFromA
        | MicroOp::LdAFromC
        | MicroOp::LdMemFromA { .. }
        | MicroOp::LdAFromMem { .. }
        | MicroOp::LdReg16FromMem { .. }
        | MicroOp::LdMemImm16FromReg16 { .. }
        | MicroOp::LdMemFromImm8 { .. }
        | MicroOp::IncMemHL
        | MicroOp::DecMemHL
        | MicroOp::AddReg8Mem { .. }
        | MicroOp::AddCarry8Mem { .. }
        | MicroOp::SubReg8Mem { .. }
        | MicroOp::SubCarry8Mem { .. }
        | MicroOp::XorReg8Mem { .. }
        | MicroOp::OrReg8Mem { .. }
        | MicroOp::AndReg8Mem { .. }
        | MicroOp::CpReg8Mem { .. }
        | MicroOp::RlRegHl
        | MicroOp::RlcRegHl
        | MicroOp::RrRegHl
        | MicroOp::RrcRegHl
        | MicroOp::SlaRegHl
        | MicroOp::SraRegHl
        | MicroOp::SrlRegHl
        | MicroOp::SwapRegHl
        | MicroOp::BitRegHl { .. }
        | MicroOp::ResRegHl { .. }
        | MicroOp::SetRegHl { .. } => true,
        _ => false,
    }
}

/// The mnemonic of a primary opcode, for diagnostics.
pub open spec fn mnemonic_text(opcode: u8) -> Seq<char> {
    match opcode {
        0x00 => "NOP"@,
        0x01 => "LD"@,
        0x02 => "LD"@,
        0x03 => "INC"@,
        0x04 => "INC"@,
        0x05 => "DEC"@,
        0x06 => "LD"@,
        0x07 => "RLCA"@,
        0x08 => "LD"@,
        0x09 => "ADD"@,
        0x0A => "LD"@,
        0x0B => "DEC"@,
        0x0C => "INC"@,
        0x0D => "DEC"@,
        0x0E => "LD"@,
        0x0F => "RRCA"@,
        0x10 => "STOP"@,
        0x11 => "LD"@,
        0x12 => "LD"@,
        0x13 => "INC"@,
        0x14 => "INC"@,
        0x15 => "DEC"@,
        0x16 => "LD"@,
        0x17 => "RLA"@,
        0x18 => "JR"@,
        0x19 => "ADD"@,
        0x1A => "LD"@,
        0x1B => "DEC"@,
        0x1C => "INC"@,
        0x1D => "DEC"@,
        0x1E => "LD"@,
        0x1F => "RRA"@,
        0x20 => "JR"@,
        0x21 => "LD"@,
        0x22 => "LD"@,
        0x23 => "INC"@,
        0x24 => "INC"@,
        0x25 => "DEC"@,
        0x26 => "LD"@,
        0x27 => "DAA"@,
        0x28 => "JR"@,
        0x29 => "ADD"@,
        0x2A => "LD"@,
        0x2B => "DEC"@,
        0x2C => "INC"@,
        0x2D => "DEC"@,
        0x2E => "LD"@,
        0x2F => "CPL"@,
        0x30 => "JR"@,
        0x31 => "LD"@,
        0x32 => "LD"@,
        0x33 => "INC"@,
        0x34 => "INC"@,
        0x35 => "DEC"@,
        0x36 => "LD"@,
        0x37 => "SCF"@,
        0x38 => "JR"@,
        0x39 => "ADD"@,
        0x3A => "LD"@,
        0x3B => "DEC"@,
        0x3C => "INC"@,
        0x3D => "DEC"@,
        0x3E => "LD"@,
        0x3F => "CCF"@,
        0x40 => "LD"@,
        0x41 => "LD"@,
        0x42 => "LD"@,
        0x43 => "LD"@,
        0x44 => "LD"@,
        0x45 => "LD"@,
        0x46 => "LD"@,
        0x47 => "LD"@,
        0x48 => "LD"@,
        0x49 => "LD"@,
        0x4A => "LD"@,
        0x4B => "LD"@,
        0x4C => "LD"@,
        0x4D => "LD"@,
        0x4E => "LD"@,
        0x4F => "LD"@,
        0x50 => "LD"@,
        0x51 => "LD"@,
        0x52 => "LD"@,
        0x53 => "LD"@,
        0x54 => "LD"@,
        0x55 => "LD"@,
        0x56 => "LD"@,
        0x57 => "LD"@,
        0x58 => "LD"@,
        0x59 => "LD"@,
        0x5A => "LD"@,
        0x5B => "LD"@,
        0x5C => "LD"@,
        0x5D => "LD"@,
        0x5E => "LD"@,
        0x5F => "LD"@,
        0x60 => "LD"@,
        0x61 => "LD"@,
        0x62 => "LD"@,
        0x63 => "LD"@,
        0x64 => "LD"@,
        0x65 => "LD"@,
        0x66 => "LD"@,
        0x67 => "LD"@,
        0x68 => "LD"@,
        0x69 => "LD"@,
        0x6A => "LD"@,
        0x6B => "LD"@,
        0x6C => "LD"@,
        0x6D => "LD"@,
        0x6E => "LD"@,
        0x6F => "LD"@,
        0x70 => "LD"@,
        0x71 => "LD"@,
        0x72 => "LD"@,
        0x73 => "LD"@,
        0x74 => "LD"@,
        0x75 => "LD"@,
        0x76 => "HALT"@,
        0x77 => "LD"@,
        0x78 => "LD"@,
        0x79 => "LD"@,
        0x7A => "LD"@,
        0x7B => "LD"@,
        0x7C => "LD"@,
        0x7D => "LD"@,
        0x7E => "LD"@,
        0x7F => "LD"@,
        0x80 => "ADD"@,
        0x81 => "ADD"@,
        0x82 => "ADD"@,
        0x83 => "ADD"@,
        0x84 => "ADD"@,
        0x85 => "ADD"@,
        0x86 => "ADD"@,
        0x87 => "ADD"@,
        0x88 => "ADC"@,
        0x89 => "ADC"@,
        0x8A => "ADC"@,
        0x8B => "ADC"@,
        0x8C => "ADC"@,
        0x8D => "ADC"@,
        0x8E => "ADC"@,
        0x8F => "ADC"@,
        0x90 => "SUB"@,
        0x91 => "SUB"@,
        0x92 => "SUB"@,
        0x93 => "SUB"@,
        0x94 => "SUB"@,
        0x95 => "SUB"@,
        0x96 => "SUB"@,
        0x97 => "SUB"@,
        0x98 => "SBC"@,
        0x99 => "SBC"@,
        0x9A => "SBC"@,
        0x9B => "SBC"@,
        0x9C => "SBC"@,
        0x9D => "SBC"@,
        0x9E => "SBC"@,
        0x9F => "SBC"@,
        0xA0 => "AND"@,
        0xA1 => "AND"@,
        0xA2 => "AND"@,
        0xA3 => "AND"@,
        0xA4 => "AND"@,
        0xA5 => "AND"@,
        0xA6 => "AND"@,
        0xA7 => "AND"@,
        0xA8 => "XOR"@,
        0xA9 => "XOR"@,
        0xAA => "XOR"@,
        0xAB => "XOR"@,
        0xAC => "XOR"@,
        0xAD => "XOR"@,
        0xAE => "XOR"@,
        0xAF => "XOR"@,
        0xB0 => "OR"@,
        0xB1 => "OR"@,
        0xB2 => "OR"@,
        0xB3 => "OR"@,
        0xB4 => "OR"@,
        0xB5 => "OR"@,
        0xB6 => "OR"@,
        0xB7 => "OR"@,
        0xB8 => "CP"@,
        0xB9 => "CP"@,
        0xBA => "CP"@,
        0xBB => "CP"@,
        0xBC => "CP"@,
        0xBD => "CP"@,
        0xBE => "CP"@,
        0xBF => "CP"@,
        0xC0 => "RET"@,
        0xC1 => "POP"@,
        0xC2 => "JP"@,
        0xC3 => "JP"@,
        0xC4 => "CALL"@,
        0xC5 => "PUSH"@,
        0xC6 => "ADD"@,
        0xC7 => "RST"@,
        0xC8 => "RET"@,
        0xC9 => "RET"@,
        0xCA => "JP"@,
        0xCB => "PREFIX"@,
        0xCC => "CALL"@,
        0xCD => "CALL"@,
        0xCE => "ADC"@,
        0xCF => "RST"@,
        0xD0 => "RET"@,
        0xD1 => "POP"@,
        0xD2 => "JP"@,
        0xD3 => "ILLEGAL_D3"@,
        0xD4 => "CALL"@,
        0xD5 => "PUSH"@,
        0xD6 => "SUB"@,
        0xD7 => "RST"@,
        0xD8 => "RET"@,
        0xD9 => "RETI"@,
        0xDA => "JP"@,
        0xDB => "ILLEGAL_DB"@,
        0xDC => "CALL"@,
        0xDD => "ILLEGAL_DD"@,
        0xDE => "SBC"@,
        0xDF => "RST"@,
        0xE0 => "LDH"@,
        0xE1 => "POP"@,
        0xE2 => "LDH"@,
        0xE3 => "ILLEGAL_E3"@,
        0xE4 => "ILLEGAL_E4"@,
        0xE5 => "PUSH"@,
        0xE6 => "AND"@,
        0xE7 => "RST"@,
        0xE8 => "ADD"@,
        0xE9 => "JP"@,
        0xEA => "LD"@,
        0xEB => "ILLEGAL_EB"@,
        0xEC => "ILLEGAL_EC"@,
        0xED => "ILLEGAL_ED"@,
        0xEE => "XOR"@,
        0xEF => "RST"@,
        0xF0 => "LDH"@,
        0xF1 => "POP"@,
        0xF2 => "LDH"@,
        0xF3 => "DI"@,
        0xF4 => "ILLEGAL_F4"@,
        0xF5 => "PUSH"@,
        0xF6 => "OR"@,
        0xF7 => "RST"@,
        0xF8 => "LD"@,
        0xF9 => "LD"@,
        0xFA => "LD"@,
        0xFB => "EI"@,
        0xFC => "ILLEGAL_FC"@,
        0xFD => "ILLEGAL_FD"@,
        0xFE => "CP"@,
        _ => "RST"@,
    }
}

/// The mnemonic of a primary opcode.
fn mnemonic(opcode: u8) -> (r: &'static str)
    ensures
        r@ == mnemonic_text(opcode),
{
    match opcode {
        0x00 => "NOP",
        0x01 => "LD",
        0x02 => "LD",
        0x03 => "INC",
        0x04 => "INC",
        0x05 => "DEC",
        0x06 => "LD",
        0x07 => "RLCA",
        0x08 => "LD",
        0x09 => "ADD",
        0x0A => "LD",
        0x0B => "DEC",
        0x0C => "INC",
        0x0D => "DEC",
        0x0E => "LD",
        0x0F => "RRCA",
        0x10 => "STOP",
        0x11 => "LD",
        0x12 => "LD",
        0x13 => "INC",
        0x14 => "INC",
        0x15 => "DEC",
        0x16 => "LD",
        0x17 => "RLA",
        0x18 => "JR",
        0x19 => "ADD",
        0x1A => "LD",
        0x1B => "DEC",
        0x1C => "INC",
        0x1D => "DEC",
        0x1E => "LD",
        0x1F => "RRA",
        0x20 => "JR",
        0x21 => "LD",
        0x22 => "LD",
        0x23 => "INC",
        0x24 => "INC",
        0x25 => "DEC",
        0x26 => "LD",
        0x27 => "DAA",
        0x28 => "JR",
        0x29 => "ADD",
        0x2A => "LD",
        0x2B => "DEC",
        0x2C => "INC",
        0x2D => "DEC",
        0x2E => "LD",
        0x2F => "CPL",
        0x30 => "JR",
        0x31 => "LD",
        0x32 => "LD",
        0x33 => "INC",
        0x34 => "INC",
        0x35 => "DEC",
        0x36 => "LD",
        0x37 => "SCF",
        0x38 => "JR",
        0x39 => "ADD",
        0x3A => "LD",
        0x3B => "DEC",
        0x3C => "INC",
        0x3D => "DEC",
        0x3E => "LD",
        0x3F => "CCF",
        0x40 => "LD",
        0x41 => "LD",
        0x42 => "LD",
        0x43 => "LD",
        0x44 => "LD",
        0x45 => "LD",
        0x46 => "LD",
        0x47 => "LD",
        0x48 => "LD",
        0x49 => "LD",
        0x4A => "LD",
        0x4B => "LD",
        0x4C => "LD",
        0x4D => "LD",
        0x4E => "LD",
        0x4F => "LD",
        0x50 => "LD",
        0x51 => "LD",
        0x52 => "LD",
        0x53 => "LD",
        0x54 => "LD",
        0x55 => "LD",
        0x56 => "LD",
        0x57 => "LD",
        0x58 => "LD",
        0x59 => "LD",
        0x5A => "LD",
        0x5B => "LD",
        0x5C => "LD",
        0x5D => "LD",
        0x5E => "LD",
        0x5F => "LD",
        0x60 => "LD",
        0x61 => "LD",
        0x62 => "LD",
        0x63 => "LD",
        0x64 => "LD",
        0x65 => "LD",
        0x66 => "LD",
        0x67 => "LD",
        0x68 => "LD",
        0x69 => "LD",
        0x6A => "LD",
        0x6B => "LD",
        0x6C => "LD",
        0x6D => "LD",
        0x6E => "LD",
        0x6F => "LD",
        0x70 => "LD",
        0x71 => "LD",
        0x72 => "LD",
        0x73 => "LD",
        0x74 => "LD",
        0x75 => "LD",
        0x76 => "HALT",
        0x77 => "LD",
        0x78 => "LD",
        0x79 => "LD",
        0x7A => "LD",
        0x7B => "LD",
        0x7C => "LD",
        0x7D => "LD",
        0x7E => "LD",
        0x7F => "LD",
        0x80 => "ADD",
        0x81 => "ADD",
        0x82 => "ADD",
        0x83 => "ADD",
        0x84 => "ADD",
        0x85 => "ADD",
        0x86 => "ADD",
        0x87 => "ADD",
        0x88 => "ADC",
        0x89 => "ADC",
        0x8A => "ADC",
        0x8B => "ADC",
        0x8C => "ADC",
        0x8D => "ADC",
        0x8E => "ADC",
        0x8F => "ADC",
        0x90 => "SUB",
        0x91 => "SUB",
        0x92 => "SUB",
        0x93 => "SUB",
        0x94 => "SUB",
        0x95 => "SUB",
        0x96 => "SUB",
        0x97 => "SUB",
        0x98 => "SBC",
        0x99 => "SBC",
        0x9A => "SBC",
        0x9B => "SBC",
        0x9C => "SBC",
        0x9D => "SBC",
        0x9E => "SBC",
        0x9F => "SBC",
        0xA0 => "AND",
        0xA1 => "AND",
        0xA2 => "AND",
        0xA3 => "AND",
        0xA4 => "AND",
        0xA5 => "AND",
        0xA6 => "AND",
        0xA7 => "AND",
        0xA8 => "XOR",
        0xA9 => "XOR",
        0xAA => "XOR",
        0xAB => "XOR",
        0xAC => "XOR",
        0xAD => "XOR",
        0xAE => "XOR",
        0xAF => "XOR",
        0xB0 => "OR",
        0xB1 => "OR",
        0xB2 => "OR",
        0xB3 => "OR",
        0xB4 => "OR",
        0xB5 => "OR",
        0xB6 => "OR",
        0xB7 => "OR",
        0xB8 => "CP",
        0xB9 => "CP",
        0xBA => "CP",
        0xBB => "CP",
        0xBC => "CP",
        0xBD => "CP",
        0xBE => "CP",
        0xBF => "CP",
        0xC0 => "RET",
        0xC1 => "POP",
        0xC2 => "JP",
        0xC3 => "JP",
        0xC4 => "CALL",
        0xC5 => "PUSH",
        0xC6 => "ADD",
        0xC7 => "RST",
        0xC8 => "RET",
        0xC9 => "RET",
        0xCA => "JP",
        0xCB => "PREFIX",
        0xCC => "CALL",
        0xCD => "CALL",
        0xCE => "ADC",
        0xCF => "RST",
        0xD0 => "RET",
        0xD1 => "POP",
        0xD2 => "JP",
        0xD3 => "ILLEGAL_D3",
        0xD4 => "CALL",
        0xD5 => "PUSH",
        0xD6 => "SUB",
        0xD7 => "RST",
        0xD8 => "RET",
        0xD9 => "RETI",
        0xDA => "JP",
        0xDB => "ILLEGAL_DB",
        0xDC => "CALL",
        0xDD => "ILLEGAL_DD",
        0xDE => "SBC",
        0xDF => "RST",
        0xE0 => "LDH",
        0xE1 => "POP",
        0xE2 => "LDH",
        0xE3 => "ILLEGAL_E3",
        0xE4 => "ILLEGAL_E4",
        0xE5 => "PUSH",
        0xE6 => "AND",
        0xE7 => "RST",
        0xE8 => "ADD",
        0xE9 => "JP",
        0xEA => "LD",
        0xEB => "ILLEGAL_EB",
        0xEC => "ILLEGAL_EC",
        0xED => "ILLEGAL_ED",
        0xEE => "XOR",
        0xEF => "RST",
        0xF0 => "LDH",
        0xF1 => "POP",
        0xF2 => "LDH",
        0xF3 => "DI",
        0xF4 => "ILLEGAL_F4",
        0xF5 => "PUSH",
        0xF6 => "OR",
        0xF7 => "RST",
        0xF8 => "LD",
        0xF9 => "LD",
        0xFA => "LD",
        0xFB => "EI",
        0xFC => "ILLEGAL_FC",
        0xFD => "ILLEGAL_FD",
        0xFE => "CP",
        _ => "RST",
    }
}

/// What the opcode table says of an opcode: its mnemonic, its length in
/// bytes (the opcode included), and whether it works without addressing
/// memory through a register or an address.
#[derive(Clone, Copy, Debug)]
pub struct Opcode {
    pub mnemonic: &'static str,
    pub bytes: u8,
    pub immediate: bool,
}

/// The descriptor of a primary opcode. For the CB prefix, whose operation
/// depends on the next byte, `immediate` is true; so it is for an undefined
/// opcode.
pub fn opcode_info(opcode: u8) -> (r: Opcode)
    ensures
        r.mnemonic@ == mnemonic_text(opcode),
        r.bytes == 1 + operand_len(opcode),
        r.immediate == opcode_immediate(opcode),
{
    let indirect = if opcode == CB_PREFIX {
        false
    } else {
        match decode_operation(opcode, 0, 0) {
            Some(op) => operation_addresses_memory(op),
            None => false,
        }
    };
    Opcode { mnemonic: mnemonic(opcode), bytes: 1 + operand_length(opcode), immediate: !indirect }
}

/// Whether the table marks an opcode as working without addressing memory
/// through a register or an address. The CB prefix, whose operation
/// depends on the next byte, and undefined opcodes are marked so.
pub open spec fn opcode_immediate(opcode: u8) -> bool {
    if opcode == CB_PREFIX || decode_op(opcode, 0, 0) is None {
        true
    } else {
        !addresses_memory(decode_op(opcode, 0, 0)->Some_0)
    }
}

/// `r` is the descriptor of primary opcode `opcode`.
pub open spec fn describes(r: Opcode, opcode: u8) -> bool {
    &&& r.mnemonic@ == mnemonic_text(opcode)
    &&& r.bytes == 1 + operand_len(opcode)
    &&& r.immediate == opcode_immediate(opcode)
}

/// The mnemonic of a CB-prefixed opcode, for diagnostics.
pub open spec fn cb_mnemonic_text(cb: u8) -> Seq<char> {
    let k = cb / 8;
    if k == 0 {
        "RLC"@
    } else if k == 1 {
        "RRC"@
    } else if k == 2 {
        "RL"@
    } else if k == 3 {
        "RR"@
    } else if k == 4 {
        "SLA"@
    } else if k == 5 {
        "SRA"@
    } else if k == 6 {
        "SWAP"@
    } else if k == 7 {
        "SRL"@
    } else if k < 16 {
        "BIT"@
    } else if k < 24 {
        "RES"@
    } else {
        "SET"@
    }
}

/// `r` is the descriptor of the CB-prefixed opcode `cb`: two bytes long,
/// addressing memory exactly when its operand is the byte at HL.
pub open spec fn describes_cb(r: Opcode, cb: u8) -> bool {
    &&& r.mnemonic@ == cb_mnemonic_text(cb)
    &&& r.bytes == 2
    &&& r.immediate == (cb % 8 != 6)
}

/// The mnemonic of a CB-prefixed opcode.
fn cb_mnemonic(cb: u8) -> (r: &'static str)
    ensures
        r@ == cb_mnemonic_text(cb),
{
    let k = cb / 8;
    if k == 0 {
        "RLC"
    } else if k == 1 {
        "RRC"
    } else if k == 2 {
        "RL"
    } else if k == 3 {
        "RR"
    } else if k == 4 {
        "SLA"
    } else if k == 5 {
        "SRA"
    } else if k == 6 {
        "SWAP"
    } else if k == 7 {
        "SRL"
    } else if k < 16 {
        "BIT"
    } else if k < 24 {
        "RES"
    } else {
        "SET"
    }
}

/// The descriptor of a CB-prefixed opcode, from the secondary table.
pub fn cb_opcode_info(cb: u8) -> (r: Opcode)
    ensures
        describes_cb(r, cb),
        r.immediate == !addresses_memory(cb_op(cb)),
{
    Opcode { mnemonic: cb_mnemonic(cb), bytes: 2, immediate: cb % 8 != 6 }
}

impl Cpu {
    /// Reads the byte at PC and advances PC by one, wrapping.
    pub fn fetch8(&mut self) -> (r: u8)
        requires
            old(self).wf(),
        ensures
            final(self).wf(),
            r == old(self)@.read(old(self).regs.pc),
            final(self)@ == old(self)@.set16(Reg16::PC, old(self).regs.pc.wrapping_add(1)),
            final(self).cycles == old(self).cycles,
    {
        let pc = self.regs.pc;
        let byte = self.inter.read_byte(pc);
        self.regs.pc = pc.wrapping_add(1);
        byte
    }

    /// Reads the little-endian word at PC and advances PC by two, wrapping.
    pub fn fetch16(&mut self) -> (r: u16)
        requires
            old(self).wf(),
        ensures
            final(self).wf(),
            r == word(
                old(self)@.read(old(self).regs.pc.wrapping_add(1)),
                old(self)@.read(old(self).regs.pc),
            ),
            final(self)@ == old(self)@.set16(Reg16::PC, old(self).regs.pc.wrapping_add(2)),
            final(self).cycles == old(self).cycles,
    {
        let lo = self.fetch8();
        let hi = self.fetch8();
        join_bytes(hi, lo)
    }

    /// The operations of a CB-prefixed byte.
    pub fn cb_decode(&self, cb: u8) -> (r: Vec<MicroOp>)
        ensures
            r@ == seq![cb_op(cb)],
    {
        vec![cb_operation(cb)]
    }

    /// Decodes `opcode`, whose byte was fetched already: reads its operand
    /// bytes from the instruction stream, advancing PC past them, and
    /// returns the operations that carry it out. An undefined opcode is
    /// reported with the address it was read from, and nothing changes.
    pub fn decode(&mut self, opcode: u8) -> (r: Result<Vec<MicroOp>, CpuError>)
        requires
            old(self).wf(),
        ensures
            final(self).wf(),
            final(self).cycles == old(self).cycles,
            decode_spec(old(self)@, opcode) is Ok ==> r is Ok && r->Ok_0@ == decode_spec(
                old(self)@,
                opcode,
            )->Ok_0.0 && final(self)@ == decode_spec(old(self)@, opcode)->Ok_0.1,
            decode_spec(old(self)@, opcode) is Err ==> r is Err && r->Err_0 == decode_spec(
                old(self)@,
                opcode,
            )->Err_0 && final(self)@ == old(self)@,
    {
        let ghost s0 = self@;
        let pc = self.regs.pc;
        let n = operand_length(opcode);
        let mut d8: u8 = 0;
        let mut d16: u16 = 0;
        if n >= 1 {
            d8 = self.fetch8();
            d16 = d8 as u16;
        }
        if n >= 2 {
            let hi = self.fetch8();
            d16 = join_bytes(hi, d8);
        }
        proof {
            let bytes = stream(s0.mem, pc, operand_len(opcode));
            assert(pc.wrapping_add(0u16) == pc);
            if n >= 2 {
                assert(pc.wrapping_add(1).wrapping_add(1) == pc.wrapping_add(2));
            }
            assert(decode_bytes(opcode, bytes) == decode_op(opcode, d8, d16));
        }
        match decode_operation(opcode, d8, d16) {
            Some(op) => Ok(vec![op]),
            None => Err(CpuError::IllegalOpcode { opcode, pc: pc.wrapping_sub(1) }),
        }
    }
}

} // verus!
