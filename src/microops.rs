//! The closed set of indivisible CPU actions that the decoder produces and
//! the executor applies. Operand bytes read from the instruction stream are
//! carried in the fields, so that execution never reads that stream.
use crate::registers::{Flag, Reg16, Reg8};
use vstd::prelude::*;

verus! {

#[derive(Clone, Copy, Debug, PartialEq, Eq, Structural)]
pub enum MicroOp {
    Nop,
    Halt,
    Stop,
    LdReg8FromReg8 { dst: Reg8, src: Reg8 },
    /// Load from the address held in a 16-bit register.
    LdReg8FromMem { dst: Reg8, src: Reg16 },
    LdReg8FromImm { dst: Reg8, value: u8 },
    LdReg8FromMemIncHL { dst: Reg8 },
    LdMemFromReg8IncHL { src: Reg8 },
    LdMemFromReg8DecHL { src: Reg8 },
    LdReg8FromMemDecHL { dst: Reg8 },
    LdMemFromReg8 { addr: Reg16, src: Reg8 },
    /// Store A at 0xFF00 + offset.
    LdA8FromA { offset: u8 },
    /// Load A from 0xFF00 + offset.
    LdAFromA8 { offset: u8 },
    /// Store A at 0xFF00 + C.
    LdCFromA,
    /// Load A from 0xFF00 + C.
    LdAFromC,
    LdMemFromA { addr: u16 },
    LdAFromMem { addr: u16 },
    /// Load a little-endian word from the address held in `src`.
    LdReg16FromMem { dst: Reg16, src: Reg16 },
    LdReg16FromImm { dst: Reg16, value: u16 },
    LdReg16FromReg16 { dst: Reg16, src: Reg16 },
    /// Store a 16-bit register, little-endian, at an absolute address.
    LdMemImm16FromReg16 { addr: u16, src: Reg16 },
    LdReg8FromReg16 { dst: Reg8, src: Reg16 },
    LdMemFromImm8 { addr: Reg16, value: u8 },
    IncReg8 { reg: Reg8 },
    DecReg8 { reg: Reg8 },
    IncReg16 { reg: Reg16 },
    DecReg16 { reg: Reg16 },
    IncMemHL,
    DecMemHL,
    AddReg8 { dst: Reg8, src: Reg8 },
    AddReg8Mem { dst: Reg8, src: Reg16 },
    AddReg8Imm { dst: Reg8, addr: u8 },
    AddReg16 { dst: Reg16, src: Reg16 },
    AddCarry8 { dst: Reg8, src: Reg8 },
    AddCarry8Mem { dst: Reg8, src: Reg16 },
    AddCarry8Imm { dst: Reg8, addr: u8 },
    SubReg8 { dst: Reg8, src: Reg8 },
    SubReg8Mem { dst: Reg8, src: Reg16 },
    SubReg8Imm { dst: Reg8, addr: u8 },
    SubCarry8 { dst: Reg8, src: Reg8 },
    SubCarry8Mem { dst: Reg8, src: Reg16 },
    SubCarry8Imm { dst: Reg8, addr: u8 },
    XorReg8 { dst: Reg8, src: Reg8 },
    XorReg8Mem { dst: Reg8, src: Reg16 },
    XorReg8Imm { dst: Reg8, addr: u8 },
    CpReg8 { dst: Reg8, src: Reg8 },
    CpReg8Mem { dst: Reg8, src: Reg16 },
    CpReg8Imm { dst: Reg8, addr: u8 },
    OrReg8 { dst: Reg8, src: Reg8 },
    OrReg8Mem { dst: Reg8, src: Reg16 },
    OrReg8Imm { dst: Reg8, addr: u8 },
    AndReg8 { dst: Reg8, src: Reg8 },
    AndReg8Mem { dst: Reg8, src: Reg16 },
    AndReg8Imm { dst: Reg8, addr: u8 },
    PushReg16 { reg: Reg16 },
    PopReg16 { reg: Reg16 },
    JumpAbsolute { addr: u16 },
    JumpAbsoluteIf { addr: u16, flag: Flag, expected: bool },
    JumpRelative { offset: i8 },
    JumpRelativeIf { offset: i8, flag: Flag, expected: bool },
    JumpHL,
    CallAbsolute { addr: u16 },
    CallAbsoluteIf { addr: u16, flag: Flag, expected: bool },
    Return,
    ReturnIf { flag: Flag, expected: bool },
    Reti,
    Restart { vector: u16 },
    Rlca,
    Rrca,
    Rla,
    Rra,
    Di,
    Ei,
    Cpl,
    Ccf,
    Scf,
    Daa,
    RlReg8 { dst: Reg8 },
    RlcReg8 { dst: Reg8 },
    RrReg8 { dst: Reg8 },
    RrcReg8 { dst: Reg8 },
    SlaReg8 { dst: Reg8 },
    SraReg8 { dst: Reg8 },
    SrlReg8 { dst: Reg8 },
    SwapReg8 { dst: Reg8 },
    RlRegHl,
    RlcRegHl,
    RrRegHl,
    RrcRegHl,
    SlaRegHl,
    SraRegHl,
    SrlRegHl,
    SwapRegHl,
    AddImmToSP { imm: i8 },
    BitReg8 { bit: u8, reg: Reg8 },
    BitRegHl { bit: u8 },
    ResReg8 { bit: u8, reg: Reg8 },
    ResRegHl { bit: u8 },
    SetReg8 { bit: u8, reg: Reg8 },
    SetRegHl { bit: u8 },
    LdHLSPPlusR8 { offset: i8 },
}

} // verus!
