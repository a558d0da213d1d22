//! One function for each instruction of the primary opcode table, as
//! carried out once its opcode byte has been fetched (PC just past it), and
//! the small helpers that instruction handlers share.
use crate::alu::{adc8, add8};
use crate::cpu::{dispatch_spec, step_spec, Cpu};
use crate::decoder::{
    cb_opcode_info, decode_op, describes, describes_cb, opcode_info, CpuError, Opcode, CB_PREFIX,
};
use crate::microops::MicroOp;
use crate::registers::{word, Flag, Reg16, Reg8};
use crate::semantics::{execute, flags_of, CpuState};
use vstd::prelude::*;

verus! {

/// Whether an opcode has a definition, whatever its operand bytes.
pub open spec fn defined(opcode: u8) -> bool {
    forall|d8: u8, d16: u16| #[trigger] decode_op(opcode, d8, d16) is Some
}

/// Carrying out the instruction `opcode`, fetched already, takes `before`
/// to `after` in `ticks` clock ticks.
pub open spec fn performs(before: CpuState, after: CpuState, opcode: u8, ticks: u8) -> bool {
    dispatch_spec(before, opcode) == Ok::<(CpuState, u8), CpuError>((after, ticks))
}

fn run(cpu: &mut Cpu, opcode: u8) -> (ticks: u8)
    requires
        old(cpu).wf(),
        defined(opcode),
    ensures
        final(cpu).wf(),
        performs(old(cpu)@, final(cpu)@, opcode, ticks),
{
    match cpu.dispatch(opcode) {
        Ok(ticks) => ticks,
        Err(_) => 0,
    }
}

/// Runs one instruction, as `Cpu::step` does.
pub fn process_instruction(cpu: &mut Cpu) -> (r: Result<u8, CpuError>)
    requires
        old(cpu).wf(),
    ensures
        final(cpu).wf(),
        (final(cpu)@, r) == step_spec(old(cpu)@),
{
    cpu.step()
}

/// Reads the opcode at PC and returns its descriptor. After the CB prefix
/// the next byte is read as well and looked up in the secondary table, and
/// PC ends past both; otherwise PC ends past the one byte.
pub fn fetch_opcode(cpu: &mut Cpu) -> (r: Opcode)
    requires
        old(cpu).wf(),
    ensures
        final(cpu).wf(),
        old(cpu)@.read(old(cpu).regs.pc) == CB_PREFIX ==> describes_cb(
            r,
            old(cpu)@.read(old(cpu).regs.pc.wrapping_add(1)),
        ) && final(cpu)@ == old(cpu)@.set16(Reg16::PC, old(cpu).regs.pc.wrapping_add(2)),
        old(cpu)@.read(old(cpu).regs.pc) != CB_PREFIX ==> describes(
            r,
            old(cpu)@.read(old(cpu).regs.pc),
        ) && final(cpu)@ == old(cpu)@.set16(Reg16::PC, old(cpu).regs.pc.wrapping_add(1)),
{
    let byte = cpu.fetch8();
    if byte == CB_PREFIX {
        let cb = cpu.fetch8();
        assert(old(cpu).regs.pc.wrapping_add(1).wrapping_add(1) == old(cpu).regs.pc.wrapping_add(2));
        cb_opcode_info(cb)
    } else {
        opcode_info(byte)
    }
}

/// Returns the byte at PC and advances PC by one.
pub fn next_byte(cpu: &mut Cpu) -> (r: u8)
    requires
        old(cpu).wf(),
    ensures
        final(cpu).wf(),
        r == old(cpu)@.read(old(cpu).regs.pc),
        final(cpu)@ == old(cpu)@.set16(Reg16::PC, old(cpu).regs.pc.wrapping_add(1)),
{
    cpu.fetch8()
}

/// Returns the byte at PC and advances PC by one.
pub fn read_u8_from_pc(cpu: &mut Cpu) -> (r: u8)
    requires
        old(cpu).wf(),
    ensures
        final(cpu).wf(),
        r == old(cpu)@.read(old(cpu).regs.pc),
        final(cpu)@ == old(cpu)@.set16(Reg16::PC, old(cpu).regs.pc.wrapping_add(1)),
{
    cpu.fetch8()
}

/// Returns the little-endian word at PC and advances PC by two.
pub fn next_word(cpu: &mut Cpu) -> (r: u16)
    requires
        old(cpu).wf(),
    ensures
        final(cpu).wf(),
        r == word(old(cpu)@.read(old(cpu).regs.pc.wrapping_add(1)), old(cpu)@.read(old(cpu).regs.pc)),
        final(cpu)@ == old(cpu)@.set16(Reg16::PC, old(cpu).regs.pc.wrapping_add(2)),
{
    cpu.fetch16()
}

/// Returns the little-endian word at PC and advances PC by two.
pub fn read_u16_from_pc(cpu: &mut Cpu) -> (r: u16)
    requires
        old(cpu).wf(),
    ensures
        final(cpu).wf(),
        r == word(old(cpu)@.read(old(cpu).regs.pc.wrapping_add(1)), old(cpu)@.read(old(cpu).regs.pc)),
        final(cpu)@ == old(cpu)@.set16(Reg16::PC, old(cpu).regs.pc.wrapping_add(2)),
{
    cpu.fetch16()
}

/// LD r,r': copies one register into another; returns the clock ticks.
pub fn ld_r_r(cpu: &mut Cpu, dest: Reg8, src: Reg8) -> (ticks: u8)
    requires
        old(cpu).wf(),
    ensures
        final(cpu).wf(),
        final(cpu)@ == execute(old(cpu)@, MicroOp::LdReg8FromReg8 { dst: dest, src }),
        ticks == 4,
{
    cpu.execute_microop(MicroOp::LdReg8FromReg8 { dst: dest, src })
}

/// LD (HL),r: stores a register at the address in HL; returns the clock
/// ticks.
pub fn ld_hl_r(cpu: &mut Cpu, src: Reg8) -> (ticks: u8)
    requires
        old(cpu).wf(),
    ensures
        final(cpu).wf(),
        final(cpu)@ == execute(old(cpu)@, MicroOp::LdMemFromReg8 { addr: Reg16::HL, src }),
        ticks == 8,
{
    cpu.execute_microop(MicroOp::LdMemFromReg8 { addr: Reg16::HL, src })
}

/// Adds two bytes, sets the four flags from the sum and returns it.
pub fn add_8bit(cpu: &mut Cpu, a: u8, b: u8) -> (r: u8)
    ensures
        r == add8(a, b).result,
        final(cpu)@ == old(cpu)@.with_flags(flags_of(add8(a, b))),
        final(cpu).wf() == old(cpu).wf(),
{
    let out = cpu.alu.add_8bit(a, b);
    cpu.regs.f.set_flag(Flag::Z, out.z);
    cpu.regs.f.set_flag(Flag::N, out.n);
    cpu.regs.f.set_flag(Flag::H, out.h);
    cpu.regs.f.set_flag(Flag::C, out.c);
    out.result
}

/// Adds two bytes and the Carry flag, sets the four flags from the sum and
/// returns it.
pub fn adc_8bit(cpu: &mut Cpu, a: u8, b: u8) -> (r: u8)
    ensures
        r == adc8(old(cpu).regs.f.c, a, b).result,
        final(cpu)@ == old(cpu)@.with_flags(flags_of(adc8(old(cpu).regs.f.c, a, b))),
        final(cpu).wf() == old(cpu).wf(),
{
    let carry = cpu.regs.f.get_flag(Flag::C);
    let out = cpu.alu.adc_8bit(carry, a, b);
    cpu.regs.f.set_flag(Flag::Z, out.z);
    cpu.regs.f.set_flag(Flag::N, out.n);
    cpu.regs.f.set_flag(Flag::H, out.h);
    cpu.regs.f.set_flag(Flag::C, out.c);
    out.result
}

/// The error for the undefined opcode just fetched: its byte and its
/// address, the one before PC.
pub fn undefined(cpu: &Cpu) -> (r: CpuError)
    requires
        cpu.wf(),
    ensures
        r == (CpuError::IllegalOpcode {
            opcode: cpu@.read(cpu.regs.pc.wrapping_sub(1)),
            pc: cpu.regs.pc.wrapping_sub(1),
        }),
{
    let pc = cpu.regs.pc.wrapping_sub(1);
    CpuError::IllegalOpcode { opcode: cpu.inter.read_byte(pc), pc }
}

/// Opcode 0x00 (NOP).
pub fn nop(cpu: &mut Cpu) -> (ticks: u8)
    requires
        old(cpu).wf(),
    ensures
        final(cpu).wf(),
        performs(old(cpu)@, final(cpu)@, 0x00, ticks),
{
    run(cpu, 0x00)
}

/// Opcode 0x01 (LD).
pub fn ld_bc_d16(cpu: &mut Cpu) -> (ticks: u8)
    requires
        old(cpu).wf(),
    ensures
        final(cpu).wf(),
        performs(old(cpu)@, final(cpu)@, 0x01, ticks),
{
    run(cpu, 0x01)
}

/// Opcode 0x02 (LD).
pub fn ld_bc_a(cpu: &mut Cpu) -> (ticks: u8)
    requires
        old(cpu).wf(),
    ensures
        final(cpu).wf(),
        performs(old(cpu)@, final(cpu)@, 0x02, ticks),
{
    run(cpu, 0x02)
}

/// Opcode 0x03 (INC).
pub fn inc_bc(cpu: &mut Cpu) -> (ticks: u8)
    requires
        old(cpu).wf(),
    ensures
        final(cpu).wf(),
        performs(old(cpu)@, final(cpu)@, 0x03, ticks),
{
    run(cpu, 0x03)
}

/// Opcode 0x04 (INC).
pub fn inc_b(cpu: &mut Cpu) -> (ticks: u8)
    requires
        old(cpu).wf(),
    ensures
        final(cpu).wf(),
        performs(old(cpu)@, final(cpu)@, 0x04, ticks),
{
    run(cpu, 0x04)
}

/// Opcode 0x05 (DEC).
pub fn dec_b(cpu: &mut Cpu) -> (ticks: u8)
    requires
        old(cpu).wf(),
    ensures
        final(cpu).wf(),
        performs(old(cpu)@, final(cpu)@, 0x05, ticks),
{
    run(cpu, 0x05)
}

/// Opcode 0x06 (LD).
pub fn ld_b_d8(cpu: &mut Cpu) -> (ticks: u8)
    requires
        old(cpu).wf(),
    ensures
        final(cpu).wf(),
        performs(old(cpu)@, final(cpu)@, 0x06, ticks),
{
    run(cpu, 0x06)
}

/// Opcode 0x07 (RLCA).
pub fn rcla(cpu: &mut Cpu) -> (ticks: u8)
    requires
        old(cpu).wf(),
    ensures
        final(cpu).wf(),
        performs(old(cpu)@, final(cpu)@, 0x07, ticks),
{
    run(cpu, 0x07)
}

/// Opcode 0x08 (LD).
pub fn ld_a16_sp(cpu: &mut Cpu) -> (ticks: u8)
    requires
        old(cpu).wf(),
    ensures
        final(cpu).wf(),
        performs(old(cpu)@, final(cpu)@, 0x08, ticks),
{
    run(cpu, 0x08)
}

/// Opcode 0x09 (ADD).
pub fn add_hl_bc(cpu: &mut Cpu) -> (ticks: u8)
    requires
        old(cpu).wf(),
    ensures
        final(cpu).wf(),
        performs(old(cpu)@, final(cpu)@, 0x09, ticks),
{
    run(cpu, 0x09)
}

/// Opcode 0x0A (LD).
pub fn ld_a_bc(cpu: &mut Cpu) -> (ticks: u8)
    requires
        old(cpu).wf(),
    ensures
        final(cpu).wf(),
        performs(old(cpu)@, final(cpu)@, 0x0A, ticks),
{
    run(cpu, 0x0A)
}

/// Opcode 0x0B (DEC).
pub fn dec_bc(cpu: &mut Cpu) -> (ticks: u8)
    requires
        old(cpu).wf(),
    ensures
        final(cpu).wf(),
        performs(old(cpu)@, final(cpu)@, 0x0B, ticks),
{
    run(cpu, 0x0B)
}

/// Opcode 0x0C (INC).
pub fn inc_c(cpu: &mut Cpu) -> (ticks: u8)
    requires
        old(cpu).wf(),
    ensures
        final(cpu).wf(),
        performs(old(cpu)@, final(cpu)@, 0x0C, ticks),
{
    run(cpu, 0x0C)
}

/// Opcode 0x0D (DEC).
pub fn dec_c(cpu: &mut Cpu) -> (ticks: u8)
    requires
        old(cpu).wf(),
    ensures
        final(cpu).wf(),
        performs(old(cpu)@, final(cpu)@, 0x0D, ticks),
{
    run(cpu, 0x0D)
}

/// Opcode 0x0E (LD).
pub fn ld_c_d8(cpu: &mut Cpu) -> (ticks: u8)
    requires
        old(cpu).wf(),
    ensures
        final(cpu).wf(),
        performs(old(cpu)@, final(cpu)@, 0x0E, ticks),
{
    run(cpu, 0x0E)
}

/// Opcode 0x0F (RRCA).
pub fn rrca(cpu: &mut Cpu) -> (ticks: u8)
    requires
        old(cpu).wf(),
    ensures
        final(cpu).wf(),
        performs(old(cpu)@, final(cpu)@, 0x0F, ticks),
{
    run(cpu, 0x0F)
}

/// Opcode 0x10 (STOP).
pub fn stop(cpu: &mut Cpu) -> (ticks: u8)
    requires
        old(cpu).wf(),
    ensures
        final(cpu).wf(),
        performs(old(cpu)@, final(cpu)@, 0x10, ticks),
{
    run(cpu, 0x10)
}

/// Opcode 0x11 (LD).
pub fn ld_de_d16(cpu: &mut Cpu) -> (ticks: u8)
    requires
        old(cpu).wf(),
    ensures
        final(cpu).wf(),
        performs(old(cpu)@, final(cpu)@, 0x11, ticks),
{
    run(cpu, 0x11)
}

/// Opcode 0x12 (LD).
pub fn ld_de_a(cpu: &mut Cpu) -> (ticks: u8)
    requires
        old(cpu).wf(),
    ensures
        final(cpu).wf(),
        performs(old(cpu)@, final(cpu)@, 0x12, ticks),
{
    run(cpu, 0x12)
}

/// Opcode 0x13 (INC).
pub fn inc_de(cpu: &mut Cpu) -> (ticks: u8)
    requires
        old(cpu).wf(),
    ensures
        final(cpu).wf(),
        performs(old(cpu)@, final(cpu)@, 0x13, ticks),
{
    run(cpu, 0x13)
}

/// Opcode 0x14 (INC).
pub fn inc_d(cpu: &mut Cpu) -> (ticks: u8)
    requires
        old(cpu).wf(),
    ensures
        final(cpu).wf(),
        performs(old(cpu)@, final(cpu)@, 0x14, ticks),
{
    run(cpu, 0x14)
}

/// Opcode 0x15 (DEC).
pub fn dec_d(cpu: &mut Cpu) -> (ticks: u8)
    requires
        old(cpu).wf(),
    ensures
        final(cpu).wf(),
        performs(old(cpu)@, final(cpu)@, 0x15, ticks),
{
    run(cpu, 0x15)
}

/// Opcode 0x16 (LD).
pub fn ld_d_d8(cpu: &mut Cpu) -> (ticks: u8)
    requires
        old(cpu).wf(),
    ensures
        final(cpu).wf(),
        performs(old(cpu)@, final(cpu)@, 0x16, ticks),
{
    run(cpu, 0x16)
}

/// Opcode 0x17 (RLA).
pub fn rla(cpu: &mut Cpu) -> (ticks: u8)
    requires
        old(cpu).wf(),
    ensures
        final(cpu).wf(),
        performs(old(cpu)@, final(cpu)@, 0x17, ticks),
{
    run(cpu, 0x17)
}

/// Opcode 0x18 (JR).
pub fn jr_r8(cpu: &mut Cpu) -> (ticks: u8)
    requires
        old(cpu).wf(),
    ensures
        final(cpu).wf(),
        performs(old(cpu)@, final(cpu)@, 0x18, ticks),
{
    run(cpu, 0x18)
}

/// Opcode 0x19 (ADD).
pub fn add_hl_de(cpu: &mut Cpu) -> (ticks: u8)
    requires
        old(cpu).wf(),
    ensures
        final(cpu).wf(),
        performs(old(cpu)@, final(cpu)@, 0x19, ticks),
{
    run(cpu, 0x19)
}

/// Opcode 0x1A (LD).
pub fn ld_a_de(cpu: &mut Cpu) -> (ticks: u8)
    requires
        old(cpu).wf(),
    ensures
        final(cpu).wf(),
        performs(old(cpu)@, final(cpu)@, 0x1A, ticks),
{
    run(cpu, 0x1A)
}

/// Opcode 0x1B (DEC).
pub fn dec_de(cpu: &mut Cpu) -> (ticks: u8)
    requires
        old(cpu).wf(),
    ensures
        final(cpu).wf(),
        performs(old(cpu)@, final(cpu)@, 0x1B, ticks),
{
    run(cpu, 0x1B)
}

/// Opcode 0x1C (INC).
pub fn inc_e(cpu: &mut Cpu) -> (ticks: u8)
    requires
        old(cpu).wf(),
    ensures
        final(cpu).wf(),
        performs(old(cpu)@, final(cpu)@, 0x1C, ticks),
{
    run(cpu, 0x1C)
}

/// Opcode 0x1D (DEC).
pub fn dec_e(cpu: &mut Cpu) -> (ticks: u8)
    requires
        old(cpu).wf(),
    ensures
        final(cpu).wf(),
        performs(old(cpu)@, final(cpu)@, 0x1D, ticks),
{
    run(cpu, 0x1D)
}

/// Opcode 0x1E (LD).
pub fn ld_e_d8(cpu: &mut Cpu) -> (ticks: u8)
    requires
        old(cpu).wf(),
    ensures
        final(cpu).wf(),
        performs(old(cpu)@, final(cpu)@, 0x1E, ticks),
{
    run(cpu, 0x1E)
}

/// Opcode 0x1F (RRA).
pub fn rra(cpu: &mut Cpu) -> (ticks: u8)
    requires
        old(cpu).wf(),
    ensures
        final(cpu).wf(),
        performs(old(cpu)@, final(cpu)@, 0x1F, ticks),
{
    run(cpu, 0x1F)
}

/// Opcode 0x20 (JR).
pub fn jr_nz_r8(cpu: &mut Cpu) -> (ticks: u8)
    requires
        old(cpu).wf(),
    ensures
        final(cpu).wf(),
        performs(old(cpu)@, final(cpu)@, 0x20, ticks),
{
    run(cpu, 0x20)
}

/// Opcode 0x21 (LD).
pub fn ld_hl_d16(cpu: &mut Cpu) -> (ticks: u8)
    requires
        old(cpu).wf(),
    ensures
        final(cpu).wf(),
        performs(old(cpu)@, final(cpu)@, 0x21, ticks),
{
    run(cpu, 0x21)
}

/// Opcode 0x22 (LD).
pub fn ld_hl_inc_a(cpu: &mut Cpu) -> (ticks: u8)
    requires
        old(cpu).wf(),
    ensures
        final(cpu).wf(),
        performs(old(cpu)@, final(cpu)@, 0x22, ticks),
{
    run(cpu, 0x22)
}

/// Opcode 0x23 (INC).
pub fn inc_hl(cpu: &mut Cpu) -> (ticks: u8)
    requires
        old(cpu).wf(),
    ensures
        final(cpu).wf(),
        performs(old(cpu)@, final(cpu)@, 0x23, ticks),
{
    run(cpu, 0x23)
}

/// Opcode 0x24 (INC).
pub fn inc_h(cpu: &mut Cpu) -> (ticks: u8)
    requires
        old(cpu).wf(),
    ensures
        final(cpu).wf(),
        performs(old(cpu)@, final(cpu)@, 0x24, ticks),
{
    run(cpu, 0x24)
}

/// Opcode 0x25 (DEC).
pub fn dec_h(cpu: &mut Cpu) -> (ticks: u8)
    requires
        old(cpu).wf(),
    ensures
        final(cpu).wf(),
        performs(old(cpu)@, final(cpu)@, 0x25, ticks),
{
    run(cpu, 0x25)
}

/// Opcode 0x26 (LD).
pub fn ld_h_d8(cpu: &mut Cpu) -> (ticks: u8)
    requires
        old(cpu).wf(),
    ensures
        final(cpu).wf(),
        performs(old(cpu)@, final(cpu)@, 0x26, ticks),
{
    run(cpu, 0x26)
}

/// Opcode 0x27 (DAA).
pub fn daa(cpu: &mut Cpu) -> (ticks: u8)
    requires
        old(cpu).wf(),
    ensures
        final(cpu).wf(),
        performs(old(cpu)@, final(cpu)@, 0x27, ticks),
{
    run(cpu, 0x27)
}

/// Opcode 0x28 (JR).
pub fn jr_z_r8(cpu: &mut Cpu) -> (ticks: u8)
    requires
        old(cpu).wf(),
    ensures
        final(cpu).wf(),
        performs(old(cpu)@, final(cpu)@, 0x28, ticks),
{
    run(cpu, 0x28)
}

/// Opcode 0x29 (ADD).
pub fn add_hl_hl(cpu: &mut Cpu) -> (ticks: u8)
    requires
        old(cpu).wf(),
    ensures
        final(cpu).wf(),
        performs(old(cpu)@, final(cpu)@, 0x29, ticks),
{
    run(cpu, 0x29)
}

/// Opcode 0x2A (LD).
pub fn ld_a_hl_inc(cpu: &mut Cpu) -> (ticks: u8)
    requires
        old(cpu).wf(),
    ensures
        final(cpu).wf(),
        performs(old(cpu)@, final(cpu)@, 0x2A, ticks),
{
    run(cpu, 0x2A)
}

/// Opcode 0x2B (DEC).
pub fn dec_hl(cpu: &mut Cpu) -> (ticks: u8)
    requires
        old(cpu).wf(),
    ensures
        final(cpu).wf(),
        performs(old(cpu)@, final(cpu)@, 0x2B, ticks),
{
    run(cpu, 0x2B)
}

/// Opcode 0x2C (INC).
pub fn inc_l(cpu: &mut Cpu) -> (ticks: u8)
    requires
        old(cpu).wf(),
    ensures
        final(cpu).wf(),
        performs(old(cpu)@, final(cpu)@, 0x2C, ticks),
{
    run(cpu, 0x2C)
}

/// Opcode 0x2D (DEC).
pub fn dec_l(cpu: &mut Cpu) -> (ticks: u8)
    requires
        old(cpu).wf(),
    ensures
        final(cpu).wf(),
        performs(old(cpu)@, final(cpu)@, 0x2D, ticks),
{
    run(cpu, 0x2D)
}

/// Opcode 0x2E (LD).
pub fn ld_l_d8(cpu: &mut Cpu) -> (ticks: u8)
    requires
        old(cpu).wf(),
    ensures
        final(cpu).wf(),
        performs(old(cpu)@, final(cpu)@, 0x2E, ticks),
{
    run(cpu, 0x2E)
}

/// Opcode 0x2F (CPL).
pub fn cpl(cpu: &mut Cpu) -> (ticks: u8)
    requires
        old(cpu).wf(),
    ensures
        final(cpu).wf(),
        performs(old(cpu)@, final(cpu)@, 0x2F, ticks),
{
    run(cpu, 0x2F)
}

/// Opcode 0x30 (JR).
pub fn jr_nc_r8(cpu: &mut Cpu) -> (ticks: u8)
    requires
        old(cpu).wf(),
    ensures
        final(cpu).wf(),
        performs(old(cpu)@, final(cpu)@, 0x30, ticks),
{
    run(cpu, 0x30)
}

/// Opcode 0x31 (LD).
pub fn ld_sp_d16(cpu: &mut Cpu) -> (ticks: u8)
    requires
        old(cpu).wf(),
    ensures
        final(cpu).wf(),
        performs(old(cpu)@, final(cpu)@, 0x31, ticks),
{
    run(cpu, 0x31)
}

/// Opcode 0x32 (LD).
pub fn ld_hl_dec_a(cpu: &mut Cpu) -> (ticks: u8)
    requires
        old(cpu).wf(),
    ensures
        final(cpu).wf(),
        performs(old(cpu)@, final(cpu)@, 0x32, ticks),
{
    run(cpu, 0x32)
}

/// Opcode 0x33 (INC).
pub fn inc_sp(cpu: &mut Cpu) -> (ticks: u8)
    requires
        old(cpu).wf(),
    ensures
        final(cpu).wf(),
        performs(old(cpu)@, final(cpu)@, 0x33, ticks),
{
    run(cpu, 0x33)
}

/// Opcode 0x34 (INC).
pub fn inc_hl_mem(cpu: &mut Cpu) -> (ticks: u8)
    requires
        old(cpu).wf(),
    ensures
        final(cpu).wf(),
        performs(old(cpu)@, final(cpu)@, 0x34, ticks),
{
    run(cpu, 0x34)
}

/// Opcode 0x35 (DEC).
pub fn dec_hl_mem(cpu: &mut Cpu) -> (ticks: u8)
    requires
        old(cpu).wf(),
    ensures
        final(cpu).wf(),
        performs(old(cpu)@, final(cpu)@, 0x35, ticks),
{
    run(cpu, 0x35)
}

/// Opcode 0x36 (LD).
pub fn ld_hl_d8(cpu: &mut Cpu) -> (ticks: u8)
    requires
        old(cpu).wf(),
    ensures
        final(cpu).wf(),
        performs(old(cpu)@, final(cpu)@, 0x36, ticks),
{
    run(cpu, 0x36)
}

/// Opcode 0x37 (SCF).
pub fn scf(cpu: &mut Cpu) -> (ticks: u8)
    requires
        old(cpu).wf(),
    ensures
        final(cpu).wf(),
        performs(old(cpu)@, final(cpu)@, 0x37, ticks),
{
    run(cpu, 0x37)
}

/// Opcode 0x38 (JR).
pub fn jr_c_r8(cpu: &mut Cpu) -> (ticks: u8)
    requires
        old(cpu).wf(),
    ensures
        final(cpu).wf(),
        performs(old(cpu)@, final(cpu)@, 0x38, ticks),
{
    run(cpu, 0x38)
}

/// Opcode 0x39 (ADD).
pub fn add_hl_sp(cpu: &mut Cpu) -> (ticks: u8)
    requires
        old(cpu).wf(),
    ensures
        final(cpu).wf(),
        performs(old(cpu)@, final(cpu)@, 0x39, ticks),
{
    run(cpu, 0x39)
}

/// Opcode 0x3A (LD).
pub fn ld_a_hl_dec(cpu: &mut Cpu) -> (ticks: u8)
    requires
        old(cpu).wf(),
    ensures
        final(cpu).wf(),
        performs(old(cpu)@, final(cpu)@, 0x3A, ticks),
{
    run(cpu, 0x3A)
}

/// Opcode 0x3B (DEC).
pub fn dec_sp(cpu: &mut Cpu) -> (ticks: u8)
    requires
        old(cpu).wf(),
    ensures
        final(cpu).wf(),
        performs(old(cpu)@, final(cpu)@, 0x3B, ticks),
{
    run(cpu, 0x3B)
}

/// Opcode 0x3C (INC).
pub fn inc_a(cpu: &mut Cpu) -> (ticks: u8)
    requires
        old(cpu).wf(),
    ensures
        final(cpu).wf(),
        performs(old(cpu)@, final(cpu)@, 0x3C, ticks),
{
    run(cpu, 0x3C)
}

/// Opcode 0x3D (DEC).
pub fn dec_a(cpu: &mut Cpu) -> (ticks: u8)
    requires
        old(cpu).wf(),
    ensures
        final(cpu).wf(),
        performs(old(cpu)@, final(cpu)@, 0x3D, ticks),
{
    run(cpu, 0x3D)
}

/// Opcode 0x3E (LD).
pub fn ld_a_d8(cpu: &mut Cpu) -> (ticks: u8)
    requires
        old(cpu).wf(),
    ensures
        final(cpu).wf(),
        performs(old(cpu)@, final(cpu)@, 0x3E, ticks),
{
    run(cpu, 0x3E)
}

/// Opcode 0x3F (CCF).
pub fn ccf(cpu: &mut Cpu) -> (ticks: u8)
    requires
        old(cpu).wf(),
    ensures
        final(cpu).wf(),
        performs(old(cpu)@, final(cpu)@, 0x3F, ticks),
{
    run(cpu, 0x3F)
}

/// Opcode 0x40 (LD).
pub fn ld_b_b(cpu: &mut Cpu) -> (ticks: u8)
    requires
        old(cpu).wf(),
    ensures
        final(cpu).wf(),
        performs(old(cpu)@, final(cpu)@, 0x40, ticks),
{
    run(cpu, 0x40)
}

/// Opcode 0x41 (LD).
pub fn ld_b_c(cpu: &mut Cpu) -> (ticks: u8)
    requires
        old(cpu).wf(),
    ensures
        final(cpu).wf(),
        performs(old(cpu)@, final(cpu)@, 0x41, ticks),
{
    run(cpu, 0x41)
}

/// Opcode 0x42 (LD).
pub fn ld_b_d(cpu: &mut Cpu) -> (ticks: u8)
    requires
        old(cpu).wf(),
    ensures
        final(cpu).wf(),
        performs(old(cpu)@, final(cpu)@, 0x42, ticks),
{
    run(cpu, 0x42)
}

/// Opcode 0x43 (LD).
pub fn ld_b_e(cpu: &mut Cpu) -> (ticks: u8)
    requires
        old(cpu).wf(),
    ensures
        final(cpu).wf(),
        performs(old(cpu)@, final(cpu)@, 0x43, ticks),
{
    run(cpu, 0x43)
}

/// Opcode 0x44 (LD).
pub fn ld_b_h(cpu: &mut Cpu) -> (ticks: u8)
    requires
        old(cpu).wf(),
    ensures
        final(cpu).wf(),
        performs(old(cpu)@, final(cpu)@, 0x44, ticks),
{
    run(cpu, 0x44)
}

/// Opcode 0x45 (LD).
pub fn ld_b_l(cpu: &mut Cpu) -> (ticks: u8)
    requires
        old(cpu).wf(),
    ensures
        final(cpu).wf(),
        performs(old(cpu)@, final(cpu)@, 0x45, ticks),
{
    run(cpu, 0x45)
}

/// Opcode 0x46 (LD).
pub fn ld_b_hl(cpu: &mut Cpu) -> (ticks: u8)
    requires
        old(cpu).wf(),
    ensures
        final(cpu).wf(),
        performs(old(cpu)@, final(cpu)@, 0x46, ticks),
{
    run(cpu, 0x46)
}

/// Opcode 0x47 (LD).
pub fn ld_b_a(cpu: &mut Cpu) -> (ticks: u8)
    requires
        old(cpu).wf(),
    ensures
        final(cpu).wf(),
        performs(old(cpu)@, final(cpu)@, 0x47, ticks),
{
    run(cpu, 0x47)
}

/// Opcode 0x48 (LD).
pub fn ld_c_b(cpu: &mut Cpu) -> (ticks: u8)
    requires
        old(cpu).wf(),
    ensures
        final(cpu).wf(),
        performs(old(cpu)@, final(cpu)@, 0x48, ticks),
{
    run(cpu, 0x48)
}

/// Opcode 0x49 (LD).
pub fn ld_c_c(cpu: &mut Cpu) -> (ticks: u8)
    requires
        old(cpu).wf(),
    ensures
        final(cpu).wf(),
        performs(old(cpu)@, final(cpu)@, 0x49, ticks),
{
    run(cpu, 0x49)
}

/// Opcode 0x4A (LD).
pub fn ld_c_d(cpu: &mut Cpu) -> (ticks: u8)
    requires
        old(cpu).wf(),
    ensures
        final(cpu).wf(),
        performs(old(cpu)@, final(cpu)@, 0x4A, ticks),
{
    run(cpu, 0x4A)
}

/// Opcode 0x4B (LD).
pub fn ld_c_e(cpu: &mut Cpu) -> (ticks: u8)
    requires
        old(cpu).wf(),
    ensures
        final(cpu).wf(),
        performs(old(cpu)@, final(cpu)@, 0x4B, ticks),
{
    run(cpu, 0x4B)
}

/// Opcode 0x4C (LD).
pub fn ld_c_h(cpu: &mut Cpu) -> (ticks: u8)
    requires
        old(cpu).wf(),
    ensures
        final(cpu).wf(),
        performs(old(cpu)@, final(cpu)@, 0x4C, ticks),
{
    run(cpu, 0x4C)
}

/// Opcode 0x4D (LD).
pub fn ld_c_l(cpu: &mut Cpu) -> (ticks: u8)
    requires
        old(cpu).wf(),
    ensures
        final(cpu).wf(),
        performs(old(cpu)@, final(cpu)@, 0x4D, ticks),
{
    run(cpu, 0x4D)
}

/// Opcode 0x4E (LD).
pub fn ld_c_hl(cpu: &mut Cpu) -> (ticks: u8)
    requires
        old(cpu).wf(),
    ensures
        final(cpu).wf(),
        performs(old(cpu)@, final(cpu)@, 0x4E, ticks),
{
    run(cpu, 0x4E)
}

/// Opcode 0x4F (LD).
pub fn ld_c_a(cpu: &mut Cpu) -> (ticks: u8)
    requires
        old(cpu).wf(),
    ensures
        final(cpu).wf(),
        performs(old(cpu)@, final(cpu)@, 0x4F, ticks),
{
    run(cpu, 0x4F)
}

/// Opcode 0x50 (LD).
pub fn ld_d_b(cpu: &mut Cpu) -> (ticks: u8)
    requires
        old(cpu).wf(),
    ensures
        final(cpu).wf(),
        performs(old(cpu)@, final(cpu)@, 0x50, ticks),
{
    run(cpu, 0x50)
}

/// Opcode 0x51 (LD).
pub fn ld_d_c(cpu: &mut Cpu) -> (ticks: u8)
    requires
        old(cpu).wf(),
    ensures
        final(cpu).wf(),
        performs(old(cpu)@, final(cpu)@, 0x51, ticks),
{
    run(cpu, 0x51)
}

/// Opcode 0x52 (LD).
pub fn ld_d_d(cpu: &mut Cpu) -> (ticks: u8)
    requires
        old(cpu).wf(),
    ensures
        final(cpu).wf(),
        performs(old(cpu)@, final(cpu)@, 0x52, ticks),
{
    run(cpu, 0x52)
}

/// Opcode 0x53 (LD).
pub fn ld_d_e(cpu: &mut Cpu) -> (ticks: u8)
    requires
        old(cpu).wf(),
    ensures
        final(cpu).wf(),
        performs(old(cpu)@, final(cpu)@, 0x53, ticks),
{
    run(cpu, 0x53)
}

/// Opcode 0x54 (LD).
pub fn ld_d_h(cpu: &mut Cpu) -> (ticks: u8)
    requires
        old(cpu).wf(),
    ensures
        final(cpu).wf(),
        performs(old(cpu)@, final(cpu)@, 0x54, ticks),
{
    run(cpu, 0x54)
}

/// Opcode 0x55 (LD).
pub fn ld_d_l(cpu: &mut Cpu) -> (ticks: u8)
    requires
        old(cpu).wf(),
    ensures
        final(cpu).wf(),
        performs(old(cpu)@, final(cpu)@, 0x55, ticks),
{
    run(cpu, 0x55)
}

/// Opcode 0x56 (LD).
pub fn ld_d_hl(cpu: &mut Cpu) -> (ticks: u8)
    requires
        old(cpu).wf(),
    ensures
        final(cpu).wf(),
        performs(old(cpu)@, final(cpu)@, 0x56, ticks),
{
    run(cpu, 0x56)
}

/// Opcode 0x57 (LD).
pub fn ld_d_a(cpu: &mut Cpu) -> (ticks: u8)
    requires
        old(cpu).wf(),
    ensures
        final(cpu).wf(),
        performs(old(cpu)@, final(cpu)@, 0x57, ticks),
{
    run(cpu, 0x57)
}

/// Opcode 0x58 (LD).
pub fn ld_e_b(cpu: &mut Cpu) -> (ticks: u8)
    requires
        old(cpu).wf(),
    ensures
        final(cpu).wf(),
        performs(old(cpu)@, final(cpu)@, 0x58, ticks),
{
    run(cpu, 0x58)
}

/// Opcode 0x59 (LD).
pub fn ld_e_c(cpu: &mut Cpu) -> (ticks: u8)
    requires
        old(cpu).wf(),
    ensures
        final(cpu).wf(),
        performs(old(cpu)@, final(cpu)@, 0x59, ticks),
{
    run(cpu, 0x59)
}

/// Opcode 0x5A (LD).
pub fn ld_e_d(cpu: &mut Cpu) -> (ticks: u8)
    requires
        old(cpu).wf(),
    ensures
        final(cpu).wf(),
        performs(old(cpu)@, final(cpu)@, 0x5A, ticks),
{
    run(cpu, 0x5A)
}

/// Opcode 0x5B (LD).
pub fn ld_e_e(cpu: &mut Cpu) -> (ticks: u8)
    requires
        old(cpu).wf(),
    ensures
        final(cpu).wf(),
        performs(old(cpu)@, final(cpu)@, 0x5B, ticks),
{
    run(cpu, 0x5B)
}

/// Opcode 0x5C (LD).
pub fn ld_e_h(cpu: &mut Cpu) -> (ticks: u8)
    requires
        old(cpu).wf(),
    ensures
        final(cpu).wf(),
        performs(old(cpu)@, final(cpu)@, 0x5C, ticks),
{
    run(cpu, 0x5C)
}

/// Opcode 0x5D (LD).
pub fn ld_e_l(cpu: &mut Cpu) -> (ticks: u8)
    requires
        old(cpu).wf(),
    ensures
        final(cpu).wf(),
        performs(old(cpu)@, final(cpu)@, 0x5D, ticks),
{
    run(cpu, 0x5D)
}

/// Opcode 0x5E (LD).
pub fn ld_e_hl(cpu: &mut Cpu) -> (ticks: u8)
    requires
        old(cpu).wf(),
    ensures
        final(cpu).wf(),
        performs(old(cpu)@, final(cpu)@, 0x5E, ticks),
{
    run(cpu, 0x5E)
}

/// Opcode 0x5F (LD).
pub fn ld_e_a(cpu: &mut Cpu) -> (ticks: u8)
    requires
        old(cpu).wf(),
    ensures
        final(cpu).wf(),
        performs(old(cpu)@, final(cpu)@, 0x5F, ticks),
{
    run(cpu, 0x5F)
}

/// Opcode 0x60 (LD).
pub fn ld_h_b(cpu: &mut Cpu) -> (ticks: u8)
    requires
        old(cpu).wf(),
    ensures
        final(cpu).wf(),
        performs(old(cpu)@, final(cpu)@, 0x60, ticks),
{
    run(cpu, 0x60)
}

/// Opcode 0x61 (LD).
pub fn ld_h_c(cpu: &mut Cpu) -> (ticks: u8)
    requires
        old(cpu).wf(),
    ensures
        final(cpu).wf(),
        performs(old(cpu)@, final(cpu)@, 0x61, ticks),
{
    run(cpu, 0x61)
}

/// Opcode 0x62 (LD).
pub fn ld_h_d(cpu: &mut Cpu) -> (ticks: u8)
    requires
        old(cpu).wf(),
    ensures
        final(cpu).wf(),
        performs(old(cpu)@, final(cpu)@, 0x62, ticks),
{
    run(cpu, 0x62)
}

/// Opcode 0x63 (LD).
pub fn ld_h_e(cpu: &mut Cpu) -> (ticks: u8)
    requires
        old(cpu).wf(),
    ensures
        final(cpu).wf(),
        performs(old(cpu)@, final(cpu)@, 0x63, ticks),
{
    run(cpu, 0x63)
}

/// Opcode 0x64 (LD).
pub fn ld_h_h(cpu: &mut Cpu) -> (ticks: u8)
    requires
        old(cpu).wf(),
    ensures
        final(cpu).wf(),
        performs(old(cpu)@, final(cpu)@, 0x64, ticks),
{
    run(cpu, 0x64)
}

/// Opcode 0x65 (LD).
pub fn ld_h_l(cpu: &mut Cpu) -> (ticks: u8)
    requires
        old(cpu).wf(),
    ensures
        final(cpu).wf(),
        performs(old(cpu)@, final(cpu)@, 0x65, ticks),
{
    run(cpu, 0x65)
}

/// Opcode 0x66 (LD).
pub fn ld_h_hl(cpu: &mut Cpu) -> (ticks: u8)
    requires
        old(cpu).wf(),
    ensures
        final(cpu).wf(),
        performs(old(cpu)@, final(cpu)@, 0x66, ticks),
{
    run(cpu, 0x66)
}

/// Opcode 0x67 (LD).
pub fn ld_h_a(cpu: &mut Cpu) -> (ticks: u8)
    requires
        old(cpu).wf(),
    ensures
        final(cpu).wf(),
        performs(old(cpu)@, final(cpu)@, 0x67, ticks),
{
    run(cpu, 0x67)
}

/// Opcode 0x68 (LD).
pub fn ld_l_b(cpu: &mut Cpu) -> (ticks: u8)
    requires
        old(cpu).wf(),
    ensures
        final(cpu).wf(),
        performs(old(cpu)@, final(cpu)@, 0x68, ticks),
{
    run(cpu, 0x68)
}

/// Opcode 0x69 (LD).
pub fn ld_l_c(cpu: &mut Cpu) -> (ticks: u8)
    requires
        old(cpu).wf(),
    ensures
        final(cpu).wf(),
        performs(old(cpu)@, final(cpu)@, 0x69, ticks),
{
    run(cpu, 0x69)
}

/// Opcode 0x6A (LD).
pub fn ld_l_d(cpu: &mut Cpu) -> (ticks: u8)
    requires
        old(cpu).wf(),
    ensures
        final(cpu).wf(),
        performs(old(cpu)@, final(cpu)@, 0x6A, ticks),
{
    run(cpu, 0x6A)
}

/// Opcode 0x6B (LD).
pub fn ld_l_e(cpu: &mut Cpu) -> (ticks: u8)
    requires
        old(cpu).wf(),
    ensures
        final(cpu).wf(),
        performs(old(cpu)@, final(cpu)@, 0x6B, ticks),
{
    run(cpu, 0x6B)
}

/// Opcode 0x6C (LD).
pub fn ld_l_h(cpu: &mut Cpu) -> (ticks: u8)
    requires
        old(cpu).wf(),
    ensures
        final(cpu).wf(),
        performs(old(cpu)@, final(cpu)@, 0x6C, ticks),
{
    run(cpu, 0x6C)
}

/// Opcode 0x6D (LD).
pub fn ld_l_l(cpu: &mut Cpu) -> (ticks: u8)
    requires
        old(cpu).wf(),
    ensures
        final(cpu).wf(),
        performs(old(cpu)@, final(cpu)@, 0x6D, ticks),
{
    run(cpu, 0x6D)
}

/// Opcode 0x6E (LD).
pub fn ld_l_hl(cpu: &mut Cpu) -> (ticks: u8)
    requires
        old(cpu).wf(),
    ensures
        final(cpu).wf(),
        performs(old(cpu)@, final(cpu)@, 0x6E, ticks),
{
    run(cpu, 0x6E)
}

/// Opcode 0x6F (LD).
pub fn ld_l_a(cpu: &mut Cpu) -> (ticks: u8)
    requires
        old(cpu).wf(),
    ensures
        final(cpu).wf(),
        performs(old(cpu)@, final(cpu)@, 0x6F, ticks),
{
    run(cpu, 0x6F)
}

/// Opcode 0x70 (LD).
pub fn ld_hl_b(cpu: &mut Cpu) -> (ticks: u8)
    requires
        old(cpu).wf(),
    ensures
        final(cpu).wf(),
        performs(old(cpu)@, final(cpu)@, 0x70, ticks),
{
    run(cpu, 0x70)
}

/// Opcode 0x71 (LD).
pub fn ld_hl_c(cpu: &mut Cpu) -> (ticks: u8)
    requires
        old(cpu).wf(),
    ensures
        final(cpu).wf(),
        performs(old(cpu)@, final(cpu)@, 0x71, ticks),
{
    run(cpu, 0x71)
}

/// Opcode 0x72 (LD).
pub fn ld_hl_d(cpu: &mut Cpu) -> (ticks: u8)
    requires
        old(cpu).wf(),
    ensures
        final(cpu).wf(),
        performs(old(cpu)@, final(cpu)@, 0x72, ticks),
{
    run(cpu, 0x72)
}

/// Opcode 0x73 (LD).
pub fn ld_hl_e(cpu: &mut Cpu) -> (ticks: u8)
    requires
        old(cpu).wf(),
    ensures
        final(cpu).wf(),
        performs(old(cpu)@, final(cpu)@, 0x73, ticks),
{
    run(cpu, 0x73)
}

/// Opcode 0x74 (LD).
pub fn ld_hl_h(cpu: &mut Cpu) -> (ticks: u8)
    requires
        old(cpu).wf(),
    ensures
        final(cpu).wf(),
        performs(old(cpu)@, final(cpu)@, 0x74, ticks),
{
    run(cpu, 0x74)
}

/// Opcode 0x75 (LD).
pub fn ld_hl_l(cpu: &mut Cpu) -> (ticks: u8)
    requires
        old(cpu).wf(),
    ensures
        final(cpu).wf(),
        performs(old(cpu)@, final(cpu)@, 0x75, ticks),
{
    run(cpu, 0x75)
}

/// Opcode 0x76 (HALT).
pub fn halt(cpu: &mut Cpu) -> (ticks: u8)
    requires
        old(cpu).wf(),
    ensures
        final(cpu).wf(),
        performs(old(cpu)@, final(cpu)@, 0x76, ticks),
{
    run(cpu, 0x76)
}

/// Opcode 0x77 (LD).
pub fn ld_hl_a(cpu: &mut Cpu) -> (ticks: u8)
    requires
        old(cpu).wf(),
    ensures
        final(cpu).wf(),
        performs(old(cpu)@, final(cpu)@, 0x77, ticks),
{
    run(cpu, 0x77)
}

/// Opcode 0x78 (LD).
pub fn ld_a_b(cpu: &mut Cpu) -> (ticks: u8)
    requires
        old(cpu).wf(),
    ensures
        final(cpu).wf(),
        performs(old(cpu)@, final(cpu)@, 0x78, ticks),
{
    run(cpu, 0x78)
}

/// Opcode 0x79 (LD).
pub fn ld_a_c(cpu: &mut Cpu) -> (ticks: u8)
    requires
        old(cpu).wf(),
    ensures
        final(cpu).wf(),
        performs(old(cpu)@, final(cpu)@, 0x79, ticks),
{
    run(cpu, 0x79)
}

/// Opcode 0x7A (LD).
pub fn ld_a_d(cpu: &mut Cpu) -> (ticks: u8)
    requires
        old(cpu).wf(),
    ensures
        final(cpu).wf(),
        performs(old(cpu)@, final(cpu)@, 0x7A, ticks),
{
    run(cpu, 0x7A)
}

/// Opcode 0x7B (LD).
pub fn ld_a_e(cpu: &mut Cpu) -> (ticks: u8)
    requires
        old(cpu).wf(),
    ensures
        final(cpu).wf(),
        performs(old(cpu)@, final(cpu)@, 0x7B, ticks),
{
    run(cpu, 0x7B)
}

/// Opcode 0x7C (LD).
pub fn ld_a_h(cpu: &mut Cpu) -> (ticks: u8)
    requires
        old(cpu).wf(),
    ensures
        final(cpu).wf(),
        performs(old(cpu)@, final(cpu)@, 0x7C, ticks),
{
    run(cpu, 0x7C)
}

/// Opcode 0x7D (LD).
pub fn ld_a_l(cpu: &mut Cpu) -> (ticks: u8)
    requires
        old(cpu).wf(),
    ensures
        final(cpu).wf(),
        performs(old(cpu)@, final(cpu)@, 0x7D, ticks),
{
    run(cpu, 0x7D)
}

/// Opcode 0x7E (LD).
pub fn ld_a_hl(cpu: &mut Cpu) -> (ticks: u8)
    requires
        old(cpu).wf(),
    ensures
        final(cpu).wf(),
        performs(old(cpu)@, final(cpu)@, 0x7E, ticks),
{
    run(cpu, 0x7E)
}

/// Opcode 0x7F (LD).
pub fn ld_a_a(cpu: &mut Cpu) -> (ticks: u8)
    requires
        old(cpu).wf(),
    ensures
        final(cpu).wf(),
        performs(old(cpu)@, final(cpu)@, 0x7F, ticks),
{
    run(cpu, 0x7F)
}

/// Opcode 0x80 (ADD).
pub fn add_a_b(cpu: &mut Cpu) -> (ticks: u8)
    requires
        old(cpu).wf(),
    ensures
        final(cpu).wf(),
        performs(old(cpu)@, final(cpu)@, 0x80, ticks),
{
    run(cpu, 0x80)
}

/// Opcode 0x81 (ADD).
pub fn add_a_c(cpu: &mut Cpu) -> (ticks: u8)
    requires
        old(cpu).wf(),
    ensures
        final(cpu).wf(),
        performs(old(cpu)@, final(cpu)@, 0x81, ticks),
{
    run(cpu, 0x81)
}

/// Opcode 0x82 (ADD).
pub fn add_a_d(cpu: &mut Cpu) -> (ticks: u8)
    requires
        old(cpu).wf(),
    ensures
        final(cpu).wf(),
        performs(old(cpu)@, final(cpu)@, 0x82, ticks),
{
    run(cpu, 0x82)
}

/// Opcode 0x83 (ADD).
pub fn add_a_e(cpu: &mut Cpu) -> (ticks: u8)
    requires
        old(cpu).wf(),
    ensures
        final(cpu).wf(),
        performs(old(cpu)@, final(cpu)@, 0x83, ticks),
{
    run(cpu, 0x83)
}

/// Opcode 0x84 (ADD).
pub fn add_a_h(cpu: &mut Cpu) -> (ticks: u8)
    requires
        old(cpu).wf(),
    ensures
        final(cpu).wf(),
        performs(old(cpu)@, final(cpu)@, 0x84, ticks),
{
    run(cpu, 0x84)
}

/// Opcode 0x85 (ADD).
pub fn add_a_l(cpu: &mut Cpu) -> (ticks: u8)
    requires
        old(cpu).wf(),
    ensures
        final(cpu).wf(),
        performs(old(cpu)@, final(cpu)@, 0x85, ticks),
{
    run(cpu, 0x85)
}

/// Opcode 0x86 (ADD).
pub fn add_a_hl(cpu: &mut Cpu) -> (ticks: u8)
    requires
        old(cpu).wf(),
    ensures
        final(cpu).wf(),
        performs(old(cpu)@, final(cpu)@, 0x86, ticks),
{
    run(cpu, 0x86)
}

/// Opcode 0x87 (ADD).
pub fn add_a_a(cpu: &mut Cpu) -> (ticks: u8)
    requires
        old(cpu).wf(),
    ensures
        final(cpu).wf(),
        performs(old(cpu)@, final(cpu)@, 0x87, ticks),
{
    run(cpu, 0x87)
}

/// Opcode 0x88 (ADC).
pub fn adc_a_b(cpu: &mut Cpu) -> (ticks: u8)
    requires
        old(cpu).wf(),
    ensures
        final(cpu).wf(),
        performs(old(cpu)@, final(cpu)@, 0x88, ticks),
{
    run(cpu, 0x88)
}

/// Opcode 0x89 (ADC).
pub fn adc_a_c(cpu: &mut Cpu) -> (ticks: u8)
    requires
        old(cpu).wf(),
    ensures
        final(cpu).wf(),
        performs(old(cpu)@, final(cpu)@, 0x89, ticks),
{
    run(cpu, 0x89)
}

/// Opcode 0x8A (ADC).
pub fn adc_a_d(cpu: &mut Cpu) -> (ticks: u8)
    requires
        old(cpu).wf(),
    ensures
        final(cpu).wf(),
        performs(old(cpu)@, final(cpu)@, 0x8A, ticks),
{
    run(cpu, 0x8A)
}

/// Opcode 0x8B (ADC).
pub fn adc_a_e(cpu: &mut Cpu) -> (ticks: u8)
    requires
        old(cpu).wf(),
    ensures
        final(cpu).wf(),
        performs(old(cpu)@, final(cpu)@, 0x8B, ticks),
{
    run(cpu, 0x8B)
}

/// Opcode 0x8C (ADC).
pub fn adc_a_h(cpu: &mut Cpu) -> (ticks: u8)
    requires
        old(cpu).wf(),
    ensures
        final(cpu).wf(),
        performs(old(cpu)@, final(cpu)@, 0x8C, ticks),
{
    run(cpu, 0x8C)
}

/// Opcode 0x8D (ADC).
pub fn adc_a_l(cpu: &mut Cpu) -> (ticks: u8)
    requires
        old(cpu).wf(),
    ensures
        final(cpu).wf(),
        performs(old(cpu)@, final(cpu)@, 0x8D, ticks),
{
    run(cpu, 0x8D)
}

/// Opcode 0x8E (ADC).
pub fn adc_a_hl(cpu: &mut Cpu) -> (ticks: u8)
    requires
        old(cpu).wf(),
    ensures
        final(cpu).wf(),
        performs(old(cpu)@, final(cpu)@, 0x8E, ticks),
{
    run(cpu, 0x8E)
}

/// Opcode 0x8F (ADC).
pub fn adc_a_a(cpu: &mut Cpu) -> (ticks: u8)
    requires
        old(cpu).wf(),
    ensures
        final(cpu).wf(),
        performs(old(cpu)@, final(cpu)@, 0x8F, ticks),
{
    run(cpu, 0x8F)
}

/// Opcode 0xAF (XOR).
pub fn in_xor_a(cpu: &mut Cpu) -> (ticks: u8)
    requires
        old(cpu).wf(),
    ensures
        final(cpu).wf(),
        performs(old(cpu)@, final(cpu)@, 0xAF, ticks),
{
    run(cpu, 0xAF)
}

/// Opcode 0xC3 (JP).
pub fn jp_a16(cpu: &mut Cpu) -> (ticks: u8)
    requires
        old(cpu).wf(),
    ensures
        final(cpu).wf(),
        performs(old(cpu)@, final(cpu)@, 0xC3, ticks),
{
    run(cpu, 0xC3)
}

/// Opcode 0xF3 (DI).
pub fn in_di(cpu: &mut Cpu) -> (ticks: u8)
    requires
        old(cpu).wf(),
    ensures
        final(cpu).wf(),
        performs(old(cpu)@, final(cpu)@, 0xF3, ticks),
{
    run(cpu, 0xF3)
}

} // verus!
