use ferrisboy::alu::Alu;
use ferrisboy::cpu::Cpu;
use ferrisboy::decoder::{cb_opcode_info, CpuError};
use ferrisboy::instructions::fetch_opcode;
use ferrisboy::interconnect::Interconnect;
use ferrisboy::microops::MicroOp;
use ferrisboy::registers::{Flag, Flags, Reg16, Reg8, Registers};

fn cpu_with_program(at: usize, program: &[u8]) -> Cpu {
    let mut memory = vec![0u8; 0x10000];
    for (i, b) in program.iter().enumerate() {
        memory[at + i] = *b;
    }
    let mut cpu = Cpu::new(Interconnect::new(memory));
    cpu.regs.set16(Reg16::PC, at as u16);
    cpu
}

#[test]
fn inc_a_step_sets_half_carry() {
    let mut cpu = cpu_with_program(0x0100, &[0x3C]);
    cpu.regs.set8(Reg8::A, 0x0F);
    assert_eq!(cpu.step(), Ok(4));
    assert_eq!(cpu.regs.get8(Reg8::A), 0x10);
    assert!(cpu.regs.f.h);
    assert!(!cpu.regs.f.z);
    assert!(!cpu.regs.f.n);
    assert_eq!(cpu.cycles, 4);
}

#[test]
fn ld_bc_d16_step() {
    let mut cpu = cpu_with_program(0x0100, &[0x01, 0x34, 0x12]);
    assert_eq!(cpu.step(), Ok(12));
    assert_eq!(cpu.regs.get16(Reg16::BC), 0x1234);
    assert_eq!(cpu.regs.get16(Reg16::PC), 0x0103);
}

#[test]
fn jp_a16_step() {
    let mut cpu = cpu_with_program(0x0100, &[0xC3, 0x00, 0x20]);
    assert_eq!(cpu.step(), Ok(16));
    assert_eq!(cpu.regs.get16(Reg16::PC), 0x2000);
}

#[test]
fn call_then_ret_step() {
    let mut cpu = cpu_with_program(0x1000, &[0xCD, 0x00, 0x20]);
    cpu.inter.write_byte(0x2000, 0xC9);
    cpu.regs.set16(Reg16::SP, 0xFFFE);
    assert_eq!(cpu.step(), Ok(24));
    assert_eq!(cpu.regs.get16(Reg16::PC), 0x2000);
    assert_eq!(cpu.regs.get16(Reg16::SP), 0xFFFC);
    assert_eq!(cpu.inter.read_byte(0xFFFD), 0x10);
    assert_eq!(cpu.inter.read_byte(0xFFFC), 0x03);
    assert_eq!(cpu.step(), Ok(16));
    assert_eq!(cpu.regs.get16(Reg16::PC), 0x1003);
    assert_eq!(cpu.regs.get16(Reg16::SP), 0xFFFE);
}

#[test]
fn call_microop_pushes_current_pc() {
    let mut cpu = cpu_with_program(0x0100, &[]);
    cpu.regs.set16(Reg16::PC, 0x1000);
    cpu.regs.set16(Reg16::SP, 0xFFFE);
    cpu.execute_microop(MicroOp::CallAbsolute { addr: 0x2000 });
    assert_eq!(cpu.inter.read_byte(0xFFFD), 0x10);
    assert_eq!(cpu.inter.read_byte(0xFFFC), 0x00);
    assert_eq!(cpu.regs.get16(Reg16::SP), 0xFFFC);
    assert_eq!(cpu.regs.get16(Reg16::PC), 0x2000);
}

#[test]
fn daa_after_addition_step() {
    let mut cpu = cpu_with_program(0x0100, &[0x27]);
    cpu.regs.set8(Reg8::A, 0x9A);
    assert_eq!(cpu.step(), Ok(4));
    assert_eq!(cpu.regs.get8(Reg8::A), 0x00);
    assert!(cpu.regs.f.z);
    assert!(cpu.regs.f.c);
    assert!(!cpu.regs.f.h);
}

#[test]
fn daa_after_subtraction() {
    let mut cpu = cpu_with_program(0x0100, &[0x27]);
    cpu.regs.set8(Reg8::A, 0x0F);
    cpu.regs.f = Flags { z: false, n: true, h: true, c: false };
    assert_eq!(cpu.step(), Ok(4));
    assert_eq!(cpu.regs.get8(Reg8::A), 0x09);
    assert!(cpu.regs.f.n);
}

#[test]
fn illegal_opcode_is_reported() {
    let mut cpu = cpu_with_program(0x0100, &[0xD3]);
    assert_eq!(cpu.step(), Err(CpuError::IllegalOpcode { opcode: 0xD3, pc: 0x0100 }));
    assert_eq!(cpu.cycles, 0);
}

#[test]
fn cb_prefixed_swap() {
    let mut cpu = cpu_with_program(0x0100, &[0xCB, 0x37]);
    cpu.regs.set8(Reg8::A, 0x12);
    assert_eq!(cpu.step(), Ok(8));
    assert_eq!(cpu.regs.get8(Reg8::A), 0x21);
    assert_eq!(cpu.regs.get16(Reg16::PC), 0x0102);
}

#[test]
fn cb_bit_on_hl() {
    let mut cpu = cpu_with_program(0x0100, &[0xCB, 0x7E]);
    cpu.regs.set16(Reg16::HL, 0xC000);
    cpu.inter.write_byte(0xC000, 0x80);
    assert_eq!(cpu.step(), Ok(12));
    assert!(!cpu.regs.f.z);
    assert!(cpu.regs.f.h);
}

#[test]
fn cb_decode_table() {
    let cpu = cpu_with_program(0x0100, &[]);
    assert_eq!(cpu.cb_decode(0x00), vec![MicroOp::RlcReg8 { dst: Reg8::B }]);
    assert_eq!(cpu.cb_decode(0x86), vec![MicroOp::ResRegHl { bit: 0 }]);
    assert_eq!(cpu.cb_decode(0xFF), vec![MicroOp::SetReg8 { bit: 7, reg: Reg8::A }]);
}

#[test]
fn decode_same_bytes_same_result() {
    let mut first = cpu_with_program(0x0200, &[0x34, 0x12]);
    let mut second = cpu_with_program(0x4000, &[0x34, 0x12]);
    let a = first.decode(0x01);
    let b = second.decode(0x01);
    assert_eq!(a, b);
    assert_eq!(a, Ok(vec![MicroOp::LdReg16FromImm { dst: Reg16::BC, value: 0x1234 }]));
    assert_eq!(first.regs.pc, 0x0202);
    assert_eq!(second.regs.pc, 0x4002);
}

#[test]
fn ei_takes_effect_after_next_instruction() {
    let mut cpu = cpu_with_program(0x0100, &[0xFB, 0x00, 0x00]);
    cpu.step().unwrap();
    assert!(!cpu.interrupt);
    cpu.step().unwrap();
    assert!(cpu.interrupt);
}

#[test]
fn di_is_immediate_and_cancels_pending_ei() {
    let mut cpu = cpu_with_program(0x0100, &[0xFB, 0xF3, 0x00]);
    cpu.step().unwrap();
    cpu.step().unwrap();
    assert!(!cpu.interrupt);
    cpu.step().unwrap();
    assert!(!cpu.interrupt);
}

#[test]
fn pair_round_trip() {
    let mut regs = Cpu::new(Interconnect::new(vec![])).regs;
    for pair in [Reg16::BC, Reg16::DE, Reg16::HL, Reg16::SP, Reg16::PC] {
        regs.set16(pair, 0xBEEF);
        assert_eq!(regs.get16(pair), 0xBEEF);
    }
    regs.set16(Reg16::AF, 0x12FF);
    assert_eq!(regs.get16(Reg16::AF), 0x12F0);
    regs.set8(Reg8::H, 0xAB);
    assert_eq!(regs.get16(Reg16::HL), 0xABEF);
}

#[test]
fn flags_pack_and_unpack() {
    let f = Flags::from_u8(0xFF);
    assert_eq!(f.to_u8(), 0xF0);
    assert!(f.get_flag(Flag::Z) && f.get_flag(Flag::N) && f.get_flag(Flag::H) && f.get_flag(Flag::C));
    assert_eq!(Flags::from_u8(0x90).to_u8(), 0x90);
    let r: Registers = Cpu::new(Interconnect::new(vec![])).regs;
    assert_eq!(r.pc, 0x0100);
}

#[test]
fn pointer_wraparound() {
    let mut cpu = cpu_with_program(0x0100, &[]);
    cpu.regs.set16(Reg16::SP, 0xFFFF);
    cpu.execute_microop(MicroOp::IncReg16 { reg: Reg16::SP });
    assert_eq!(cpu.regs.sp, 0x0000);
    cpu.execute_microop(MicroOp::DecReg16 { reg: Reg16::SP });
    assert_eq!(cpu.regs.sp, 0xFFFF);
    cpu.regs.pc = 0xFFFF;
    cpu.fetch8();
    assert_eq!(cpu.regs.pc, 0x0000);
}

#[test]
fn alu_add_sub_flags() {
    let alu = Alu::new();
    let r = alu.add_8bit(0x0F, 0x01);
    assert_eq!((r.result, r.z, r.n, r.h, r.c), (0x10, false, false, true, false));
    let r = alu.add_8bit(0xF0, 0x10);
    assert_eq!((r.result, r.z, r.h, r.c), (0x00, true, false, true));
    let r = alu.sub_8bit(0x10, 0x01);
    assert_eq!((r.result, r.n, r.h, r.c), (0x0F, true, true, false));
    let r = alu.sub_8bit(0x00, 0x01);
    assert_eq!((r.result, r.h, r.c), (0xFF, true, true));
    let r = alu.sbc_8bit(true, 0x00, 0x00);
    assert_eq!((r.result, r.h, r.c), (0xFF, true, true));
    let r = alu.adc_8bit(true, 0xFF, 0x00);
    assert_eq!((r.result, r.z, r.h, r.c), (0x00, true, true, true));
}

#[test]
fn alu_add16_flags() {
    let alu = Alu::new();
    let r = alu.add_16bit(0x0FFF, 0x0001);
    assert_eq!((r.result, r.h, r.c), (0x1000, true, false));
    let r = alu.add_16bit(0xFFFF, 0x0001);
    assert_eq!((r.result, r.z, r.h, r.c), (0x0000, true, true, true));
    let r = alu.add_16bit(0x00FF, 0x0001);
    assert_eq!((r.result, r.h, r.c), (0x0100, false, false));
}

#[test]
fn alu_rotates_and_shifts() {
    let alu = Alu::new();
    assert_eq!(alu.rrc_byte(0x01).result, 0x80);
    assert_eq!(alu.rl_byte(0x80, true).result, 0x01);
    assert!(alu.rl_byte(0x80, true).c);
    assert_eq!(alu.rr_byte(0x01, true).result, 0x80);
    assert_eq!(alu.sla_byte(0x81).result, 0x02);
    assert_eq!(alu.sra_byte(0x81).result, 0xC0);
    assert_eq!(alu.srl_byte(0x81).result, 0x40);
    let s = alu.swap_byte(0xF0);
    assert_eq!((s.result, s.c), (0x0F, false));
}

#[test]
fn bus_open_regions() {
    let mut inter = Interconnect::new(vec![0x11; 0x10000]);
    assert_eq!(inter.read_byte(0xE000), 0xFF);
    assert_eq!(inter.read_byte(0xFEA0), 0xFF);
    inter.write_byte(0xE000, 0x42);
    assert_eq!(inter.read_byte(0xE000), 0xFF);
    assert_eq!(inter.read_byte(0xA000), 0x11);
    assert_eq!(inter.read_byte(0xFFFF), 0x11);
    inter.write_byte(0xFF80, 0x42);
    assert_eq!(inter.read_byte(0xFF80), 0x42);
    let short = Interconnect::new(vec![0x22; 4]);
    assert_eq!(short.read_byte(0x0003), 0x22);
    assert_eq!(short.read_byte(0x0004), 0x00);
}

#[test]
fn ld_hl_sp_plus_negative() {
    let mut cpu = cpu_with_program(0x0100, &[0xF8, 0xFF]);
    cpu.regs.set16(Reg16::SP, 0x0001);
    assert_eq!(cpu.step(), Ok(12));
    assert_eq!(cpu.regs.get16(Reg16::HL), 0x0000);
    assert!(cpu.regs.f.h);
    assert!(cpu.regs.f.c);
}

#[test]
fn conditional_return_cycles() {
    let mut cpu = cpu_with_program(0x0100, &[0xC0, 0xC0]);
    cpu.regs.set16(Reg16::SP, 0xFFFC);
    cpu.inter.write_byte(0xFFFC, 0x34);
    cpu.inter.write_byte(0xFFFD, 0x12);
    cpu.regs.f.z = true;
    assert_eq!(cpu.step(), Ok(8));
    cpu.regs.f.z = false;
    assert_eq!(cpu.step(), Ok(20));
    assert_eq!(cpu.regs.pc, 0x1234);
}

#[test]
fn fetch_opcode_reads_cb_byte() {
    let mut cpu = cpu_with_program(0x0100, &[0xCB, 0x46, 0x3E]);
    let d = fetch_opcode(&mut cpu);
    assert_eq!((d.mnemonic, d.bytes, d.immediate), ("BIT", 2, false));
    assert_eq!(cpu.regs.pc, 0x0102);
    let d = fetch_opcode(&mut cpu);
    assert_eq!((d.mnemonic, d.bytes, d.immediate), ("LD", 2, true));
    assert_eq!(cpu.regs.pc, 0x0103);
}

#[test]
fn cb_descriptors() {
    let d = cb_opcode_info(0x37);
    assert_eq!((d.mnemonic, d.bytes, d.immediate), ("SWAP", 2, true));
    assert_eq!(cb_opcode_info(0x06).mnemonic, "RLC");
    assert!(!cb_opcode_info(0xFE).immediate);
    assert_eq!(cb_opcode_info(0xFE).mnemonic, "SET");
    assert_eq!(cb_opcode_info(0x9F).mnemonic, "RES");
}
