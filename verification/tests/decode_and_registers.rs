use mooneye_gb::alu::{AccOp, AluOp, RmwOp};
use mooneye_gb::cpu::{Addr, Cond, Cpu, In8, Operand8, Out8};
use mooneye_gb::ram::RamBus;
use mooneye_gb::decode::{Instr, decode, decode_cb};
use mooneye_gb::registers::{Flags, Reg16, Reg8, Registers};

#[test]
fn decode_spot_checks() {
    assert_eq!(decode(0x00), Instr::Nop);
    assert_eq!(decode(0x40), Instr::Load(Operand8::Reg(Reg8::B), Operand8::Reg(Reg8::B)));
    assert_eq!(decode(0x76), Instr::Halt);
    assert_eq!(decode(0x7e), Instr::Load(Operand8::Reg(Reg8::A), Operand8::Mem(Addr::HL)));
    assert_eq!(decode(0x36), Instr::Load(Operand8::Mem(Addr::HL), Operand8::Imm));
    assert_eq!(decode(0x96), Instr::Alu(AluOp::Sub, Operand8::Mem(Addr::HL)));
    assert_eq!(decode(0xfe), Instr::Alu(AluOp::Cp, Operand8::Imm));
    assert_eq!(decode(0x35), Instr::Rmw(RmwOp::Dec, Operand8::Mem(Addr::HL)));
    assert_eq!(decode(0x27), Instr::Acc(AccOp::Daa));
    assert_eq!(decode(0x38), Instr::JrCc(Cond::C));
    assert_eq!(decode(0xc4), Instr::CallCc(Cond::NZ));
    assert_eq!(decode(0xf1), Instr::Pop16(Reg16::AF));
    assert_eq!(decode(0x31), Instr::Load16Imm(Reg16::SP));
    assert_eq!(decode(0xef), Instr::Rst(0x28));
    assert_eq!(decode(0xcb), Instr::CbPrefix);
    assert_eq!(decode(0xed), Instr::UndefinedDebug);
    assert_eq!(decode(0xdd), Instr::Undefined(0xdd));
    assert_eq!(decode(0x3a), Instr::Load(Operand8::Reg(Reg8::A), Operand8::Mem(Addr::HLD)));
    assert_eq!(decode(0xf2), Instr::Load(Operand8::Reg(Reg8::A), Operand8::Mem(Addr::ZeroPageC)));
}

#[test]
fn decode_cb_spot_checks() {
    assert_eq!(decode_cb(0x00), Instr::Rmw(RmwOp::Rlc, Operand8::Reg(Reg8::B)));
    assert_eq!(decode_cb(0x37), Instr::Rmw(RmwOp::Swap, Operand8::Reg(Reg8::A)));
    assert_eq!(decode_cb(0x7c), Instr::Bit(7, Operand8::Reg(Reg8::H)));
    assert_eq!(decode_cb(0x86), Instr::Rmw(RmwOp::ResBit(0), Operand8::Mem(Addr::HL)));
    assert_eq!(decode_cb(0xff), Instr::Rmw(RmwOp::SetBit(7), Operand8::Reg(Reg8::A)));
}

#[test]
fn every_opcode_decodes() {
    let mut undefined = 0;
    for op in 0..=255u8 {
        if let Instr::Undefined(x) = decode(op) {
            assert_eq!(x, op);
            undefined += 1;
        }
        match decode_cb(op) {
            Instr::Rmw(_, o) | Instr::Bit(_, o) => assert_ne!(o, Operand8::Imm),
            other => panic!("CB {:#04x} decoded to {:?}", op, other),
        }
    }
    assert_eq!(undefined, 10);
}

#[test]
fn flags_byte_roundtrip() {
    for b in 0..=255u8 {
        let f = Flags::from_bits_truncate(b);
        assert_eq!(f.bits(), b & 0xf0);
        assert_eq!(Flags::from_bits_truncate(f.bits()), f);
    }
    assert_eq!(Flags::empty().bits(), 0);
}

#[test]
fn register_pairs_roundtrip() {
    let mut regs = Registers::new();
    regs.write16(Reg16::BC, 0x1234);
    regs.write16(Reg16::DE, 0x5678);
    regs.write16(Reg16::HL, 0x9abc);
    regs.write16(Reg16::SP, 0xdef0);
    regs.write16(Reg16::AF, 0x12ff);
    assert_eq!(regs.read16(Reg16::BC), 0x1234);
    assert_eq!(regs.b, 0x12);
    assert_eq!(regs.c, 0x34);
    assert_eq!(regs.read16(Reg16::DE), 0x5678);
    assert_eq!(regs.read16(Reg16::HL), 0x9abc);
    assert_eq!(regs.h, 0x9a);
    assert_eq!(regs.l, 0xbc);
    assert_eq!(regs.read16(Reg16::SP), 0xdef0);
    assert_eq!(regs.read16(Reg16::AF), 0x12f0);
}

#[test]
fn register_reads_back_last_write_across_other_writes() {
    let mut cpu = Cpu::new();
    let mut bus = RamBus::new();
    Reg8::D.write(&mut cpu, &mut bus, 0x5a);
    for (i, r) in [Reg8::A, Reg8::B, Reg8::C, Reg8::E, Reg8::H, Reg8::L].iter().enumerate() {
        r.write(&mut cpu, &mut bus, i as u8 + 1);
    }
    let regs_before = cpu.regs;
    assert_eq!(Reg8::D.read(&mut cpu, &mut bus), 0x5a);
    assert_eq!(cpu.regs, regs_before);
    assert_eq!(bus.cycles(), 0);
}
