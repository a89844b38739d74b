//! Instruction decoding: the meaning of each opcode, and of each opcode that
//! follows the CB prefix.
use vstd::prelude::*;
use crate::alu::{AccOp, AluOp, RmwOp};
use crate::cpu::{Addr, Cond, Operand8};
use crate::registers::{Reg16, Reg8};

verus! {

/// An instruction, as the decoder hands it to the processor.
#[derive(Clone, Copy, Debug, PartialEq, Eq, Structural)]
pub enum Instr {
    Nop,
    Stop,
    Halt,
    Di,
    Ei,
    /// `LD dst, src`
    Load(Operand8, Operand8),
    /// An accumulator operation with an operand.
    Alu(AluOp, Operand8),
    /// A read-modify-write operation on one location.
    Rmw(RmwOp, Operand8),
    /// `BIT b, s`
    Bit(u8, Operand8),
    /// An accumulator operation without operand.
    Acc(AccOp),
    Jp,
    JpHl,
    Jr,
    Call,
    Ret,
    Reti,
    JpCc(Cond),
    JrCc(Cond),
    CallCc(Cond),
    RetCc(Cond),
    Rst(u8),
    Load16Imm(Reg16),
    Load16NnSp,
    Load16SpHl,
    Load16HlSpE,
    Push16(Reg16),
    Pop16(Reg16),
    Add16(Reg16),
    Add16SpE,
    Inc16(Reg16),
    Dec16(Reg16),
    Undefined(u8),
    UndefinedDebug,
    CbPrefix,
}

/// The eight-bit operand that a three-bit register field names:
/// B, C, D, E, H, L, (HL), A.
pub open spec fn operand_at(i: u8) -> Operand8 {
    if i == 0 {
        Operand8::Reg(Reg8::B)
    } else if i == 1 {
        Operand8::Reg(Reg8::C)
    } else if i == 2 {
        Operand8::Reg(Reg8::D)
    } else if i == 3 {
        Operand8::Reg(Reg8::E)
    } else if i == 4 {
        Operand8::Reg(Reg8::H)
    } else if i == 5 {
        Operand8::Reg(Reg8::L)
    } else if i == 6 {
        Operand8::Mem(Addr::HL)
    } else {
        Operand8::Reg(Reg8::A)
    }
}

/// The accumulator operation that a three-bit field names.
pub open spec fn alu_at(i: u8) -> AluOp {
    if i == 0 {
        AluOp::Add
    } else if i == 1 {
        AluOp::Adc
    } else if i == 2 {
        AluOp::Sub
    } else if i == 3 {
        AluOp::Sbc
    } else if i == 4 {
        AluOp::And
    } else if i == 5 {
        AluOp::Xor
    } else if i == 6 {
        AluOp::Or
    } else {
        AluOp::Cp
    }
}

/// The register pair that a two-bit field names, with SP as the fourth.
pub open spec fn pair_sp_at(p: u8) -> Reg16 {
    if p == 0 {
        Reg16::BC
    } else if p == 1 {
        Reg16::DE
    } else if p == 2 {
        Reg16::HL
    } else {
        Reg16::SP
    }
}

/// The register pair that a two-bit field names, with AF as the fourth (push and pop).
pub open spec fn pair_af_at(p: u8) -> Reg16 {
    if p == 0 {
        Reg16::BC
    } else if p == 1 {
        Reg16::DE
    } else if p == 2 {
        Reg16::HL
    } else {
        Reg16::AF
    }
}

/// The condition that a two-bit field names.
pub open spec fn cond_at(i: u8) -> Cond {
    if i == 0 {
        Cond::NZ
    } else if i == 1 {
        Cond::Z
    } else if i == 2 {
        Cond::NC
    } else {
        Cond::C
    }
}

/// The memory operand of the `LD (rr), A` and `LD A, (rr)` column.
pub open spec fn pair_mem_at(p: u8) -> Operand8 {
    if p == 0 {
        Operand8::Mem(Addr::BC)
    } else if p == 1 {
        Operand8::Mem(Addr::DE)
    } else if p == 2 {
        Operand8::Mem(Addr::HLI)
    } else {
        Operand8::Mem(Addr::HLD)
    }
}

/// The meaning of an opcode. It is written over the opcode's fields
/// `x = op[7:6]`, `y = op[5:3]`, `z = op[2:0]`, `p = y / 2`, `q = y % 2`.
pub open spec fn opcode_instr(op: u8) -> Instr {
    let x = op / 64;
    let y = (op / 8) % 8;
    let z = op % 8;
    let p = y / 2;
    let q = y % 2;
    let a = Operand8::Reg(Reg8::A);
    if x == 1 {
        if op == 0x76 {
            Instr::Halt
        } else {
            Instr::Load(operand_at(y), operand_at(z))
        }
    } else if x == 2 {
        Instr::Alu(alu_at(y), operand_at(z))
    } else if x == 0 {
        if z == 0 {
            if y == 0 {
                Instr::Nop
            } else if y == 1 {
                Instr::Load16NnSp
            } else if y == 2 {
                Instr::Stop
            } else if y == 3 {
                Instr::Jr
            } else {
                Instr::JrCc(cond_at((y - 4) as u8))
            }
        } else if z == 1 {
            if q == 0 {
                Instr::Load16Imm(pair_sp_at(p))
            } else {
                Instr::Add16(pair_sp_at(p))
            }
        } else if z == 2 {
            if q == 0 {
                Instr::Load(pair_mem_at(p), a)
            } else {
                Instr::Load(a, pair_mem_at(p))
            }
        } else if z == 3 {
            if q == 0 {
                Instr::Inc16(pair_sp_at(p))
            } else {
                Instr::Dec16(pair_sp_at(p))
            }
        } else if z == 4 {
            Instr::Rmw(RmwOp::Inc, operand_at(y))
        } else if z == 5 {
            Instr::Rmw(RmwOp::Dec, operand_at(y))
        } else if z == 6 {
            Instr::Load(operand_at(y), Operand8::Imm)
        } else {
            Instr::Acc(
                if y == 0 {
                    AccOp::Rlca
                } else if y == 1 {
                    AccOp::Rrca
                } else if y == 2 {
                    AccOp::Rla
                } else if y == 3 {
                    AccOp::Rra
                } else if y == 4 {
                    AccOp::Daa
                } else if y == 5 {
                    AccOp::Cpl
                } else if y == 6 {
                    AccOp::Scf
                } else {
                    AccOp::Ccf
                },
            )
        }
    } else {
        if z == 0 {
            if y < 4 {
                Instr::RetCc(cond_at(y))
            } else if y == 4 {
                Instr::Load(Operand8::Mem(Addr::ZeroPage), a)
            } else if y == 5 {
                Instr::Add16SpE
            } else if y == 6 {
                Instr::Load(a, Operand8::Mem(Addr::ZeroPage))
            } else {
                Instr::Load16HlSpE
            }
        } else if z == 1 {
            if q == 0 {
                Instr::Pop16(pair_af_at(p))
            } else if p == 0 {
                Instr::Ret
            } else if p == 1 {
                Instr::Reti
            } else if p == 2 {
                Instr::JpHl
            } else {
                Instr::Load16SpHl
            }
        } else if z == 2 {
            if y < 4 {
                Instr::JpCc(cond_at(y))
            } else if y == 4 {
                Instr::Load(Operand8::Mem(Addr::ZeroPageC), a)
            } else if y == 5 {
                Instr::Load(Operand8::Mem(Addr::Direct), a)
            } else if y == 6 {
                Instr::Load(a, Operand8::Mem(Addr::ZeroPageC))
            } else {
                Instr::Load(a, Operand8::Mem(Addr::Direct))
            }
        } else if z == 3 {
            if y == 0 {
                Instr::Jp
            } else if y == 1 {
                Instr::CbPrefix
            } else if y == 6 {
                Instr::Di
            } else if y == 7 {
                Instr::Ei
            } else {
                Instr::Undefined(op)
            }
        } else if z == 4 {
            if y < 4 {
                Instr::CallCc(cond_at(y))
            } else {
                Instr::Undefined(op)
            }
        } else if z == 5 {
            if q == 0 {
                Instr::Push16(pair_af_at(p))
            } else if p == 0 {
                Instr::Call
            } else if op == 0xed {
                Instr::UndefinedDebug
            } else {
                Instr::Undefined(op)
            }
        } else if z == 6 {
            Instr::Alu(alu_at(y), Operand8::Imm)
        } else {
            Instr::Rst((y * 8) as u8)
        }
    }
}

/// The meaning of the opcode that follows the CB prefix: rotations and shifts
/// (x = 0), `BIT` (x = 1), `RES` (x = 2) and `SET` (x = 3) on the operand `z`.
pub open spec fn cb_instr(op: u8) -> Instr {
    let x = op / 64;
    let y = (op / 8) % 8;
    let z = op % 8;
    if x == 0 {
        Instr::Rmw(
            if y == 0 {
                RmwOp::Rlc
            } else if y == 1 {
                RmwOp::Rrc
            } else if y == 2 {
                RmwOp::Rl
            } else if y == 3 {
                RmwOp::Rr
            } else if y == 4 {
                RmwOp::Sla
            } else if y == 5 {
                RmwOp::Sra
            } else if y == 6 {
                RmwOp::Swap
            } else {
                RmwOp::Srl
            },
            operand_at(z),
        )
    } else if x == 1 {
        Instr::Bit(y, operand_at(z))
    } else if x == 2 {
        Instr::Rmw(RmwOp::ResBit(y), operand_at(z))
    } else {
        Instr::Rmw(RmwOp::SetBit(y), operand_at(z))
    }
}

/// Decodes an opcode.
#[verifier::rlimit(50)]
pub fn decode(op: u8) -> (instr: Instr)
    ensures
        instr == opcode_instr(op),
{
    match op {
        0x00 => Instr::Nop,
        0x01 => Instr::Load16Imm(Reg16::BC),
        0x02 => Instr::Load(Operand8::Mem(Addr::BC), Operand8::Reg(Reg8::A)),
        0x03 => Instr::Inc16(Reg16::BC),
        0x04 => Instr::Rmw(RmwOp::Inc, Operand8::Reg(Reg8::B)),
        0x05 => Instr::Rmw(RmwOp::Dec, Operand8::Reg(Reg8::B)),
        0x06 => Instr::Load(Operand8::Reg(Reg8::B), Operand8::Imm),
        0x07 => Instr::Acc(AccOp::Rlca),
        0x08 => Instr::Load16NnSp,
        0x09 => Instr::Add16(Reg16::BC),
        0x0a => Instr::Load(Operand8::Reg(Reg8::A), Operand8::Mem(Addr::BC)),
        0x0b => Instr::Dec16(Reg16::BC),
        0x0c => Instr::Rmw(RmwOp::Inc, Operand8::Reg(Reg8::C)),
        0x0d => Instr::Rmw(RmwOp::Dec, Operand8::Reg(Reg8::C)),
        0x0e => Instr::Load(Operand8::Reg(Reg8::C), Operand8::Imm),
        0x0f => Instr::Acc(AccOp::Rrca),
        0x10 => Instr::Stop,
        0x11 => Instr::Load16Imm(Reg16::DE),
        0x12 => Instr::Load(Operand8::Mem(Addr::DE), Operand8::Reg(Reg8::A)),
        0x13 => Instr::Inc16(Reg16::DE),
        0x14 => Instr::Rmw(RmwOp::Inc, Operand8::Reg(Reg8::D)),
        0x15 => Instr::Rmw(RmwOp::Dec, Operand8::Reg(Reg8::D)),
        0x16 => Instr::Load(Operand8::Reg(Reg8::D), Operand8::Imm),
        0x17 => Instr::Acc(AccOp::Rla),
        0x18 => Instr::Jr,
        0x19 => Instr::Add16(Reg16::DE),
        0x1a => Instr::Load(Operand8::Reg(Reg8::A), Operand8::Mem(Addr::DE)),
        0x1b => Instr::Dec16(Reg16::DE),
        0x1c => Instr::Rmw(RmwOp::Inc, Operand8::Reg(Reg8::E)),
        0x1d => Instr::Rmw(RmwOp::Dec, Operand8::Reg(Reg8::E)),
        0x1e => Instr::Load(Operand8::Reg(Reg8::E), Operand8::Imm),
        0x1f => Instr::Acc(AccOp::Rra),
        0x20 => Instr::JrCc(Cond::NZ),
        0x21 => Instr::Load16Imm(Reg16::HL),
        0x22 => Instr::Load(Operand8::Mem(Addr::HLI), Operand8::Reg(Reg8::A)),
        0x23 => Instr::Inc16(Reg16::HL),
        0x24 => Instr::Rmw(RmwOp::Inc, Operand8::Reg(Reg8::H)),
        0x25 => Instr::Rmw(RmwOp::Dec, Operand8::Reg(Reg8::H)),
        0x26 => Instr::Load(Operand8::Reg(Reg8::H), Operand8::Imm),
        0x27 => Instr::Acc(AccOp::Daa),
        0x28 => Instr::JrCc(Cond::Z),
        0x29 => Instr::Add16(Reg16::HL),
        0x2a => Instr::Load(Operand8::Reg(Reg8::A), Operand8::Mem(Addr::HLI)),
        0x2b => Instr::Dec16(Reg16::HL),
        0x2c => Instr::Rmw(RmwOp::Inc, Operand8::Reg(Reg8::L)),
        0x2d => Instr::Rmw(RmwOp::Dec, Operand8::Reg(Reg8::L)),
        0x2e => Instr::Load(Operand8::Reg(Reg8::L), Operand8::Imm),
        0x2f => Instr::Acc(AccOp::Cpl),
        0x30 => Instr::JrCc(Cond::NC),
        0x31 => Instr::Load16Imm(Reg16::SP),
        0x32 => Instr::Load(Operand8::Mem(Addr::HLD), Operand8::Reg(Reg8::A)),
        0x33 => Instr::Inc16(Reg16::SP),
        0x34 => Instr::Rmw(RmwOp::Inc, Operand8::Mem(Addr::HL)),
        0x35 => Instr::Rmw(RmwOp::Dec, Operand8::Mem(Addr::HL)),
        0x36 => Instr::Load(Operand8::Mem(Addr::HL), Operand8::Imm),
        0x37 => Instr::Acc(AccOp::Scf),
        0x38 => Instr::JrCc(Cond::C),
        0x39 => Instr::Add16(Reg16::SP),
        0x3a => Instr::Load(Operand8::Reg(Reg8::A), Operand8::Mem(Addr::HLD)),
        0x3b => Instr::Dec16(Reg16::SP),
        0x3c => Instr::Rmw(RmwOp::Inc, Operand8::Reg(Reg8::A)),
        0x3d => Instr::Rmw(RmwOp::Dec, Operand8::Reg(Reg8::A)),
        0x3e => Instr::Load(Operand8::Reg(Reg8::A), Operand8::Imm),
        0x3f => Instr::Acc(AccOp::Ccf),
        0x40 => Instr::Load(Operand8::Reg(Reg8::B), Operand8::Reg(Reg8::B)),
        0x41 => Instr::Load(Operand8::Reg(Reg8::B), Operand8::Reg(Reg8::C)),
        0x42 => Instr::Load(Operand8::Reg(Reg8::B), Operand8::Reg(Reg8::D)),
        0x43 => Instr::Load(Operand8::Reg(Reg8::B), Operand8::Reg(Reg8::E)),
        0x44 => Instr::Load(Operand8::Reg(Reg8::B), Operand8::Reg(Reg8::H)),
        0x45 => Instr::Load(Operand8::Reg(Reg8::B), Operand8::Reg(Reg8::L)),
        0x46 => Instr::Load(Operand8::Reg(Reg8::B), Operand8::Mem(Addr::HL)),
        0x47 => Instr::Load(Operand8::Reg(Reg8::B), Operand8::Reg(Reg8::A)),
        0x48 => Instr::Load(Operand8::Reg(Reg8::C), Operand8::Reg(Reg8::B)),
        0x49 => Instr::Load(Operand8::Reg(Reg8::C), Operand8::Reg(Reg8::C)),
        0x4a => Instr::Load(Operand8::Reg(Reg8::C), Operand8::Reg(Reg8::D)),
        0x4b => Instr::Load(Operand8::Reg(Reg8::C), Operand8::Reg(Reg8::E)),
        0x4c => Instr::Load(Operand8::Reg(Reg8::C), Operand8::Reg(Reg8::H)),
        0x4d => Instr::Load(Operand8::Reg(Reg8::C), Operand8::Reg(Reg8::L)),
        0x4e => Instr::Load(Operand8::Reg(Reg8::C), Operand8::Mem(Addr::HL)),
        0x4f => Instr::Load(Operand8::Reg(Reg8::C), Operand8::Reg(Reg8::A)),
        0x50 => Instr::Load(Operand8::Reg(Reg8::D), Operand8::Reg(Reg8::B)),
        0x51 => Instr::Load(Operand8::Reg(Reg8::D), Operand8::Reg(Reg8::C)),
        0x52 => Instr::Load(Operand8::Reg(Reg8::D), Operand8::Reg(Reg8::D)),
        0x53 => Instr::Load(Operand8::Reg(Reg8::D), Operand8::Reg(Reg8::E)),
        0x54 => Instr::Load(Operand8::Reg(Reg8::D), Operand8::Reg(Reg8::H)),
        0x55 => Instr::Load(Operand8::Reg(Reg8::D), Operand8::Reg(Reg8::L)),
        0x56 => Instr::Load(Operand8::Reg(Reg8::D), Operand8::Mem(Addr::HL)),
        0x57 => Instr::Load(Operand8::Reg(Reg8::D), Operand8::Reg(Reg8::A)),
        0x58 => Instr::Load(Operand8::Reg(Reg8::E), Operand8::Reg(Reg8::B)),
        0x59 => Instr::Load(Operand8::Reg(Reg8::E), Operand8::Reg(Reg8::C)),
        0x5a => Instr::Load(Operand8::Reg(Reg8::E), Operand8::Reg(Reg8::D)),
        0x5b => Instr::Load(Operand8::Reg(Reg8::E), Operand8::Reg(Reg8::E)),
        0x5c => Instr::Load(Operand8::Reg(Reg8::E), Operand8::Reg(Reg8::H)),
        0x5d => Instr::Load(Operand8::Reg(Reg8::E), Operand8::Reg(Reg8::L)),
        0x5e => Instr::Load(Operand8::Reg(Reg8::E), Operand8::Mem(Addr::HL)),
        0x5f => Instr::Load(Operand8::Reg(Reg8::E), Operand8::Reg(Reg8::A)),
        0x60 => Instr::Load(Operand8::Reg(Reg8::H), Operand8::Reg(Reg8::B)),
        0x61 => Instr::Load(Operand8::Reg(Reg8::H), Operand8::Reg(Reg8::C)),
        0x62 => Instr::Load(Operand8::Reg(Reg8::H), Operand8::Reg(Reg8::D)),
        0x63 => Instr::Load(Operand8::Reg(Reg8::H), Operand8::Reg(Reg8::E)),
        0x64 => Instr::Load(Operand8::Reg(Reg8::H), Operand8::Reg(Reg8::H)),
        0x65 => Instr::Load(Operand8::Reg(Reg8::H), Operand8::Reg(Reg8::L)),
        0x66 => Instr::Load(Operand8::Reg(Reg8::H), Operand8::Mem(Addr::HL)),
        0x67 => Instr::Load(Operand8::Reg(Reg8::H), Operand8::Reg(Reg8::A)),
        0x68 => Instr::Load(Operand8::Reg(Reg8::L), Operand8::Reg(Reg8::B)),
        0x69 => Instr::Load(Operand8::Reg(Reg8::L), Operand8::Reg(Reg8::C)),
        0x6a => Instr::Load(Operand8::Reg(Reg8::L), Operand8::Reg(Reg8::D)),
        0x6b => Instr::Load(Operand8::Reg(Reg8::L), Operand8::Reg(Reg8::E)),
        0x6c => Instr::Load(Operand8::Reg(Reg8::L), Operand8::Reg(Reg8::H)),
        0x6d => Instr::Load(Operand8::Reg(Reg8::L), Operand8::Reg(Reg8::L)),
        0x6e => Instr::Load(Operand8::Reg(Reg8::L), Operand8::Mem(Addr::HL)),
        0x6f => Instr::Load(Operand8::Reg(Reg8::L), Operand8::Reg(Reg8::A)),
        0x70 => Instr::Load(Operand8::Mem(Addr::HL), Operand8::Reg(Reg8::B)),
        0x71 => Instr::Load(Operand8::Mem(Addr::HL), Operand8::Reg(Reg8::C)),
        0x72 => Instr::Load(Operand8::Mem(Addr::HL), Operand8::Reg(Reg8::D)),
        0x73 => Instr::Load(Operand8::Mem(Addr::HL), Operand8::Reg(Reg8::E)),
        0x74 => Instr::Load(Operand8::Mem(Addr::HL), Operand8::Reg(Reg8::H)),
        0x75 => Instr::Load(Operand8::Mem(Addr::HL), Operand8::Reg(Reg8::L)),
        0x76 => Instr::Halt,
        0x77 => Instr::Load(Operand8::Mem(Addr::HL), Operand8::Reg(Reg8::A)),
        0x78 => Instr::Load(Operand8::Reg(Reg8::A), Operand8::Reg(Reg8::B)),
        0x79 => Instr::Load(Operand8::Reg(Reg8::A), Operand8::Reg(Reg8::C)),
        0x7a => Instr::Load(Operand8::Reg(Reg8::A), Operand8::Reg(Reg8::D)),
        0x7b => Instr::Load(Operand8::Reg(Reg8::A), Operand8::Reg(Reg8::E)),
        0x7c => Instr::Load(Operand8::Reg(Reg8::A), Operand8::Reg(Reg8::H)),
        0x7d => Instr::Load(Operand8::Reg(Reg8::A), Operand8::Reg(Reg8::L)),
        0x7e => Instr::Load(Operand8::Reg(Reg8::A), Operand8::Mem(Addr::HL)),
        0x7f => Instr::Load(Operand8::Reg(Reg8::A), Operand8::Reg(Reg8::A)),
        0x80 => Instr::Alu(AluOp::Add, Operand8::Reg(Reg8::B)),
        0x81 => Instr::Alu(AluOp::Add, Operand8::Reg(Reg8::C)),
        0x82 => Instr::Alu(AluOp::Add, Operand8::Reg(Reg8::D)),
        0x83 => Instr::Alu(AluOp::Add, Operand8::Reg(Reg8::E)),
        0x84 => Instr::Alu(AluOp::Add, Operand8::Reg(Reg8::H)),
        0x85 => Instr::Alu(AluOp::Add, Operand8::Reg(Reg8::L)),
        0x86 => Instr::Alu(AluOp::Add, Operand8::Mem(Addr::HL)),
        0x87 => Instr::Alu(AluOp::Add, Operand8::Reg(Reg8::A)),
        0x88 => Instr::Alu(AluOp::Adc, Operand8::Reg(Reg8::B)),
        0x89 => Instr::Alu(AluOp::Adc, Operand8::Reg(Reg8::C)),
        0x8a => Instr::Alu(AluOp::Adc, Operand8::Reg(Reg8::D)),
        0x8b => Instr::Alu(AluOp::Adc, Operand8::Reg(Reg8::E)),
        0x8c => Instr::Alu(AluOp::Adc, Operand8::Reg(Reg8::H)),
        0x8d => Instr::Alu(AluOp::Adc, Operand8::Reg(Reg8::L)),
        0x8e => Instr::Alu(AluOp::Adc, Operand8::Mem(Addr::HL)),
        0x8f => Instr::Alu(AluOp::Adc, Operand8::Reg(Reg8::A)),
        0x90 => Instr::Alu(AluOp::Sub, Operand8::Reg(Reg8::B)),
        0x91 => Instr::Alu(AluOp::Sub, Operand8::Reg(Reg8::C)),
        0x92 => Instr::Alu(AluOp::Sub, Operand8::Reg(Reg8::D)),
        0x93 => Instr::Alu(AluOp::Sub, Operand8::Reg(Reg8::E)),
        0x94 => Instr::Alu(AluOp::Sub, Operand8::Reg(Reg8::H)),
        0x95 => Instr::Alu(AluOp::Sub, Operand8::Reg(Reg8::L)),
        0x96 => Instr::Alu(AluOp::Sub, Operand8::Mem(Addr::HL)),
        0x97 => Instr::Alu(AluOp::Sub, Operand8::Reg(Reg8::A)),
        0x98 => Instr::Alu(AluOp::Sbc, Operand8::Reg(Reg8::B)),
        0x99 => Instr::Alu(AluOp::Sbc, Operand8::Reg(Reg8::C)),
        0x9a => Instr::Alu(AluOp::Sbc, Operand8::Reg(Reg8::D)),
        0x9b => Instr::Alu(AluOp::Sbc, Operand8::Reg(Reg8::E)),
        0x9c => Instr::Alu(AluOp::Sbc, Operand8::Reg(Reg8::H)),
        0x9d => Instr::Alu(AluOp::Sbc, Operand8::Reg(Reg8::L)),
        0x9e => Instr::Alu(AluOp::Sbc, Operand8::Mem(Addr::HL)),
        0x9f => Instr::Alu(AluOp::Sbc, Operand8::Reg(Reg8::A)),
        0xa0 => Instr::Alu(AluOp::And, Operand8::Reg(Reg8::B)),
        0xa1 => Instr::Alu(AluOp::And, Operand8::Reg(Reg8::C)),
        0xa2 => Instr::Alu(AluOp::And, Operand8::Reg(Reg8::D)),
        0xa3 => Instr::Alu(AluOp::And, Operand8::Reg(Reg8::E)),
        0xa4 => Instr::Alu(AluOp::And, Operand8::Reg(Reg8::H)),
        0xa5 => Instr::Alu(AluOp::And, Operand8::Reg(Reg8::L)),
        0xa6 => Instr::Alu(AluOp::And, Operand8::Mem(Addr::HL)),
        0xa7 => Instr::Alu(AluOp::And, Operand8::Reg(Reg8::A)),
        0xa8 => Instr::Alu(AluOp::Xor, Operand8::Reg(Reg8::B)),
        0xa9 => Instr::Alu(AluOp::Xor, Operand8::Reg(Reg8::C)),
        0xaa => Instr::Alu(AluOp::Xor, Operand8::Reg(Reg8::D)),
        0xab => Instr::Alu(AluOp::Xor, Operand8::Reg(Reg8::E)),
        0xac => Instr::Alu(AluOp::Xor, Operand8::Reg(Reg8::H)),
        0xad => Instr::Alu(AluOp::Xor, Operand8::Reg(Reg8::L)),
        0xae => Instr::Alu(AluOp::Xor, Operand8::Mem(Addr::HL)),
        0xaf => Instr::Alu(AluOp::Xor, Operand8::Reg(Reg8::A)),
        0xb0 => Instr::Alu(AluOp::Or, Operand8::Reg(Reg8::B)),
        0xb1 => Instr::Alu(AluOp::Or, Operand8::Reg(Reg8::C)),
        0xb2 => Instr::Alu(AluOp::Or, Operand8::Reg(Reg8::D)),
        0xb3 => Instr::Alu(AluOp::Or, Operand8::Reg(Reg8::E)),
        0xb4 => Instr::Alu(AluOp::Or, Operand8::Reg(Reg8::H)),
        0xb5 => Instr::Alu(AluOp::Or, Operand8::Reg(Reg8::L)),
        0xb6 => Instr::Alu(AluOp::Or, Operand8::Mem(Addr::HL)),
        0xb7 => Instr::Alu(AluOp::Or, Operand8::Reg(Reg8::A)),
        0xb8 => Instr::Alu(AluOp::Cp, Operand8::Reg(Reg8::B)),
        0xb9 => Instr::Alu(AluOp::Cp, Operand8::Reg(Reg8::C)),
        0xba => Instr::Alu(AluOp::Cp, Operand8::Reg(Reg8::D)),
        0xbb => Instr::Alu(AluOp::Cp, Operand8::Reg(Reg8::E)),
        0xbc => Instr::Alu(AluOp::Cp, Operand8::Reg(Reg8::H)),
        0xbd => Instr::Alu(AluOp::Cp, Operand8::Reg(Reg8::L)),
        0xbe => Instr::Alu(AluOp::Cp, Operand8::Mem(Addr::HL)),
        0xbf => Instr::Alu(AluOp::Cp, Operand8::Reg(Reg8::A)),
        0xc0 => Instr::RetCc(Cond::NZ),
        0xc1 => Instr::Pop16(Reg16::BC),
        0xc2 => Instr::JpCc(Cond::NZ),
        0xc3 => Instr::Jp,
        0xc4 => Instr::CallCc(Cond::NZ),
        0xc5 => Instr::Push16(Reg16::BC),
        0xc6 => Instr::Alu(AluOp::Add, Operand8::Imm),
        0xc7 => Instr::Rst(0x00),
        0xc8 => Instr::RetCc(Cond::Z),
        0xc9 => Instr::Ret,
        0xca => Instr::JpCc(Cond::Z),
        0xcb => Instr::CbPrefix,
        0xcc => Instr::CallCc(Cond::Z),
        0xcd => Instr::Call,
        0xce => Instr::Alu(AluOp::Adc, Operand8::Imm),
        0xcf => Instr::Rst(0x08),
        0xd0 => Instr::RetCc(Cond::NC),
        0xd1 => Instr::Pop16(Reg16::DE),
        0xd2 => Instr::JpCc(Cond::NC),
        0xd3 => Instr::Undefined(0xd3),
        0xd4 => Instr::CallCc(Cond::NC),
        0xd5 => Instr::Push16(Reg16::DE),
        0xd6 => Instr::Alu(AluOp::Sub, Operand8::Imm),
        0xd7 => Instr::Rst(0x10),
        0xd8 => Instr::RetCc(Cond::C),
        0xd9 => Instr::Reti,
        0xda => Instr::JpCc(Cond::C),
        0xdb => Instr::Undefined(0xdb),
        0xdc => Instr::CallCc(Cond::C),
        0xdd => Instr::Undefined(0xdd),
        0xde => Instr::Alu(AluOp::Sbc, Operand8::Imm),
        0xdf => Instr::Rst(0x18),
        0xe0 => Instr::Load(Operand8::Mem(Addr::ZeroPage), Operand8::Reg(Reg8::A)),
        0xe1 => Instr::Pop16(Reg16::HL),
        0xe2 => Instr::Load(Operand8::Mem(Addr::ZeroPageC), Operand8::Reg(Reg8::A)),
        0xe3 => Instr::Undefined(0xe3),
        0xe4 => Instr::Undefined(0xe4),
        0xe5 => Instr::Push16(Reg16::HL),
        0xe6 => Instr::Alu(AluOp::And, Operand8::Imm),
        0xe7 => Instr::Rst(0x20),
        0xe8 => Instr::Add16SpE,
        0xe9 => Instr::JpHl,
        0xea => Instr::Load(Operand8::Mem(Addr::Direct), Operand8::Reg(Reg8::A)),
        0xeb => Instr::Undefined(0xeb),
        0xec => Instr::Undefined(0xec),
        0xed => Instr::UndefinedDebug,
        0xee => Instr::Alu(AluOp::Xor, Operand8::Imm),
        0xef => Instr::Rst(0x28),
        0xf0 => Instr::Load(Operand8::Reg(Reg8::A), Operand8::Mem(Addr::ZeroPage)),
        0xf1 => Instr::Pop16(Reg16::AF),
        0xf2 => Instr::Load(Operand8::Reg(Reg8::A), Operand8::Mem(Addr::ZeroPageC)),
        0xf3 => Instr::Di,
        0xf4 => Instr::Undefined(0xf4),
        0xf5 => Instr::Push16(Reg16::AF),
        0xf6 => Instr::Alu(AluOp::Or, Operand8::Imm),
        0xf7 => Instr::Rst(0x30),
        0xf8 => Instr::Load16HlSpE,
        0xf9 => Instr::Load16SpHl,
        0xfa => Instr::Load(Operand8::Reg(Reg8::A), Operand8::Mem(Addr::Direct)),
        0xfb => Instr::Ei,
        0xfc => Instr::Undefined(0xfc),
        0xfd => Instr::Undefined(0xfd),
        0xfe => Instr::Alu(AluOp::Cp, Operand8::Imm),
        0xff => Instr::Rst(0x38),
    }
}

/// Decodes the opcode that follows the CB prefix.
#[verifier::rlimit(50)]
pub fn decode_cb(op: u8) -> (instr: Instr)
    ensures
        instr == cb_instr(op),
{
    match op {
        0x00 => Instr::Rmw(RmwOp::Rlc, Operand8::Reg(Reg8::B)),
        0x01 => Instr::Rmw(RmwOp::Rlc, Operand8::Reg(Reg8::C)),
        0x02 => Instr::Rmw(RmwOp::Rlc, Operand8::Reg(Reg8::D)),
        0x03 => Instr::Rmw(RmwOp::Rlc, Operand8::Reg(Reg8::E)),
        0x04 => Instr::Rmw(RmwOp::Rlc, Operand8::Reg(Reg8::H)),
        0x05 => Instr::Rmw(RmwOp::Rlc, Operand8::Reg(Reg8::L)),
        0x06 => Instr::Rmw(RmwOp::Rlc, Operand8::Mem(Addr::HL)),
        0x07 => Instr::Rmw(RmwOp::Rlc, Operand8::Reg(Reg8::A)),
        0x08 => Instr::Rmw(RmwOp::Rrc, Operand8::Reg(Reg8::B)),
        0x09 => Instr::Rmw(RmwOp::Rrc, Operand8::Reg(Reg8::C)),
        0x0a => Instr::Rmw(RmwOp::Rrc, Operand8::Reg(Reg8::D)),
        0x0b => Instr::Rmw(RmwOp::Rrc, Operand8::Reg(Reg8::E)),
        0x0c => Instr::Rmw(RmwOp::Rrc, Operand8::Reg(Reg8::H)),
        0x0d => Instr::Rmw(RmwOp::Rrc, Operand8::Reg(Reg8::L)),
        0x0e => Instr::Rmw(RmwOp::Rrc, Operand8::Mem(Addr::HL)),
        0x0f => Instr::Rmw(RmwOp::Rrc, Operand8::Reg(Reg8::A)),
        0x10 => Instr::Rmw(RmwOp::Rl, Operand8::Reg(Reg8::B)),
        0x11 => Instr::Rmw(RmwOp::Rl, Operand8::Reg(Reg8::C)),
        0x12 => Instr::Rmw(RmwOp::Rl, Operand8::Reg(Reg8::D)),
        0x13 => Instr::Rmw(RmwOp::Rl, Operand8::Reg(Reg8::E)),
        0x14 => Instr::Rmw(RmwOp::Rl, Operand8::Reg(Reg8::H)),
        0x15 => Instr::Rmw(RmwOp::Rl, Operand8::Reg(Reg8::L)),
        0x16 => Instr::Rmw(RmwOp::Rl, Operand8::Mem(Addr::HL)),
        0x17 => Instr::Rmw(RmwOp::Rl, Operand8::Reg(Reg8::A)),
        0x18 => Instr::Rmw(RmwOp::Rr, Operand8::Reg(Reg8::B)),
        0x19 => Instr::Rmw(RmwOp::Rr, Operand8::Reg(Reg8::C)),
        0x1a => Instr::Rmw(RmwOp::Rr, Operand8::Reg(Reg8::D)),
        0x1b => Instr::Rmw(RmwOp::Rr, Operand8::Reg(Reg8::E)),
        0x1c => Instr::Rmw(RmwOp::Rr, Operand8::Reg(Reg8::H)),
        0x1d => Instr::Rmw(RmwOp::Rr, Operand8::Reg(Reg8::L)),
        0x1e => Instr::Rmw(RmwOp::Rr, Operand8::Mem(Addr::HL)),
        0x1f => Instr::Rmw(RmwOp::Rr, Operand8::Reg(Reg8::A)),
        0x20 => Instr::Rmw(RmwOp::Sla, Operand8::Reg(Reg8::B)),
        0x21 => Instr::Rmw(RmwOp::Sla, Operand8::Reg(Reg8::C)),
        0x22 => Instr::Rmw(RmwOp::Sla, Operand8::Reg(Reg8::D)),
        0x23 => Instr::Rmw(RmwOp::Sla, Operand8::Reg(Reg8::E)),
        0x24 => Instr::Rmw(RmwOp::Sla, Operand8::Reg(Reg8::H)),
        0x25 => Instr::Rmw(RmwOp::Sla, Operand8::Reg(Reg8::L)),
        0x26 => Instr::Rmw(RmwOp::Sla, Operand8::Mem(Addr::HL)),
        0x27 => Instr::Rmw(RmwOp::Sla, Operand8::Reg(Reg8::A)),
        0x28 => Instr::Rmw(RmwOp::Sra, Operand8::Reg(Reg8::B)),
        0x29 => Instr::Rmw(RmwOp::Sra, Operand8::Reg(Reg8::C)),
        0x2a => Instr::Rmw(RmwOp::Sra, Operand8::Reg(Reg8::D)),
        0x2b => Instr::Rmw(RmwOp::Sra, Operand8::Reg(Reg8::E)),
        0x2c => Instr::Rmw(RmwOp::Sra, Operand8::Reg(Reg8::H)),
        0x2d => Instr::Rmw(RmwOp::Sra, Operand8::Reg(Reg8::L)),
        0x2e => Instr::Rmw(RmwOp::Sra, Operand8::Mem(Addr::HL)),
        0x2f => Instr::Rmw(RmwOp::Sra, Operand8::Reg(Reg8::A)),
        0x30 => Instr::Rmw(RmwOp::Swap, Operand8::Reg(Reg8::B)),
        0x31 => Instr::Rmw(RmwOp::Swap, Operand8::Reg(Reg8::C)),
        0x32 => Instr::Rmw(RmwOp::Swap, Operand8::Reg(Reg8::D)),
        0x33 => Instr::Rmw(RmwOp::Swap, Operand8::Reg(Reg8::E)),
        0x34 => Instr::Rmw(RmwOp::Swap, Operand8::Reg(Reg8::H)),
        0x35 => Instr::Rmw(RmwOp::Swap, Operand8::Reg(Reg8::L)),
        0x36 => Instr::Rmw(RmwOp::Swap, Operand8::Mem(Addr::HL)),
        0x37 => Instr::Rmw(RmwOp::Swap, Operand8::Reg(Reg8::A)),
        0x38 => Instr::Rmw(RmwOp::Srl, Operand8::Reg(Reg8::B)),
        0x39 => Instr::Rmw(RmwOp::Srl, Operand8::Reg(Reg8::C)),
        0x3a => Instr::Rmw(RmwOp::Srl, Operand8::Reg(Reg8::D)),
        0x3b => Instr::Rmw(RmwOp::Srl, Operand8::Reg(Reg8::E)),
        0x3c => Instr::Rmw(RmwOp::Srl, Operand8::Reg(Reg8::H)),
        0x3d => Instr::Rmw(RmwOp::Srl, Operand8::Reg(Reg8::L)),
        0x3e => Instr::Rmw(RmwOp::Srl, Operand8::Mem(Addr::HL)),
        0x3f => Instr::Rmw(RmwOp::Srl, Operand8::Reg(Reg8::A)),
        0x40 => Instr::Bit(0, Operand8::Reg(Reg8::B)),
        0x41 => Instr::Bit(0, Operand8::Reg(Reg8::C)),
        0x42 => Instr::Bit(0, Operand8::Reg(Reg8::D)),
        0x43 => Instr::Bit(0, Operand8::Reg(Reg8::E)),
        0x44 => Instr::Bit(0, Operand8::Reg(Reg8::H)),
        0x45 => Instr::Bit(0, Operand8::Reg(Reg8::L)),
        0x46 => Instr::Bit(0, Operand8::Mem(Addr::HL)),
        0x47 => Instr::Bit(0, Operand8::Reg(Reg8::A)),
        0x48 => Instr::Bit(1, Operand8::Reg(Reg8::B)),
        0x49 => Instr::Bit(1, Operand8::Reg(Reg8::C)),
        0x4a => Instr::Bit(1, Operand8::Reg(Reg8::D)),
        0x4b => Instr::Bit(1, Operand8::Reg(Reg8::E)),
        0x4c => Instr::Bit(1, Operand8::Reg(Reg8::H)),
        0x4d => Instr::Bit(1, Operand8::Reg(Reg8::L)),
        0x4e => Instr::Bit(1, Operand8::Mem(Addr::HL)),
        0x4f => Instr::Bit(1, Operand8::Reg(Reg8::A)),
        0x50 => Instr::Bit(2, Operand8::Reg(Reg8::B)),
        0x51 => Instr::Bit(2, Operand8::Reg(Reg8::C)),
        0x52 => Instr::Bit(2, Operand8::Reg(Reg8::D)),
        0x53 => Instr::Bit(2, Operand8::Reg(Reg8::E)),
        0x54 => Instr::Bit(2, Operand8::Reg(Reg8::H)),
        0x55 => Instr::Bit(2, Operand8::Reg(Reg8::L)),
        0x56 => Instr::Bit(2, Operand8::Mem(Addr::HL)),
        0x57 => Instr::Bit(2, Operand8::Reg(Reg8::A)),
        0x58 => Instr::Bit(3, Operand8::Reg(Reg8::B)),
        0x59 => Instr::Bit(3, Operand8::Reg(Reg8::C)),
        0x5a => Instr::Bit(3, Operand8::Reg(Reg8::D)),
        0x5b => Instr::Bit(3, Operand8::Reg(Reg8::E)),
        0x5c => Instr::Bit(3, Operand8::Reg(Reg8::H)),
        0x5d => Instr::Bit(3, Operand8::Reg(Reg8::L)),
        0x5e => Instr::Bit(3, Operand8::Mem(Addr::HL)),
        0x5f => Instr::Bit(3, Operand8::Reg(Reg8::A)),
        0x60 => Instr::Bit(4, Operand8::Reg(Reg8::B)),
        0x61 => Instr::Bit(4, Operand8::Reg(Reg8::C)),
        0x62 => Instr::Bit(4, Operand8::Reg(Reg8::D)),
        0x63 => Instr::Bit(4, Operand8::Reg(Reg8::E)),
        0x64 => Instr::Bit(4, Operand8::Reg(Reg8::H)),
        0x65 => Instr::Bit(4, Operand8::Reg(Reg8::L)),
        0x66 => Instr::Bit(4, Operand8::Mem(Addr::HL)),
        0x67 => Instr::Bit(4, Operand8::Reg(Reg8::A)),
        0x68 => Instr::Bit(5, Operand8::Reg(Reg8::B)),
        0x69 => Instr::Bit(5, Operand8::Reg(Reg8::C)),
        0x6a => Instr::Bit(5, Operand8::Reg(Reg8::D)),
        0x6b => Instr::Bit(5, Operand8::Reg(Reg8::E)),
        0x6c => Instr::Bit(5, Operand8::Reg(Reg8::H)),
        0x6d => Instr::Bit(5, Operand8::Reg(Reg8::L)),
        0x6e => Instr::Bit(5, Operand8::Mem(Addr::HL)),
        0x6f => Instr::Bit(5, Operand8::Reg(Reg8::A)),
        0x70 => Instr::Bit(6, Operand8::Reg(Reg8::B)),
        0x71 => Instr::Bit(6, Operand8::Reg(Reg8::C)),
        0x72 => Instr::Bit(6, Operand8::Reg(Reg8::D)),
        0x73 => Instr::Bit(6, Operand8::Reg(Reg8::E)),
        0x74 => Instr::Bit(6, Operand8::Reg(Reg8::H)),
        0x75 => Instr::Bit(6, Operand8::Reg(Reg8::L)),
        0x76 => Instr::Bit(6, Operand8::Mem(Addr::HL)),
        0x77 => Instr::Bit(6, Operand8::Reg(Reg8::A)),
        0x78 => Instr::Bit(7, Operand8::Reg(Reg8::B)),
        0x79 => Instr::Bit(7, Operand8::Reg(Reg8::C)),
        0x7a => Instr::Bit(7, Operand8::Reg(Reg8::D)),
        0x7b => Instr::Bit(7, Operand8::Reg(Reg8::E)),
        0x7c => Instr::Bit(7, Operand8::Reg(Reg8::H)),
        0x7d => Instr::Bit(7, Operand8::Reg(Reg8::L)),
        0x7e => Instr::Bit(7, Operand8::Mem(Addr::HL)),
        0x7f => Instr::Bit(7, Operand8::Reg(Reg8::A)),
        0x80 => Instr::Rmw(RmwOp::ResBit(0), Operand8::Reg(Reg8::B)),
        0x81 => Instr::Rmw(RmwOp::ResBit(0), Operand8::Reg(Reg8::C)),
        0x82 => Instr::Rmw(RmwOp::ResBit(0), Operand8::Reg(Reg8::D)),
        0x83 => Instr::Rmw(RmwOp::ResBit(0), Operand8::Reg(Reg8::E)),
        0x84 => Instr::Rmw(RmwOp::ResBit(0), Operand8::Reg(Reg8::H)),
        0x85 => Instr::Rmw(RmwOp::ResBit(0), Operand8::Reg(Reg8::L)),
        0x86 => Instr::Rmw(RmwOp::ResBit(0), Operand8::Mem(Addr::HL)),
        0x87 => Instr::Rmw(RmwOp::ResBit(0), Operand8::Reg(Reg8::A)),
        0x88 => Instr::Rmw(RmwOp::ResBit(1), Operand8::Reg(Reg8::B)),
        0x89 => Instr::Rmw(RmwOp::ResBit(1), Operand8::Reg(Reg8::C)),
        0x8a => Instr::Rmw(RmwOp::ResBit(1), Operand8::Reg(Reg8::D)),
        0x8b => Instr::Rmw(RmwOp::ResBit(1), Operand8::Reg(Reg8::E)),
        0x8c => Instr::Rmw(RmwOp::ResBit(1), Operand8::Reg(Reg8::H)),
        0x8d => Instr::Rmw(RmwOp::ResBit(1), Operand8::Reg(Reg8::L)),
        0x8e => Instr::Rmw(RmwOp::ResBit(1), Operand8::Mem(Addr::HL)),
        0x8f => Instr::Rmw(RmwOp::ResBit(1), Operand8::Reg(Reg8::A)),
        0x90 => Instr::Rmw(RmwOp::ResBit(2), Operand8::Reg(Reg8::B)),
        0x91 => Instr::Rmw(RmwOp::ResBit(2), Operand8::Reg(Reg8::C)),
        0x92 => Instr::Rmw(RmwOp::ResBit(2), Operand8::Reg(Reg8::D)),
        0x93 => Instr::Rmw(RmwOp::ResBit(2), Operand8::Reg(Reg8::E)),
        0x94 => Instr::Rmw(RmwOp::ResBit(2), Operand8::Reg(Reg8::H)),
        0x95 => Instr::Rmw(RmwOp::ResBit(2), Operand8::Reg(Reg8::L)),
        0x96 => Instr::Rmw(RmwOp::ResBit(2), Operand8::Mem(Addr::HL)),
        0x97 => Instr::Rmw(RmwOp::ResBit(2), Operand8::Reg(Reg8::A)),
        0x98 => Instr::Rmw(RmwOp::ResBit(3), Operand8::Reg(Reg8::B)),
        0x99 => Instr::Rmw(RmwOp::ResBit(3), Operand8::Reg(Reg8::C)),
        0x9a => Instr::Rmw(RmwOp::ResBit(3), Operand8::Reg(Reg8::D)),
        0x9b => Instr::Rmw(RmwOp::ResBit(3), Operand8::Reg(Reg8::E)),
        0x9c => Instr::Rmw(RmwOp::ResBit(3), Operand8::Reg(Reg8::H)),
        0x9d => Instr::Rmw(RmwOp::ResBit(3), Operand8::Reg(Reg8::L)),
        0x9e => Instr::Rmw(RmwOp::ResBit(3), Operand8::Mem(Addr::HL)),
        0x9f => Instr::Rmw(RmwOp::ResBit(3), Operand8::Reg(Reg8::A)),
        0xa0 => Instr::Rmw(RmwOp::ResBit(4), Operand8::Reg(Reg8::B)),
        0xa1 => Instr::Rmw(RmwOp::ResBit(4), Operand8::Reg(Reg8::C)),
        0xa2 => Instr::Rmw(RmwOp::ResBit(4), Operand8::Reg(Reg8::D)),
        0xa3 => Instr::Rmw(RmwOp::ResBit(4), Operand8::Reg(Reg8::E)),
        0xa4 => Instr::Rmw(RmwOp::ResBit(4), Operand8::Reg(Reg8::H)),
        0xa5 => Instr::Rmw(RmwOp::ResBit(4), Operand8::Reg(Reg8::L)),
        0xa6 => Instr::Rmw(RmwOp::ResBit(4), Operand8::Mem(Addr::HL)),
        0xa7 => Instr::Rmw(RmwOp::ResBit(4), Operand8::Reg(Reg8::A)),
        0xa8 => Instr::Rmw(RmwOp::ResBit(5), Operand8::Reg(Reg8::B)),
        0xa9 => Instr::Rmw(RmwOp::ResBit(5), Operand8::Reg(Reg8::C)),
        0xaa => Instr::Rmw(RmwOp::ResBit(5), Operand8::Reg(Reg8::D)),
        0xab => Instr::Rmw(RmwOp::ResBit(5), Operand8::Reg(Reg8::E)),
        0xac => Instr::Rmw(RmwOp::ResBit(5), Operand8::Reg(Reg8::H)),
        0xad => Instr::Rmw(RmwOp::ResBit(5), Operand8::Reg(Reg8::L)),
        0xae => Instr::Rmw(RmwOp::ResBit(5), Operand8::Mem(Addr::HL)),
        0xaf => Instr::Rmw(RmwOp::ResBit(5), Operand8::Reg(Reg8::A)),
        0xb0 => Instr::Rmw(RmwOp::ResBit(6), Operand8::Reg(Reg8::B)),
        0xb1 => Instr::Rmw(RmwOp::ResBit(6), Operand8::Reg(Reg8::C)),
        0xb2 => Instr::Rmw(RmwOp::ResBit(6), Operand8::Reg(Reg8::D)),
        0xb3 => Instr::Rmw(RmwOp::ResBit(6), Operand8::Reg(Reg8::E)),
        0xb4 => Instr::Rmw(RmwOp::ResBit(6), Operand8::Reg(Reg8::H)),
        0xb5 => Instr::Rmw(RmwOp::ResBit(6), Operand8::Reg(Reg8::L)),
        0xb6 => Instr::Rmw(RmwOp::ResBit(6), Operand8::Mem(Addr::HL)),
        0xb7 => Instr::Rmw(RmwOp::ResBit(6), Operand8::Reg(Reg8::A)),
        0xb8 => Instr::Rmw(RmwOp::ResBit(7), Operand8::Reg(Reg8::B)),
        0xb9 => Instr::Rmw(RmwOp::ResBit(7), Operand8::Reg(Reg8::C)),
        0xba => Instr::Rmw(RmwOp::ResBit(7), Operand8::Reg(Reg8::D)),
        0xbb => Instr::Rmw(RmwOp::ResBit(7), Operand8::Reg(Reg8::E)),
        0xbc => Instr::Rmw(RmwOp::ResBit(7), Operand8::Reg(Reg8::H)),
        0xbd => Instr::Rmw(RmwOp::ResBit(7), Operand8::Reg(Reg8::L)),
        0xbe => Instr::Rmw(RmwOp::ResBit(7), Operand8::Mem(Addr::HL)),
        0xbf => Instr::Rmw(RmwOp::ResBit(7), Operand8::Reg(Reg8::A)),
        0xc0 => Instr::Rmw(RmwOp::SetBit(0), Operand8::Reg(Reg8::B)),
        0xc1 => Instr::Rmw(RmwOp::SetBit(0), Operand8::Reg(Reg8::C)),
        0xc2 => Instr::Rmw(RmwOp::SetBit(0), Operand8::Reg(Reg8::D)),
        0xc3 => Instr::Rmw(RmwOp::SetBit(0), Operand8::Reg(Reg8::E)),
        0xc4 => Instr::Rmw(RmwOp::SetBit(0), Operand8::Reg(Reg8::H)),
        0xc5 => Instr::Rmw(RmwOp::SetBit(0), Operand8::Reg(Reg8::L)),
        0xc6 => Instr::Rmw(RmwOp::SetBit(0), Operand8::Mem(Addr::HL)),
        0xc7 => Instr::Rmw(RmwOp::SetBit(0), Operand8::Reg(Reg8::A)),
        0xc8 => Instr::Rmw(RmwOp::SetBit(1), Operand8::Reg(Reg8::B)),
        0xc9 => Instr::Rmw(RmwOp::SetBit(1), Operand8::Reg(Reg8::C)),
        0xca => Instr::Rmw(RmwOp::SetBit(1), Operand8::Reg(Reg8::D)),
        0xcb => Instr::Rmw(RmwOp::SetBit(1), Operand8::Reg(Reg8::E)),
        0xcc => Instr::Rmw(RmwOp::SetBit(1), Operand8::Reg(Reg8::H)),
        0xcd => Instr::Rmw(RmwOp::SetBit(1), Operand8::Reg(Reg8::L)),
        0xce => Instr::Rmw(RmwOp::SetBit(1), Operand8::Mem(Addr::HL)),
        0xcf => Instr::Rmw(RmwOp::SetBit(1), Operand8::Reg(Reg8::A)),
        0xd0 => Instr::Rmw(RmwOp::SetBit(2), Operand8::Reg(Reg8::B)),
        0xd1 => Instr::Rmw(RmwOp::SetBit(2), Operand8::Reg(Reg8::C)),
        0xd2 => Instr::Rmw(RmwOp::SetBit(2), Operand8::Reg(Reg8::D)),
        0xd3 => Instr::Rmw(RmwOp::SetBit(2), Operand8::Reg(Reg8::E)),
        0xd4 => Instr::Rmw(RmwOp::SetBit(2), Operand8::Reg(Reg8::H)),
        0xd5 => Instr::Rmw(RmwOp::SetBit(2), Operand8::Reg(Reg8::L)),
        0xd6 => Instr::Rmw(RmwOp::SetBit(2), Operand8::Mem(Addr::HL)),
        0xd7 => Instr::Rmw(RmwOp::SetBit(2), Operand8::Reg(Reg8::A)),
        0xd8 => Instr::Rmw(RmwOp::SetBit(3), Operand8::Reg(Reg8::B)),
        0xd9 => Instr::Rmw(RmwOp::SetBit(3), Operand8::Reg(Reg8::C)),
        0xda => Instr::Rmw(RmwOp::SetBit(3), Operand8::Reg(Reg8::D)),
        0xdb => Instr::Rmw(RmwOp::SetBit(3), Operand8::Reg(Reg8::E)),
        0xdc => Instr::Rmw(RmwOp::SetBit(3), Operand8::Reg(Reg8::H)),
        0xdd => Instr::Rmw(RmwOp::SetBit(3), Operand8::Reg(Reg8::L)),
        0xde => Instr::Rmw(RmwOp::SetBit(3), Operand8::Mem(Addr::HL)),
        0xdf => Instr::Rmw(RmwOp::SetBit(3), Operand8::Reg(Reg8::A)),
        0xe0 => Instr::Rmw(RmwOp::SetBit(4), Operand8::Reg(Reg8::B)),
        0xe1 => Instr::Rmw(RmwOp::SetBit(4), Operand8::Reg(Reg8::C)),
        0xe2 => Instr::Rmw(RmwOp::SetBit(4), Operand8::Reg(Reg8::D)),
        0xe3 => Instr::Rmw(RmwOp::SetBit(4), Operand8::Reg(Reg8::E)),
        0xe4 => Instr::Rmw(RmwOp::SetBit(4), Operand8::Reg(Reg8::H)),
        0xe5 => Instr::Rmw(RmwOp::SetBit(4), Operand8::Reg(Reg8::L)),
        0xe6 => Instr::Rmw(RmwOp::SetBit(4), Operand8::Mem(Addr::HL)),
        0xe7 => Instr::Rmw(RmwOp::SetBit(4), Operand8::Reg(Reg8::A)),
        0xe8 => Instr::Rmw(RmwOp::SetBit(5), Operand8::Reg(Reg8::B)),
        0xe9 => Instr::Rmw(RmwOp::SetBit(5), Operand8::Reg(Reg8::C)),
        0xea => Instr::Rmw(RmwOp::SetBit(5), Operand8::Reg(Reg8::D)),
        0xeb => Instr::Rmw(RmwOp::SetBit(5), Operand8::Reg(Reg8::E)),
        0xec => Instr::Rmw(RmwOp::SetBit(5), Operand8::Reg(Reg8::H)),
        0xed => Instr::Rmw(RmwOp::SetBit(5), Operand8::Reg(Reg8::L)),
        0xee => Instr::Rmw(RmwOp::SetBit(5), Operand8::Mem(Addr::HL)),
        0xef => Instr::Rmw(RmwOp::SetBit(5), Operand8::Reg(Reg8::A)),
        0xf0 => Instr::Rmw(RmwOp::SetBit(6), Operand8::Reg(Reg8::B)),
        0xf1 => Instr::Rmw(RmwOp::SetBit(6), Operand8::Reg(Reg8::C)),
        0xf2 => Instr::Rmw(RmwOp::SetBit(6), Operand8::Reg(Reg8::D)),
        0xf3 => Instr::Rmw(RmwOp::SetBit(6), Operand8::Reg(Reg8::E)),
        0xf4 => Instr::Rmw(RmwOp::SetBit(6), Operand8::Reg(Reg8::H)),
        0xf5 => Instr::Rmw(RmwOp::SetBit(6), Operand8::Reg(Reg8::L)),
        0xf6 => Instr::Rmw(RmwOp::SetBit(6), Operand8::Mem(Addr::HL)),
        0xf7 => Instr::Rmw(RmwOp::SetBit(6), Operand8::Reg(Reg8::A)),
        0xf8 => Instr::Rmw(RmwOp::SetBit(7), Operand8::Reg(Reg8::B)),
        0xf9 => Instr::Rmw(RmwOp::SetBit(7), Operand8::Reg(Reg8::C)),
        0xfa => Instr::Rmw(RmwOp::SetBit(7), Operand8::Reg(Reg8::D)),
        0xfb => Instr::Rmw(RmwOp::SetBit(7), Operand8::Reg(Reg8::E)),
        0xfc => Instr::Rmw(RmwOp::SetBit(7), Operand8::Reg(Reg8::H)),
        0xfd => Instr::Rmw(RmwOp::SetBit(7), Operand8::Reg(Reg8::L)),
        0xfe => Instr::Rmw(RmwOp::SetBit(7), Operand8::Mem(Addr::HL)),
        0xff => Instr::Rmw(RmwOp::SetBit(7), Operand8::Reg(Reg8::A)),
    }
}

} // verus!
