//! What the arithmetic and logic unit computes: each operation as a result
//! byte and the flags it leaves, stated over integers.
use vstd::prelude::*;
use crate::registers::{Flags, wrap8};

verus! {

/// The operations of the accumulator instructions with an operand (`ADD A, s` and its kin).
#[derive(Clone, Copy, Debug, PartialEq, Eq, Structural)]
pub enum AluOp {
    Add,
    Adc,
    Sub,
    Sbc,
    And,
    Xor,
    Or,
    Cp,
}

/// The operations that read a location, change its value and write it back.
#[derive(Clone, Copy, Debug, PartialEq, Eq, Structural)]
pub enum RmwOp {
    Inc,
    Dec,
    Rlc,
    Rl,
    Rrc,
    Rr,
    Sla,
    Sra,
    Srl,
    Swap,
    SetBit(u8),
    ResBit(u8),
}

/// The operations on the accumulator and the flags that take no operand.
#[derive(Clone, Copy, Debug, PartialEq, Eq, Structural)]
pub enum AccOp {
    Rlca,
    Rla,
    Rrca,
    Rra,
    Daa,
    Cpl,
    Ccf,
    Scf,
}

/// 1 when `c` is set, else 0.
pub open spec fn bit_of(c: bool) -> int {
    if c {
        1
    } else {
        0
    }
}

/// `a + v + cy`, wrapped.
pub open spec fn add_result(a: u8, v: u8, cy: int) -> u8 {
    wrap8(a + v + cy)
}

/// The flags of an eight-bit addition of `v` and the carry `cy` to `a`: a carry out
/// of bit 3 sets H, a carry out of bit 7 sets C.
pub open spec fn add_flags(a: u8, v: u8, cy: int) -> Flags {
    Flags {
        zero: add_result(a, v, cy) == 0,
        add_subtract: false,
        half_carry: a % 16 + v % 16 + cy > 15,
        carry: a + v + cy > 255,
    }
}

/// `a - v - cy`, wrapped.
pub open spec fn sub_result(a: u8, v: u8, cy: int) -> u8 {
    wrap8(a - v - cy)
}

/// The flags of an eight-bit subtraction: a borrow into bit 3 sets H, a borrow
/// into bit 7 sets C, N is set.
pub open spec fn sub_flags(a: u8, v: u8, cy: int) -> Flags {
    Flags {
        zero: sub_result(a, v, cy) == 0,
        add_subtract: true,
        half_carry: a % 16 < v % 16 + cy,
        carry: a < v + cy,
    }
}

/// Flags with only Z possibly set.
pub open spec fn zero_only(z: bool) -> Flags {
    Flags { zero: z, add_subtract: false, half_carry: false, carry: false }
}

/// The new accumulator and flags of an `AluOp` with operand `v`.
pub open spec fn alu_result(op: AluOp, a: u8, v: u8, f: Flags) -> (u8, Flags) {
    match op {
        AluOp::Add => (add_result(a, v, 0), add_flags(a, v, 0)),
        AluOp::Adc => (add_result(a, v, bit_of(f.carry)), add_flags(a, v, bit_of(f.carry))),
        AluOp::Sub => (sub_result(a, v, 0), sub_flags(a, v, 0)),
        AluOp::Sbc => (sub_result(a, v, bit_of(f.carry)), sub_flags(a, v, bit_of(f.carry))),
        AluOp::Cp => (a, sub_flags(a, v, 0)),
        AluOp::And => (
            a & v,
            Flags { zero: a & v == 0, add_subtract: false, half_carry: true, carry: false },
        ),
        AluOp::Or => (a | v, zero_only(a | v == 0)),
        AluOp::Xor => (a ^ v, zero_only(a ^ v == 0)),
    }
}

/// Rotate left: bit 7 goes to bit 0.
pub open spec fn rlc_result(v: u8) -> u8 {
    wrap8(v * 2 + v / 128)
}

/// Rotate left through the carry `cin`.
pub open spec fn rl_result(v: u8, cin: bool) -> u8 {
    wrap8(v * 2 + bit_of(cin))
}

/// Rotate right: bit 0 goes to bit 7.
pub open spec fn rrc_result(v: u8) -> u8 {
    (v / 2 + (v % 2) * 128) as u8
}

/// Rotate right through the carry `cin`.
pub open spec fn rr_result(v: u8, cin: bool) -> u8 {
    (v / 2 + bit_of(cin) * 128) as u8
}

/// Arithmetic shift right: bit 7 stays, the others move down.
pub open spec fn sra_result(v: u8) -> u8 {
    (v / 2 + (v / 128) * 128) as u8
}

/// The nibbles of `v` exchanged.
pub open spec fn swap_result(v: u8) -> u8 {
    ((v % 16) * 16 + v / 16) as u8
}

/// Flags of a rotation or shift: C is the bit shifted out, Z is set when
/// `set_zero` holds and the result is zero.
pub open spec fn shift_flags(r: u8, set_zero: bool, carry: bool) -> Flags {
    Flags { zero: set_zero && r == 0, add_subtract: false, half_carry: false, carry }
}

/// The mask of bit `b`.
pub open spec fn bit_mask(b: u8) -> u8 {
    (1u8 << b)
}

/// The new value and flags of an `RmwOp` on the value `v`.
pub open spec fn rmw_result(op: RmwOp, v: u8, f: Flags) -> (u8, Flags) {
    match op {
        RmwOp::Inc => (
            wrap8(v + 1),
            Flags {
                zero: wrap8(v + 1) == 0,
                add_subtract: false,
                half_carry: v % 16 == 15,
                carry: f.carry,
            },
        ),
        RmwOp::Dec => (
            wrap8(v - 1),
            Flags {
                zero: wrap8(v - 1) == 0,
                add_subtract: true,
                half_carry: v % 16 == 0,
                carry: f.carry,
            },
        ),
        RmwOp::Rlc => (rlc_result(v), shift_flags(rlc_result(v), true, v >= 128)),
        RmwOp::Rl => (rl_result(v, f.carry), shift_flags(rl_result(v, f.carry), true, v >= 128)),
        RmwOp::Rrc => (rrc_result(v), shift_flags(rrc_result(v), true, v % 2 == 1)),
        RmwOp::Rr => (rr_result(v, f.carry), shift_flags(rr_result(v, f.carry), true, v % 2 == 1)),
        RmwOp::Sla => (wrap8(v * 2), shift_flags(wrap8(v * 2), true, v >= 128)),
        RmwOp::Sra => (sra_result(v), shift_flags(sra_result(v), true, v % 2 == 1)),
        RmwOp::Srl => ((v / 2) as u8, shift_flags((v / 2) as u8, true, v % 2 == 1)),
        RmwOp::Swap => (swap_result(v), zero_only(v == 0)),
        RmwOp::SetBit(b) => (v | bit_mask(b), f),
        RmwOp::ResBit(b) => (v & !bit_mask(b), f),
    }
}

/// The flags of `BIT b` on the value `v`: Z tells that the bit is clear.
pub open spec fn bit_flags(b: u8, v: u8, f: Flags) -> Flags {
    Flags { zero: v & bit_mask(b) == 0, add_subtract: false, half_carry: true, carry: f.carry }
}

/// Decimal adjustment of the accumulator after a BCD addition (N clear) or
/// subtraction (N set), as the table of the Game Boy Programming Manual gives
/// it: the result and whether the carry is set.
pub open spec fn daa_value(a: u8, f: Flags) -> (u8, bool) {
    if !f.add_subtract {
        let (a1, carry) = if f.carry || a > 0x99 {
            (wrap8(a + 0x60), true)
        } else {
            (a, false)
        };
        let a2 = if f.half_carry || a1 % 16 > 9 {
            wrap8(a1 + 0x06)
        } else {
            a1
        };
        (a2, carry)
    } else if f.carry {
        (wrap8(a + (if f.half_carry { 0x9aint } else { 0xa0int })), true)
    } else if f.half_carry {
        (wrap8(a + 0xfa), false)
    } else {
        (a, false)
    }
}

/// The new accumulator and flags of an `AccOp`.
pub open spec fn acc_result(op: AccOp, a: u8, f: Flags) -> (u8, Flags) {
    match op {
        AccOp::Rlca => (rlc_result(a), shift_flags(rlc_result(a), false, a >= 128)),
        AccOp::Rla => (rl_result(a, f.carry), shift_flags(rl_result(a, f.carry), false, a >= 128)),
        AccOp::Rrca => (rrc_result(a), shift_flags(rrc_result(a), false, a % 2 == 1)),
        AccOp::Rra => (rr_result(a, f.carry), shift_flags(rr_result(a, f.carry), false, a % 2 == 1)),
        AccOp::Daa => (
            daa_value(a, f).0,
            Flags {
                zero: daa_value(a, f).0 == 0,
                add_subtract: f.add_subtract,
                half_carry: false,
                carry: daa_value(a, f).1,
            },
        ),
        AccOp::Cpl => (
            (255 - a) as u8,
            Flags { zero: f.zero, add_subtract: true, half_carry: true, carry: f.carry },
        ),
        AccOp::Ccf => (a, Flags { zero: f.zero, add_subtract: false, half_carry: false, carry: !f.carry }),
        AccOp::Scf => (a, Flags { zero: f.zero, add_subtract: false, half_carry: false, carry: true }),
    }
}

/// The signed value of an offset byte.
pub open spec fn signed(e: u8) -> int {
    if e >= 128 {
        e - 256
    } else {
        e as int
    }
}

/// The flags of adding a signed offset byte `e` to the stack pointer `sp`: H and
/// C come from the carries out of bits 3 and 7 of the unsigned low bytes.
pub open spec fn sp_offset_flags(sp: u16, e: u8) -> Flags {
    Flags {
        zero: false,
        add_subtract: false,
        half_carry: sp % 16 + e % 16 > 15,
        carry: sp % 256 + e > 255,
    }
}

/// The flags of `ADD HL, v`: Z kept, H from the carry out of bit 11, C from the
/// carry out of bit 15.
pub open spec fn add16_flags(hl: u16, v: u16, f: Flags) -> Flags {
    Flags {
        zero: f.zero,
        add_subtract: false,
        half_carry: hl % 4096 + v % 4096 > 4095,
        carry: hl + v > 65535,
    }
}

/// The value of the bit above bit `bit`: a sum carries out of bit `bit` when
/// the parts of the addends below it reach this.
pub open spec fn carry_unit(bit: u16) -> int {
    if bit == 3 {
        16
    } else if bit == 7 {
        256
    } else {
        4096
    }
}

} // verus!
