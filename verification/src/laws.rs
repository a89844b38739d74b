//! Properties of the processor that span several operations.
use vstd::prelude::*;
use crate::alu::{
    AccOp, AluOp, RmwOp, acc_result, add_flags, add_result, alu_result, bit_flags, bit_mask,
    bit_of, daa_value, rl_result, rlc_result, rmw_result, rr_result, rrc_result, sub_flags,
    sub_result, swap_result,
};
use crate::bus::{BusOp, last_write, op_value, read_sees_writes, reads_see_writes};
use crate::cpu::{Addr, Cond, Cpu, CpuError, ImeChange, Operand8};
use crate::decode::{Instr, cb_instr, opcode_instr};
use crate::registers::{Flags, Reg16, Reg8, Registers, hi_byte, lo_byte, word, wrap16};
use crate::semantics::{
    advance_pc, alu_spec, bit_spec, call_spec, dispatch_len, dispatch_ok, dispatch_post,
    execute_spec, ime_step, lemma_decoded_wf, load_spec, op_spec, pop16_spec, push16_spec,
    read_len, read_ok, read_post, read_value, ret_spec, reti_spec, rmw_spec, with_flags, with_regs,
    write_post,
};

verus! {

/// The flag register reads back what was written to it, and its four low
/// bits always read as zero.
pub proof fn lemma_flags_byte_roundtrip(f: Flags)
    ensures
        Flags::from_byte(f.to_byte()) == f,
        f.to_byte() % 16 == 0,
{
}

/// A byte written to the flag register reads back with its four low bits cleared.
pub proof fn lemma_flags_byte_masks_low_nibble(b: u8)
    ensures
        Flags::from_byte(b).to_byte() == b - b % 16,
{
}

/// A register pair reads back what was written to it (AF with the four low
/// bits cleared), and writing one pair leaves the others alone.
pub proof fn lemma_register_pair_roundtrip(r: Registers, reg: Reg16, other: Reg16, v: u16)
    ensures
        r.set16(reg, v).get16(reg) == (if reg == Reg16::AF {
            (v - v % 16) as u16
        } else {
            v
        }),
        other != reg ==> r.set16(reg, v).get16(other) == r.get16(other),
{
    lemma_flags_byte_masks_low_nibble((v % 256) as u8);
}

/// Rotating one way and then the other gives the value back; for the
/// rotations through the carry, the carry that the first one shifted out (it
/// is what `rmw_result` sets C to) is the one the second one shifts in.
/// Swapping the nibbles twice is the identity.
pub proof fn lemma_rotations_invert(v: u8, cin: bool)
    ensures
        rrc_result(rlc_result(v)) == v,
        rlc_result(rrc_result(v)) == v,
        rr_result(rl_result(v, cin), v >= 128) == v,
        rl_result(rr_result(v, cin), v % 2 == 1) == v,
        swap_result(swap_result(v)) == v,
{
    let x = rlc_result(v);
    assert((x / 2 + (x % 2) * 128) as u8 == v) by (bit_vector)
        requires
            x == ((v * 2 + v / 128) % 256) as u8,
    ;
    let y = rrc_result(v);
    assert(((y * 2 + y / 128) % 256) as u8 == v) by (bit_vector)
        requires
            y == (v / 2 + (v % 2) * 128) as u8,
    ;
    let ci: u8 = if cin {
        1
    } else {
        0
    };
    let z = rl_result(v, cin);
    assert((z / 2 + (v / 128) * 128) as u8 == v) by (bit_vector)
        requires
            z == ((v * 2 + ci) % 256) as u8,
            ci <= 1,
    ;
    let w = rr_result(v, cin);
    assert(((w * 2 + v % 2) % 256) as u8 == v) by (bit_vector)
        requires
            w == (v / 2 + ci * 128) as u8,
            ci <= 1,
    ;
    let s = swap_result(v);
    assert(((s % 16) * 16 + s / 16) as u8 == v) by (bit_vector)
        requires
            s == ((v % 16) * 16 + v / 16) as u8,
    ;
}

/// Incrementing then decrementing a byte gives it back, and so does the reverse.
pub proof fn lemma_inc_dec_invert(v: u8, f: Flags)
    ensures
        rmw_result(RmwOp::Dec, rmw_result(RmwOp::Inc, v, f).0, f).0 == v,
        rmw_result(RmwOp::Inc, rmw_result(RmwOp::Dec, v, f).0, f).0 == v,
{
}

/// `BIT b` after `SET b` finds the bit set; after `RES b`, clear. Both leave
/// the other bits alone.
pub proof fn lemma_set_res_then_bit(b: u8, v: u8, f: Flags)
    requires
        b < 8,
    ensures
        !bit_flags(b, rmw_result(RmwOp::SetBit(b), v, f).0, f).zero,
        bit_flags(b, rmw_result(RmwOp::ResBit(b), v, f).0, f).zero,
        rmw_result(RmwOp::SetBit(b), v, f).0 & !bit_mask(b) == v & !bit_mask(b),
        rmw_result(RmwOp::ResBit(b), v, f).0 & !bit_mask(b) == v & !bit_mask(b),
{
    assert((v | (1u8 << b)) & (1u8 << b) != 0) by (bit_vector)
        requires
            b < 8,
    ;
    assert((v & !(1u8 << b)) & (1u8 << b) == 0) by (bit_vector);
    assert((v | (1u8 << b)) & !(1u8 << b) == v & !(1u8 << b)) by (bit_vector);
    assert((v & !(1u8 << b)) & !(1u8 << b) == v & !(1u8 << b)) by (bit_vector);
}

/// `CP` sets the flags as `SUB` does and leaves A alone.
pub proof fn lemma_cp_is_sub_without_result(a: u8, v: u8, f: Flags)
    ensures
        alu_result(AluOp::Cp, a, v, f).1 == alu_result(AluOp::Sub, a, v, f).1,
        alu_result(AluOp::Cp, a, v, f).0 == a,
{
}

/// Complementing A twice gives it back.
pub proof fn lemma_cpl_twice(a: u8, f: Flags)
    ensures
        acc_result(AccOp::Cpl, acc_result(AccOp::Cpl, a, f).0, acc_result(AccOp::Cpl, a, f).1).0
            == a,
{
}

/// `POP rr2` right after `PUSH rr1`, on a bus that behaves as memory, is a
/// load of rr1 into rr2: the stack pointer is back where it was.
pub proof fn lemma_push_then_pop(
    r1: Reg16,
    r2: Reg16,
    c0: Cpu,
    ops1: Seq<BusOp>,
    c1: Cpu,
    ops2: Seq<BusOp>,
    c2: Cpu,
)
    requires
        push16_spec(r1, c0, ops1, c1),
        pop16_spec(r2, c1, ops2, c2),
        reads_see_writes(ops1 + ops2),
    ensures
        c2 == with_regs(c0, c0.regs.set16(r2, c0.regs.get16(r1))),
{
    let ops = ops1 + ops2;
    let s = c0.regs.sp;
    let v = c0.regs.get16(r1);
    assert(ops[3] == ops2[0]);
    assert(ops[4] == ops2[1]);
    assert(read_sees_writes(ops, 3));
    assert(read_sees_writes(ops, 4));
    assert(wrap16(wrap16(s - 2) + 1) == wrap16(s - 1));
    assert(wrap16(s - 2) != wrap16(s - 1));
    assert(last_write(ops, 3, wrap16(s - 2)) == Some(lo_byte(v)));
    assert(ops[1] == ops1[1] && ops[2] == ops1[2]);
    assert(last_write(ops, 4, wrap16(s - 1)) == Some(hi_byte(v))) by {
        assert(last_write(ops, 2, wrap16(s - 1)) == Some(hi_byte(v)));
        assert(last_write(ops, 3, wrap16(s - 1)) == Some(hi_byte(v)));
    }
    assert(word(hi_byte(v), lo_byte(v)) == v);
    assert(wrap16(wrap16(s - 2) + 2) == s);
}

/// `RET` right after `CALL nn`, on a bus that behaves as memory, comes back to
/// the instruction after the call with the stack pointer where it was: the
/// pair only steps over the call's operand.
pub proof fn lemma_call_then_ret(c0: Cpu, ops1: Seq<BusOp>, c1: Cpu, ops2: Seq<BusOp>, c2: Cpu)
    requires
        call_spec(c0, ops1, c1),
        ret_spec(c1, ops2, c2),
        reads_see_writes(ops1 + ops2),
    ensures
        c2 == advance_pc(c0, 2),
{
    let ops = ops1 + ops2;
    let s = c0.regs.sp;
    let v = wrap16(c0.regs.pc + 2);
    assert(ops1[3] == ops1.subrange(3, 5)[0]);
    assert(ops1[4] == ops1.subrange(3, 5)[1]);
    assert(ops[3] == ops1[3]);
    assert(ops[4] == ops1[4]);
    assert(ops[5] == ops2[0]);
    assert(ops[6] == ops2[1]);
    assert(ops2[0] == ops2.subrange(0, 2)[0]);
    assert(ops2[1] == ops2.subrange(0, 2)[1]);
    assert(read_sees_writes(ops, 5));
    assert(read_sees_writes(ops, 6));
    assert(wrap16(wrap16(s - 2) + 1) == wrap16(s - 1));
    assert(wrap16(s - 2) != wrap16(s - 1));
    assert(last_write(ops, 5, wrap16(s - 2)) == Some(lo_byte(v)));
    assert(last_write(ops, 6, wrap16(s - 1)) == Some(hi_byte(v))) by {
        assert(last_write(ops, 4, wrap16(s - 1)) == Some(hi_byte(v)));
        assert(last_write(ops, 5, wrap16(s - 1)) == Some(hi_byte(v)));
    }
    assert(word(hi_byte(v), lo_byte(v)) == v);
    assert(wrap16(wrap16(s - 2) + 2) == s);
}

/// An interrupt taken at the start of a step, whose handler returns at once
/// with `RETI`, on a bus that behaves as memory, resumes the interrupted
/// program where it stood, with interrupts enabled.
pub proof fn lemma_interrupt_then_reti(
    c: Cpu,
    dispatch: Seq<BusOp>,
    handler: Seq<BusOp>,
    c1: Cpu,
)
    requires
        c.ime,
        dispatch_ok(c, dispatch),
        dispatch[0] != BusOp::Ack(None),
        reti_spec(advance_pc(dispatch_post(c, dispatch), 1), handler, c1),
        reads_see_writes(dispatch + handler),
    ensures
        c1 == (Cpu { ime: true, ime_change: ImeChange::Idle, halt: false, ..c }),
{
    let ops = dispatch + handler;
    let s = c.regs.sp;
    let v = c.regs.pc;
    assert(dispatch[4] == dispatch.subrange(4, 6)[0]);
    assert(dispatch[5] == dispatch.subrange(4, 6)[1]);
    assert(ops[4] == dispatch[4]);
    assert(ops[5] == dispatch[5]);
    assert(ops[6] == handler[0]);
    assert(ops[7] == handler[1]);
    assert(handler[0] == handler.subrange(0, 2)[0]);
    assert(handler[1] == handler.subrange(0, 2)[1]);
    assert(read_sees_writes(ops, 6));
    assert(read_sees_writes(ops, 7));
    assert(wrap16(wrap16(s - 2) + 1) == wrap16(s - 1));
    assert(wrap16(s - 2) != wrap16(s - 1));
    assert(last_write(ops, 6, wrap16(s - 2)) == Some(lo_byte(v)));
    assert(last_write(ops, 7, wrap16(s - 1)) == Some(hi_byte(v))) by {
        assert(last_write(ops, 5, wrap16(s - 1)) == Some(hi_byte(v)));
        assert(last_write(ops, 6, wrap16(s - 1)) == Some(hi_byte(v)));
    }
    assert(word(hi_byte(v), lo_byte(v)) == v);
    assert(wrap16(wrap16(s - 2) + 2) == s);
}

/// Only `DI`, `EI` and `RETI` change the interrupt master enable flag or its
/// pending change; no other instruction touches them.
pub proof fn lemma_ime_only_by_di_ei_reti(i: Instr, c: Cpu, ops: Seq<BusOp>, c1: Cpu)
    requires
        op_spec(i, c, ops, c1),
        !(i is Di),
        !(i is Ei),
        !(i is Reti),
    ensures
        c1.ime == c.ime,
        c1.ime_change == c.ime_change,
{
    match i {
        Instr::Load(d, src) => {
            assert(load_spec(c, d, src, ops, c1)) by {
                reveal(op_spec);
            }
            lemma_load_keeps_ime(c, d, src, ops, c1);
        },
        Instr::Rmw(op, o) => {
            assert(rmw_spec(op, c, o, o, ops, c1)) by {
                reveal(op_spec);
            }
            lemma_rmw_keeps_ime(op, c, o, ops, c1);
        },
        Instr::Alu(op, src) => {
            assert(alu_spec(op, c, src, ops, c1)) by {
                reveal(op_spec);
            }
        },
        Instr::Bit(b, src) => {
            assert(bit_spec(b, c, src, ops, c1)) by {
                reveal(op_spec);
            }
        },
        Instr::Jp | Instr::Jr | Instr::Call | Instr::Ret | Instr::JpCc(_) | Instr::JrCc(_)
        | Instr::CallCc(_) | Instr::RetCc(_) | Instr::Rst(_) => {
            lemma_control_keeps_ime(i, c, ops, c1);
        },
        Instr::Load16Imm(_) | Instr::Load16NnSp | Instr::Load16SpHl | Instr::Load16HlSpE
        | Instr::Push16(_) | Instr::Pop16(_) | Instr::Add16(_) | Instr::Add16SpE | Instr::Inc16(_)
        | Instr::Dec16(_) => {
            lemma_wide_keeps_ime(i, c, ops, c1);
        },
        _ => {
            reveal(op_spec);
        },
    }
}

proof fn lemma_load_keeps_ime(c: Cpu, d: Operand8, src: Operand8, ops: Seq<BusOp>, c1: Cpu)
    requires
        load_spec(c, d, src, ops, c1),
    ensures
        c1.ime == c.ime,
        c1.ime_change == c.ime_change,
{
    lemma_access_keeps_ime(c, src, 0);
    let k = read_len(src) as int;
    lemma_access_keeps_ime(read_post(c, src), d, read_value(c, src, ops.subrange(0, k)));
}

proof fn lemma_rmw_keeps_ime(op: RmwOp, c: Cpu, o: Operand8, ops: Seq<BusOp>, c1: Cpu)
    requires
        rmw_spec(op, c, o, o, ops, c1),
    ensures
        c1.ime == c.ime,
        c1.ime_change == c.ime_change,
{
    let k = read_len(o) as int;
    let r = rmw_result(op, read_value(c, o, ops.subrange(0, k)), c.regs.f);
    lemma_access_keeps_ime(c, o, 0);
    lemma_access_keeps_ime(with_flags(read_post(c, o), r.1), o, r.0);
}

/// Reading or writing an operand touches only registers.
proof fn lemma_access_keeps_ime(c: Cpu, o: Operand8, v: u8)
    ensures
        read_post(c, o).ime == c.ime,
        read_post(c, o).ime_change == c.ime_change,
        write_post(c, o, v).ime == c.ime,
        write_post(c, o, v).ime_change == c.ime_change,
{
}

proof fn lemma_control_keeps_ime(i: Instr, c: Cpu, ops: Seq<BusOp>, c1: Cpu)
    requires
        op_spec(i, c, ops, c1),
        i is Jp || i is Jr || i is Call || i is Ret || i is JpCc || i is JrCc || i is CallCc
            || i is RetCc || i is Rst,
    ensures
        c1.ime == c.ime,
        c1.ime_change == c.ime_change,
{
    reveal(op_spec);
}

proof fn lemma_wide_keeps_ime(i: Instr, c: Cpu, ops: Seq<BusOp>, c1: Cpu)
    requires
        op_spec(i, c, ops, c1),
        i is Load16Imm || i is Load16NnSp || i is Load16SpHl || i is Load16HlSpE || i is Push16
            || i is Pop16 || i is Add16 || i is Add16SpE || i is Inc16 || i is Dec16,
    ensures
        c1.ime == c.ime,
        c1.ime_change == c.ime_change,
{
    reveal(op_spec);
}

/// `EI` takes effect one instruction late: in the step right after it no
/// interrupt is acknowledged (unless they were already enabled), and, unless
/// that instruction is itself `DI`, `EI` or `RETI`, interrupts are enabled at
/// the start of the step after.
pub proof fn lemma_ei_delay(c0: Cpu, irq: bool, ops: Seq<BusOp>, c1: Cpu, r: Result<(), CpuError>)
    requires
        !c0.halt,
        !c0.ime,
        c0.ime_change == ImeChange::Soon,
        execute_spec(c0, irq, ops, c1, r),
        !(opcode_instr(op_value(ops[0])) is Di),
        !(opcode_instr(op_value(ops[0])) is Ei),
        !(opcode_instr(op_value(ops[0])) is Reti),
    ensures
        ops[0] is Fetch,
        ime_step(c1).ime,
{
    let c = ime_step(c0);
    assert(dispatch_len(c, ops) == 0);
    let i = opcode_instr(op_value(ops[0]));
    let rest = ops.subrange(1, ops.len() as int);
    let c2 = advance_pc(c, 1);
    match i {
        Instr::Stop => {},
        Instr::Undefined(_) => {},
        Instr::CbPrefix => {
            lemma_decoded_wf(op_value(rest[0]));
            lemma_ime_only_by_di_ei_reti(
                cb_instr(op_value(rest[0])),
                advance_pc(c2, 1),
                rest.subrange(1, rest.len() as int),
                c1,
            );
        },
        _ => {
            lemma_ime_only_by_di_ei_reti(i, c2, rest, c1);
        },
    }
}

/// Both nibbles of `x` are decimal digits.
pub open spec fn is_bcd(x: u8) -> bool {
    x % 16 <= 9 && x / 16 <= 9
}

/// The number that a packed BCD byte stands for.
pub open spec fn bcd_value(x: u8) -> int {
    (x / 16) * 10 + x % 16
}

/// The packed BCD byte of a number below 100.
pub open spec fn to_bcd(n: int) -> u8 {
    ((n / 10) * 16 + n % 10) as u8
}

/// `DAA` after `ADD` (carry-in 0) or `ADC` of two BCD bytes gives the BCD byte
/// of their decimal sum modulo 100, and sets the carry when the sum reaches 100.
pub proof fn lemma_daa_after_add(a: u8, b: u8, cin: bool)
    requires
        is_bcd(a),
        is_bcd(b),
    ensures
        acc_result(AccOp::Daa, add_result(a, b, bit_of(cin)), add_flags(a, b, bit_of(cin))).0
            == to_bcd((bcd_value(a) + bcd_value(b) + bit_of(cin)) % 100),
        acc_result(AccOp::Daa, add_result(a, b, bit_of(cin)), add_flags(a, b, bit_of(cin))).1.carry
            == (bcd_value(a) + bcd_value(b) + bit_of(cin) >= 100),
{
    let ci: u8 = if cin {
        1
    } else {
        0
    };
    let s = add_result(a, b, bit_of(cin));
    let f = add_flags(a, b, bit_of(cin));
    let h = f.half_carry;
    let c = f.carry;
    let carry = c || s > 0x99;
    let a1: u8 = if carry {
        ((s + 0x60) % 256) as u8
    } else {
        s
    };
    let a2: u8 = if h || a1 % 16 > 9 {
        ((a1 + 6) % 256) as u8
    } else {
        a1
    };
    assert(daa_value(s, f) == (a2, carry));
    assert(a2 == (((((a / 16 + b / 16) * 10 + a % 16 + b % 16 + ci) % 100) / 10) * 16 + (((a / 16
        + b / 16) * 10 + a % 16 + b % 16 + ci) % 100) % 10) as u8 && carry == ((a / 16 + b / 16)
        * 10 + a % 16 + b % 16 + ci >= 100)) by (bit_vector)
        requires
            a % 16 <= 9,
            a / 16 <= 9,
            b % 16 <= 9,
            b / 16 <= 9,
            ci <= 1,
            s == ((a + b + ci) % 256) as u8,
            h == (a % 16 + b % 16 + ci > 15),
            c == (a + b + ci > 255),
            carry == (c || s > 0x99),
            a1 == (if carry {
                ((s + 0x60) % 256) as u8
            } else {
                s
            }),
            a2 == (if h || a1 % 16 > 9 {
                ((a1 + 6) % 256) as u8
            } else {
                a1
            }),
    ;
}

/// `DAA` after `SUB` (borrow-in 0) or `SBC` of two BCD bytes gives the BCD
/// byte of their decimal difference modulo 100, and sets the carry when the
/// difference is negative.
#[verifier::rlimit(100)]
pub proof fn lemma_daa_after_sub(a: u8, b: u8, cin: bool)
    requires
        is_bcd(a),
        is_bcd(b),
    ensures
        acc_result(AccOp::Daa, sub_result(a, b, bit_of(cin)), sub_flags(a, b, bit_of(cin))).0
            == to_bcd((bcd_value(a) - bcd_value(b) - bit_of(cin)) % 100),
        acc_result(AccOp::Daa, sub_result(a, b, bit_of(cin)), sub_flags(a, b, bit_of(cin))).1.carry
            == (bcd_value(a) < bcd_value(b) + bit_of(cin)),
{
    let ci: u8 = if cin {
        1
    } else {
        0
    };
    let s = sub_result(a, b, bit_of(cin));
    let f = sub_flags(a, b, bit_of(cin));
    let h = f.half_carry;
    let c = f.carry;
    let r: u8 = if c {
        ((s + (if h { 0x9aint } else { 0xa0int })) % 256) as u8
    } else if h {
        ((s + 0xfa) % 256) as u8
    } else {
        s
    };
    assert(daa_value(s, f) == (r, c));
    assert(s == ((a - b - ci + 256) % 256) as u8) by {
        let x = a - b - ci;
        assert(-256 <= x < 256);
        assert(x % 256 == (x + 256) % 256) by (nonlinear_arith)
            requires
                -256 <= x < 256,
        ;
    }
    assert(r == ((((((a / 16) * 10 + a % 16) - ((b / 16) * 10 + b % 16) - ci + 100) % 100) / 10)
        * 16 + ((((a / 16) * 10 + a % 16) - ((b / 16) * 10 + b % 16) - ci + 100) % 100) % 10) as u8
        && c == ((a / 16) * 10 + a % 16 < (b / 16) * 10 + b % 16 + ci)) by (bit_vector)
        requires
            a % 16 <= 9,
            a / 16 <= 9,
            b % 16 <= 9,
            b / 16 <= 9,
            ci <= 1,
            s == ((a - b - ci + 256) % 256) as u8,
            h == (a % 16 < b % 16 + ci),
            c == (a < b + ci),
            r == (if c {
                if h {
                    ((s + 0x9a) % 256) as u8
                } else {
                    ((s + 0xa0) % 256) as u8
                }
            } else if h {
                ((s + 0xfa) % 256) as u8
            } else {
                s
            }),
    ;
    let d = bcd_value(a) - bcd_value(b) - ci;
    let e = ((a / 16) * 10 + a % 16) - ((b / 16) * 10 + b % 16) - ci + 100;
    assert(e == d + 100);
    assert(-100 <= d < 100);
    let n = d % 100;
    assert(n == e % 100) by (nonlinear_arith)
        requires
            e == d + 100,
            n == d % 100,
            -100 <= d < 100,
    ;
    assert(r == (((e % 100) / 10) * 16 + (e % 100) % 10) as u8);
    assert(r == to_bcd(n));
    assert(bit_of(cin) == ci as int);
}

/// `DI` takes effect at once: at the start of the next step interrupts are
/// disabled, so none is acknowledged.
pub proof fn lemma_di_blocks_next_step(c: Cpu, ops: Seq<BusOp>, c1: Cpu, next: Seq<BusOp>)
    requires
        op_spec(Instr::Di, c, ops, c1),
    ensures
        !ime_step(c1).ime,
        dispatch_len(ime_step(c1), next) == 0,
{
    reveal(op_spec);
}

/// The processor after writing each `(register, byte)` of `writes` to its
/// eight-bit register, in order.
pub open spec fn write_regs(c: Cpu, writes: Seq<(Reg8, u8)>) -> Cpu
    decreases writes.len(),
{
    if writes.len() == 0 {
        c
    } else {
        write_regs(
            write_post(c, Operand8::Reg(writes[0].0), writes[0].1),
            writes.subrange(1, writes.len() as int),
        )
    }
}

/// An eight-bit register reads back the last byte written to it, however many
/// writes to other registers come between; the read takes no bus operation and
/// changes nothing.
pub proof fn lemma_register_read_after_write(c: Cpu, r: Reg8, x: u8, writes: Seq<(Reg8, u8)>)
    requires
        forall|i: int| 0 <= i < writes.len() ==> (#[trigger] writes[i]).0 != r,
    ensures
        read_value(
            write_regs(write_post(c, Operand8::Reg(r), x), writes),
            Operand8::Reg(r),
            Seq::<BusOp>::empty(),
        ) == x,
        read_ok(
            write_regs(write_post(c, Operand8::Reg(r), x), writes),
            Operand8::Reg(r),
            Seq::<BusOp>::empty(),
        ),
        read_post(write_regs(write_post(c, Operand8::Reg(r), x), writes), Operand8::Reg(r))
            == write_regs(write_post(c, Operand8::Reg(r), x), writes),
{
    let c1 = write_post(c, Operand8::Reg(r), x);
    assert(c1.regs.get8(r) == x);
    lemma_register_read_after_write_from(c1, r, x, writes);
}

/// The part of the read-after-write law that starts from a processor whose
/// register `r` already holds `x`.
proof fn lemma_register_read_after_write_from(c: Cpu, r: Reg8, x: u8, writes: Seq<(Reg8, u8)>)
    requires
        c.regs.get8(r) == x,
        forall|i: int| 0 <= i < writes.len() ==> (#[trigger] writes[i]).0 != r,
    ensures
        write_regs(c, writes).regs.get8(r) == x,
    decreases writes.len(),
{
    if writes.len() > 0 {
        let w = writes[0];
        let rest = writes.subrange(1, writes.len() as int);
        assert(w.0 != r);
        let c2 = write_post(c, Operand8::Reg(w.0), w.1);
        assert(c2.regs.get8(r) == x);
        assert forall|i: int| 0 <= i < rest.len() implies (#[trigger] rest[i]).0 != r by {
            assert(rest[i] == writes[i + 1]);
        }
        lemma_register_read_after_write_from(c2, r, x, rest);
    }
}

/// Where the opcode of a step stands among its bus operations: after the
/// interrupt check.
pub open spec fn fetch_index(c: Cpu, ops: Seq<BusOp>) -> int {
    dispatch_len(ime_step(c), ops)
}

/// The step from `c` with bus operations `ops` is not halted and performs the
/// (unprefixed) instruction `i`.
pub open spec fn step_runs(c: Cpu, ops: Seq<BusOp>, i: Instr) -> bool {
    !c.halt && opcode_instr(op_value(ops[fetch_index(c, ops)])) == i
}

/// The step from `c` checks for an interrupt, that is, calls `ack_interrupt`:
/// it does so exactly when it is not halted and interrupts are enabled once
/// the pending change of `EI` has moved on (see `execute_spec`).
pub open spec fn step_acknowledges(c: Cpu) -> bool {
    !c.halt && ime_step(c).ime
}

/// `cs[i]` goes to `cs[i + 1]` by one step, for each of the `n` steps.
pub open spec fn is_run(
    cs: Seq<Cpu>,
    irqs: Seq<bool>,
    opss: Seq<Seq<BusOp>>,
    rs: Seq<Result<(), CpuError>>,
    n: nat,
) -> bool {
    &&& cs.len() == n + 1
    &&& irqs.len() == n
    &&& opss.len() == n
    &&& rs.len() == n
    &&& forall|i: int| 0 <= i < n ==> #[trigger] execute_spec(cs[i], irqs[i], opss[i], cs[i + 1], rs[i])
}

/// One step from a processor whose interrupts are off and which has no `EI`
/// pending, or whose `EI` has just run: it acknowledges no interrupt, and,
/// when nothing was pending and the step is not `RETI`, interrupts stay off
/// with nothing pending, or with an `EI` pending if the step was `EI`.
proof fn lemma_blocked_step(c: Cpu, irq: bool, ops: Seq<BusOp>, c1: Cpu, r: Result<(), CpuError>)
    requires
        execute_spec(c, irq, ops, c1, r),
        !c.ime,
        c.ime_change == ImeChange::Idle || c.ime_change == ImeChange::Soon,
    ensures
        !step_acknowledges(c),
        !c.halt ==> fetch_index(c, ops) == 0 && ops[0] is Fetch,
        c.ime_change == ImeChange::Idle && !step_runs(c, ops, Instr::Reti) ==> !c1.ime && (
        c1.ime_change == ImeChange::Idle || (c1.ime_change == ImeChange::Soon && step_runs(
            c,
            ops,
            Instr::Ei,
        ))),
{
    if !c.halt {
        let cm = ime_step(c);
        assert(dispatch_len(cm, ops) == 0);
        let i = opcode_instr(op_value(ops[0]));
        let rest = ops.subrange(1, ops.len() as int);
        let c2 = advance_pc(cm, 1);
        match i {
            Instr::Stop => {},
            Instr::Undefined(_) => {},
            Instr::Di => {
                reveal(op_spec);
            },
            Instr::Ei => {
                reveal(op_spec);
            },
            Instr::Reti => {},
            Instr::CbPrefix => {
                lemma_decoded_wf(op_value(rest[0]));
                lemma_ime_only_by_di_ei_reti(
                    cb_instr(op_value(rest[0])),
                    advance_pc(c2, 1),
                    rest.subrange(1, rest.len() as int),
                    c1,
                );
            },
            _ => {
                lemma_ime_only_by_di_ei_reti(i, c2, rest, c1);
            },
        }
    }
}

/// The state of the interrupt enable flag along a run that starts with
/// interrupts off and nothing pending, as long as no `RETI` has run and no
/// `EI` has run before the last step: off, with nothing pending, or with an
/// `EI` pending that the last step ran.
proof fn lemma_blocked_run(
    cs: Seq<Cpu>,
    irqs: Seq<bool>,
    opss: Seq<Seq<BusOp>>,
    rs: Seq<Result<(), CpuError>>,
    n: nat,
    k: int,
)
    requires
        is_run(cs, irqs, opss, rs, n),
        !cs[0].ime,
        cs[0].ime_change == ImeChange::Idle,
        0 <= k <= n,
        forall|j: int| 0 <= j < k ==> !step_runs(cs[j], opss[j], Instr::Reti),
        forall|j: int| 0 <= j < k - 1 ==> !step_runs(cs[j], opss[j], Instr::Ei),
    ensures
        !cs[k].ime,
        cs[k].ime_change == ImeChange::Idle || (cs[k].ime_change == ImeChange::Soon && k >= 1
            && step_runs(cs[k - 1], opss[k - 1], Instr::Ei)),
    decreases k,
{
    if k > 0 {
        lemma_blocked_run(cs, irqs, opss, rs, n, k - 1);
        let j = k - 1;
        assert(execute_spec(cs[j], irqs[j], opss[j], cs[j + 1], rs[j]));
        assert(!step_runs(cs[j], opss[j], Instr::Reti));
        if j >= 1 {
            assert(!step_runs(cs[j - 1], opss[j - 1], Instr::Ei));
        }
        assert(cs[j].ime_change == ImeChange::Idle);
        lemma_blocked_step(cs[j], irqs[j], opss[j], cs[j + 1], rs[j]);
    }
}

/// After `DI`, no step acknowledges an interrupt until an `EI` has been
/// followed by one more instruction, or a `RETI` has run: in a run of steps
/// that starts right after `DI`, a step acknowledges nothing (and, when not
/// halted, begins with its opcode fetch) if no earlier step ran `RETI` and no
/// step before the one just before it ran `EI`.
pub proof fn lemma_di_blocks_until_ei_or_reti(
    c: Cpu,
    di_ops: Seq<BusOp>,
    cs: Seq<Cpu>,
    irqs: Seq<bool>,
    opss: Seq<Seq<BusOp>>,
    rs: Seq<Result<(), CpuError>>,
    n: nat,
)
    requires
        op_spec(Instr::Di, c, di_ops, cs[0]),
        is_run(cs, irqs, opss, rs, n),
    ensures
        forall|i: int|
            0 <= i < n && (forall|j: int| 0 <= j < i ==> !step_runs(cs[j], opss[j], Instr::Reti)) && (
            forall|j: int| 0 <= j < i - 1 ==> !step_runs(cs[j], opss[j], Instr::Ei)) ==> {
                &&& !step_acknowledges(#[trigger] cs[i])
                &&& !cs[i].halt ==> opss[i][0] is Fetch
            },
{
    assert(!cs[0].ime && cs[0].ime_change == ImeChange::Idle) by {
        reveal(op_spec);
    }
    assert forall|i: int|
        0 <= i < n && (forall|j: int| 0 <= j < i ==> !step_runs(cs[j], opss[j], Instr::Reti)) && (
        forall|j: int| 0 <= j < i - 1 ==> !step_runs(cs[j], opss[j], Instr::Ei)) implies {
        &&& !step_acknowledges(#[trigger] cs[i])
        &&& !cs[i].halt ==> opss[i][0] is Fetch
    } by {
        lemma_blocked_run(cs, irqs, opss, rs, n, i);
        assert(execute_spec(cs[i], irqs[i], opss[i], cs[i + 1], rs[i]));
        lemma_blocked_step(cs[i], irqs[i], opss[i], cs[i + 1], rs[i]);
    }
}

/// Each jump condition tests exactly one flag: C and NC the carry, Z and NZ
/// the zero flag, whatever the other flags hold.
pub proof fn lemma_conditions_test_one_flag(f: Flags)
    ensures
        Cond::C.holds(f) == f.carry,
        Cond::NC.holds(f) == !f.carry,
        Cond::Z.holds(f) == f.zero,
        Cond::NZ.holds(f) == !f.zero,
        forall|g: Flags| g.carry == f.carry ==> Cond::C.holds(g) == Cond::C.holds(f),
        forall|g: Flags| g.carry == f.carry ==> Cond::NC.holds(g) == Cond::NC.holds(f),
        forall|g: Flags| g.zero == f.zero ==> Cond::Z.holds(g) == Cond::Z.holds(f),
        forall|g: Flags| g.zero == f.zero ==> Cond::NZ.holds(g) == Cond::NZ.holds(f),
{
}

/// The additions and subtractions on A: the result is the true sum or
/// difference (with the carry flag taken in by `ADC` and `SBC`) modulo 256; C
/// tells that the true sum passed 255 or the true difference went below 0, H
/// the same of the low nibbles, Z that the result byte is 0, and N that it was
/// a subtraction. `CP` sets the flags of `SUB` and leaves A.
pub proof fn lemma_add_sub_flags(a: u8, v: u8, f: Flags)
    ensures
        ({
            let (r, g) = alu_result(AluOp::Add, a, v, f);
            &&& r as int == (a + v) % 256
            &&& g.zero == (r == 0)
            &&& !g.add_subtract
            &&& g.half_carry == (a % 16 + v % 16 > 15)
            &&& g.carry == (a + v > 255)
        }),
        ({
            let cin: int = if f.carry { 1 } else { 0 };
            let (r, g) = alu_result(AluOp::Adc, a, v, f);
            &&& r as int == (a + v + cin) % 256
            &&& g.zero == (r == 0)
            &&& !g.add_subtract
            &&& g.half_carry == (a % 16 + v % 16 + cin > 15)
            &&& g.carry == (a + v + cin > 255)
        }),
        ({
            let (r, g) = alu_result(AluOp::Sub, a, v, f);
            &&& r as int == (a - v + 256) % 256
            &&& g.zero == (r == 0)
            &&& g.add_subtract
            &&& g.half_carry == (a % 16 < v % 16)
            &&& g.carry == (a < v)
        }),
        ({
            let cin: int = if f.carry { 1 } else { 0 };
            let (r, g) = alu_result(AluOp::Sbc, a, v, f);
            &&& r as int == (a - v - cin + 512) % 256
            &&& g.zero == (r == 0)
            &&& g.add_subtract
            &&& g.half_carry == (a % 16 < v % 16 + cin)
            &&& g.carry == (a < v + cin)
        }),
        alu_result(AluOp::Cp, a, v, f).0 == a,
        alu_result(AluOp::Cp, a, v, f).1 == alu_result(AluOp::Sub, a, v, f).1,
{
    let cin: int = if f.carry { 1 } else { 0 };
    assert((a - v) % 256 == (a - v + 256) % 256) by (nonlinear_arith);
    assert((a - v - cin) % 256 == (a - v - cin + 512) % 256) by (nonlinear_arith);
}

/// The logic operations on A: Z tells that the result is 0; `AND` sets H, and
/// all three clear N and C.
pub proof fn lemma_logic_flags(a: u8, v: u8, f: Flags)
    ensures
        alu_result(AluOp::And, a, v, f).0 == a & v,
        alu_result(AluOp::Or, a, v, f).0 == a | v,
        alu_result(AluOp::Xor, a, v, f).0 == a ^ v,
        alu_result(AluOp::And, a, v, f).1 == (Flags {
            zero: a & v == 0,
            add_subtract: false,
            half_carry: true,
            carry: false,
        }),
        alu_result(AluOp::Or, a, v, f).1 == (Flags {
            zero: a | v == 0,
            add_subtract: false,
            half_carry: false,
            carry: false,
        }),
        alu_result(AluOp::Xor, a, v, f).1 == (Flags {
            zero: a ^ v == 0,
            add_subtract: false,
            half_carry: false,
            carry: false,
        }),
{
}

/// `INC` and `DEC`: the byte moves by one modulo 256, Z tells that it became
/// 0, H the carry out of or borrow into the low nibble, N that it was a
/// decrement, and C is kept.
pub proof fn lemma_inc_dec_flags(v: u8, f: Flags)
    ensures
        ({
            let (r, g) = rmw_result(RmwOp::Inc, v, f);
            &&& r as int == (v + 1) % 256
            &&& g == (Flags {
                zero: r == 0,
                add_subtract: false,
                half_carry: v % 16 == 15,
                carry: f.carry,
            })
        }),
        ({
            let (r, g) = rmw_result(RmwOp::Dec, v, f);
            &&& r as int == (v + 255) % 256
            &&& g == (Flags {
                zero: r == 0,
                add_subtract: true,
                half_carry: v % 16 == 0,
                carry: f.carry,
            })
        }),
{
    assert((v - 1) % 256 == (v + 255) % 256) by (nonlinear_arith);
}

/// The prefixed rotations and shifts: the result is the byte moved one place
/// (left: bit 7 out, right: bit 0 out; bit 7 or bit 0 of the result comes from
/// the byte itself, the carry, or zero, as the operation goes); C is the bit
/// shifted out, Z tells that the result is 0, N and H are clear. `SWAP`
/// exchanges the nibbles, sets Z when the byte is 0 and clears the rest.
pub proof fn lemma_cb_shift_flags(v: u8, f: Flags)
    ensures
        ({
            let (r, g) = rmw_result(RmwOp::Rlc, v, f);
            r as int == (2 * v) % 256 + v / 128 && g == (Flags {
                zero: r == 0,
                add_subtract: false,
                half_carry: false,
                carry: v >= 128,
            })
        }),
        ({
            let (r, g) = rmw_result(RmwOp::Rl, v, f);
            r as int == (2 * v) % 256 + (if f.carry { 1int } else { 0 }) && g == (Flags {
                zero: r == 0,
                add_subtract: false,
                half_carry: false,
                carry: v >= 128,
            })
        }),
        ({
            let (r, g) = rmw_result(RmwOp::Rrc, v, f);
            r as int == v / 2 + 128 * (v % 2) && g == (Flags {
                zero: r == 0,
                add_subtract: false,
                half_carry: false,
                carry: v % 2 == 1,
            })
        }),
        ({
            let (r, g) = rmw_result(RmwOp::Rr, v, f);
            r as int == v / 2 + (if f.carry { 128int } else { 0 }) && g == (Flags {
                zero: r == 0,
                add_subtract: false,
                half_carry: false,
                carry: v % 2 == 1,
            })
        }),
        ({
            let (r, g) = rmw_result(RmwOp::Sla, v, f);
            r as int == (2 * v) % 256 && g == (Flags {
                zero: r == 0,
                add_subtract: false,
                half_carry: false,
                carry: v >= 128,
            })
        }),
        ({
            let (r, g) = rmw_result(RmwOp::Sra, v, f);
            r as int == v / 2 + (if v >= 128 { 128int } else { 0 }) && g == (Flags {
                zero: r == 0,
                add_subtract: false,
                half_carry: false,
                carry: v % 2 == 1,
            })
        }),
        ({
            let (r, g) = rmw_result(RmwOp::Srl, v, f);
            r as int == v / 2 && g == (Flags {
                zero: r == 0,
                add_subtract: false,
                half_carry: false,
                carry: v % 2 == 1,
            })
        }),
        ({
            let (r, g) = rmw_result(RmwOp::Swap, v, f);
            r as int == (v % 16) * 16 + v / 16 && g == (Flags {
                zero: v == 0,
                add_subtract: false,
                half_carry: false,
                carry: false,
            })
        }),
{
}

/// The rotations of A without prefix move the bits as their prefixed forms
/// do and set C the same way, but always clear Z (and N and H).
pub proof fn lemma_accumulator_rotations(a: u8, f: Flags)
    ensures
        acc_result(AccOp::Rlca, a, f).0 == rmw_result(RmwOp::Rlc, a, f).0,
        acc_result(AccOp::Rla, a, f).0 == rmw_result(RmwOp::Rl, a, f).0,
        acc_result(AccOp::Rrca, a, f).0 == rmw_result(RmwOp::Rrc, a, f).0,
        acc_result(AccOp::Rra, a, f).0 == rmw_result(RmwOp::Rr, a, f).0,
        acc_result(AccOp::Rlca, a, f).1 == (Flags {
            zero: false,
            add_subtract: false,
            half_carry: false,
            carry: a >= 128,
        }),
        acc_result(AccOp::Rla, a, f).1 == (Flags {
            zero: false,
            add_subtract: false,
            half_carry: false,
            carry: a >= 128,
        }),
        acc_result(AccOp::Rrca, a, f).1 == (Flags {
            zero: false,
            add_subtract: false,
            half_carry: false,
            carry: a % 2 == 1,
        }),
        acc_result(AccOp::Rra, a, f).1 == (Flags {
            zero: false,
            add_subtract: false,
            half_carry: false,
            carry: a % 2 == 1,
        }),
{
}

/// The flag operations: `CCF` complements the carry (so two of them give it
/// back), `SCF` sets it, `CPL` complements A (A plus its complement is 255)
/// and keeps C. All three keep Z; `CCF` and `SCF` leave A alone.
pub proof fn lemma_flag_operations(a: u8, f: Flags)
    ensures
        acc_result(AccOp::Ccf, a, f) == (a, Flags {
            zero: f.zero,
            add_subtract: false,
            half_carry: false,
            carry: !f.carry,
        }),
        acc_result(
            AccOp::Ccf,
            acc_result(AccOp::Ccf, a, f).0,
            acc_result(AccOp::Ccf, a, f).1,
        ).1.carry == f.carry,
        acc_result(AccOp::Scf, a, f) == (a, Flags {
            zero: f.zero,
            add_subtract: false,
            half_carry: false,
            carry: true,
        }),
        acc_result(AccOp::Cpl, a, f).0 + a == 255,
        acc_result(AccOp::Cpl, a, f).1 == (Flags {
            zero: f.zero,
            add_subtract: true,
            half_carry: true,
            carry: f.carry,
        }),
{
}

/// `BIT b` sets Z exactly when bit `b` of the byte is clear, sets H, clears N
/// and keeps C; as an instruction it changes nothing but F.
pub proof fn lemma_bit_test(b: u8, v: u8, f: Flags)
    requires
        b < 8,
    ensures
        bit_flags(b, v, f) == (Flags {
            zero: (v >> b) % 2 == 0,
            add_subtract: false,
            half_carry: true,
            carry: f.carry,
        }),
{
    assert((v & (1u8 << b) == 0) <==> ((v >> b) % 2 == 0)) by (bit_vector)
        requires
            b < 8,
    ;
}

/// `BIT b, s` as an instruction: only the flags change, and C is kept.
pub proof fn lemma_bit_keeps_all_but_flags(
    b: u8,
    c: Cpu,
    src: Operand8,
    ops: Seq<BusOp>,
    c1: Cpu,
)
    requires
        b < 8,
        bit_spec(b, c, src, ops, c1),
        src is Reg || src == Operand8::Mem(Addr::HL),
    ensures
        c1 == with_flags(c, c1.regs.f),
        c1.regs.f.carry == c.regs.f.carry,
        c1.regs.f.half_carry,
        !c1.regs.f.add_subtract,
{
}

} // verus!
