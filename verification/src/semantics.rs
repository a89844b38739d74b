//! What each step of the processor does, as relations between the processor
//! before, the bus operations it performs, and the processor after. The bytes
//! that reads return are whatever the bus answered; they are taken from the
//! operations themselves.
use vstd::prelude::*;
use crate::alu::{
    AccOp, AluOp, RmwOp, acc_result, add16_flags, alu_result, bit_flags, rmw_result, signed,
    sp_offset_flags,
};
use crate::bus::{BusOp, EE_DEBUG_OP, op_value};
use crate::cpu::{Addr, Cond, Cpu, CpuError, ImeChange, Operand8};
use crate::decode::{Instr, cb_instr, opcode_instr};
use crate::registers::{Flags, Reg16, Registers, hi_byte, lo_byte, word, wrap16};

verus! {

/// The processor with its registers replaced.
pub open spec fn with_regs(c: Cpu, r: Registers) -> Cpu {
    Cpu { regs: r, ..c }
}

/// The processor with the program counter moved on by `n` (wrapping).
pub open spec fn advance_pc(c: Cpu, n: int) -> Cpu {
    with_regs(c, Registers { pc: wrap16(c.regs.pc + n), ..c.regs })
}

/// The processor with a new program counter.
pub open spec fn with_pc(c: Cpu, pc: u16) -> Cpu {
    with_regs(c, Registers { pc, ..c.regs })
}

/// The processor with a new stack pointer.
pub open spec fn with_sp(c: Cpu, sp: u16) -> Cpu {
    with_regs(c, Registers { sp, ..c.regs })
}

/// The processor with a new flag register.
pub open spec fn with_flags(c: Cpu, f: Flags) -> Cpu {
    with_regs(c, Registers { f, ..c.regs })
}

/// `op` is a read of `addr` (whatever byte came back).
pub open spec fn is_read_of(op: BusOp, addr: u16) -> bool {
    op == BusOp::Read(addr, op_value(op))
}

// ---- Addressing --------------------------------------------------------

/// How many operand bytes an indirect address takes from the instruction stream.
pub open spec fn addr_len(a: Addr) -> nat {
    match a {
        Addr::Direct => 2,
        Addr::ZeroPage => 1,
        _ => 0,
    }
}

/// `ops` are exactly the reads of the operand bytes that form the address `a`.
pub open spec fn addr_bytes_ok(c: Cpu, a: Addr, ops: Seq<BusOp>) -> bool {
    &&& ops.len() == addr_len(a)
    &&& match a {
        Addr::Direct => is_read_of(ops[0], c.regs.pc) && is_read_of(ops[1], wrap16(c.regs.pc + 1)),
        Addr::ZeroPage => is_read_of(ops[0], c.regs.pc),
        _ => true,
    }
}

/// The address that `a` designates, given the operand bytes read for it.
pub open spec fn effective_addr(c: Cpu, a: Addr, ops: Seq<BusOp>) -> u16 {
    match a {
        Addr::BC => c.regs.get16(Reg16::BC),
        Addr::DE => c.regs.get16(Reg16::DE),
        Addr::HL => c.regs.get16(Reg16::HL),
        Addr::HLD => c.regs.get16(Reg16::HL),
        Addr::HLI => c.regs.get16(Reg16::HL),
        Addr::Direct => word(op_value(ops[1]), op_value(ops[0])),
        Addr::ZeroPage => (0xff00 + op_value(ops[0])) as u16,
        Addr::ZeroPageC => (0xff00 + c.regs.c) as u16,
    }
}

/// The processor after forming the address `a`: HL moves for HLD and HLI, the
/// program counter passes the operand bytes.
pub open spec fn addr_post(c: Cpu, a: Addr) -> Cpu {
    match a {
        Addr::HLD => with_regs(c, c.regs.set16(Reg16::HL, wrap16(c.regs.get16(Reg16::HL) - 1))),
        Addr::HLI => with_regs(c, c.regs.set16(Reg16::HL, wrap16(c.regs.get16(Reg16::HL) + 1))),
        Addr::Direct => advance_pc(c, 2),
        Addr::ZeroPage => advance_pc(c, 1),
        _ => c,
    }
}

// ---- Eight-bit operands --------------------------------------------------

/// How many bus operations reading the operand takes.
pub open spec fn read_len(o: Operand8) -> nat {
    match o {
        Operand8::Reg(_) => 0,
        Operand8::Imm => 1,
        Operand8::Mem(a) => addr_len(a) + 1,
    }
}

/// `ops` are exactly the bus operations of reading the operand `o`.
pub open spec fn read_ok(c: Cpu, o: Operand8, ops: Seq<BusOp>) -> bool {
    match o {
        Operand8::Reg(_) => ops.len() == 0,
        Operand8::Imm => ops.len() == 1 && is_read_of(ops[0], c.regs.pc),
        Operand8::Mem(a) => {
            let k = addr_len(a) as int;
            &&& ops.len() == k + 1
            &&& addr_bytes_ok(c, a, ops.subrange(0, k))
            &&& is_read_of(ops[k], effective_addr(c, a, ops.subrange(0, k)))
        },
    }
}

/// The byte that reading the operand gives.
pub open spec fn read_value(c: Cpu, o: Operand8, ops: Seq<BusOp>) -> u8 {
    match o {
        Operand8::Reg(r) => c.regs.get8(r),
        _ => op_value(ops.last()),
    }
}

/// The processor after reading the operand.
pub open spec fn read_post(c: Cpu, o: Operand8) -> Cpu {
    match o {
        Operand8::Reg(_) => c,
        Operand8::Imm => advance_pc(c, 1),
        Operand8::Mem(a) => addr_post(c, a),
    }
}

/// `ops` are exactly the bus operations of writing `v` to the operand `o`.
pub open spec fn write_ok(c: Cpu, o: Operand8, v: u8, ops: Seq<BusOp>) -> bool {
    match o {
        Operand8::Reg(_) => ops.len() == 0,
        Operand8::Imm => false,
        Operand8::Mem(a) => {
            let k = addr_len(a) as int;
            &&& ops.len() == k + 1
            &&& addr_bytes_ok(c, a, ops.subrange(0, k))
            &&& ops[k] == BusOp::Write(effective_addr(c, a, ops.subrange(0, k)), v)
        },
    }
}

/// The processor after writing `v` to the operand.
pub open spec fn write_post(c: Cpu, o: Operand8, v: u8) -> Cpu {
    match o {
        Operand8::Reg(r) => with_regs(c, c.regs.set8(r, v)),
        Operand8::Imm => c,
        Operand8::Mem(a) => addr_post(c, a),
    }
}

// ---- Sixteen-bit transfers -----------------------------------------------

/// `ops` begin with the reads of the two operand bytes at the program counter.
pub open spec fn imm16_ok(c: Cpu, ops: Seq<BusOp>) -> bool {
    &&& ops.len() >= 2
    &&& is_read_of(ops[0], c.regs.pc)
    &&& is_read_of(ops[1], wrap16(c.regs.pc + 1))
}

/// The little-endian word that the first two operations read.
pub open spec fn imm16_value(ops: Seq<BusOp>) -> u16 {
    word(op_value(ops[1]), op_value(ops[0]))
}

/// The writes of a push of `v` on a stack whose pointer is `sp`: high byte first.
pub open spec fn push_ops(sp: u16, v: u16) -> Seq<BusOp> {
    seq![BusOp::Write(wrap16(sp - 1), hi_byte(v)), BusOp::Write(wrap16(sp - 2), lo_byte(v))]
}

/// `ops` are the two reads of a pop from a stack whose pointer is `sp`: low byte first.
pub open spec fn pop_ok(sp: u16, ops: Seq<BusOp>) -> bool {
    &&& ops.len() == 2
    &&& is_read_of(ops[0], sp)
    &&& is_read_of(ops[1], wrap16(sp + 1))
}

// ---- Eight-bit instructions -------------------------------------------

/// The processor with a new accumulator and flag register.
pub open spec fn with_af(c: Cpu, a: u8, f: Flags) -> Cpu {
    with_regs(c, Registers { a, f, ..c.regs })
}

/// `ADD`, `ADC`, `SUB`, `SBC`, `AND`, `XOR`, `OR`, `CP` with the operand `src`:
/// read the operand, then set A and F as the operation gives them.
pub open spec fn alu_spec(op: AluOp, c: Cpu, src: Operand8, ops: Seq<BusOp>, c1: Cpu) -> bool {
    let r = alu_result(op, c.regs.a, read_value(c, src, ops), c.regs.f);
    &&& read_ok(c, src, ops)
    &&& c1 == with_af(read_post(c, src), r.0, r.1)
}

/// `LD dst, src`: read `src`, then write the byte to `dst`.
pub open spec fn load_spec(c: Cpu, dst: Operand8, src: Operand8, ops: Seq<BusOp>, c1: Cpu) -> bool {
    let k = read_len(src) as int;
    let v = read_value(c, src, ops.subrange(0, k));
    let cm = read_post(c, src);
    &&& k <= ops.len()
    &&& read_ok(c, src, ops.subrange(0, k))
    &&& write_ok(cm, dst, v, ops.subrange(k, ops.len() as int))
    &&& c1 == write_post(cm, dst, v)
}

/// A read-modify-write instruction (`INC`, `DEC`, the rotations and shifts,
/// `SWAP`, `SET`, `RES`): read `src`, set the flags, write the new value to `dst`.
pub open spec fn rmw_spec(
    op: RmwOp,
    c: Cpu,
    src: Operand8,
    dst: Operand8,
    ops: Seq<BusOp>,
    c1: Cpu,
) -> bool {
    let k = read_len(src) as int;
    let r = rmw_result(op, read_value(c, src, ops.subrange(0, k)), c.regs.f);
    let cm = with_flags(read_post(c, src), r.1);
    &&& k <= ops.len()
    &&& read_ok(c, src, ops.subrange(0, k))
    &&& write_ok(cm, dst, r.0, ops.subrange(k, ops.len() as int))
    &&& c1 == write_post(cm, dst, r.0)
}

/// `BIT b, src`: read the operand and set the flags.
pub open spec fn bit_spec(b: u8, c: Cpu, src: Operand8, ops: Seq<BusOp>, c1: Cpu) -> bool {
    &&& read_ok(c, src, ops)
    &&& c1 == with_flags(read_post(c, src), bit_flags(b, read_value(c, src, ops), c.regs.f))
}

/// The accumulator instructions without operand: no bus operation.
pub open spec fn acc_spec(op: AccOp, c: Cpu, ops: Seq<BusOp>, c1: Cpu) -> bool {
    let r = acc_result(op, c.regs.a, c.regs.f);
    &&& ops.len() == 0
    &&& c1 == with_af(c, r.0, r.1)
}

// ---- Control flow --------------------------------------------------------

/// `JP nn`: read the target, one idle cycle, jump.
pub open spec fn jp_spec(c: Cpu, ops: Seq<BusOp>, c1: Cpu) -> bool {
    &&& ops.len() == 3
    &&& imm16_ok(c, ops)
    &&& ops[2] == BusOp::Emulate
    &&& c1 == with_pc(c, imm16_value(ops))
}

/// `JR e`: read the signed offset, one idle cycle, jump relative to the next instruction.
pub open spec fn jr_spec(c: Cpu, ops: Seq<BusOp>, c1: Cpu) -> bool {
    &&& ops.len() == 2
    &&& is_read_of(ops[0], c.regs.pc)
    &&& ops[1] == BusOp::Emulate
    &&& c1 == with_pc(c, wrap16(c.regs.pc + 1 + signed(op_value(ops[0]))))
}

/// `CALL nn`: read the target, one idle cycle, push the address of the next
/// instruction, jump.
pub open spec fn call_spec(c: Cpu, ops: Seq<BusOp>, c1: Cpu) -> bool {
    &&& ops.len() == 5
    &&& imm16_ok(c, ops)
    &&& ops[2] == BusOp::Emulate
    &&& ops.subrange(3, 5) == push_ops(c.regs.sp, wrap16(c.regs.pc + 2))
    &&& c1 == with_regs(
        c,
        Registers { pc: imm16_value(ops), sp: wrap16(c.regs.sp - 2), ..c.regs },
    )
}

/// `RET`: pop the return address, one idle cycle, jump.
pub open spec fn ret_spec(c: Cpu, ops: Seq<BusOp>, c1: Cpu) -> bool {
    &&& ops.len() == 3
    &&& pop_ok(c.regs.sp, ops.subrange(0, 2))
    &&& ops[2] == BusOp::Emulate
    &&& c1 == with_regs(
        c,
        Registers { pc: imm16_value(ops), sp: wrap16(c.regs.sp + 2), ..c.regs },
    )
}

/// `RETI`: enable interrupts at once, then return.
pub open spec fn reti_spec(c: Cpu, ops: Seq<BusOp>, c1: Cpu) -> bool {
    ret_spec(Cpu { ime: true, ime_change: ImeChange::Idle, ..c }, ops, c1)
}

/// `JP cc, nn`: the target is always read; the jump and its idle cycle happen
/// when the condition holds.
pub open spec fn jp_cc_spec(cond: Cond, c: Cpu, ops: Seq<BusOp>, c1: Cpu) -> bool {
    if cond.holds(c.regs.f) {
        jp_spec(c, ops, c1)
    } else {
        ops.len() == 2 && imm16_ok(c, ops) && c1 == advance_pc(c, 2)
    }
}

/// `JR cc, e`: the offset is always read.
pub open spec fn jr_cc_spec(cond: Cond, c: Cpu, ops: Seq<BusOp>, c1: Cpu) -> bool {
    if cond.holds(c.regs.f) {
        jr_spec(c, ops, c1)
    } else {
        ops.len() == 1 && is_read_of(ops[0], c.regs.pc) && c1 == advance_pc(c, 1)
    }
}

/// `CALL cc, nn`: the target is always read.
pub open spec fn call_cc_spec(cond: Cond, c: Cpu, ops: Seq<BusOp>, c1: Cpu) -> bool {
    if cond.holds(c.regs.f) {
        call_spec(c, ops, c1)
    } else {
        ops.len() == 2 && imm16_ok(c, ops) && c1 == advance_pc(c, 2)
    }
}

/// `RET cc`: one idle cycle, then a return when the condition holds.
pub open spec fn ret_cc_spec(cond: Cond, c: Cpu, ops: Seq<BusOp>, c1: Cpu) -> bool {
    &&& ops.len() >= 1
    &&& ops[0] == BusOp::Emulate
    &&& if cond.holds(c.regs.f) {
        ret_spec(c, ops.subrange(1, ops.len() as int), c1)
    } else {
        ops.len() == 1 && c1 == c
    }
}

/// `RST n`: one idle cycle, push the address of the next instruction, jump to `n`.
pub open spec fn rst_spec(n: u8, c: Cpu, ops: Seq<BusOp>, c1: Cpu) -> bool {
    &&& ops == seq![BusOp::Emulate] + push_ops(c.regs.sp, c.regs.pc)
    &&& c1 == with_regs(c, Registers { pc: n as u16, sp: wrap16(c.regs.sp - 2), ..c.regs })
}

// ---- Sixteen-bit instructions ------------------------------------------

/// `LD rr, nn`: read the word, load it into the pair.
pub open spec fn load16_imm_spec(r: Reg16, c: Cpu, ops: Seq<BusOp>, c1: Cpu) -> bool {
    let c2 = advance_pc(c, 2);
    &&& ops.len() == 2
    &&& imm16_ok(c, ops)
    &&& c1 == with_regs(c2, c2.regs.set16(r, imm16_value(ops)))
}

/// `LD (nn), SP`: read the address, write SP there, low byte first.
pub open spec fn load16_nn_sp_spec(c: Cpu, ops: Seq<BusOp>, c1: Cpu) -> bool {
    &&& ops.len() == 4
    &&& imm16_ok(c, ops)
    &&& ops[2] == BusOp::Write(imm16_value(ops), lo_byte(c.regs.sp))
    &&& ops[3] == BusOp::Write(wrap16(imm16_value(ops) + 1), hi_byte(c.regs.sp))
    &&& c1 == advance_pc(c, 2)
}

/// `LD SP, HL`: one idle cycle.
pub open spec fn load16_sp_hl_spec(c: Cpu, ops: Seq<BusOp>, c1: Cpu) -> bool {
    &&& ops == seq![BusOp::Emulate]
    &&& c1 == with_sp(c, c.regs.get16(Reg16::HL))
}

/// `LD HL, SP+e`: read the signed offset, one idle cycle.
pub open spec fn load16_hl_sp_e_spec(c: Cpu, ops: Seq<BusOp>, c1: Cpu) -> bool {
    let e = op_value(ops[0]);
    let r = Registers {
        pc: wrap16(c.regs.pc + 1),
        f: sp_offset_flags(c.regs.sp, e),
        ..c.regs
    };
    &&& ops.len() == 2
    &&& is_read_of(ops[0], c.regs.pc)
    &&& ops[1] == BusOp::Emulate
    &&& c1 == with_regs(c, r.set16(Reg16::HL, wrap16(c.regs.sp + signed(e))))
}

/// `PUSH rr`: one idle cycle, then the push.
pub open spec fn push16_spec(r: Reg16, c: Cpu, ops: Seq<BusOp>, c1: Cpu) -> bool {
    &&& ops == seq![BusOp::Emulate] + push_ops(c.regs.sp, c.regs.get16(r))
    &&& c1 == with_sp(c, wrap16(c.regs.sp - 2))
}

/// `POP rr`: the pop, then the word goes to the pair (through the flag mask for AF).
pub open spec fn pop16_spec(r: Reg16, c: Cpu, ops: Seq<BusOp>, c1: Cpu) -> bool {
    &&& pop_ok(c.regs.sp, ops)
    &&& c1 == with_regs(
        c,
        Registers { sp: wrap16(c.regs.sp + 2), ..c.regs }.set16(r, imm16_value(ops)),
    )
}

/// `ADD HL, rr`: one idle cycle.
pub open spec fn add16_spec(r: Reg16, c: Cpu, ops: Seq<BusOp>, c1: Cpu) -> bool {
    let hl = c.regs.get16(Reg16::HL);
    let v = c.regs.get16(r);
    &&& ops == seq![BusOp::Emulate]
    &&& c1 == with_regs(
        c,
        Registers { f: add16_flags(hl, v, c.regs.f), ..c.regs }.set16(Reg16::HL, wrap16(hl + v)),
    )
}

/// `ADD SP, e`: read the signed offset, two idle cycles.
pub open spec fn add16_sp_e_spec(c: Cpu, ops: Seq<BusOp>, c1: Cpu) -> bool {
    let e = op_value(ops[0]);
    &&& ops.len() == 3
    &&& is_read_of(ops[0], c.regs.pc)
    &&& ops[1] == BusOp::Emulate
    &&& ops[2] == BusOp::Emulate
    &&& c1 == with_regs(
        c,
        Registers {
            pc: wrap16(c.regs.pc + 1),
            sp: wrap16(c.regs.sp + signed(e)),
            f: sp_offset_flags(c.regs.sp, e),
            ..c.regs
        },
    )
}

/// `INC rr` (`up`) and `DEC rr`: one idle cycle, flags untouched.
pub open spec fn step16_spec(r: Reg16, up: bool, c: Cpu, ops: Seq<BusOp>, c1: Cpu) -> bool {
    &&& ops == seq![BusOp::Emulate]
    &&& c1 == with_regs(
        c,
        c.regs.set16(r, wrap16(c.regs.get16(r) + (if up { 1int } else { -1int }))),
    )
}

// ---- Whole instructions -------------------------------------------------

/// The instruction can be executed as it stands: nothing is written to the
/// immediate operand, and bit numbers are below 8. Every decoded instruction is so.
pub open spec fn instr_wf(i: Instr) -> bool {
    match i {
        Instr::Load(d, _) => !(d is Imm),
        Instr::Rmw(op, o) => !(o is Imm) && match op {
            RmwOp::SetBit(b) => b < 8,
            RmwOp::ResBit(b) => b < 8,
            _ => true,
        },
        Instr::Bit(b, _) => b < 8,
        _ => true,
    }
}

/// Every decoded instruction can be executed as it stands.
pub proof fn lemma_decoded_wf(op: u8)
    ensures
        instr_wf(opcode_instr(op)),
        instr_wf(cb_instr(op)),
        cb_instr(op) is Rmw || cb_instr(op) is Bit,
{
}

/// What an instruction other than `STOP`, an undefined opcode or the CB prefix
/// does, from the processor `c` (whose program counter is past the opcode):
/// the bus operations `ops` and the processor `c1` after it.
#[verifier::opaque]
pub open spec fn op_spec(i: Instr, c: Cpu, ops: Seq<BusOp>, c1: Cpu) -> bool {
    match i {
        Instr::Nop => ops.len() == 0 && c1 == c,
        Instr::Halt => ops.len() == 0 && c1 == Cpu { halt: true, ..c },
        Instr::Di => ops.len() == 0 && c1 == Cpu { ime: false, ime_change: ImeChange::Idle, ..c },
        Instr::Ei => ops.len() == 0 && c1 == Cpu { ime_change: ImeChange::Soon, ..c },
        Instr::Load(d, s) => load_spec(c, d, s, ops, c1),
        Instr::Alu(op, s) => alu_spec(op, c, s, ops, c1),
        Instr::Rmw(op, o) => rmw_spec(op, c, o, o, ops, c1),
        Instr::Bit(b, s) => bit_spec(b, c, s, ops, c1),
        Instr::Acc(op) => acc_spec(op, c, ops, c1),
        Instr::Jp => jp_spec(c, ops, c1),
        Instr::JpHl => ops.len() == 0 && c1 == with_pc(c, c.regs.get16(Reg16::HL)),
        Instr::Jr => jr_spec(c, ops, c1),
        Instr::Call => call_spec(c, ops, c1),
        Instr::Ret => ret_spec(c, ops, c1),
        Instr::Reti => reti_spec(c, ops, c1),
        Instr::JpCc(cond) => jp_cc_spec(cond, c, ops, c1),
        Instr::JrCc(cond) => jr_cc_spec(cond, c, ops, c1),
        Instr::CallCc(cond) => call_cc_spec(cond, c, ops, c1),
        Instr::RetCc(cond) => ret_cc_spec(cond, c, ops, c1),
        Instr::Rst(n) => rst_spec(n, c, ops, c1),
        Instr::Load16Imm(r) => load16_imm_spec(r, c, ops, c1),
        Instr::Load16NnSp => load16_nn_sp_spec(c, ops, c1),
        Instr::Load16SpHl => load16_sp_hl_spec(c, ops, c1),
        Instr::Load16HlSpE => load16_hl_sp_e_spec(c, ops, c1),
        Instr::Push16(r) => push16_spec(r, c, ops, c1),
        Instr::Pop16(r) => pop16_spec(r, c, ops, c1),
        Instr::Add16(r) => add16_spec(r, c, ops, c1),
        Instr::Add16SpE => add16_sp_e_spec(c, ops, c1),
        Instr::Inc16(r) => step16_spec(r, true, c, ops, c1),
        Instr::Dec16(r) => step16_spec(r, false, c, ops, c1),
        Instr::UndefinedDebug => ops == seq![BusOp::EmuEvents(EE_DEBUG_OP)] && c1 == c,
        Instr::Stop => false,
        Instr::Undefined(_) => false,
        Instr::CbPrefix => false,
    }
}

/// What any instruction does, and what it answers: `STOP` and the undefined
/// opcodes are refused with no effect; the CB prefix reads the next opcode and
/// performs the instruction it names.
pub open spec fn instr_spec(
    i: Instr,
    c: Cpu,
    ops: Seq<BusOp>,
    c1: Cpu,
    r: Result<(), CpuError>,
) -> bool {
    match i {
        Instr::Stop => ops.len() == 0 && c1 == c && r == Err::<(), CpuError>(CpuError::Stop),
        Instr::Undefined(op) => ops.len() == 0 && c1 == c && r == Err::<(), CpuError>(
            CpuError::UndefinedOpcode(op),
        ),
        Instr::CbPrefix => {
            &&& r == Ok::<(), CpuError>(())
            &&& ops.len() >= 1
            &&& is_read_of(ops[0], c.regs.pc)
            &&& op_spec(
                cb_instr(op_value(ops[0])),
                advance_pc(c, 1),
                ops.subrange(1, ops.len() as int),
                c1,
            )
        },
        _ => r == Ok::<(), CpuError>(()) && op_spec(i, c, ops, c1),
    }
}

// ---- One step ------------------------------------------------------------

/// The interrupt master enable flag at the start of a step: a pending `EI`
/// moves one stage on, and takes effect at its second stage.
pub open spec fn ime_step(c: Cpu) -> Cpu {
    match c.ime_change {
        ImeChange::Idle => c,
        ImeChange::Soon => Cpu { ime_change: ImeChange::Now, ..c },
        ImeChange::Now => Cpu { ime: true, ime_change: ImeChange::Idle, ..c },
    }
}

/// How many bus operations the interrupt check at the start of a step takes:
/// none when interrupts are disabled, the acknowledgement alone when none was
/// taken, and with the dispatch (three idle cycles and a push) when one was.
pub open spec fn dispatch_len(c: Cpu, ops: Seq<BusOp>) -> int {
    if !c.ime {
        0
    } else if ops.len() > 0 && ops[0] == BusOp::Ack(None) {
        1
    } else {
        6
    }
}

/// `ops` are exactly the bus operations of the interrupt check.
pub open spec fn dispatch_ok(c: Cpu, ops: Seq<BusOp>) -> bool {
    if !c.ime {
        ops.len() == 0
    } else {
        &&& ops.len() >= 1
        &&& match ops[0] {
            BusOp::Ack(None) => ops.len() == 1,
            BusOp::Ack(Some(_)) => {
                &&& ops.len() == 6
                &&& ops[1] == BusOp::Emulate
                &&& ops[2] == BusOp::Emulate
                &&& ops[3] == BusOp::Emulate
                &&& ops.subrange(4, 6) == push_ops(c.regs.sp, c.regs.pc)
            },
            _ => false,
        }
    }
}

/// The processor after the interrupt check: a taken interrupt disables
/// interrupts, ends a halt, pushes the program counter and jumps to its vector.
pub open spec fn dispatch_post(c: Cpu, ops: Seq<BusOp>) -> Cpu {
    if c.ime && ops.len() > 0 {
        match ops[0] {
            BusOp::Ack(Some(i)) => Cpu {
                regs: Registers { pc: i.vector(), sp: wrap16(c.regs.sp - 2), ..c.regs },
                ime: false,
                halt: false,
                ..c
            },
            _ => c,
        }
    } else {
        c
    }
}

/// One step of the processor from `c0`, when the bus requests an interrupt
/// (`irq`) or not: the bus operations `ops`, the processor `c1` after it, and
/// the answer `r`. A halted processor waits for an interrupt request, one idle
/// cycle at a time. A running one updates the interrupt enable flag, takes an
/// interrupt if enabled and one is there, fetches an opcode and performs it.
pub open spec fn execute_spec(
    c0: Cpu,
    irq: bool,
    ops: Seq<BusOp>,
    c1: Cpu,
    r: Result<(), CpuError>,
) -> bool {
    if c0.halt {
        &&& r == Ok::<(), CpuError>(())
        &&& if irq {
            ops.len() == 0 && c1 == Cpu { halt: false, ..c0 }
        } else {
            ops == seq![BusOp::Emulate] && c1 == c0
        }
    } else {
        let c = ime_step(c0);
        let k = dispatch_len(c, ops);
        let c2 = dispatch_post(c, ops);
        &&& k < ops.len()
        &&& dispatch_ok(c, ops.subrange(0, k))
        &&& ops[k] == BusOp::Fetch(c2.regs.pc, op_value(ops[k]))
        &&& instr_spec(
            opcode_instr(op_value(ops[k])),
            advance_pc(c2, 1),
            ops.subrange(k + 1, ops.len() as int),
            c1,
            r,
        )
    }
}

} // verus!
