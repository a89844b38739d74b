use vstd::prelude::*;
use crate::bits::lemma_word_bytes;
use crate::bus::{
    Bus, BusOp, extends, lemma_appended, lemma_concat_split, lemma_since_push, lemma_since_refl,
    lemma_since_trans, since,
};
use crate::decode::decode;
use crate::registers::{Flags, Reg16, Reg8, Registers, wrap16};
use crate::semantics::{
    addr_bytes_ok, addr_post, advance_pc, dispatch_len, dispatch_ok, dispatch_post,
    effective_addr, execute_spec, imm16_ok, imm16_value, lemma_decoded_wf, pop_ok, push_ops,
    read_ok, read_post, read_value, with_sp, write_ok, write_post,
};

verus! {

/// The pending change of the interrupt master enable flag that `EI` schedules.
#[derive(Clone, Copy, Debug, PartialEq, Eq, Structural)]
pub enum ImeChange {
    Idle,
    Soon,
    Now,
}

/// The processor: its registers, the interrupt master enable flag, a pending
/// change of that flag, and whether it is halted.
pub struct Cpu {
    pub regs: Registers,
    pub ime: bool,
    pub ime_change: ImeChange,
    pub halt: bool,
}

/// The conditions of conditional jumps, calls and returns.
#[derive(Clone, Copy, Debug, PartialEq, Eq, Structural)]
pub enum Cond {
    NZ,
    Z,
    NC,
    C,
}

impl Cond {
    /// Whether the condition holds for the flags.
    pub open spec fn holds(self, flags: Flags) -> bool {
        match self {
            Cond::NZ => !flags.zero,
            Cond::Z => flags.zero,
            Cond::NC => !flags.carry,
            Cond::C => flags.carry,
        }
    }

    pub fn check(&self, flags: Flags) -> (r: bool)
        ensures
            r == self.holds(flags),
    {
        match *self {
            Cond::NZ => !flags.zero,
            Cond::Z => flags.zero,
            Cond::NC => !flags.carry,
            Cond::C => flags.carry,
        }
    }
}

/// The byte that follows the opcode, as an operand.
#[derive(Clone, Copy, Debug)]
pub struct Immediate8;

/// The indirect eight-bit operands: memory at the address that a register pair
/// holds (HLD and HLI move HL after use), at an address that follows the opcode
/// (Direct), or in the high page at an offset that follows the opcode
/// (ZeroPage) or that C holds (ZeroPageC).
#[derive(Clone, Copy, Debug, PartialEq, Eq, Structural)]
pub enum Addr {
    BC,
    DE,
    HL,
    HLD,
    HLI,
    Direct,
    ZeroPage,
    ZeroPageC,
}

/// Any eight-bit operand: a register, the immediate byte, or memory.
#[derive(Clone, Copy, Debug, PartialEq, Eq, Structural)]
pub enum Operand8 {
    Reg(Reg8),
    Imm,
    Mem(Addr),
}

/// Why an instruction could not be executed.
#[derive(Clone, Copy, Debug, PartialEq, Eq, Structural)]
pub enum CpuError {
    /// The `STOP` instruction, which this processor does not emulate.
    Stop,
    /// An opcode that the processor does not define.
    UndefinedOpcode(u8),
}

/// An eight-bit operand that can be read.
pub trait In8 {
    /// The operand that this value designates.
    spec fn source(&self) -> Operand8;

    fn read<H: Bus>(&self, cpu: &mut Cpu, bus: &mut H) -> (value: u8)
        ensures
            extends(old(bus).log(), final(bus).log()),
            read_ok(*old(cpu), self.source(), since(old(bus).log(), final(bus).log())),
            value == read_value(*old(cpu), self.source(), since(old(bus).log(), final(bus).log())),
            *final(cpu) == read_post(*old(cpu), self.source()),
    ;
}

/// An eight-bit operand that can be written.
pub trait Out8 {
    /// The operand that this value designates.
    spec fn target(&self) -> Operand8;

    fn write<H: Bus>(&self, cpu: &mut Cpu, bus: &mut H, value: u8)
        requires
            !(self.target() is Imm),
        ensures
            extends(old(bus).log(), final(bus).log()),
            write_ok(*old(cpu), self.target(), value, since(old(bus).log(), final(bus).log())),
            *final(cpu) == write_post(*old(cpu), self.target(), value),
    ;
}

} // verus!

verus! {

impl Cpu {
    /// The processor at power-on: registers zero, interrupts enabled, running.
    pub open spec fn initial() -> Cpu {
        Cpu { regs: Registers::initial(), ime: true, ime_change: ImeChange::Idle, halt: false }
    }

    pub fn new() -> (cpu: Cpu)
        ensures
            cpu == Cpu::initial(),
    {
        Cpu { regs: Registers::new(), ime: true, ime_change: ImeChange::Idle, halt: false }
    }

    pub(crate) fn fetch_cycle<H: Bus>(&mut self, bus: &mut H) -> (op: u8)
        ensures
            final(bus).log() == old(bus).log().push(BusOp::Fetch(old(self).regs.pc, op)),
            *final(self) == advance_pc(*old(self), 1),
    {
        let addr = self.regs.pc;
        self.regs.pc = self.regs.pc.wrapping_add(1);
        bus.fetch_cycle(addr)
    }

    pub(crate) fn read_cycle<H: Bus>(&self, bus: &mut H, addr: u16) -> (value: u8)
        ensures
            final(bus).log() == old(bus).log().push(BusOp::Read(addr, value)),
    {
        bus.read_cycle(addr)
    }

    pub(crate) fn write_cycle<H: Bus>(&self, bus: &mut H, addr: u16, value: u8)
        ensures
            final(bus).log() == old(bus).log().push(BusOp::Write(addr, value)),
    {
        bus.write_cycle(addr, value)
    }

    /// A cycle of a halted processor: an interrupt request ends the halt,
    /// otherwise one idle cycle passes.
    pub(crate) fn halt_cycle<H: Bus>(&mut self, bus: &mut H)
        ensures
            old(bus).interrupt_requested() ==> final(bus).log() == old(bus).log() && *final(self)
                == (Cpu { halt: false, ..*old(self) }),
            !old(bus).interrupt_requested() ==> final(bus).log() == old(bus).log().push(
                BusOp::Emulate,
            ) && *final(self) == *old(self),
    {
        if bus.has_interrupt() {
            self.halt = false;
        } else {
            bus.emulate();
        }
    }

    pub(crate) fn internal_cycle<H: Bus>(&self, bus: &mut H)
        ensures
            final(bus).log() == old(bus).log().push(BusOp::Emulate),
    {
        bus.emulate();
    }

    pub(crate) fn next_u8<H: Bus>(&mut self, bus: &mut H) -> (value: u8)
        ensures
            final(bus).log() == old(bus).log().push(BusOp::Read(old(self).regs.pc, value)),
            *final(self) == advance_pc(*old(self), 1),
    {
        let addr = self.regs.pc;
        self.regs.pc = self.regs.pc.wrapping_add(1);
        self.read_cycle(bus, addr)
    }

    pub(crate) fn next_u16<H: Bus>(&mut self, bus: &mut H) -> (value: u16)
        ensures
            extends(old(bus).log(), final(bus).log()),
            since(old(bus).log(), final(bus).log()).len() == 2,
            imm16_ok(*old(self), since(old(bus).log(), final(bus).log())),
            value == imm16_value(since(old(bus).log(), final(bus).log())),
            *final(self) == advance_pc(*old(self), 2),
    {
        let ghost l0 = bus.log();
        let ghost pc = self.regs.pc;
        let l = self.next_u8(bus);
        let h = self.next_u8(bus);
        proof {
            let ops = seq![BusOp::Read(pc, l), BusOp::Read(wrap16(pc + 1), h)];
            assert(bus.log() =~= l0 + ops);
            lemma_appended(l0, ops);
        }
        proof {
            lemma_word_bytes(h, l, 0);
        }
        ((h as u16) << 8) | (l as u16)
    }

    pub(crate) fn pop_u8<H: Bus>(&mut self, bus: &mut H) -> (value: u8)
        ensures
            final(bus).log() == old(bus).log().push(BusOp::Read(old(self).regs.sp, value)),
            *final(self) == with_sp(*old(self), wrap16(old(self).regs.sp + 1)),
    {
        let sp = self.regs.sp;
        let value = self.read_cycle(bus, sp);
        self.regs.sp = self.regs.sp.wrapping_add(1);
        value
    }

    pub(crate) fn push_u8<H: Bus>(&mut self, bus: &mut H, value: u8)
        ensures
            final(bus).log() == old(bus).log().push(
                BusOp::Write(wrap16(old(self).regs.sp - 1), value),
            ),
            *final(self) == with_sp(*old(self), wrap16(old(self).regs.sp - 1)),
    {
        self.regs.sp = self.regs.sp.wrapping_sub(1);
        let sp = self.regs.sp;
        self.write_cycle(bus, sp, value);
    }

    pub(crate) fn pop_u16<H: Bus>(&mut self, bus: &mut H) -> (value: u16)
        ensures
            extends(old(bus).log(), final(bus).log()),
            pop_ok(old(self).regs.sp, since(old(bus).log(), final(bus).log())),
            value == imm16_value(since(old(bus).log(), final(bus).log())),
            *final(self) == with_sp(*old(self), wrap16(old(self).regs.sp + 2)),
    {
        let ghost l0 = bus.log();
        let ghost sp = self.regs.sp;
        let l = self.pop_u8(bus);
        let h = self.pop_u8(bus);
        proof {
            let ops = seq![BusOp::Read(sp, l), BusOp::Read(wrap16(sp + 1), h)];
            assert(bus.log() =~= l0 + ops);
            lemma_appended(l0, ops);
        }
        proof {
            lemma_word_bytes(h, l, 0);
        }
        ((h as u16) << 8) | (l as u16)
    }

    pub(crate) fn push_u16<H: Bus>(&mut self, bus: &mut H, value: u16)
        ensures
            final(bus).log() == old(bus).log() + push_ops(old(self).regs.sp, value),
            *final(self) == with_sp(*old(self), wrap16(old(self).regs.sp - 2)),
    {
        let ghost l0 = bus.log();
        proof {
            lemma_word_bytes(0, 0, value);
        }
        self.push_u8(bus, (value >> 8) as u8);
        self.push_u8(bus, value as u8);
        assert(bus.log() =~= l0 + push_ops(old(self).regs.sp, value));
    }

    pub(crate) fn indirect_addr<H: Bus>(&mut self, bus: &mut H, addr: Addr) -> (ea: u16)
        ensures
            extends(old(bus).log(), final(bus).log()),
            addr_bytes_ok(*old(self), addr, since(old(bus).log(), final(bus).log())),
            ea == effective_addr(*old(self), addr, since(old(bus).log(), final(bus).log())),
            *final(self) == addr_post(*old(self), addr),
    {
        let ghost l0 = bus.log();
        proof {
            lemma_since_refl(l0);
        }
        match addr {
            Addr::BC => self.regs.read16(Reg16::BC),
            Addr::DE => self.regs.read16(Reg16::DE),
            Addr::HL => self.regs.read16(Reg16::HL),
            Addr::HLD => {
                let addr = self.regs.read16(Reg16::HL);
                self.regs.write16(Reg16::HL, addr.wrapping_sub(1));
                addr
            },
            Addr::HLI => {
                let addr = self.regs.read16(Reg16::HL);
                self.regs.write16(Reg16::HL, addr.wrapping_add(1));
                addr
            },
            Addr::Direct => self.next_u16(bus),
            Addr::ZeroPage => {
                let n = self.next_u8(bus);
                proof {
                    lemma_since_push(l0, BusOp::Read(old(self).regs.pc, n));
                }
                proof {
                    lemma_word_bytes(0, n, 0);
                }
                0xff00u16 | n as u16
            },
            Addr::ZeroPageC => {
                let c = self.regs.c;
                proof {
                    lemma_word_bytes(0, c, 0);
                }
                0xff00u16 | c as u16
            },
        }
    }
}

impl In8 for Reg8 {
    open spec fn source(&self) -> Operand8 {
        Operand8::Reg(*self)
    }

    fn read<H: Bus>(&self, cpu: &mut Cpu, bus: &mut H) -> (value: u8) {
        proof {
            lemma_since_refl(bus.log());
        }
        match *self {
            Reg8::A => cpu.regs.a,
            Reg8::B => cpu.regs.b,
            Reg8::C => cpu.regs.c,
            Reg8::D => cpu.regs.d,
            Reg8::E => cpu.regs.e,
            Reg8::H => cpu.regs.h,
            Reg8::L => cpu.regs.l,
        }
    }
}

impl Out8 for Reg8 {
    open spec fn target(&self) -> Operand8 {
        Operand8::Reg(*self)
    }

    fn write<H: Bus>(&self, cpu: &mut Cpu, bus: &mut H, value: u8) {
        proof {
            lemma_since_refl(bus.log());
        }
        match *self {
            Reg8::A => cpu.regs.a = value,
            Reg8::B => cpu.regs.b = value,
            Reg8::C => cpu.regs.c = value,
            Reg8::D => cpu.regs.d = value,
            Reg8::E => cpu.regs.e = value,
            Reg8::H => cpu.regs.h = value,
            Reg8::L => cpu.regs.l = value,
        }
    }
}

impl In8 for Immediate8 {
    open spec fn source(&self) -> Operand8 {
        Operand8::Imm
    }

    fn read<H: Bus>(&self, cpu: &mut Cpu, bus: &mut H) -> (value: u8) {
        let ghost l0 = bus.log();
        let v = cpu.next_u8(bus);
        proof {
            lemma_since_push(l0, BusOp::Read(old(cpu).regs.pc, v));
        }
        v
    }
}

impl In8 for Addr {
    open spec fn source(&self) -> Operand8 {
        Operand8::Mem(*self)
    }

    fn read<H: Bus>(&self, cpu: &mut Cpu, bus: &mut H) -> (value: u8) {
        let ghost l0 = bus.log();
        let addr = cpu.indirect_addr(bus, *self);
        let ghost l1 = bus.log();
        let value = cpu.read_cycle(bus, addr);
        proof {
            lemma_since_push(l1, BusOp::Read(addr, value));
            lemma_since_trans(l0, l1, bus.log());
            lemma_concat_split(since(l0, l1), seq![BusOp::Read(addr, value)]);
        }
        value
    }
}

impl Out8 for Addr {
    open spec fn target(&self) -> Operand8 {
        Operand8::Mem(*self)
    }

    fn write<H: Bus>(&self, cpu: &mut Cpu, bus: &mut H, value: u8) {
        let ghost l0 = bus.log();
        let addr = cpu.indirect_addr(bus, *self);
        let ghost l1 = bus.log();
        cpu.write_cycle(bus, addr, value);
        proof {
            lemma_since_push(l1, BusOp::Write(addr, value));
            lemma_since_trans(l0, l1, bus.log());
            lemma_concat_split(since(l0, l1), seq![BusOp::Write(addr, value)]);
        }
    }
}

impl In8 for Operand8 {
    open spec fn source(&self) -> Operand8 {
        *self
    }

    fn read<H: Bus>(&self, cpu: &mut Cpu, bus: &mut H) -> (value: u8) {
        match *self {
            Operand8::Reg(r) => r.read(cpu, bus),
            Operand8::Imm => Immediate8.read(cpu, bus),
            Operand8::Mem(a) => a.read(cpu, bus),
        }
    }
}

impl Out8 for Operand8 {
    open spec fn target(&self) -> Operand8 {
        *self
    }

    fn write<H: Bus>(&self, cpu: &mut Cpu, bus: &mut H, value: u8) {
        match *self {
            Operand8::Reg(r) => r.write(cpu, bus, value),
            Operand8::Imm => {},
            Operand8::Mem(a) => a.write(cpu, bus, value),
        }
    }
}

impl Cpu {
    /// One step: a halted processor waits for an interrupt request; a running
    /// one updates the interrupt enable flag, takes a pending interrupt when
    /// enabled, then fetches, decodes and performs one instruction. `STOP` and
    /// undefined opcodes are answered with an error.
    pub fn execute<H: Bus>(&mut self, bus: &mut H) -> (r: Result<(), CpuError>)
        ensures
            extends(old(bus).log(), final(bus).log()),
            execute_spec(
                *old(self),
                old(bus).interrupt_requested(),
                since(old(bus).log(), final(bus).log()),
                *final(self),
                r,
            ),
    {
        let ghost l0 = bus.log();
        if self.halt {
            self.halt_cycle(bus);
            proof {
                if old(bus).interrupt_requested() {
                    lemma_since_refl(l0);
                } else {
                    lemma_since_push(l0, BusOp::Emulate);
                }
            }
            Ok(())
        } else {
            match self.ime_change {
                ImeChange::Idle => {},
                ImeChange::Soon => {
                    self.ime_change = ImeChange::Now;
                },
                ImeChange::Now => {
                    self.ime = true;
                    self.ime_change = ImeChange::Idle;
                },
            }
            let ghost c = *self;
            let ghost mut dispatch: Seq<BusOp> = Seq::empty();
            if self.ime {
                match bus.ack_interrupt() {
                    None => {
                        proof {
                            dispatch = seq![BusOp::Ack(None)];
                        }
                    },
                    Some(interrupt) => {
                        self.halt = false;
                        self.ime = false;
                        self.internal_cycle(bus);
                        self.internal_cycle(bus);
                        self.internal_cycle(bus);
                        let pc = self.regs.pc;
                        self.push_u16(bus, pc);
                        self.regs.pc = interrupt.get_addr();
                        proof {
                            dispatch = seq![
                                BusOp::Ack(Some(interrupt)),
                                BusOp::Emulate,
                                BusOp::Emulate,
                                BusOp::Emulate,
                            ] + push_ops(c.regs.sp, c.regs.pc);
                        }
                    },
                }
            }
            let ghost l1 = bus.log();
            let ghost c2 = *self;
            proof {
                assert(l1 =~= l0 + dispatch);
                lemma_appended(l0, dispatch);
                assert(dispatch_ok(c, dispatch)) by {
                    if c.ime && dispatch.len() == 6 {
                        assert(dispatch.subrange(4, 6) =~= push_ops(c.regs.sp, c.regs.pc));
                    }
                }
            }
            let op = self.fetch_cycle(bus);
            let ghost l2 = bus.log();
            let instr = decode(op);
            proof {
                lemma_decoded_wf(op);
            }
            let r = self.exec_instr(bus, instr);
            proof {
                let rest = since(l2, bus.log());
                lemma_since_push(l1, BusOp::Fetch(c2.regs.pc, op));
                lemma_since_trans(l0, l1, l2);
                lemma_since_trans(l0, l2, bus.log());
                let ops = since(l0, bus.log());
                let k = dispatch.len() as int;
                assert(ops =~= dispatch + seq![BusOp::Fetch(c2.regs.pc, op)] + rest);
                assert(ops.subrange(0, k) =~= dispatch);
                assert(ops.subrange(k + 1, ops.len() as int) =~= rest);
                assert(ops[k] == BusOp::Fetch(c2.regs.pc, op));
                assert(dispatch_len(c, ops) == k);
                assert(dispatch_post(c, ops) == c2);
            }
            r
        }
    }
}

} // verus!
