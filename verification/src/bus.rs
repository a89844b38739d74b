use vstd::prelude::*;

verus! {

/// The interrupt sources, in priority order.
#[derive(Clone, Copy, Debug, PartialEq, Eq, Structural)]
pub enum Interrupt {
    VBlank,
    LcdStat,
    TimerOverflow,
    SerialIoDone,
    Joypad,
}

impl Interrupt {
    /// The address of the handler that an acknowledged interrupt jumps to.
    pub open spec fn vector(self) -> u16 {
        match self {
            Interrupt::VBlank => 0x40,
            Interrupt::LcdStat => 0x48,
            Interrupt::TimerOverflow => 0x50,
            Interrupt::SerialIoDone => 0x58,
            Interrupt::Joypad => 0x60,
        }
    }

    pub fn get_addr(&self) -> (addr: u16)
        ensures
            addr == self.vector(),
    {
        match self {
            Interrupt::VBlank => 0x40,
            Interrupt::LcdStat => 0x48,
            Interrupt::TimerOverflow => 0x50,
            Interrupt::SerialIoDone => 0x58,
            Interrupt::Joypad => 0x60,
        }
    }
}

/// The emulator event that the debug opcode raises.
pub const EE_DEBUG_OP: u8 = 1;

/// One operation that the processor performs on the bus, with the byte that
/// went over it.
#[derive(Clone, Copy, Debug, PartialEq, Eq, Structural)]
pub enum BusOp {
    /// An opcode fetch: the address and the byte that came back.
    Fetch(u16, u8),
    /// A data read: the address and the byte that came back.
    Read(u16, u8),
    /// A write: the address and the byte written.
    Write(u16, u8),
    /// A machine cycle in which the processor does not use the bus.
    Emulate,
    /// An interrupt acknowledgement, and the interrupt that it took, if any.
    Ack(Option<Interrupt>),
    /// Emulator events raised by the processor.
    EmuEvents(u8),
}

/// The byte that a fetch, a read or a write carried.
pub open spec fn op_value(op: BusOp) -> u8 {
    match op {
        BusOp::Fetch(_, v) => v,
        BusOp::Read(_, v) => v,
        BusOp::Write(_, v) => v,
        _ => 0,
    }
}

/// The byte that the last write to `a` among the first `j` operations wrote, if any.
pub open spec fn last_write(ops: Seq<BusOp>, j: int, a: u16) -> Option<u8>
    decreases j,
{
    if j <= 0 {
        None
    } else {
        match ops[j - 1] {
            BusOp::Write(b, v) => if b == a {
                Some(v)
            } else {
                last_write(ops, j - 1, a)
            },
            _ => last_write(ops, j - 1, a),
        }
    }
}

/// The read or fetch at position `j`, if it is one, returns the byte last
/// written to its address earlier in `ops` (when there is such a write).
pub open spec fn read_sees_writes(ops: Seq<BusOp>, j: int) -> bool {
    match ops[j] {
        BusOp::Read(a, v) => last_write(ops, j, a) is Some ==> v == last_write(ops, j, a)->0,
        BusOp::Fetch(a, v) => last_write(ops, j, a) is Some ==> v == last_write(ops, j, a)->0,
        _ => true,
    }
}

/// The bus behaves as memory over `ops`: every read returns the byte last
/// written to its address within `ops`.
pub open spec fn reads_see_writes(ops: Seq<BusOp>) -> bool {
    forall|j: int| 0 <= j < ops.len() ==> #[trigger] read_sees_writes(ops, j)
}

/// What the processor is attached to. Each operation is recorded in `log`, in
/// the order in which it happened; the values that reads return are the bus's
/// own business.
pub trait Bus {
    /// The operations performed on the bus so far.
    spec fn log(&self) -> Seq<BusOp>;

    /// Whether an interrupt is requested (enabled and flagged).
    spec fn interrupt_requested(&self) -> bool;

    fn fetch_cycle(&mut self, addr: u16) -> (value: u8)
        ensures
            final(self).log() == old(self).log().push(BusOp::Fetch(addr, value)),
    ;

    fn read_cycle(&mut self, addr: u16) -> (value: u8)
        ensures
            final(self).log() == old(self).log().push(BusOp::Read(addr, value)),
    ;

    fn write_cycle(&mut self, addr: u16, value: u8)
        ensures
            final(self).log() == old(self).log().push(BusOp::Write(addr, value)),
    ;

    fn emulate(&mut self)
        ensures
            final(self).log() == old(self).log().push(BusOp::Emulate),
    ;

    fn has_interrupt(&self) -> (requested: bool)
        ensures
            requested == self.interrupt_requested(),
    ;

    fn ack_interrupt(&mut self) -> (taken: Option<Interrupt>)
        ensures
            final(self).log() == old(self).log().push(BusOp::Ack(taken)),
    ;

    fn trigger_emu_events(&mut self, events: u8)
        ensures
            final(self).log() == old(self).log().push(BusOp::EmuEvents(events)),
    ;
}

/// `l1` continues `l0`.
pub open spec fn extends(l0: Seq<BusOp>, l1: Seq<BusOp>) -> bool {
    l0.len() <= l1.len() && l1.subrange(0, l0.len() as int) == l0
}

/// What was appended to `l0` to give `l1`.
pub open spec fn since(l0: Seq<BusOp>, l1: Seq<BusOp>) -> Seq<BusOp> {
    l1.subrange(l0.len() as int, l1.len() as int)
}

pub proof fn lemma_since_push(l: Seq<BusOp>, op: BusOp)
    ensures
        extends(l, l.push(op)),
        since(l, l.push(op)) == seq![op],
{
    assert(l.push(op).subrange(0, l.len() as int) =~= l);
    assert(since(l, l.push(op)) =~= seq![op]);
}

pub proof fn lemma_since_refl(l: Seq<BusOp>)
    ensures
        extends(l, l),
        since(l, l) == Seq::<BusOp>::empty(),
{
    assert(l.subrange(0, l.len() as int) =~= l);
    assert(since(l, l) =~= Seq::<BusOp>::empty());
}

pub proof fn lemma_since_trans(l0: Seq<BusOp>, l1: Seq<BusOp>, l2: Seq<BusOp>)
    requires
        extends(l0, l1),
        extends(l1, l2),
    ensures
        extends(l0, l2),
        since(l0, l2) == since(l0, l1) + since(l1, l2),
{
    assert(l2.subrange(0, l0.len() as int) =~= l1.subrange(0, l0.len() as int));
    assert(since(l0, l2) =~= since(l0, l1) + since(l1, l2));
}

pub proof fn lemma_appended(l: Seq<BusOp>, ops: Seq<BusOp>)
    ensures
        extends(l, l + ops),
        since(l, l + ops) == ops,
{
    assert((l + ops).subrange(0, l.len() as int) =~= l);
    assert(since(l, l + ops) =~= ops);
}

/// Splitting what was appended over two steps at the boundary between them.
pub proof fn lemma_split_since(l0: Seq<BusOp>, l1: Seq<BusOp>, l2: Seq<BusOp>)
    requires
        extends(l0, l1),
        extends(l1, l2),
    ensures
        extends(l0, l2),
        since(l0, l2).subrange(0, since(l0, l1).len() as int) == since(l0, l1),
        since(l0, l2).subrange(since(l0, l1).len() as int, since(l0, l2).len() as int) == since(
            l1,
            l2,
        ),
{
    lemma_since_trans(l0, l1, l2);
    lemma_concat_split(since(l0, l1), since(l1, l2));
}

pub proof fn lemma_concat_split(a: Seq<BusOp>, b: Seq<BusOp>)
    ensures
        (a + b).subrange(0, a.len() as int) == a,
        (a + b).subrange(a.len() as int, (a + b).len() as int) == b,
{
    assert((a + b).subrange(0, a.len() as int) =~= a);
    assert((a + b).subrange(a.len() as int, (a + b).len() as int) =~= b);
}

} // verus!
