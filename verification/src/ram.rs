//! A bus of plain memory: sixty-four kilobytes of RAM that every address reads
//! and writes, a latch for one pending interrupt, a cycle counter and the
//! emulator events raised.
use vstd::prelude::*;
use crate::bus::{Bus, BusOp, Interrupt};

verus! {

/// The size of the address space.
pub const MEMORY_SIZE: usize = 0x10000;

pub struct RamBus {
    mem: [u8; 0x10000],
    pending: Option<Interrupt>,
    cycles: u64,
    events: u8,
    log: Ghost<Seq<BusOp>>,
}

impl RamBus {
    /// The contents of memory, one byte per address.
    pub closed spec fn memory(self) -> Seq<u8> {
        self.mem@
    }

    /// The interrupt that the next acknowledgement takes, if any.
    pub closed spec fn pending(self) -> Option<Interrupt> {
        self.pending
    }

    /// The idle cycles counted so far (wrapping).
    pub closed spec fn cycle_count(self) -> u64 {
        self.cycles
    }

    /// The emulator events raised so far, or-ed together.
    pub closed spec fn raised_events(self) -> u8 {
        self.events
    }

    /// A bus whose memory is all zero, with nothing pending and nothing logged.
    pub fn new() -> (bus: RamBus)
        ensures
            bus.memory() == Seq::new(MEMORY_SIZE as nat, |i: int| 0u8),
            bus.pending() == None::<Interrupt>,
            bus.cycle_count() == 0,
            bus.raised_events() == 0,
            bus.log() == Seq::<BusOp>::empty(),
    {
        let mem = [0u8; 0x10000];
        assert(mem@ =~= Seq::new(MEMORY_SIZE as nat, |i: int| 0u8));
        RamBus { mem, pending: None, cycles: 0, events: 0, log: Ghost(Seq::empty()) }
    }

    /// The byte at `addr`.
    pub fn peek(&self, addr: u16) -> (value: u8)
        ensures
            value == self.memory()[addr as int],
    {
        self.mem[addr as usize]
    }

    /// Stores `value` at `addr` without a bus operation (as a loader would).
    pub fn poke(&mut self, addr: u16, value: u8)
        ensures
            final(self).memory() == old(self).memory().update(addr as int, value),
            final(self).pending() == old(self).pending(),
            final(self).cycle_count() == old(self).cycle_count(),
            final(self).raised_events() == old(self).raised_events(),
            final(self).log() == old(self).log(),
    {
        self.mem[addr as usize] = value;
    }

    /// Copies `bytes` into memory from `start` on.
    pub fn load(&mut self, start: u16, bytes: &Vec<u8>)
        requires
            start + bytes.len() <= MEMORY_SIZE,
        ensures
            final(self).memory().len() == MEMORY_SIZE,
            forall|i: int|
                0 <= i < bytes.len() ==> #[trigger] final(self).memory()[start + i] == bytes@[i],
            forall|a: int|
                0 <= a < MEMORY_SIZE && !(start <= a < start + bytes.len())
                    ==> final(self).memory()[a] == old(self).memory()[a],
            final(self).pending() == old(self).pending(),
            final(self).cycle_count() == old(self).cycle_count(),
            final(self).raised_events() == old(self).raised_events(),
            final(self).log() == old(self).log(),
    {
        let mut i: usize = 0;
        while i < bytes.len()
            invariant
                i <= bytes.len(),
                start + bytes.len() <= MEMORY_SIZE,
                self.memory().len() == MEMORY_SIZE,
                forall|j: int| 0 <= j < i ==> #[trigger] self.memory()[start + j] == bytes@[j],
                forall|a: int|
                    0 <= a < MEMORY_SIZE && !(start <= a < start + i)
                        ==> self.memory()[a] == old(self).memory()[a],
                self.pending() == old(self).pending(),
                self.cycle_count() == old(self).cycle_count(),
                self.raised_events() == old(self).raised_events(),
                self.log() == old(self).log(),
            decreases bytes.len() - i,
        {
            self.poke(start + i as u16, bytes[i]);
            i = i + 1;
        }
    }

    /// Latches an interrupt for the next acknowledgement.
    pub fn request_interrupt(&mut self, interrupt: Interrupt)
        ensures
            final(self).pending() == Some(interrupt),
            final(self).memory() == old(self).memory(),
            final(self).cycle_count() == old(self).cycle_count(),
            final(self).raised_events() == old(self).raised_events(),
            final(self).log() == old(self).log(),
    {
        self.pending = Some(interrupt);
    }

    pub fn cycles(&self) -> (n: u64)
        ensures
            n == self.cycle_count(),
    {
        self.cycles
    }

    pub fn events(&self) -> (e: u8)
        ensures
            e == self.raised_events(),
    {
        self.events
    }
}

impl Bus for RamBus {
    closed spec fn log(&self) -> Seq<BusOp> {
        self.log@
    }

    closed spec fn interrupt_requested(&self) -> bool {
        self.pending is Some
    }

    fn fetch_cycle(&mut self, addr: u16) -> (value: u8)
        ensures
            value == old(self).memory()[addr as int],
            final(self).memory() == old(self).memory(),
            final(self).pending() == old(self).pending(),
            final(self).cycle_count() == old(self).cycle_count(),
            final(self).raised_events() == old(self).raised_events(),
    {
        let value = self.mem[addr as usize];
        self.log = Ghost(self.log@.push(BusOp::Fetch(addr, value)));
        value
    }

    fn read_cycle(&mut self, addr: u16) -> (value: u8)
        ensures
            value == old(self).memory()[addr as int],
            final(self).memory() == old(self).memory(),
            final(self).pending() == old(self).pending(),
            final(self).cycle_count() == old(self).cycle_count(),
            final(self).raised_events() == old(self).raised_events(),
    {
        let value = self.mem[addr as usize];
        self.log = Ghost(self.log@.push(BusOp::Read(addr, value)));
        value
    }

    fn write_cycle(&mut self, addr: u16, value: u8)
        ensures
            final(self).memory() == old(self).memory().update(addr as int, value),
            final(self).pending() == old(self).pending(),
            final(self).cycle_count() == old(self).cycle_count(),
            final(self).raised_events() == old(self).raised_events(),
    {
        self.mem[addr as usize] = value;
        self.log = Ghost(self.log@.push(BusOp::Write(addr, value)));
    }

    fn emulate(&mut self)
        ensures
            final(self).memory() == old(self).memory(),
            final(self).pending() == old(self).pending(),
            final(self).cycle_count() == old(self).cycle_count().wrapping_add(1),
            final(self).raised_events() == old(self).raised_events(),
    {
        self.cycles = self.cycles.wrapping_add(1);
        self.log = Ghost(self.log@.push(BusOp::Emulate));
    }

    fn has_interrupt(&self) -> (requested: bool)
        ensures
            requested == (self.pending() is Some),
    {
        self.pending.is_some()
    }

    fn ack_interrupt(&mut self) -> (taken: Option<Interrupt>)
        ensures
            taken == old(self).pending(),
            final(self).pending() == None::<Interrupt>,
            final(self).memory() == old(self).memory(),
            final(self).cycle_count() == old(self).cycle_count(),
            final(self).raised_events() == old(self).raised_events(),
    {
        let taken = self.pending;
        self.pending = None;
        self.log = Ghost(self.log@.push(BusOp::Ack(taken)));
        taken
    }

    fn trigger_emu_events(&mut self, events: u8)
        ensures
            final(self).raised_events() == old(self).raised_events() | events,
            final(self).memory() == old(self).memory(),
            final(self).pending() == old(self).pending(),
            final(self).cycle_count() == old(self).cycle_count(),
    {
        self.events = self.events | events;
        self.log = Ghost(self.log@.push(BusOp::EmuEvents(events)));
    }
}

} // verus!
