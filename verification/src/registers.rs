use vstd::prelude::*;

verus! {

/// The eight-bit registers that instructions name as operands (F is not one of them).
#[derive(Clone, Copy, Debug, PartialEq, Eq, Structural)]
pub enum Reg8 {
    A,
    B,
    C,
    D,
    E,
    H,
    L,
}

/// The sixteen-bit register pairs, and the stack pointer.
#[derive(Clone, Copy, Debug, PartialEq, Eq, Structural)]
pub enum Reg16 {
    AF,
    BC,
    DE,
    HL,
    SP,
}

/// The sixteen-bit word whose high byte is `hi` and low byte is `lo`.
pub open spec fn word(hi: u8, lo: u8) -> u16 {
    (hi * 256 + lo) as u16
}

/// The high byte of a word.
pub open spec fn hi_byte(w: u16) -> u8 {
    (w / 256) as u8
}

/// The low byte of a word.
pub open spec fn lo_byte(w: u16) -> u8 {
    (w % 256) as u8
}

/// `x`, wrapped to sixteen bits.
pub open spec fn wrap16(x: int) -> u16 {
    (x % 0x10000) as u16
}

/// `x`, wrapped to eight bits.
pub open spec fn wrap8(x: int) -> u8 {
    (x % 0x100) as u8
}

/// The flag register. Its four low bits always read as zero, so it is held as
/// its four meaningful bits: Z (bit 7), N (bit 6), H (bit 5) and C (bit 4).
#[derive(Clone, Copy, Debug, PartialEq, Eq, Structural)]
pub struct Flags {
    pub zero: bool,
    pub add_subtract: bool,
    pub half_carry: bool,
    pub carry: bool,
}

impl Flags {
    /// The byte that the flag register reads as.
    pub open spec fn to_byte(self) -> u8 {
        ((if self.zero { 0x80int } else { 0 }) + (if self.add_subtract { 0x40int } else { 0 })
            + (if self.half_carry { 0x20int } else { 0 }) + (if self.carry { 0x10int } else {
            0
        })) as u8
    }

    /// The flags that a byte written to the flag register sets; its low nibble is dropped.
    pub open spec fn from_byte(b: u8) -> Flags {
        Flags {
            zero: (b / 0x80) % 2 == 1,
            add_subtract: (b / 0x40) % 2 == 1,
            half_carry: (b / 0x20) % 2 == 1,
            carry: (b / 0x10) % 2 == 1,
        }
    }

    /// No flag set.
    pub fn empty() -> (f: Flags)
        ensures
            f == (Flags { zero: false, add_subtract: false, half_carry: false, carry: false }),
    {
        Flags { zero: false, add_subtract: false, half_carry: false, carry: false }
    }

    /// The byte that the flag register reads as.
    pub fn bits(&self) -> (b: u8)
        ensures
            b == self.to_byte(),
    {
        let mut b: u8 = 0;
        if self.zero {
            b = b + 0x80;
        }
        if self.add_subtract {
            b = b + 0x40;
        }
        if self.half_carry {
            b = b + 0x20;
        }
        if self.carry {
            b = b + 0x10;
        }
        b
    }

    /// The flags that a byte sets; its four low bits are ignored.
    pub fn from_bits_truncate(b: u8) -> (f: Flags)
        ensures
            f == Flags::from_byte(b),
    {
        Flags {
            zero: (b / 0x80) % 2 == 1,
            add_subtract: (b / 0x40) % 2 == 1,
            half_carry: (b / 0x20) % 2 == 1,
            carry: (b / 0x10) % 2 == 1,
        }
    }
}

/// The register file of the processor.
#[derive(Clone, Copy, Debug, PartialEq, Eq, Structural)]
pub struct Registers {
    pub pc: u16,
    pub sp: u16,
    pub a: u8,
    pub f: Flags,
    pub b: u8,
    pub c: u8,
    pub d: u8,
    pub e: u8,
    pub h: u8,
    pub l: u8,
}

impl Registers {
    /// The registers at power-on, before the boot program runs: everything zero.
    pub open spec fn initial() -> Registers {
        Registers {
            pc: 0,
            sp: 0,
            a: 0,
            f: Flags { zero: false, add_subtract: false, half_carry: false, carry: false },
            b: 0,
            c: 0,
            d: 0,
            e: 0,
            h: 0,
            l: 0,
        }
    }

    pub fn new() -> (r: Registers)
        ensures
            r == Registers::initial(),
    {
        Registers {
            pc: 0,
            sp: 0,
            a: 0,
            f: Flags::empty(),
            b: 0,
            c: 0,
            d: 0,
            e: 0,
            h: 0,
            l: 0,
        }
    }

    /// The value of an eight-bit register.
    pub open spec fn get8(self, r: Reg8) -> u8 {
        match r {
            Reg8::A => self.a,
            Reg8::B => self.b,
            Reg8::C => self.c,
            Reg8::D => self.d,
            Reg8::E => self.e,
            Reg8::H => self.h,
            Reg8::L => self.l,
        }
    }

    /// The registers with one eight-bit register replaced.
    pub open spec fn set8(self, r: Reg8, v: u8) -> Registers {
        match r {
            Reg8::A => Registers { a: v, ..self },
            Reg8::B => Registers { b: v, ..self },
            Reg8::C => Registers { c: v, ..self },
            Reg8::D => Registers { d: v, ..self },
            Reg8::E => Registers { e: v, ..self },
            Reg8::H => Registers { h: v, ..self },
            Reg8::L => Registers { l: v, ..self },
        }
    }

    /// The value of a register pair: high register times 256 plus low register.
    pub open spec fn get16(self, r: Reg16) -> u16 {
        match r {
            Reg16::AF => word(self.a, self.f.to_byte()),
            Reg16::BC => word(self.b, self.c),
            Reg16::DE => word(self.d, self.e),
            Reg16::HL => word(self.h, self.l),
            Reg16::SP => self.sp,
        }
    }

    /// The registers after a sixteen-bit write to a pair; into AF only the four
    /// high bits of the low byte reach the flags.
    pub open spec fn set16(self, r: Reg16, v: u16) -> Registers {
        match r {
            Reg16::AF => Registers { a: hi_byte(v), f: Flags::from_byte(lo_byte(v)), ..self },
            Reg16::BC => Registers { b: hi_byte(v), c: lo_byte(v), ..self },
            Reg16::DE => Registers { d: hi_byte(v), e: lo_byte(v), ..self },
            Reg16::HL => Registers { h: hi_byte(v), l: lo_byte(v), ..self },
            Reg16::SP => Registers { sp: v, ..self },
        }
    }

    pub fn read16(&self, reg: Reg16) -> (v: u16)
        ensures
            v == self.get16(reg),
    {
        match reg {
            Reg16::AF => (self.a as u16) * 256 + (self.f.bits() as u16),
            Reg16::BC => (self.b as u16) * 256 + (self.c as u16),
            Reg16::DE => (self.d as u16) * 256 + (self.e as u16),
            Reg16::HL => (self.h as u16) * 256 + (self.l as u16),
            Reg16::SP => self.sp,
        }
    }

    pub fn write16(&mut self, reg: Reg16, value: u16)
        ensures
            *final(self) == old(self).set16(reg, value),
    {
        let hi = (value / 256) as u8;
        let lo = (value % 256) as u8;
        match reg {
            Reg16::AF => {
                self.a = hi;
                self.f = Flags::from_bits_truncate(lo);
            },
            Reg16::BC => {
                self.b = hi;
                self.c = lo;
            },
            Reg16::DE => {
                self.d = hi;
                self.e = lo;
            },
            Reg16::HL => {
                self.h = hi;
                self.l = lo;
            },
            Reg16::SP => {
                self.sp = value;
            },
        }
    }
}

} // verus!
