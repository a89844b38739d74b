//! The instructions of the processor, one method each.
use vstd::prelude::*;
use crate::alu::{
    AccOp, AluOp, RmwOp, add_result, bit_of, carry_unit, rl_result, rlc_result, rr_result,
    rrc_result, shift_flags, sub_flags, sub_result,
};
use crate::bits::{
    lemma_add_half_carry, lemma_byte_masks, lemma_byte_shifts, lemma_carry_bit, lemma_carry_masks,
    lemma_offset_byte, lemma_offset_signed, lemma_offset_word, lemma_word_bytes,
};
use crate::bus::{
    Bus, BusOp, EE_DEBUG_OP, extends, lemma_appended, lemma_since_push, lemma_since_refl,
    lemma_split_since, op_value, since,
};
use crate::cpu::{Cond, Cpu, CpuError, ImeChange, In8, Operand8, Out8};
use crate::decode::{Instr, decode_cb};
use crate::registers::{Flags, Reg16, Registers, hi_byte, lo_byte, wrap16, wrap8};
use crate::semantics::{
    acc_spec, add16_sp_e_spec, add16_spec, alu_spec, bit_spec, call_cc_spec, call_spec, instr_spec,
    instr_wf, jp_cc_spec, jp_spec, jr_cc_spec, jr_spec, load16_hl_sp_e_spec, load16_imm_spec,
    load16_nn_sp_spec, load16_sp_hl_spec, load_spec, op_spec, pop16_spec, push16_spec, push_ops,
    ret_cc_spec, ret_spec, reti_spec, rmw_spec, rst_spec, step16_spec, with_flags, with_pc,
    with_regs,
};

verus! {

impl Cpu {
    /// The subtraction of `value`, and of the carry when `use_carry` is set, from
    /// A: returns the difference and sets the flags; A is left alone.
    #[verifier::rlimit(30)]
    pub fn alu_sub(&mut self, value: u8, use_carry: bool) -> (result: u8)
        ensures
            result == sub_result(
                old(self).regs.a,
                value,
                bit_of(use_carry && old(self).regs.f.carry),
            ),
            *final(self) == with_flags(
                *old(self),
                sub_flags(old(self).regs.a, value, bit_of(use_carry && old(self).regs.f.carry)),
            ),
    {
        let cy: u8 = if use_carry && self.regs.f.carry {
            1
        } else {
            0
        };
        let a = self.regs.a;
        let result = a.wrapping_sub(value).wrapping_sub(cy);
        proof {
            lemma_byte_masks(a);
            lemma_byte_masks(value);
        }
        self.regs.f = Flags {
            zero: result == 0,
            add_subtract: true,
            half_carry: (a & 0xf) < (value & 0xf) + cy,
            carry: (a as u16) < (value as u16) + (cy as u16),
        };
        result
    }

    /// ADD s
    ///
    /// Flags: Z N H C
    ///        * 0 * *
    #[verifier::rlimit(30)]
    pub fn add<H: Bus, I: In8>(&mut self, bus: &mut H, in8: I)
        ensures
            extends(old(bus).log(), final(bus).log()),
            alu_spec(AluOp::Add, *old(self), in8.source(), since(old(bus).log(), final(bus).log()), *final(self)),
    {
        let value = in8.read(self, bus);
        let a = self.regs.a;
        let result = a.wrapping_add(value);
        let carry = a.checked_add(value).is_none();
        let half_carry = (a & 0x0f).checked_add(value | 0xf0).is_none();
        proof {
            lemma_add_half_carry(a, value);
        }
        self.regs.f = Flags { zero: result == 0, add_subtract: false, half_carry, carry };
        self.regs.a = result;
    }

    /// ADC s
    ///
    /// Flags: Z N H C
    ///        * 0 * *
    #[verifier::rlimit(30)]
    pub fn adc<H: Bus, I: In8>(&mut self, bus: &mut H, in8: I)
        ensures
            extends(old(bus).log(), final(bus).log()),
            alu_spec(AluOp::Adc, *old(self), in8.source(), since(old(bus).log(), final(bus).log()), *final(self)),
    {
        let value = in8.read(self, bus);
        let a = self.regs.a;
        let cy: u8 = if self.regs.f.carry {
            1
        } else {
            0
        };
        let result = a.wrapping_add(value).wrapping_add(cy);
        assert(result == add_result(a, value, cy as int));
        proof {
            lemma_byte_masks(a);
            lemma_byte_masks(value);
        }
        self.regs.f = Flags {
            zero: result == 0,
            add_subtract: false,
            half_carry: (a & 0xf) + (value & 0xf) + cy > 0xf,
            carry: a as u16 + value as u16 + cy as u16 > 0xff,
        };
        self.regs.a = result;
    }

    /// SUB s
    ///
    /// Flags: Z N H C
    ///        * 1 * *
    #[verifier::rlimit(30)]
    pub fn sub<H: Bus, I: In8>(&mut self, bus: &mut H, in8: I)
        ensures
            extends(old(bus).log(), final(bus).log()),
            alu_spec(AluOp::Sub, *old(self), in8.source(), since(old(bus).log(), final(bus).log()), *final(self)),
    {
        let value = in8.read(self, bus);
        self.regs.a = self.alu_sub(value, false);
    }

    /// SBC s
    ///
    /// Flags: Z N H C
    ///        * 1 * *
    #[verifier::rlimit(30)]
    pub fn sbc<H: Bus, I: In8>(&mut self, bus: &mut H, in8: I)
        ensures
            extends(old(bus).log(), final(bus).log()),
            alu_spec(AluOp::Sbc, *old(self), in8.source(), since(old(bus).log(), final(bus).log()), *final(self)),
    {
        let value = in8.read(self, bus);
        self.regs.a = self.alu_sub(value, true);
    }

    /// CP s
    ///
    /// Flags: Z N H C
    ///        * 1 * *
    #[verifier::rlimit(30)]
    pub fn cp<H: Bus, I: In8>(&mut self, bus: &mut H, in8: I)
        ensures
            extends(old(bus).log(), final(bus).log()),
            alu_spec(AluOp::Cp, *old(self), in8.source(), since(old(bus).log(), final(bus).log()), *final(self)),
    {
        let value = in8.read(self, bus);
        self.alu_sub(value, false);
    }

    /// AND s
    ///
    /// Flags: Z N H C
    ///        * 0 1 0
    #[verifier::rlimit(30)]
    pub fn and<H: Bus, I: In8>(&mut self, bus: &mut H, in8: I)
        ensures
            extends(old(bus).log(), final(bus).log()),
            alu_spec(AluOp::And, *old(self), in8.source(), since(old(bus).log(), final(bus).log()), *final(self)),
    {
        let value = in8.read(self, bus);
        self.regs.a = self.regs.a & value;
        self.regs.f = Flags {
            zero: self.regs.a == 0,
            add_subtract: false,
            half_carry: true,
            carry: false,
        };
    }

    /// OR s
    ///
    /// Flags: Z N H C
    ///        * 0 0 0
    #[verifier::rlimit(30)]
    pub fn or<H: Bus, I: In8>(&mut self, bus: &mut H, in8: I)
        ensures
            extends(old(bus).log(), final(bus).log()),
            alu_spec(AluOp::Or, *old(self), in8.source(), since(old(bus).log(), final(bus).log()), *final(self)),
    {
        let value = in8.read(self, bus);
        self.regs.a = self.regs.a | value;
        self.regs.f = Flags {
            zero: self.regs.a == 0,
            add_subtract: false,
            half_carry: false,
            carry: false,
        };
    }

    /// XOR s
    ///
    /// Flags: Z N H C
    ///        * 0 0 0
    #[verifier::rlimit(30)]
    pub fn xor<H: Bus, I: In8>(&mut self, bus: &mut H, in8: I)
        ensures
            extends(old(bus).log(), final(bus).log()),
            alu_spec(AluOp::Xor, *old(self), in8.source(), since(old(bus).log(), final(bus).log()), *final(self)),
    {
        let value = in8.read(self, bus);
        self.regs.a = self.regs.a ^ value;
        self.regs.f = Flags {
            zero: self.regs.a == 0,
            add_subtract: false,
            half_carry: false,
            carry: false,
        };
    }

    /// LD d, s
    ///
    /// Flags: Z N H C
    ///        - - - -
    #[verifier::rlimit(30)]
    pub fn load<H: Bus, O: Out8, I: In8>(&mut self, bus: &mut H, out8: O, in8: I)
        requires
            !(out8.target() is Imm),
        ensures
            extends(old(bus).log(), final(bus).log()),
            load_spec(*old(self), out8.target(), in8.source(), since(old(bus).log(), final(bus).log()), *final(self)),
    {
        let ghost l0 = bus.log();
        let value = in8.read(self, bus);
        let ghost l1 = bus.log();
        out8.write(self, bus, value);
        proof {
            lemma_split_since(l0, l1, bus.log());
        }
    }

    /// INC s
    ///
    /// Flags: Z N H C
    ///        * 0 * -
    #[verifier::rlimit(30)]
    pub fn inc<H: Bus, IO: In8 + Out8>(&mut self, bus: &mut H, io: IO)
        requires
            !(io.target() is Imm),
        ensures
            extends(old(bus).log(), final(bus).log()),
            rmw_spec(RmwOp::Inc, *old(self), io.source(), io.target(), since(old(bus).log(), final(bus).log()), *final(self)),
    {
        let ghost l0 = bus.log();
        let value = io.read(self, bus);
        let ghost l1 = bus.log();
        let new_value = value.wrapping_add(1);
        assert(new_value == wrap8(value + 1));
        proof {
            lemma_byte_masks(value);
        }
        self.regs.f = Flags {
            zero: new_value == 0,
            add_subtract: false,
            half_carry: value & 0xf == 0xf,
            carry: self.regs.f.carry,
        };
        io.write(self, bus, new_value);
        proof {
            lemma_split_since(l0, l1, bus.log());
        }
    }

    /// DEC s
    ///
    /// Flags: Z N H C
    ///        * 1 * -
    #[verifier::rlimit(30)]
    pub fn dec<H: Bus, IO: In8 + Out8>(&mut self, bus: &mut H, io: IO)
        requires
            !(io.target() is Imm),
        ensures
            extends(old(bus).log(), final(bus).log()),
            rmw_spec(RmwOp::Dec, *old(self), io.source(), io.target(), since(old(bus).log(), final(bus).log()), *final(self)),
    {
        let ghost l0 = bus.log();
        let value = io.read(self, bus);
        let ghost l1 = bus.log();
        let new_value = value.wrapping_sub(1);
        assert(new_value == wrap8(value - 1));
        proof {
            lemma_byte_masks(value);
        }
        self.regs.f = Flags {
            zero: new_value == 0,
            add_subtract: true,
            half_carry: value & 0xf == 0,
            carry: self.regs.f.carry,
        };
        io.write(self, bus, new_value);
        proof {
            lemma_split_since(l0, l1, bus.log());
        }
    }

    /// Rotate `value` left through the carry flag; sets the flags (Z only when
    /// `set_zero`) and returns the result.
    pub fn alu_rl(&mut self, value: u8, set_zero: bool) -> (result: u8)
        ensures
            result == rl_result(value, old(self).regs.f.carry),
            *final(self) == with_flags(*old(self), shift_flags(result, set_zero, value >= 128)),
    {
        let ci: u8 = if self.regs.f.carry {
            1
        } else {
            0
        };
        let co = value & 0x80;
        let new_value = (value << 1) | ci;
        proof {
            lemma_byte_masks(value);
            lemma_byte_shifts(value, ci);
        }
        self.regs.f = Flags {
            zero: set_zero && new_value == 0,
            add_subtract: false,
            half_carry: false,
            carry: co != 0,
        };
        new_value
    }

    /// Rotate `value` left, bit 7 into bit 0 and into the carry.
    pub fn alu_rlc(&mut self, value: u8, set_zero: bool) -> (result: u8)
        ensures
            result == rlc_result(value),
            *final(self) == with_flags(*old(self), shift_flags(result, set_zero, value >= 128)),
    {
        let co = value & 0x80;
        let new_value = (value << 1) | (value >> 7);
        proof {
            lemma_byte_masks(value);
            lemma_byte_shifts(value, 0);
        }
        self.regs.f = Flags {
            zero: set_zero && new_value == 0,
            add_subtract: false,
            half_carry: false,
            carry: co != 0,
        };
        new_value
    }

    /// Rotate `value` right through the carry flag.
    pub fn alu_rr(&mut self, value: u8, set_zero: bool) -> (result: u8)
        ensures
            result == rr_result(value, old(self).regs.f.carry),
            *final(self) == with_flags(*old(self), shift_flags(result, set_zero, value % 2 == 1)),
    {
        let ci: u8 = if self.regs.f.carry {
            1
        } else {
            0
        };
        let co = value & 0x01;
        let new_value = (value >> 1) | (ci << 7);
        proof {
            lemma_byte_masks(value);
            lemma_byte_shifts(value, ci);
        }
        self.regs.f = Flags {
            zero: set_zero && new_value == 0,
            add_subtract: false,
            half_carry: false,
            carry: co != 0,
        };
        new_value
    }

    /// Rotate `value` right, bit 0 into bit 7 and into the carry.
    pub fn alu_rrc(&mut self, value: u8, set_zero: bool) -> (result: u8)
        ensures
            result == rrc_result(value),
            *final(self) == with_flags(*old(self), shift_flags(result, set_zero, value % 2 == 1)),
    {
        let co = value & 0x01;
        let new_value = (value >> 1) | (value << 7);
        proof {
            lemma_byte_masks(value);
            lemma_byte_shifts(value, 0);
        }
        self.regs.f = Flags {
            zero: set_zero && new_value == 0,
            add_subtract: false,
            half_carry: false,
            carry: co != 0,
        };
        new_value
    }

    /// RLCA
    ///
    /// Flags: Z N H C
    ///        0 0 0 *
    pub fn rlca(&mut self)
        ensures
            acc_spec(AccOp::Rlca, *old(self), Seq::empty(), *final(self)),
    {
        let value = self.regs.a;
        self.regs.a = self.alu_rlc(value, false);
    }

    /// RLA
    ///
    /// Flags: Z N H C
    ///        0 0 0 *
    pub fn rla(&mut self)
        ensures
            acc_spec(AccOp::Rla, *old(self), Seq::empty(), *final(self)),
    {
        let value = self.regs.a;
        self.regs.a = self.alu_rl(value, false);
    }

    /// RRCA
    ///
    /// Flags: Z N H C
    ///        0 0 0 *
    pub fn rrca(&mut self)
        ensures
            acc_spec(AccOp::Rrca, *old(self), Seq::empty(), *final(self)),
    {
        let value = self.regs.a;
        self.regs.a = self.alu_rrc(value, false);
    }

    /// RRA
    ///
    /// Flags: Z N H C
    ///        0 0 0 *
    pub fn rra(&mut self)
        ensures
            acc_spec(AccOp::Rra, *old(self), Seq::empty(), *final(self)),
    {
        let value = self.regs.a;
        self.regs.a = self.alu_rr(value, false);
    }

    /// RLC s
    ///
    /// Flags: Z N H C
    ///        * 0 0 *
    #[verifier::rlimit(30)]
    pub fn rlc<H: Bus, IO: In8 + Out8>(&mut self, bus: &mut H, io: IO)
        requires
            !(io.target() is Imm),
        ensures
            extends(old(bus).log(), final(bus).log()),
            rmw_spec(RmwOp::Rlc, *old(self), io.source(), io.target(), since(old(bus).log(), final(bus).log()), *final(self)),
    {
        let ghost l0 = bus.log();
        let value = io.read(self, bus);
        let ghost l1 = bus.log();
        let new_value = self.alu_rlc(value, true);
        io.write(self, bus, new_value);
        proof {
            lemma_split_since(l0, l1, bus.log());
        }
    }

    /// RL s
    ///
    /// Flags: Z N H C
    ///        * 0 0 *
    #[verifier::rlimit(30)]
    pub fn rl<H: Bus, IO: In8 + Out8>(&mut self, bus: &mut H, io: IO)
        requires
            !(io.target() is Imm),
        ensures
            extends(old(bus).log(), final(bus).log()),
            rmw_spec(RmwOp::Rl, *old(self), io.source(), io.target(), since(old(bus).log(), final(bus).log()), *final(self)),
    {
        let ghost l0 = bus.log();
        let value = io.read(self, bus);
        let ghost l1 = bus.log();
        let new_value = self.alu_rl(value, true);
        io.write(self, bus, new_value);
        proof {
            lemma_split_since(l0, l1, bus.log());
        }
    }

    /// RRC s
    ///
    /// Flags: Z N H C
    ///        * 0 0 *
    #[verifier::rlimit(30)]
    pub fn rrc<H: Bus, IO: In8 + Out8>(&mut self, bus: &mut H, io: IO)
        requires
            !(io.target() is Imm),
        ensures
            extends(old(bus).log(), final(bus).log()),
            rmw_spec(RmwOp::Rrc, *old(self), io.source(), io.target(), since(old(bus).log(), final(bus).log()), *final(self)),
    {
        let ghost l0 = bus.log();
        let value = io.read(self, bus);
        let ghost l1 = bus.log();
        let new_value = self.alu_rrc(value, true);
        io.write(self, bus, new_value);
        proof {
            lemma_split_since(l0, l1, bus.log());
        }
    }

    /// RR s
    ///
    /// Flags: Z N H C
    ///        * 0 0 *
    #[verifier::rlimit(30)]
    pub fn rr<H: Bus, IO: In8 + Out8>(&mut self, bus: &mut H, io: IO)
        requires
            !(io.target() is Imm),
        ensures
            extends(old(bus).log(), final(bus).log()),
            rmw_spec(RmwOp::Rr, *old(self), io.source(), io.target(), since(old(bus).log(), final(bus).log()), *final(self)),
    {
        let ghost l0 = bus.log();
        let value = io.read(self, bus);
        let ghost l1 = bus.log();
        let new_value = self.alu_rr(value, true);
        io.write(self, bus, new_value);
        proof {
            lemma_split_since(l0, l1, bus.log());
        }
    }

    /// SLA s
    ///
    /// Flags: Z N H C
    ///        * 0 0 *
    #[verifier::rlimit(30)]
    pub fn sla<H: Bus, IO: In8 + Out8>(&mut self, bus: &mut H, io: IO)
        requires
            !(io.target() is Imm),
        ensures
            extends(old(bus).log(), final(bus).log()),
            rmw_spec(RmwOp::Sla, *old(self), io.source(), io.target(), since(old(bus).log(), final(bus).log()), *final(self)),
    {
        let ghost l0 = bus.log();
        let value = io.read(self, bus);
        let ghost l1 = bus.log();
        let co = value & 0x80;
        let new_value = value << 1;
        proof {
            lemma_byte_masks(value);
            lemma_byte_shifts(value, 0);
        }
        self.regs.f = Flags {
            zero: new_value == 0,
            add_subtract: false,
            half_carry: false,
            carry: co != 0,
        };
        io.write(self, bus, new_value);
        proof {
            lemma_split_since(l0, l1, bus.log());
        }
    }

    /// SRA s
    ///
    /// Flags: Z N H C
    ///        * 0 0 *
    #[verifier::rlimit(30)]
    pub fn sra<H: Bus, IO: In8 + Out8>(&mut self, bus: &mut H, io: IO)
        requires
            !(io.target() is Imm),
        ensures
            extends(old(bus).log(), final(bus).log()),
            rmw_spec(RmwOp::Sra, *old(self), io.source(), io.target(), since(old(bus).log(), final(bus).log()), *final(self)),
    {
        let ghost l0 = bus.log();
        let value = io.read(self, bus);
        let ghost l1 = bus.log();
        let co = value & 0x01;
        let hi = value & 0x80;
        let new_value = (value >> 1) | hi;
        proof {
            lemma_byte_masks(value);
            lemma_byte_shifts(value, 0);
        }
        self.regs.f = Flags {
            zero: new_value == 0,
            add_subtract: false,
            half_carry: false,
            carry: co != 0,
        };
        io.write(self, bus, new_value);
        proof {
            lemma_split_since(l0, l1, bus.log());
        }
    }

    /// SRL s
    ///
    /// Flags: Z N H C
    ///        * 0 0 *
    #[verifier::rlimit(30)]
    pub fn srl<H: Bus, IO: In8 + Out8>(&mut self, bus: &mut H, io: IO)
        requires
            !(io.target() is Imm),
        ensures
            extends(old(bus).log(), final(bus).log()),
            rmw_spec(RmwOp::Srl, *old(self), io.source(), io.target(), since(old(bus).log(), final(bus).log()), *final(self)),
    {
        let ghost l0 = bus.log();
        let value = io.read(self, bus);
        let ghost l1 = bus.log();
        let co = value & 0x01;
        let new_value = value >> 1;
        proof {
            lemma_byte_masks(value);
            lemma_byte_shifts(value, 0);
        }
        self.regs.f = Flags {
            zero: new_value == 0,
            add_subtract: false,
            half_carry: false,
            carry: co != 0,
        };
        io.write(self, bus, new_value);
        proof {
            lemma_split_since(l0, l1, bus.log());
        }
    }

    /// SWAP s
    ///
    /// Flags: Z N H C
    ///        * 0 0 0
    #[verifier::rlimit(30)]
    pub fn swap<H: Bus, IO: In8 + Out8>(&mut self, bus: &mut H, io: IO)
        requires
            !(io.target() is Imm),
        ensures
            extends(old(bus).log(), final(bus).log()),
            rmw_spec(RmwOp::Swap, *old(self), io.source(), io.target(), since(old(bus).log(), final(bus).log()), *final(self)),
    {
        let ghost l0 = bus.log();
        let value = io.read(self, bus);
        let ghost l1 = bus.log();
        let new_value = (value >> 4) | (value << 4);
        proof {
            lemma_byte_masks(value);
            lemma_byte_shifts(value, 0);
        }
        self.regs.f = Flags { zero: value == 0, add_subtract: false, half_carry: false, carry: false };
        io.write(self, bus, new_value);
        proof {
            lemma_split_since(l0, l1, bus.log());
        }
    }

    #[verifier::rlimit(30)]
    fn ctrl_jp<H: Bus>(&mut self, bus: &mut H, addr: u16)
        ensures
            final(bus).log() == old(bus).log().push(BusOp::Emulate),
            *final(self) == with_pc(*old(self), addr),
    {
        self.regs.pc = addr;
        self.internal_cycle(bus);
    }

    #[verifier::rlimit(30)]
    fn ctrl_jr<H: Bus>(&mut self, bus: &mut H, offset: i8)
        ensures
            final(bus).log() == old(bus).log().push(BusOp::Emulate),
            *final(self) == with_pc(*old(self), wrap16(old(self).regs.pc + offset)),
    {
        proof {
            lemma_offset_word(offset);
        }
        self.regs.pc = self.regs.pc.wrapping_add(offset as u16);
        self.internal_cycle(bus);
    }

    #[verifier::rlimit(30)]
    fn ctrl_call<H: Bus>(&mut self, bus: &mut H, addr: u16)
        ensures
            final(bus).log() == old(bus).log().push(BusOp::Emulate) + push_ops(
                old(self).regs.sp,
                old(self).regs.pc,
            ),
            *final(self) == with_regs(
                *old(self),
                Registers { pc: addr, sp: wrap16(old(self).regs.sp - 2), ..old(self).regs },
            ),
    {
        let pc = self.regs.pc;
        self.internal_cycle(bus);
        self.push_u16(bus, pc);
        self.regs.pc = addr;
    }

    #[verifier::rlimit(30)]
    fn ctrl_ret<H: Bus>(&mut self, bus: &mut H)
        ensures
            extends(old(bus).log(), final(bus).log()),
            ret_spec(*old(self), since(old(bus).log(), final(bus).log()), *final(self)),
    {
        let ghost l0 = bus.log();
        self.regs.pc = self.pop_u16(bus);
        let ghost l1 = bus.log();
        self.internal_cycle(bus);
        proof {
            lemma_since_push(l1, BusOp::Emulate);
            lemma_split_since(l0, l1, bus.log());
        }
    }

    /// JP nn
    ///
    /// Flags: Z N H C
    ///        - - - -
    #[verifier::rlimit(30)]
    pub fn jp<H: Bus>(&mut self, bus: &mut H)
        ensures
            extends(old(bus).log(), final(bus).log()),
            jp_spec(*old(self), since(old(bus).log(), final(bus).log()), *final(self)),
    {
        let ghost l0 = bus.log();
        let addr = self.next_u16(bus);
        let ghost l1 = bus.log();
        self.ctrl_jp(bus, addr);
        proof {
            lemma_since_push(l1, BusOp::Emulate);
            lemma_split_since(l0, l1, bus.log());
        }
    }

    /// JP HL
    ///
    /// Flags: Z N H C
    ///        - - - -
    pub fn jp_hl(&mut self)
        ensures
            *final(self) == with_pc(*old(self), old(self).regs.get16(Reg16::HL)),
    {
        self.regs.pc = self.regs.read16(Reg16::HL);
    }

    /// JR e
    ///
    /// Flags: Z N H C
    ///        - - - -
    #[verifier::rlimit(30)]
    pub fn jr<H: Bus>(&mut self, bus: &mut H)
        ensures
            extends(old(bus).log(), final(bus).log()),
            jr_spec(*old(self), since(old(bus).log(), final(bus).log()), *final(self)),
    {
        let ghost l0 = bus.log();
        let e = self.next_u8(bus);
        proof {
            lemma_offset_signed(e);
        }
        let offset = e as i8;
        let ghost l1 = bus.log();
        self.ctrl_jr(bus, offset);
        proof {
            lemma_since_push(l0, BusOp::Read(old(self).regs.pc, e));
            lemma_since_push(l1, BusOp::Emulate);
            lemma_split_since(l0, l1, bus.log());
        }
    }

    /// CALL nn
    ///
    /// Flags: Z N H C
    ///        - - - -
    #[verifier::rlimit(30)]
    pub fn call<H: Bus>(&mut self, bus: &mut H)
        ensures
            extends(old(bus).log(), final(bus).log()),
            call_spec(*old(self), since(old(bus).log(), final(bus).log()), *final(self)),
    {
        let ghost l0 = bus.log();
        let addr = self.next_u16(bus);
        let ghost l1 = bus.log();
        let ghost c1 = *self;
        self.ctrl_call(bus, addr);
        proof {
            lemma_appended(l1, seq![BusOp::Emulate] + push_ops(c1.regs.sp, c1.regs.pc));
            assert(l1.push(BusOp::Emulate) + push_ops(c1.regs.sp, c1.regs.pc) =~= l1 + (seq![BusOp::Emulate] + push_ops(c1.regs.sp, c1.regs.pc)));
            lemma_split_since(l0, l1, bus.log());
            let ops = since(l0, bus.log());
            assert(ops.subrange(3, 5) =~= push_ops(c1.regs.sp, c1.regs.pc));
        }
    }

    /// RET
    ///
    /// Flags: Z N H C
    ///        - - - -
    #[verifier::rlimit(30)]
    pub fn ret<H: Bus>(&mut self, bus: &mut H)
        ensures
            extends(old(bus).log(), final(bus).log()),
            ret_spec(*old(self), since(old(bus).log(), final(bus).log()), *final(self)),
    {
        self.ctrl_ret(bus);
    }

    /// RETI
    ///
    /// Flags: Z N H C
    ///        - - - -
    #[verifier::rlimit(30)]
    pub fn reti<H: Bus>(&mut self, bus: &mut H)
        ensures
            extends(old(bus).log(), final(bus).log()),
            reti_spec(*old(self), since(old(bus).log(), final(bus).log()), *final(self)),
    {
        self.ime = true;
        self.ime_change = ImeChange::Idle;
        self.ctrl_ret(bus);
    }

    /// JP cc, nn
    ///
    /// Flags: Z N H C
    ///        - - - -
    #[verifier::rlimit(30)]
    pub fn jp_cc<H: Bus>(&mut self, bus: &mut H, cond: Cond)
        ensures
            extends(old(bus).log(), final(bus).log()),
            jp_cc_spec(cond, *old(self), since(old(bus).log(), final(bus).log()), *final(self)),
    {
        let ghost l0 = bus.log();
        let addr = self.next_u16(bus);
        let ghost l1 = bus.log();
        if cond.check(self.regs.f) {
            self.ctrl_jp(bus, addr);
            proof {
                lemma_since_push(l1, BusOp::Emulate);
            }
        } else {
            proof {
                lemma_since_refl(l1);
            }
        }
        proof {
            lemma_split_since(l0, l1, bus.log());
        }
    }

    /// JR cc, e
    ///
    /// Flags: Z N H C
    ///        - - - -
    #[verifier::rlimit(30)]
    pub fn jr_cc<H: Bus>(&mut self, bus: &mut H, cond: Cond)
        ensures
            extends(old(bus).log(), final(bus).log()),
            jr_cc_spec(cond, *old(self), since(old(bus).log(), final(bus).log()), *final(self)),
    {
        let ghost l0 = bus.log();
        let e = self.next_u8(bus);
        proof {
            lemma_offset_signed(e);
        }
        let offset = e as i8;
        let ghost l1 = bus.log();
        proof {
            lemma_since_push(l0, BusOp::Read(old(self).regs.pc, e));
        }
        if cond.check(self.regs.f) {
            self.ctrl_jr(bus, offset);
            proof {
                lemma_since_push(l1, BusOp::Emulate);
            }
        } else {
            proof {
                lemma_since_refl(l1);
            }
        }
        proof {
            lemma_split_since(l0, l1, bus.log());
        }
    }

    /// CALL cc, nn
    ///
    /// Flags: Z N H C
    ///        - - - -
    #[verifier::rlimit(30)]
    pub fn call_cc<H: Bus>(&mut self, bus: &mut H, cond: Cond)
        ensures
            extends(old(bus).log(), final(bus).log()),
            call_cc_spec(cond, *old(self), since(old(bus).log(), final(bus).log()), *final(self)),
    {
        let ghost l0 = bus.log();
        let addr = self.next_u16(bus);
        let ghost l1 = bus.log();
        let ghost c1 = *self;
        if cond.check(self.regs.f) {
            self.ctrl_call(bus, addr);
            proof {
                lemma_appended(l1, seq![BusOp::Emulate] + push_ops(c1.regs.sp, c1.regs.pc));
                assert(l1.push(BusOp::Emulate) + push_ops(c1.regs.sp, c1.regs.pc) =~= l1 + (
                seq![BusOp::Emulate] + push_ops(c1.regs.sp, c1.regs.pc)));
                lemma_split_since(l0, l1, bus.log());
                let ops = since(l0, bus.log());
                assert(ops.subrange(3, 5) =~= push_ops(c1.regs.sp, c1.regs.pc));
            }
        } else {
            proof {
                lemma_since_refl(l1);
                lemma_split_since(l0, l1, bus.log());
            }
        }
    }

    /// RET cc
    ///
    /// Flags: Z N H C
    ///        - - - -
    #[verifier::rlimit(30)]
    pub fn ret_cc<H: Bus>(&mut self, bus: &mut H, cond: Cond)
        ensures
            extends(old(bus).log(), final(bus).log()),
            ret_cc_spec(cond, *old(self), since(old(bus).log(), final(bus).log()), *final(self)),
    {
        let ghost l0 = bus.log();
        self.internal_cycle(bus);
        let ghost l1 = bus.log();
        proof {
            lemma_since_push(l0, BusOp::Emulate);
        }
        if cond.check(self.regs.f) {
            self.ctrl_ret(bus);
        } else {
            proof {
                lemma_since_refl(l1);
            }
        }
        proof {
            lemma_split_since(l0, l1, bus.log());
        }
    }

    /// RST n
    ///
    /// Flags: Z N H C
    ///        - - - -
    #[verifier::rlimit(30)]
    pub fn rst<H: Bus>(&mut self, bus: &mut H, addr: u8)
        ensures
            extends(old(bus).log(), final(bus).log()),
            rst_spec(addr, *old(self), since(old(bus).log(), final(bus).log()), *final(self)),
    {
        let ghost l0 = bus.log();
        let pc = self.regs.pc;
        self.internal_cycle(bus);
        self.push_u16(bus, pc);
        self.regs.pc = addr as u16;
        proof {
            let ops = seq![BusOp::Emulate] + push_ops(old(self).regs.sp, pc);
            assert(bus.log() =~= l0 + ops);
            lemma_appended(l0, ops);
        }
    }

    /// BIT b, s
    ///
    /// Flags: Z N H C
    ///        * 0 1 -
    #[verifier::rlimit(30)]
    pub fn bit<H: Bus, I: In8>(&mut self, bus: &mut H, bit: usize, in8: I)
        requires
            bit < 8,
        ensures
            extends(old(bus).log(), final(bus).log()),
            bit_spec(bit as u8, *old(self), in8.source(), since(old(bus).log(), final(bus).log()), *final(self)),
    {
        let b = bit as u8;
        let value = in8.read(self, bus) & (1u8 << b);
        self.regs.f = Flags {
            zero: value == 0,
            add_subtract: false,
            half_carry: true,
            carry: self.regs.f.carry,
        };
    }

    /// SET b, s
    ///
    /// Flags: Z N H C
    ///        - - - -
    #[verifier::rlimit(30)]
    pub fn set<H: Bus, IO: In8 + Out8>(&mut self, bus: &mut H, bit: usize, io: IO)
        requires
            bit < 8,
            !(io.target() is Imm),
        ensures
            extends(old(bus).log(), final(bus).log()),
            rmw_spec(RmwOp::SetBit(bit as u8), *old(self), io.source(), io.target(), since(old(bus).log(), final(bus).log()), *final(self)),
    {
        let ghost l0 = bus.log();
        let b = bit as u8;
        let value = io.read(self, bus) | (1u8 << b);
        let ghost l1 = bus.log();
        io.write(self, bus, value);
        proof {
            lemma_split_since(l0, l1, bus.log());
        }
    }

    /// RES b, s
    ///
    /// Flags: Z N H C
    ///        - - - -
    #[verifier::rlimit(30)]
    pub fn res<H: Bus, IO: In8 + Out8>(&mut self, bus: &mut H, bit: usize, io: IO)
        requires
            bit < 8,
            !(io.target() is Imm),
        ensures
            extends(old(bus).log(), final(bus).log()),
            rmw_spec(RmwOp::ResBit(bit as u8), *old(self), io.source(), io.target(), since(old(bus).log(), final(bus).log()), *final(self)),
    {
        let ghost l0 = bus.log();
        let b = bit as u8;
        let value = io.read(self, bus) & !(1u8 << b);
        let ghost l1 = bus.log();
        io.write(self, bus, value);
        proof {
            lemma_split_since(l0, l1, bus.log());
        }
    }

    /// HALT
    ///
    /// Flags: Z N H C
    ///        - - - -
    pub fn halt(&mut self)
        ensures
            *final(self) == (Cpu { halt: true, ..*old(self) }),
    {
        // The DMG's halt bug (the byte after HALT read twice) is not emulated.
        self.halt = true;
    }

    /// STOP: not emulated; the processor refuses it.
    ///
    /// Flags: Z N H C
    ///        - - - -
    pub fn stop(&self) -> (r: Result<(), CpuError>)
        ensures
            r == Err::<(), CpuError>(CpuError::Stop),
    {
        Err(CpuError::Stop)
    }

    /// DI
    ///
    /// Flags: Z N H C
    ///        - - - -
    pub fn di(&mut self)
        ensures
            *final(self) == (Cpu { ime: false, ime_change: ImeChange::Idle, ..*old(self) }),
    {
        self.ime = false;
        self.ime_change = ImeChange::Idle;
    }

    /// EI: interrupts are enabled after the next instruction.
    ///
    /// Flags: Z N H C
    ///        - - - -
    pub fn ei(&mut self)
        ensures
            *final(self) == (Cpu { ime_change: ImeChange::Soon, ..*old(self) }),
    {
        self.ime_change = ImeChange::Soon;
    }

    /// CCF
    ///
    /// Flags: Z N H C
    ///        - 0 0 *
    pub fn ccf(&mut self)
        ensures
            acc_spec(AccOp::Ccf, *old(self), Seq::empty(), *final(self)),
    {
        self.regs.f = Flags {
            zero: self.regs.f.zero,
            add_subtract: false,
            half_carry: false,
            carry: !self.regs.f.carry,
        };
    }

    /// SCF
    ///
    /// Flags: Z N H C
    ///        - 0 0 1
    pub fn scf(&mut self)
        ensures
            acc_spec(AccOp::Scf, *old(self), Seq::empty(), *final(self)),
    {
        self.regs.f = Flags {
            zero: self.regs.f.zero,
            add_subtract: false,
            half_carry: false,
            carry: true,
        };
    }

    /// NOP
    ///
    /// Flags: Z N H C
    ///        - - - -
    pub fn nop(&self) {
    }

    /// DAA
    ///
    /// Flags: Z N H C
    ///        * - 0 *
    #[verifier::rlimit(30)]
    pub fn daa(&mut self)
        ensures
            acc_spec(AccOp::Daa, *old(self), Seq::empty(), *final(self)),
    {
        // DAA table in page 110 of the official "Game Boy Programming Manual"
        let f = self.regs.f;
        let mut carry = false;
        if !f.add_subtract {
            if f.carry || self.regs.a > 0x99 {
                self.regs.a = self.regs.a.wrapping_add(0x60);
                carry = true;
            }
            let a1 = self.regs.a;
            proof {
                lemma_byte_masks(a1);
            }
            if f.half_carry || self.regs.a & 0x0f > 0x09 {
                self.regs.a = self.regs.a.wrapping_add(0x06);
            }
        } else if f.carry {
            carry = true;
            self.regs.a = self.regs.a.wrapping_add(
                if f.half_carry {
                    0x9a
                } else {
                    0xa0
                },
            );
        } else if f.half_carry {
            self.regs.a = self.regs.a.wrapping_add(0xfa);
        }
        self.regs.f = Flags {
            zero: self.regs.a == 0,
            add_subtract: f.add_subtract,
            half_carry: false,
            carry,
        };
    }

    /// CPL
    ///
    /// Flags: Z N H C
    ///        - 1 1 -
    pub fn cpl(&mut self)
        ensures
            acc_spec(AccOp::Cpl, *old(self), Seq::empty(), *final(self)),
    {
        let a = self.regs.a;
        proof {
            lemma_byte_masks(a);
        }
        self.regs.a = !a;
        self.regs.f = Flags {
            zero: self.regs.f.zero,
            add_subtract: true,
            half_carry: true,
            carry: self.regs.f.carry,
        };
    }

    /// Whether adding `a` and `b` carries out of bit `bit` (3, 7 or 11).
    fn test_add_carry_bit(bit: u16, a: u16, b: u16) -> (carry: bool)
        requires
            bit == 3 || bit == 7 || bit == 11,
        ensures
            carry == (a as int % carry_unit(bit) + b as int % carry_unit(bit) >= carry_unit(bit)),
    {
        let x: u16 = 1u16 << bit;
        proof {
            lemma_carry_bit(bit, x);
            lemma_carry_masks(a, b);
        }
        let below: u16 = x - 1;
        let mask = x | below;
        (a & mask) as u32 + (b & mask) as u32 > mask as u32
    }

    /// LD dd, nn
    ///
    /// Flags: Z N H C
    ///        - - - -
    #[verifier::rlimit(30)]
    pub fn load16_imm<H: Bus>(&mut self, bus: &mut H, reg: Reg16)
        ensures
            extends(old(bus).log(), final(bus).log()),
            load16_imm_spec(reg, *old(self), since(old(bus).log(), final(bus).log()), *final(self)),
    {
        let value = self.next_u16(bus);
        self.regs.write16(reg, value);
    }

    /// LD (nn), SP
    ///
    /// Flags: Z N H C
    ///        - - - -
    #[verifier::rlimit(30)]
    pub fn load16_nn_sp<H: Bus>(&mut self, bus: &mut H)
        ensures
            extends(old(bus).log(), final(bus).log()),
            load16_nn_sp_spec(*old(self), since(old(bus).log(), final(bus).log()), *final(self)),
    {
        let ghost l0 = bus.log();
        let value = self.regs.sp;
        let addr = self.next_u16(bus);
        let ghost l1 = bus.log();
        proof {
            lemma_word_bytes(0, 0, value);
        }
        self.write_cycle(bus, addr, value as u8);
        self.write_cycle(bus, addr.wrapping_add(1), (value >> 8) as u8);
        proof {
            let w = seq![
                BusOp::Write(addr, lo_byte(value)),
                BusOp::Write(wrap16(addr + 1), hi_byte(value)),
            ];
            assert(bus.log() =~= l1 + w);
            lemma_appended(l1, w);
            lemma_split_since(l0, l1, bus.log());
        }
    }

    /// LD SP, HL
    ///
    /// Flags: Z N H C
    ///        - - - -
    #[verifier::rlimit(30)]
    pub fn load16_sp_hl<H: Bus>(&mut self, bus: &mut H)
        ensures
            extends(old(bus).log(), final(bus).log()),
            load16_sp_hl_spec(*old(self), since(old(bus).log(), final(bus).log()), *final(self)),
    {
        let ghost l0 = bus.log();
        let value = self.regs.read16(Reg16::HL);
        self.regs.sp = value;
        self.internal_cycle(bus);
        proof {
            lemma_since_push(l0, BusOp::Emulate);
        }
    }

    /// LD HL, SP+e
    ///
    /// Flags: Z N H C
    ///        0 0 * *
    #[verifier::rlimit(30)]
    pub fn load16_hl_sp_e<H: Bus>(&mut self, bus: &mut H)
        ensures
            extends(old(bus).log(), final(bus).log()),
            load16_hl_sp_e_spec(*old(self), since(old(bus).log(), final(bus).log()), *final(self)),
    {
        let ghost l0 = bus.log();
        let e = self.next_u8(bus);
        let offset = e as i8 as u16;
        proof {
            lemma_offset_byte(e);
        }
        let sp = self.regs.sp;
        let value = sp.wrapping_add(offset);
        self.regs.write16(Reg16::HL, value);
        self.regs.f = Flags {
            zero: false,
            add_subtract: false,
            half_carry: Self::test_add_carry_bit(3, sp, offset),
            carry: Self::test_add_carry_bit(7, sp, offset),
        };
        self.internal_cycle(bus);
        proof {
            let ops = seq![BusOp::Read(old(self).regs.pc, e), BusOp::Emulate];
            assert(bus.log() =~= l0 + ops);
            lemma_appended(l0, ops);
        }
    }

    /// PUSH rr
    ///
    /// Flags: Z N H C
    ///        - - - -
    #[verifier::rlimit(30)]
    pub fn push16<H: Bus>(&mut self, bus: &mut H, reg: Reg16)
        ensures
            extends(old(bus).log(), final(bus).log()),
            push16_spec(reg, *old(self), since(old(bus).log(), final(bus).log()), *final(self)),
    {
        let ghost l0 = bus.log();
        let value = self.regs.read16(reg);
        self.internal_cycle(bus);
        self.push_u16(bus, value);
        proof {
            let ops = seq![BusOp::Emulate] + push_ops(old(self).regs.sp, value);
            assert(bus.log() =~= l0 + ops);
            lemma_appended(l0, ops);
        }
    }

    /// POP rr
    ///
    /// Flags: Z N H C
    ///        - - - -
    /// Note! POP AF affects all flags
    #[verifier::rlimit(30)]
    pub fn pop16<H: Bus>(&mut self, bus: &mut H, reg: Reg16)
        ensures
            extends(old(bus).log(), final(bus).log()),
            pop16_spec(reg, *old(self), since(old(bus).log(), final(bus).log()), *final(self)),
    {
        let value = self.pop_u16(bus);
        self.regs.write16(reg, value);
    }

    /// ADD HL, ss
    ///
    /// Flags: Z N H C
    ///        - 0 * *
    #[verifier::rlimit(30)]
    pub fn add16<H: Bus>(&mut self, bus: &mut H, reg: Reg16)
        ensures
            extends(old(bus).log(), final(bus).log()),
            add16_spec(reg, *old(self), since(old(bus).log(), final(bus).log()), *final(self)),
    {
        let ghost l0 = bus.log();
        let hl = self.regs.read16(Reg16::HL);
        let value = self.regs.read16(reg);
        let result = hl.wrapping_add(value);
        self.regs.f = Flags {
            zero: self.regs.f.zero,
            add_subtract: false,
            half_carry: Self::test_add_carry_bit(11, hl, value),
            carry: hl > 0xffff - value,
        };
        self.regs.write16(Reg16::HL, result);
        self.internal_cycle(bus);
        proof {
            lemma_since_push(l0, BusOp::Emulate);
        }
    }

    /// ADD SP, e
    ///
    /// Flags: Z N H C
    ///        0 0 * *
    #[verifier::rlimit(30)]
    pub fn add16_sp_e<H: Bus>(&mut self, bus: &mut H)
        ensures
            extends(old(bus).log(), final(bus).log()),
            add16_sp_e_spec(*old(self), since(old(bus).log(), final(bus).log()), *final(self)),
    {
        let ghost l0 = bus.log();
        let e = self.next_u8(bus);
        let val = e as i8 as i16 as u16;
        proof {
            lemma_offset_byte(e);
        }
        let sp = self.regs.sp;
        self.regs.sp = sp.wrapping_add(val);
        self.regs.f = Flags {
            zero: false,
            add_subtract: false,
            half_carry: Self::test_add_carry_bit(3, sp, val),
            carry: Self::test_add_carry_bit(7, sp, val),
        };
        self.internal_cycle(bus);
        self.internal_cycle(bus);
        proof {
            let ops = seq![BusOp::Read(old(self).regs.pc, e), BusOp::Emulate, BusOp::Emulate];
            assert(bus.log() =~= l0 + ops);
            lemma_appended(l0, ops);
        }
    }

    /// INC rr
    ///
    /// Flags: Z N H C
    ///        - - - -
    #[verifier::rlimit(30)]
    pub fn inc16<H: Bus>(&mut self, bus: &mut H, reg: Reg16)
        ensures
            extends(old(bus).log(), final(bus).log()),
            step16_spec(reg, true, *old(self), since(old(bus).log(), final(bus).log()), *final(self)),
    {
        let ghost l0 = bus.log();
        let value = self.regs.read16(reg).wrapping_add(1);
        self.regs.write16(reg, value);
        self.internal_cycle(bus);
        proof {
            lemma_since_push(l0, BusOp::Emulate);
        }
    }

    /// DEC rr
    ///
    /// Flags: Z N H C
    ///        - - - -
    #[verifier::rlimit(30)]
    pub fn dec16<H: Bus>(&mut self, bus: &mut H, reg: Reg16)
        ensures
            extends(old(bus).log(), final(bus).log()),
            step16_spec(reg, false, *old(self), since(old(bus).log(), final(bus).log()), *final(self)),
    {
        let ghost l0 = bus.log();
        let value = self.regs.read16(reg).wrapping_sub(1);
        self.regs.write16(reg, value);
        self.internal_cycle(bus);
        proof {
            lemma_since_push(l0, BusOp::Emulate);
        }
    }

    /// An opcode that the processor does not define: refused.
    pub fn undefined(&self, op: u8) -> (r: Result<(), CpuError>)
        ensures
            r == Err::<(), CpuError>(CpuError::UndefinedOpcode(op)),
    {
        Err(CpuError::UndefinedOpcode(op))
    }

    /// The opcode that test programs use as a breakpoint: raises the debug event.
    #[verifier::rlimit(30)]
    pub fn undefined_debug<H: Bus>(&self, bus: &mut H)
        ensures
            final(bus).log() == old(bus).log().push(BusOp::EmuEvents(EE_DEBUG_OP)),
    {
        bus.trigger_emu_events(EE_DEBUG_OP);
    }

    #[verifier::rlimit(30)]
    fn exec_alu<H: Bus>(&mut self, bus: &mut H, op: AluOp, s: Operand8)
        ensures
            extends(old(bus).log(), final(bus).log()),
            alu_spec(op, *old(self), s, since(old(bus).log(), final(bus).log()), *final(self)),
    {
        match op {
            AluOp::Add => self.add(bus, s),
            AluOp::Adc => self.adc(bus, s),
            AluOp::Sub => self.sub(bus, s),
            AluOp::Sbc => self.sbc(bus, s),
            AluOp::And => self.and(bus, s),
            AluOp::Xor => self.xor(bus, s),
            AluOp::Or => self.or(bus, s),
            AluOp::Cp => self.cp(bus, s),
        }
    }

    #[verifier::rlimit(30)]
    fn exec_rmw<H: Bus>(&mut self, bus: &mut H, op: RmwOp, o: Operand8)
        requires
            instr_wf(Instr::Rmw(op, o)),
        ensures
            extends(old(bus).log(), final(bus).log()),
            rmw_spec(op, *old(self), o, o, since(old(bus).log(), final(bus).log()), *final(self)),
    {
        match op {
            RmwOp::Inc => self.inc(bus, o),
            RmwOp::Dec => self.dec(bus, o),
            RmwOp::Rlc => self.rlc(bus, o),
            RmwOp::Rl => self.rl(bus, o),
            RmwOp::Rrc => self.rrc(bus, o),
            RmwOp::Rr => self.rr(bus, o),
            RmwOp::Sla => self.sla(bus, o),
            RmwOp::Sra => self.sra(bus, o),
            RmwOp::Srl => self.srl(bus, o),
            RmwOp::Swap => self.swap(bus, o),
            RmwOp::SetBit(b) => self.set(bus, b as usize, o),
            RmwOp::ResBit(b) => self.res(bus, b as usize, o),
        }
    }

    fn exec_acc(&mut self, op: AccOp)
        ensures
            acc_spec(op, *old(self), Seq::empty(), *final(self)),
    {
        match op {
            AccOp::Rlca => self.rlca(),
            AccOp::Rla => self.rla(),
            AccOp::Rrca => self.rrca(),
            AccOp::Rra => self.rra(),
            AccOp::Daa => self.daa(),
            AccOp::Cpl => self.cpl(),
            AccOp::Ccf => self.ccf(),
            AccOp::Scf => self.scf(),
        }
    }

    /// Performs an instruction other than `STOP`, an undefined opcode or the CB prefix.
    #[verifier::rlimit(30)]
    pub fn exec_op<H: Bus>(&mut self, bus: &mut H, instr: Instr)
        requires
            instr_wf(instr),
            !(instr is Stop),
            !(instr is Undefined),
            !(instr is CbPrefix),
        ensures
            extends(old(bus).log(), final(bus).log()),
            op_spec(instr, *old(self), since(old(bus).log(), final(bus).log()), *final(self)),
    {
        match instr {
            Instr::Jp | Instr::Jr | Instr::Call | Instr::Ret | Instr::Reti | Instr::JpCc(_)
            | Instr::JrCc(_) | Instr::CallCc(_) | Instr::RetCc(_) | Instr::Rst(_) => {
                self.exec_control(bus, instr)
            },
            Instr::Load16Imm(_) | Instr::Load16NnSp | Instr::Load16SpHl | Instr::Load16HlSpE
            | Instr::Push16(_) | Instr::Pop16(_) | Instr::Add16(_) | Instr::Add16SpE
            | Instr::Inc16(_) | Instr::Dec16(_) => self.exec_wide(bus, instr),
            _ => self.exec_basic(bus, instr),
        }
    }

    #[verifier::rlimit(30)]
    fn exec_basic<H: Bus>(&mut self, bus: &mut H, instr: Instr)
        requires
            instr_wf(instr),
            instr is Nop || instr is Halt || instr is Di || instr is Ei || instr is Load
                || instr is Alu || instr is Rmw || instr is Bit || instr is Acc || instr is JpHl
                || instr is UndefinedDebug,
        ensures
            extends(old(bus).log(), final(bus).log()),
            op_spec(instr, *old(self), since(old(bus).log(), final(bus).log()), *final(self)),
    {
        reveal(op_spec);
        let ghost l0 = bus.log();
        proof {
            lemma_since_refl(l0);
        }
        match instr {
            Instr::Nop => self.nop(),
            Instr::Halt => self.halt(),
            Instr::Di => self.di(),
            Instr::Ei => self.ei(),
            Instr::Load(d, s) => self.load(bus, d, s),
            Instr::Alu(op, s) => self.exec_alu(bus, op, s),
            Instr::Rmw(op, o) => self.exec_rmw(bus, op, o),
            Instr::Bit(b, s) => self.bit(bus, b as usize, s),
            Instr::Acc(op) => self.exec_acc(op),
            Instr::JpHl => self.jp_hl(),
            Instr::UndefinedDebug => {
                self.undefined_debug(bus);
                proof {
                    lemma_since_push(l0, BusOp::EmuEvents(EE_DEBUG_OP));
                }
            },
            _ => {},
        }
    }

    #[verifier::rlimit(30)]
    fn exec_control<H: Bus>(&mut self, bus: &mut H, instr: Instr)
        requires
            instr is Jp || instr is Jr || instr is Call || instr is Ret || instr is Reti
                || instr is JpCc || instr is JrCc || instr is CallCc || instr is RetCc
                || instr is Rst,
        ensures
            extends(old(bus).log(), final(bus).log()),
            op_spec(instr, *old(self), since(old(bus).log(), final(bus).log()), *final(self)),
    {
        reveal(op_spec);
        match instr {
            Instr::Jp => self.jp(bus),
            Instr::Jr => self.jr(bus),
            Instr::Call => self.call(bus),
            Instr::Ret => self.ret(bus),
            Instr::Reti => self.reti(bus),
            Instr::JpCc(cond) => self.jp_cc(bus, cond),
            Instr::JrCc(cond) => self.jr_cc(bus, cond),
            Instr::CallCc(cond) => self.call_cc(bus, cond),
            Instr::RetCc(cond) => self.ret_cc(bus, cond),
            Instr::Rst(n) => self.rst(bus, n),
            _ => {},
        }
    }

    #[verifier::rlimit(30)]
    fn exec_wide<H: Bus>(&mut self, bus: &mut H, instr: Instr)
        requires
            instr is Load16Imm || instr is Load16NnSp || instr is Load16SpHl
                || instr is Load16HlSpE || instr is Push16 || instr is Pop16 || instr is Add16
                || instr is Add16SpE || instr is Inc16 || instr is Dec16,
        ensures
            extends(old(bus).log(), final(bus).log()),
            op_spec(instr, *old(self), since(old(bus).log(), final(bus).log()), *final(self)),
    {
        reveal(op_spec);
        match instr {
            Instr::Load16Imm(r) => self.load16_imm(bus, r),
            Instr::Load16NnSp => self.load16_nn_sp(bus),
            Instr::Load16SpHl => self.load16_sp_hl(bus),
            Instr::Load16HlSpE => self.load16_hl_sp_e(bus),
            Instr::Push16(r) => self.push16(bus, r),
            Instr::Pop16(r) => self.pop16(bus, r),
            Instr::Add16(r) => self.add16(bus, r),
            Instr::Add16SpE => self.add16_sp_e(bus),
            Instr::Inc16(r) => self.inc16(bus, r),
            Instr::Dec16(r) => self.dec16(bus, r),
            _ => {},
        }
    }

    /// The CB prefix: read the next opcode and perform the instruction it names.
    #[verifier::rlimit(30)]
    pub fn cb_prefix<H: Bus>(&mut self, bus: &mut H)
        ensures
            extends(old(bus).log(), final(bus).log()),
            instr_spec(Instr::CbPrefix, *old(self), since(old(bus).log(), final(bus).log()), *final(self), Ok(())),
    {
        let ghost l0 = bus.log();
        let op = self.next_u8(bus);
        let ghost l1 = bus.log();
        let instr = decode_cb(op);
        assert(instr_wf(instr));
        self.exec_op(bus, instr);
        proof {
            lemma_since_push(l0, BusOp::Read(old(self).regs.pc, op));
            lemma_split_since(l0, l1, bus.log());
            let ops = since(l0, bus.log());
            assert(ops.subrange(0, 1)[0] == ops[0]);
            assert(op_value(ops[0]) == op);
        }
    }

    /// Performs a decoded instruction; `STOP` and undefined opcodes are refused.
    #[verifier::rlimit(30)]
    pub fn exec_instr<H: Bus>(&mut self, bus: &mut H, instr: Instr) -> (r: Result<(), CpuError>)
        requires
            instr_wf(instr),
        ensures
            extends(old(bus).log(), final(bus).log()),
            instr_spec(instr, *old(self), since(old(bus).log(), final(bus).log()), *final(self), r),
    {
        proof {
            lemma_since_refl(bus.log());
        }
        match instr {
            Instr::Stop => self.stop(),
            Instr::Undefined(op) => self.undefined(op),
            Instr::CbPrefix => {
                self.cb_prefix(bus);
                Ok(())
            },
            _ => {
                self.exec_op(bus, instr);
                Ok(())
            },
        }
    }
}

} // verus!
