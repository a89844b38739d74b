use mooneye_gb::bus::{EE_DEBUG_OP, Interrupt};
use mooneye_gb::cpu::{Cond, Cpu, CpuError, ImeChange};
use mooneye_gb::ram::RamBus;
use mooneye_gb::registers::{Flags, Reg16};

fn machine(program: &[u8]) -> (Cpu, RamBus) {
    let mut bus = RamBus::new();
    bus.load(0x0100, &program.to_vec());
    let mut cpu = Cpu::new();
    cpu.regs.pc = 0x0100;
    cpu.regs.sp = 0xfffe;
    cpu.ime = false;
    (cpu, bus)
}

fn steps(cpu: &mut Cpu, bus: &mut RamBus, n: usize) {
    for _ in 0..n {
        assert_eq!(cpu.execute(bus), Ok(()));
    }
}

#[test]
fn jp_jumps() {
    let (mut cpu, mut bus) = machine(&[0xc3, 0x00, 0x02]);
    steps(&mut cpu, &mut bus, 1);
    assert_eq!(cpu.regs.pc, 0x0200);
    assert_eq!(bus.cycles(), 1);
}

#[test]
fn jp_hl_jumps_without_a_cycle() {
    // LD HL,0x1234; JP HL
    let (mut cpu, mut bus) = machine(&[0x21, 0x34, 0x12, 0xe9]);
    steps(&mut cpu, &mut bus, 2);
    assert_eq!(cpu.regs.pc, 0x1234);
    assert_eq!(bus.cycles(), 0);
}

#[test]
fn jr_jumps_backwards() {
    // JR -2: back onto itself
    let (mut cpu, mut bus) = machine(&[0x18, 0xfe]);
    steps(&mut cpu, &mut bus, 1);
    assert_eq!(cpu.regs.pc, 0x0100);
    // JR +3
    let (mut cpu, mut bus) = machine(&[0x18, 0x03]);
    steps(&mut cpu, &mut bus, 1);
    assert_eq!(cpu.regs.pc, 0x0105);
}

#[test]
fn conditional_jumps() {
    // XOR A (sets Z); JR NZ,+5 (not taken); JR Z,+5 (taken)
    let (mut cpu, mut bus) = machine(&[0xaf, 0x20, 0x05, 0x28, 0x05]);
    steps(&mut cpu, &mut bus, 2);
    assert_eq!(cpu.regs.pc, 0x0103);
    assert_eq!(bus.cycles(), 0);
    steps(&mut cpu, &mut bus, 1);
    assert_eq!(cpu.regs.pc, 0x010a);
    assert_eq!(bus.cycles(), 1);
    // SCF; JP NC,0x0200 (not taken); JP C,0x0300 (taken)
    let (mut cpu, mut bus) = machine(&[0x37, 0xd2, 0x00, 0x02, 0xda, 0x00, 0x03]);
    steps(&mut cpu, &mut bus, 2);
    assert_eq!(cpu.regs.pc, 0x0104);
    steps(&mut cpu, &mut bus, 1);
    assert_eq!(cpu.regs.pc, 0x0300);
}

#[test]
fn cond_check() {
    let z = Flags { zero: true, add_subtract: false, half_carry: false, carry: false };
    let c = Flags { zero: false, add_subtract: false, half_carry: false, carry: true };
    assert!(Cond::Z.check(z));
    assert!(!Cond::NZ.check(z));
    assert!(Cond::NC.check(z));
    assert!(Cond::C.check(c));
    assert!(!Cond::NC.check(c));
    assert!(Cond::NZ.check(c));
}

#[test]
fn call_then_ret_returns_after_the_call() {
    let (mut cpu, mut bus) = machine(&[0xcd, 0x00, 0x02]);
    bus.poke(0x0200, 0xc9);
    steps(&mut cpu, &mut bus, 1);
    assert_eq!(cpu.regs.pc, 0x0200);
    assert_eq!(cpu.regs.sp, 0xfffc);
    assert_eq!(bus.peek(0xfffd), 0x01);
    assert_eq!(bus.peek(0xfffc), 0x03);
    steps(&mut cpu, &mut bus, 1);
    assert_eq!(cpu.regs.pc, 0x0103);
    assert_eq!(cpu.regs.sp, 0xfffe);
}

#[test]
fn conditional_call_and_return() {
    // OR 0x01 (clears Z and C); CALL Z,0x0200 (not taken); CALL NZ,0x0200 (taken)
    let (mut cpu, mut bus) = machine(&[0xf6, 0x01, 0xcc, 0x00, 0x02, 0xc4, 0x00, 0x02]);
    // at 0x0200: RET C (not taken); RET NC (taken)
    bus.poke(0x0200, 0xd8);
    bus.poke(0x0201, 0xd0);
    steps(&mut cpu, &mut bus, 2);
    assert_eq!(cpu.regs.pc, 0x0105);
    assert_eq!(cpu.regs.sp, 0xfffe);
    steps(&mut cpu, &mut bus, 1);
    assert_eq!(cpu.regs.pc, 0x0200);
    assert_eq!(cpu.regs.sp, 0xfffc);
    steps(&mut cpu, &mut bus, 1);
    assert_eq!(cpu.regs.pc, 0x0201);
    steps(&mut cpu, &mut bus, 1);
    assert_eq!(cpu.regs.pc, 0x0108);
    assert_eq!(cpu.regs.sp, 0xfffe);
}

#[test]
fn rst_pushes_and_jumps() {
    let (mut cpu, mut bus) = machine(&[0xff]);
    steps(&mut cpu, &mut bus, 1);
    assert_eq!(cpu.regs.pc, 0x0038);
    assert_eq!(cpu.regs.sp, 0xfffc);
    assert_eq!(bus.peek(0xfffd), 0x01);
    assert_eq!(bus.peek(0xfffc), 0x01);
}

#[test]
fn push_then_pop_is_a_copy() {
    // LD BC,0x1234; PUSH BC; POP DE
    let (mut cpu, mut bus) = machine(&[0x01, 0x34, 0x12, 0xc5, 0xd1]);
    steps(&mut cpu, &mut bus, 3);
    assert_eq!(cpu.regs.read16(Reg16::DE), 0x1234);
    assert_eq!(cpu.regs.sp, 0xfffe);
}

#[test]
fn pop_af_masks_the_flags() {
    // LD BC,0x12FF; PUSH BC; POP AF
    let (mut cpu, mut bus) = machine(&[0x01, 0xff, 0x12, 0xc5, 0xf1]);
    steps(&mut cpu, &mut bus, 3);
    assert_eq!(cpu.regs.a, 0x12);
    assert_eq!(cpu.regs.read16(Reg16::AF), 0x12f0);
    assert_eq!(cpu.regs.f, Flags { zero: true, add_subtract: true, half_carry: true, carry: true });
}

#[test]
fn store_stack_pointer() {
    // LD SP,0xABCD; LD (0xC000),SP
    let (mut cpu, mut bus) = machine(&[0x31, 0xcd, 0xab, 0x08, 0x00, 0xc0]);
    steps(&mut cpu, &mut bus, 2);
    assert_eq!(bus.peek(0xc000), 0xcd);
    assert_eq!(bus.peek(0xc001), 0xab);
    // LD HL,0x1234; LD SP,HL
    let (mut cpu, mut bus) = machine(&[0x21, 0x34, 0x12, 0xf9]);
    steps(&mut cpu, &mut bus, 2);
    assert_eq!(cpu.regs.sp, 0x1234);
}

#[test]
fn high_page_and_direct_loads() {
    // LD A,0x42; LDH (0x80),A; LD C,0x81; LD (C),A; LD A,0x00; LDH A,(0x80)
    let (mut cpu, mut bus) = machine(&[0x3e, 0x42, 0xe0, 0x80, 0x0e, 0x81, 0xe2, 0x3e, 0x00, 0xf0, 0x80]);
    steps(&mut cpu, &mut bus, 6);
    assert_eq!(bus.peek(0xff80), 0x42);
    assert_eq!(bus.peek(0xff81), 0x42);
    assert_eq!(cpu.regs.a, 0x42);
    // LD A,0x99; LD (0xC123),A; LD A,0; LD A,(0xC123)
    let (mut cpu, mut bus) = machine(&[0x3e, 0x99, 0xea, 0x23, 0xc1, 0x3e, 0x00, 0xfa, 0x23, 0xc1]);
    steps(&mut cpu, &mut bus, 4);
    assert_eq!(bus.peek(0xc123), 0x99);
    assert_eq!(cpu.regs.a, 0x99);
}

#[test]
fn increment_and_decrement_addressing() {
    // LD HL,0xC000; LD A,0x11; LD (HL+),A; LD (HL-),A
    let (mut cpu, mut bus) = machine(&[0x21, 0x00, 0xc0, 0x3e, 0x11, 0x22, 0x32]);
    steps(&mut cpu, &mut bus, 3);
    assert_eq!(bus.peek(0xc000), 0x11);
    assert_eq!(cpu.regs.read16(Reg16::HL), 0xc001);
    steps(&mut cpu, &mut bus, 1);
    assert_eq!(bus.peek(0xc001), 0x11);
    assert_eq!(cpu.regs.read16(Reg16::HL), 0xc000);
    // LD DE,0xC000; LD A,(DE)
    let (mut cpu, mut bus) = machine(&[0x11, 0x00, 0xc0, 0x1a]);
    bus.poke(0xc000, 0x77);
    steps(&mut cpu, &mut bus, 2);
    assert_eq!(cpu.regs.a, 0x77);
}

#[test]
fn halt_waits_for_an_interrupt_request() {
    // HALT; NOP
    let (mut cpu, mut bus) = machine(&[0x76, 0x00]);
    steps(&mut cpu, &mut bus, 1);
    assert!(cpu.halt);
    steps(&mut cpu, &mut bus, 3);
    assert!(cpu.halt);
    assert_eq!(cpu.regs.pc, 0x0101);
    assert_eq!(bus.cycles(), 3);
    bus.request_interrupt(Interrupt::TimerOverflow);
    steps(&mut cpu, &mut bus, 1);
    assert!(!cpu.halt);
    assert_eq!(bus.cycles(), 3);
    // interrupts are disabled: the next step runs the NOP
    steps(&mut cpu, &mut bus, 1);
    assert_eq!(cpu.regs.pc, 0x0102);
}

#[test]
fn interrupt_then_reti_resumes() {
    let (mut cpu, mut bus) = machine(&[0x00]);
    cpu.ime = true;
    bus.poke(0x0040, 0xd9);
    bus.request_interrupt(Interrupt::VBlank);
    steps(&mut cpu, &mut bus, 1);
    assert_eq!(cpu.regs.pc, 0x0100);
    assert_eq!(cpu.regs.sp, 0xfffe);
    assert!(cpu.ime);
    assert_eq!(bus.cycles(), 4);
}

#[test]
fn interrupt_dispatch_pushes_and_jumps() {
    let (mut cpu, mut bus) = machine(&[0x00]);
    cpu.ime = true;
    bus.request_interrupt(Interrupt::Joypad);
    steps(&mut cpu, &mut bus, 1);
    // the NOP at 0x60 ran
    assert_eq!(cpu.regs.pc, 0x0061);
    assert_eq!(cpu.regs.sp, 0xfffc);
    assert!(!cpu.ime);
    assert_eq!(bus.peek(0xfffd), 0x01);
    assert_eq!(bus.peek(0xfffc), 0x00);
    assert_eq!(bus.cycles(), 3);
}

#[test]
fn interrupt_vectors() {
    assert_eq!(Interrupt::VBlank.get_addr(), 0x40);
    assert_eq!(Interrupt::LcdStat.get_addr(), 0x48);
    assert_eq!(Interrupt::TimerOverflow.get_addr(), 0x50);
    assert_eq!(Interrupt::SerialIoDone.get_addr(), 0x58);
    assert_eq!(Interrupt::Joypad.get_addr(), 0x60);
}

#[test]
fn ei_takes_effect_after_the_next_instruction() {
    // EI; NOP; NOP
    let (mut cpu, mut bus) = machine(&[0xfb, 0x00, 0x00]);
    bus.request_interrupt(Interrupt::SerialIoDone);
    steps(&mut cpu, &mut bus, 1);
    assert_eq!(cpu.ime_change, ImeChange::Soon);
    steps(&mut cpu, &mut bus, 1);
    assert_eq!(cpu.regs.pc, 0x0102);
    assert!(!cpu.ime);
    steps(&mut cpu, &mut bus, 1);
    // the interrupt was taken, and the NOP at 0x58 ran
    assert_eq!(cpu.regs.pc, 0x0059);
    assert_eq!(bus.peek(0xfffc), 0x02);
}

#[test]
fn di_blocks_interrupts() {
    // DI; NOP
    let (mut cpu, mut bus) = machine(&[0xf3, 0x00]);
    cpu.ime = true;
    steps(&mut cpu, &mut bus, 1);
    bus.request_interrupt(Interrupt::VBlank);
    steps(&mut cpu, &mut bus, 1);
    assert_eq!(cpu.regs.pc, 0x0102);
    assert!(!cpu.ime);
}

#[test]
fn stop_is_refused() {
    let (mut cpu, mut bus) = machine(&[0x10]);
    assert_eq!(cpu.execute(&mut bus), Err(CpuError::Stop));
    assert_eq!(cpu.regs.pc, 0x0101);
}

#[test]
fn undefined_opcodes_are_refused() {
    for op in [0xd3u8, 0xdb, 0xdd, 0xe3, 0xe4, 0xeb, 0xec, 0xf4, 0xfc, 0xfd] {
        let (mut cpu, mut bus) = machine(&[op]);
        assert_eq!(cpu.execute(&mut bus), Err(CpuError::UndefinedOpcode(op)));
    }
}

#[test]
fn debug_opcode_raises_the_debug_event() {
    let (mut cpu, mut bus) = machine(&[0xed]);
    steps(&mut cpu, &mut bus, 1);
    assert_eq!(bus.events(), EE_DEBUG_OP);
    assert_eq!(cpu.regs.pc, 0x0101);
}

#[test]
fn program_counter_wraps_around() {
    let (mut cpu, mut bus) = machine(&[]);
    cpu.regs.pc = 0xffff;
    bus.poke(0xffff, 0x00);
    steps(&mut cpu, &mut bus, 1);
    assert_eq!(cpu.regs.pc, 0x0000);
}

#[test]
fn stack_pointer_wraps_around() {
    // LD BC,0xBEEF; PUSH BC
    let (mut cpu, mut bus) = machine(&[0x01, 0xef, 0xbe, 0xc5]);
    cpu.regs.sp = 0x0001;
    steps(&mut cpu, &mut bus, 2);
    assert_eq!(cpu.regs.sp, 0xffff);
    assert_eq!(bus.peek(0x0000), 0xbe);
    assert_eq!(bus.peek(0xffff), 0xef);
}

#[test]
fn di_blocks_until_ei_and_one_more_instruction() {
    // DI; NOP; NOP; EI; NOP; NOP
    let (mut cpu, mut bus) = machine(&[0xf3, 0x00, 0x00, 0xfb, 0x00, 0x00]);
    cpu.ime = true;
    bus.poke(0x0040, 0x00);
    steps(&mut cpu, &mut bus, 1);
    bus.request_interrupt(Interrupt::VBlank);
    // NOP, NOP, EI, NOP: no interrupt is taken
    steps(&mut cpu, &mut bus, 4);
    assert_eq!(cpu.regs.pc, 0x0105);
    assert_eq!(cpu.regs.sp, 0xfffe);
    // the step after EI's following instruction takes it
    steps(&mut cpu, &mut bus, 1);
    assert_eq!(cpu.regs.pc, 0x0041);
    assert_eq!(cpu.regs.sp, 0xfffc);
}

#[test]
fn reti_ends_the_block_of_di() {
    // DI; CALL 0x0200; NOP   with RETI at 0x0200
    let (mut cpu, mut bus) = machine(&[0xf3, 0xcd, 0x00, 0x02, 0x00]);
    bus.poke(0x0200, 0xd9);
    bus.poke(0x0048, 0x00);
    bus.request_interrupt(Interrupt::LcdStat);
    steps(&mut cpu, &mut bus, 3);
    assert_eq!(cpu.regs.pc, 0x0104);
    assert!(cpu.ime);
    // the next step takes the interrupt and runs the NOP at its vector
    steps(&mut cpu, &mut bus, 1);
    assert_eq!(cpu.regs.pc, 0x0049);
}
