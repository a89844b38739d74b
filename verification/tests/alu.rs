use mooneye_gb::cpu::Cpu;
use mooneye_gb::ram::RamBus;

fn machine(program: &[u8]) -> (Cpu, RamBus) {
    let mut bus = RamBus::new();
    bus.load(0x0100, &program.to_vec());
    let mut cpu = Cpu::new();
    cpu.regs.pc = 0x0100;
    cpu.regs.sp = 0xfffe;
    cpu.ime = false;
    (cpu, bus)
}

fn run(program: &[u8], steps: usize) -> (Cpu, RamBus) {
    let (mut cpu, mut bus) = machine(program);
    for _ in 0..steps {
        assert_eq!(cpu.execute(&mut bus), Ok(()));
    }
    (cpu, bus)
}

#[test]
fn add_sets_zero_half_carry_and_carry() {
    // LD A,0x3A; ADD A,0xC6
    let (cpu, _) = run(&[0x3e, 0x3a, 0xc6, 0xc6], 2);
    assert_eq!(cpu.regs.a, 0x00);
    assert_eq!(cpu.regs.f.bits(), 0xb0);
    assert_eq!(cpu.regs.pc, 0x0104);
}

#[test]
fn add_from_register_and_memory() {
    // LD HL,0xC000; LD (HL),0x12; LD A,0x01; LD B,0x02; ADD A,B; ADD A,(HL)
    let (cpu, _) = run(&[0x21, 0x00, 0xc0, 0x36, 0x12, 0x3e, 0x01, 0x06, 0x02, 0x80, 0x86], 6);
    assert_eq!(cpu.regs.a, 0x15);
    assert_eq!(cpu.regs.f.bits(), 0x00);
}

#[test]
fn adc_adds_the_carry() {
    // LD A,0xE1; SCF; ADC A,0x0F
    let (cpu, _) = run(&[0x3e, 0xe1, 0x37, 0xce, 0x0f], 3);
    assert_eq!(cpu.regs.a, 0xf1);
    assert_eq!(cpu.regs.f.bits(), 0x20);
}

#[test]
fn sub_with_borrow_sets_carry() {
    // LD A,0x3E; SUB 0x40
    let (cpu, _) = run(&[0x3e, 0x3e, 0xd6, 0x40], 2);
    assert_eq!(cpu.regs.a, 0xfe);
    assert_eq!(cpu.regs.f.bits(), 0x50);
}

#[test]
fn sub_to_zero() {
    // LD A,0x3E; SUB A
    let (cpu, _) = run(&[0x3e, 0x3e, 0x97], 2);
    assert_eq!(cpu.regs.a, 0x00);
    assert_eq!(cpu.regs.f.bits(), 0xc0);
}

#[test]
fn sbc_subtracts_the_carry() {
    // LD A,0x3B; SCF; SBC A,0x2A
    let (cpu, _) = run(&[0x3e, 0x3b, 0x37, 0xde, 0x2a], 3);
    assert_eq!(cpu.regs.a, 0x10);
    assert_eq!(cpu.regs.f.bits(), 0x40);
}

#[test]
fn cp_sets_flags_and_keeps_a() {
    // LD A,0x3C; CP 0x2F
    let (cpu, _) = run(&[0x3e, 0x3c, 0xfe, 0x2f], 2);
    assert_eq!(cpu.regs.a, 0x3c);
    assert_eq!(cpu.regs.f.bits(), 0x60);
    // LD A,0x3C; SUB 0x2F gives the same flags
    let (cpu2, _) = run(&[0x3e, 0x3c, 0xd6, 0x2f], 2);
    assert_eq!(cpu2.regs.f, cpu.regs.f);
    assert_eq!(cpu2.regs.a, 0x0d);
}

#[test]
fn and_or_xor() {
    // LD A,0x5A; AND 0x3F
    let (cpu, _) = run(&[0x3e, 0x5a, 0xe6, 0x3f], 2);
    assert_eq!(cpu.regs.a, 0x1a);
    assert_eq!(cpu.regs.f.bits(), 0x20);
    // LD A,0x5A; OR 0x0F
    let (cpu, _) = run(&[0x3e, 0x5a, 0xf6, 0x0f], 2);
    assert_eq!(cpu.regs.a, 0x5f);
    assert_eq!(cpu.regs.f.bits(), 0x00);
    // LD A,0x5A; XOR A
    let (cpu, _) = run(&[0x3e, 0x5a, 0xaf], 2);
    assert_eq!(cpu.regs.a, 0x00);
    assert_eq!(cpu.regs.f.bits(), 0x80);
}

#[test]
fn inc_and_dec_flags() {
    // LD B,0x0F; INC B
    let (cpu, _) = run(&[0x06, 0x0f, 0x04], 2);
    assert_eq!(cpu.regs.b, 0x10);
    assert_eq!(cpu.regs.f.bits(), 0x20);
    // LD B,0x10; DEC B
    let (cpu, _) = run(&[0x06, 0x10, 0x05], 2);
    assert_eq!(cpu.regs.b, 0x0f);
    assert_eq!(cpu.regs.f.bits(), 0x60);
    // LD B,0x01; SCF; DEC B: zero, and the carry is kept
    let (cpu, _) = run(&[0x06, 0x01, 0x37, 0x05], 3);
    assert_eq!(cpu.regs.b, 0x00);
    assert_eq!(cpu.regs.f.bits(), 0xd0);
}

#[test]
fn inc_then_dec_gives_the_value_back() {
    for v in 0..=255u8 {
        // LD C,v; INC C; DEC C
        let (cpu, _) = run(&[0x0e, v, 0x0c, 0x0d], 3);
        assert_eq!(cpu.regs.c, v);
    }
}

#[test]
fn inc_of_memory_wraps() {
    // LD HL,0xC000; LD (HL),0xFF; INC (HL)
    let (cpu, bus) = run(&[0x21, 0x00, 0xc0, 0x36, 0xff, 0x34], 3);
    assert_eq!(bus.peek(0xc000), 0x00);
    assert_eq!(cpu.regs.f.bits(), 0xa0);
}

#[test]
fn daa_after_addition() {
    // LD A,0x45; ADD A,0x38; DAA
    let (cpu, _) = run(&[0x3e, 0x45, 0xc6, 0x38, 0x27], 3);
    assert_eq!(cpu.regs.a, 0x83);
    assert_eq!(cpu.regs.f.bits(), 0x00);
    // LD A,0x99; ADD A,0x01; DAA
    let (cpu, _) = run(&[0x3e, 0x99, 0xc6, 0x01, 0x27], 3);
    assert_eq!(cpu.regs.a, 0x00);
    assert_eq!(cpu.regs.f.bits(), 0x90);
}

#[test]
fn daa_after_subtraction() {
    // LD A,0x10; SUB 0x01; DAA
    let (cpu, _) = run(&[0x3e, 0x10, 0xd6, 0x01, 0x27], 3);
    assert_eq!(cpu.regs.a, 0x09);
    assert_eq!(cpu.regs.f.bits(), 0x40);
    // LD A,0x00; SUB 0x01; DAA: 0 - 1 = 99, borrow
    let (cpu, _) = run(&[0x3e, 0x00, 0xd6, 0x01, 0x27], 3);
    assert_eq!(cpu.regs.a, 0x99);
    assert_eq!(cpu.regs.f.bits(), 0x50);
}

fn bcd(n: u32) -> u8 {
    (((n / 10) << 4) | (n % 10)) as u8
}

#[test]
fn daa_gives_decimal_sums_and_differences() {
    for x in 0..100u32 {
        for y in (0..100u32).step_by(7) {
            // LD A,x; ADD A,y; DAA
            let (cpu, _) = run(&[0x3e, bcd(x), 0xc6, bcd(y), 0x27], 3);
            assert_eq!(cpu.regs.a, bcd((x + y) % 100));
            assert_eq!(cpu.regs.f.carry, x + y >= 100);
            // LD A,x; SUB y; DAA
            let (cpu, _) = run(&[0x3e, bcd(x), 0xd6, bcd(y), 0x27], 3);
            assert_eq!(cpu.regs.a, bcd((x + 100 - y) % 100));
            assert_eq!(cpu.regs.f.carry, x < y);
        }
    }
}

#[test]
fn accumulator_rotations() {
    // LD A,0x85; RLCA
    let (cpu, _) = run(&[0x3e, 0x85, 0x07], 2);
    assert_eq!(cpu.regs.a, 0x0b);
    assert_eq!(cpu.regs.f.bits(), 0x10);
    // LD A,0x80; SCF; RLA
    let (cpu, _) = run(&[0x3e, 0x80, 0x37, 0x17], 3);
    assert_eq!(cpu.regs.a, 0x01);
    assert_eq!(cpu.regs.f.bits(), 0x10);
    // LD A,0x01; RRCA
    let (cpu, _) = run(&[0x3e, 0x01, 0x0f], 2);
    assert_eq!(cpu.regs.a, 0x80);
    assert_eq!(cpu.regs.f.bits(), 0x10);
    // LD A,0x01; AND A; RRA: the result is zero but Z stays clear
    let (cpu, _) = run(&[0x3e, 0x01, 0xa7, 0x1f], 3);
    assert_eq!(cpu.regs.a, 0x00);
    assert_eq!(cpu.regs.f.bits(), 0x10);
}

#[test]
fn cb_rotations_and_shifts() {
    // LD B,0x85; RLC B
    let (cpu, _) = run(&[0x06, 0x85, 0xcb, 0x00], 2);
    assert_eq!(cpu.regs.b, 0x0b);
    assert_eq!(cpu.regs.f.bits(), 0x10);
    // LD A,0xF0; SWAP A
    let (cpu, _) = run(&[0x3e, 0xf0, 0xcb, 0x37], 2);
    assert_eq!(cpu.regs.a, 0x0f);
    assert_eq!(cpu.regs.f.bits(), 0x00);
    // LD A,0x8A; SRA A
    let (cpu, _) = run(&[0x3e, 0x8a, 0xcb, 0x2f], 2);
    assert_eq!(cpu.regs.a, 0xc5);
    assert_eq!(cpu.regs.f.bits(), 0x00);
    // LD A,0x01; SRL A
    let (cpu, _) = run(&[0x3e, 0x01, 0xcb, 0x3f], 2);
    assert_eq!(cpu.regs.a, 0x00);
    assert_eq!(cpu.regs.f.bits(), 0x90);
    // LD A,0x80; SLA A
    let (cpu, _) = run(&[0x3e, 0x80, 0xcb, 0x27], 2);
    assert_eq!(cpu.regs.a, 0x00);
    assert_eq!(cpu.regs.f.bits(), 0x90);
    // LD L,0x01; SCF; RR L
    let (cpu, _) = run(&[0x2e, 0x01, 0x37, 0xcb, 0x1d], 3);
    assert_eq!(cpu.regs.l, 0x80);
    assert_eq!(cpu.regs.f.bits(), 0x10);
}

#[test]
fn rotations_invert() {
    for v in 0..=255u8 {
        // LD D,v; RLC D; RRC D
        let (cpu, _) = run(&[0x16, v, 0xcb, 0x02, 0xcb, 0x0a], 3);
        assert_eq!(cpu.regs.d, v);
        // LD D,v; RL D; RR D (the carry out of RL goes back in)
        let (cpu, _) = run(&[0x16, v, 0xcb, 0x12, 0xcb, 0x1a], 3);
        assert_eq!(cpu.regs.d, v);
        // LD D,v; SWAP D; SWAP D
        let (cpu, _) = run(&[0x16, v, 0xcb, 0x32, 0xcb, 0x32], 3);
        assert_eq!(cpu.regs.d, v);
    }
}

#[test]
fn set_res_and_bit() {
    // LD A,0x00; SET 0,A; BIT 0,A; RES 0,A; BIT 0,A
    let (cpu, _) = run(&[0x3e, 0x00, 0xcb, 0xc7, 0xcb, 0x47], 3);
    assert_eq!(cpu.regs.a, 0x01);
    assert_eq!(cpu.regs.f.bits(), 0x20);
    let (cpu, _) = run(&[0x3e, 0xff, 0xcb, 0x87, 0xcb, 0x47], 3);
    assert_eq!(cpu.regs.a, 0xfe);
    assert_eq!(cpu.regs.f.bits(), 0xa0);
    // LD HL,0xC000; SET 7,(HL); BIT 7,(HL)
    let (cpu, bus) = run(&[0x21, 0x00, 0xc0, 0xcb, 0xfe, 0xcb, 0x7e], 3);
    assert_eq!(bus.peek(0xc000), 0x80);
    assert!(!cpu.regs.f.zero);
}

#[test]
fn cpl_ccf_scf() {
    // LD A,0x35; CPL
    let (cpu, _) = run(&[0x3e, 0x35, 0x2f], 2);
    assert_eq!(cpu.regs.a, 0xca);
    assert_eq!(cpu.regs.f.bits(), 0x60);
    // CPL twice gives A back
    let (cpu, _) = run(&[0x3e, 0x35, 0x2f, 0x2f], 3);
    assert_eq!(cpu.regs.a, 0x35);
    // SCF; CCF
    let (cpu, _) = run(&[0x37], 1);
    assert_eq!(cpu.regs.f.bits(), 0x10);
    let (cpu, _) = run(&[0x37, 0x3f], 2);
    assert_eq!(cpu.regs.f.bits(), 0x00);
}

#[test]
fn sixteen_bit_arithmetic() {
    // XOR A; LD HL,0x0FFF; LD BC,0x0001; ADD HL,BC
    let (cpu, _) = run(&[0xaf, 0x21, 0xff, 0x0f, 0x01, 0x01, 0x00, 0x09], 4);
    assert_eq!(cpu.regs.read16(mooneye_gb::registers::Reg16::HL), 0x1000);
    assert_eq!(cpu.regs.f.bits(), 0xa0);
    // LD HL,0xFFFF; ADD HL,HL
    let (cpu, _) = run(&[0x21, 0xff, 0xff, 0x29], 2);
    assert_eq!(cpu.regs.read16(mooneye_gb::registers::Reg16::HL), 0xfffe);
    assert_eq!(cpu.regs.f.bits(), 0x30);
    // LD BC,0xFFFF; INC BC
    let (cpu, _) = run(&[0x01, 0xff, 0xff, 0x03], 2);
    assert_eq!(cpu.regs.read16(mooneye_gb::registers::Reg16::BC), 0x0000);
    // LD DE,0x0000; DEC DE
    let (cpu, _) = run(&[0x11, 0x00, 0x00, 0x1b], 2);
    assert_eq!(cpu.regs.read16(mooneye_gb::registers::Reg16::DE), 0xffff);
}

#[test]
fn stack_pointer_offsets() {
    // LD SP,0xFFF8; LD HL,SP+2
    let (cpu, _) = run(&[0x31, 0xf8, 0xff, 0xf8, 0x02], 2);
    assert_eq!(cpu.regs.read16(mooneye_gb::registers::Reg16::HL), 0xfffa);
    assert_eq!(cpu.regs.f.bits(), 0x00);
    // LD SP,0x0001; LD HL,SP-1
    let (cpu, _) = run(&[0x31, 0x01, 0x00, 0xf8, 0xff], 2);
    assert_eq!(cpu.regs.read16(mooneye_gb::registers::Reg16::HL), 0x0000);
    assert_eq!(cpu.regs.f.bits(), 0x30);
    // LD SP,0x0FFF; ADD SP,1
    let (cpu, bus) = run(&[0x31, 0xff, 0x0f, 0xe8, 0x01], 2);
    assert_eq!(cpu.regs.sp, 0x1000);
    assert_eq!(cpu.regs.f.bits(), 0x30);
    assert_eq!(bus.cycles(), 2);
    // LD SP,0x1000; ADD SP,-16
    let (cpu, _) = run(&[0x31, 0x00, 0x10, 0xe8, 0xf0], 2);
    assert_eq!(cpu.regs.sp, 0x0ff0);
    assert_eq!(cpu.regs.f.bits(), 0x00);
}
