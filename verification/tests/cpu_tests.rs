use rustyboy::cpu::Cpu;

/// A processor whose cartridge holds `program` at 0x100, where execution starts.
fn with_program(program: &[u8]) -> Cpu {
    let mut rom = vec![0u8; 0x200];
    rom[0x100..0x100 + program.len()].copy_from_slice(program);
    Cpu::new(&Vec::new(), &rom)
}

#[test]
fn new_cpu_state() {
    let cpu = with_program(&[]);
    assert_eq!(cpu.registers.pc, 0x100);
    assert!(!cpu.halted && !cpu.stopped && cpu.interrupts_enabled);
    assert_eq!(cpu.unknown_opcode, None);
}

#[test]
fn immediate_and_register_loads() {
    let mut cpu = with_program(&[0x06, 0x42, 0x78, 0x36, 0x99]);
    assert_eq!(cpu.cycle(), 2);
    assert_eq!(cpu.registers.b, 0x42);
    assert_eq!(cpu.cycle(), 1);
    assert_eq!(cpu.registers.a, 0x42);
    assert_eq!(cpu.registers.pc, 0x103);
    cpu.registers.set_hl(0xC000);
    assert_eq!(cpu.cycle(), 3);
    assert_eq!(cpu.memory.read_byte(0xC000), 0x99);
}

#[test]
fn add_sets_half_carry() {
    let mut cpu = with_program(&[0x3E, 0x0F, 0x06, 0x01, 0x80]);
    cpu.cycle();
    cpu.cycle();
    assert_eq!(cpu.cycle(), 1);
    assert_eq!(cpu.registers.a, 0x10);
    assert_eq!(cpu.registers.f, 0x20);
}

#[test]
fn add_to_zero_sets_zero_flag() {
    let mut cpu = with_program(&[0x3E, 0x00, 0xC6, 0x00]);
    cpu.cycle();
    assert_eq!(cpu.cycle(), 2);
    assert_eq!(cpu.registers.a, 0);
    assert!(cpu.registers.check_zero());
}

#[test]
fn xor_rows_swap_a_and_b() {
    // 0xAF xors with b, 0xA8 with a.
    let mut cpu = with_program(&[0x3E, 0x05, 0x06, 0x03, 0xAF, 0xA8]);
    cpu.cycle();
    cpu.cycle();
    cpu.cycle();
    assert_eq!(cpu.registers.a, 0x06);
    cpu.cycle();
    assert_eq!(cpu.registers.a, 0x00);
    assert!(cpu.registers.check_zero());
}

#[test]
fn subtract_and_compare() {
    let mut cpu = with_program(&[0x3E, 0x10, 0xD6, 0x01, 0xFE, 0x0F, 0xFE, 0x0E]);
    cpu.cycle();
    cpu.cycle();
    assert_eq!(cpu.registers.a, 0x0F);
    assert!(cpu.registers.check_halfcarry());
    assert!(cpu.registers.check_addsub());
    cpu.cycle();
    assert!(cpu.registers.check_zero());
    cpu.cycle();
    assert!(!cpu.registers.check_zero());
    assert_eq!(cpu.registers.a, 0x0F);
}

#[test]
fn cb_swap_and_bits() {
    let mut cpu = with_program(&[0x3E, 0xF1, 0xCB, 0x37, 0xCB, 0x47, 0xCB, 0x87, 0xCB, 0xFF]);
    cpu.cycle();
    assert_eq!(cpu.cycle(), 3);
    assert_eq!(cpu.registers.a, 0x1F);
    cpu.cycle();
    assert!(!cpu.registers.check_zero());
    assert!(cpu.registers.check_halfcarry());
    cpu.cycle();
    assert_eq!(cpu.registers.a, 0x1E);
    cpu.cycle();
    assert_eq!(cpu.registers.a, 0x9E);
}

#[test]
fn cb_on_memory_operand() {
    let mut cpu = with_program(&[0xCB, 0x3E, 0xCB, 0xC6]);
    cpu.registers.set_hl(0xC000);
    cpu.memory.write_byte(0xC000, 0x03);
    assert_eq!(cpu.cycle(), 5);
    assert_eq!(cpu.memory.read_byte(0xC000), 0x01);
    assert!(cpu.registers.check_carry());
    cpu.cycle();
    assert_eq!(cpu.memory.read_byte(0xC000), 0x01);
}

#[test]
fn push_and_pop() {
    let mut cpu = with_program(&[0x01, 0x34, 0x12, 0xC5, 0xD1]);
    assert_eq!(cpu.cycle(), 3);
    assert_eq!(cpu.registers.bc(), 0x1234);
    assert_eq!(cpu.cycle(), 4);
    assert_eq!(cpu.registers.sp, 0xFFFC);
    assert_eq!(cpu.memory.read_word(0xFFFC), 0x1234);
    assert_eq!(cpu.cycle(), 3);
    assert_eq!(cpu.registers.sp, 0xFFFE);
    // The pop gives back the pushed word.
    assert_eq!(cpu.registers.de(), 0x1234);
}

#[test]
fn jumps_and_calls() {
    let mut cpu = with_program(&[0x18, 0x05]);
    cpu.cycle();
    assert_eq!(cpu.registers.pc, 0x107);

    let mut cpu = with_program(&[0xCD, 0x00, 0x02]);
    assert_eq!(cpu.cycle(), 3);
    assert_eq!(cpu.registers.pc, 0x0200);
    assert_eq!(cpu.registers.sp, 0xFFFC);
    // The address of the next instruction is pushed.
    assert_eq!(cpu.memory.read_word(0xFFFC), 0x0103);

    let mut cpu = with_program(&[0xFF]);
    assert_eq!(cpu.cycle(), 8);
    assert_eq!(cpu.registers.pc, 0x38);
    assert_eq!(cpu.memory.read_word(0xFFFC), 0x0101);

    // Not taken: the operand is not skipped.
    let mut cpu = with_program(&[0xC2, 0x00, 0x02]);
    cpu.registers.set_zero(1);
    assert_eq!(cpu.cycle(), 3);
    assert_eq!(cpu.registers.pc, 0x101);
}

#[test]
fn inc_dec_and_flags() {
    let mut cpu = with_program(&[0x04, 0x05, 0x37, 0x3F, 0x2F]);
    cpu.cycle();
    assert_eq!(cpu.registers.b, 1);
    cpu.cycle();
    assert_eq!(cpu.registers.b, 0);
    assert!(cpu.registers.check_zero());
    assert!(cpu.registers.check_addsub());
    cpu.cycle();
    assert!(cpu.registers.check_carry());
    cpu.cycle();
    assert!(!cpu.registers.check_carry());
    let a = cpu.registers.a;
    cpu.cycle();
    assert_eq!(cpu.registers.a, !a);
}

#[test]
fn halt_stop_and_interrupt_enable() {
    let mut cpu = with_program(&[0x76, 0x10, 0xF3, 0xFB]);
    cpu.cycle();
    assert!(cpu.halted);
    cpu.cycle();
    assert!(cpu.stopped);
    cpu.cycle();
    assert!(!cpu.interrupts_enabled);
    cpu.cycle();
    assert!(cpu.interrupts_enabled);
}

#[test]
fn unknown_opcode_is_reported() {
    let mut cpu = with_program(&[0xD3, 0x00]);
    assert_eq!(cpu.cycle(), 1);
    assert_eq!(cpu.unknown_opcode, Some(0xD3));
    cpu.cycle();
    assert_eq!(cpu.unknown_opcode, None);
}

#[test]
fn serial_output_through_ldh() {
    let mut cpu = with_program(&[0x3E, b'A', 0xE0, 0x01]);
    cpu.cycle();
    assert_eq!(cpu.cycle(), 3);
    assert_eq!(cpu.memory.serial, vec![b'A']);
}

#[test]
fn emulation_reaches_a_frame() {
    let mut cpu = with_program(&[]);
    cpu.memory.bios_flag = true;
    assert!(!cpu.emulate_step());
    assert!(!cpu.memory.bios_flag);
    let mut steps = 1u32;
    while !cpu.emulate_step() {
        steps += 1;
        assert!(steps < 30000);
    }
    assert_eq!(cpu.memory.vram.scroll_x, 1);
    assert!(!cpu.memory.vram.vblank_flag);
}

#[test]
fn undefined_steps_are_detected() {
    // DEC B with B = 0 leaves the range of its arithmetic.
    let mut cpu = with_program(&[0x05]);
    assert!(!cpu.cycle_defined());
    assert_eq!(cpu.try_emulate_step(), None);

    let mut cpu = with_program(&[0x04]);
    assert!(cpu.cycle_defined());
    assert_eq!(cpu.try_emulate_step(), Some(false));
    assert_eq!(cpu.registers.b, 1);

    // A pop with the stack pointer at 0xFFFE would read past the top.
    let cpu = with_program(&[0xC1]);
    assert!(!cpu.cycle_defined());
    // ADC with the carry set and A = B = 0x80 overflows.
    let mut cpu = with_program(&[0x88]);
    cpu.registers.a = 0x80;
    cpu.registers.b = 0x80;
    cpu.registers.set_carry(1);
    assert!(!cpu.cycle_defined());
    cpu.registers.b = 0x7E;
    assert!(cpu.cycle_defined());
    assert_eq!(cpu.cycle(), 1);
    assert_eq!(cpu.registers.a, 0xFF);
}

#[test]
fn swap_and_complement_twice_restore() {
    let mut cpu = with_program(&[0xCB, 0x30, 0xCB, 0x30, 0x2F, 0x2F]);
    cpu.registers.b = 0xA5;
    cpu.registers.a = 0x3C;
    cpu.cycle();
    assert_eq!(cpu.registers.b, 0x5A);
    cpu.cycle();
    assert_eq!(cpu.registers.b, 0xA5);
    cpu.cycle();
    cpu.cycle();
    assert_eq!(cpu.registers.a, 0x3C);
}

#[test]
fn flag_low_bits_untouched() {
    let mut cpu = with_program(&[0x80, 0xA0, 0x37]);
    cpu.registers.f = 0x0F;
    cpu.cycle();
    cpu.cycle();
    cpu.cycle();
    assert_eq!(cpu.registers.f & 0x0F, 0x0F);
}

#[test]
fn rotates_and_shifts() {
    // RLCA, RRCA with the carry clear.
    let mut cpu = with_program(&[0x07, 0x0F, 0x0F]);
    cpu.registers.a = 0x80;
    cpu.registers.f = 0;
    cpu.cycle();
    assert_eq!(cpu.registers.a, 0x01);
    assert!(cpu.registers.check_carry());
    cpu.cycle();
    assert_eq!(cpu.registers.a, 0x80);
    assert!(cpu.registers.check_carry());
    cpu.cycle();
    assert_eq!(cpu.registers.a, 0x40);
    assert!(!cpu.registers.check_carry());

    // RLA, RRA go through the carry.
    let mut cpu = with_program(&[0x17, 0x1F]);
    cpu.registers.a = 0x80;
    cpu.registers.f = 0;
    cpu.cycle();
    assert_eq!(cpu.registers.a, 0x00);
    assert!(cpu.registers.check_carry());
    cpu.cycle();
    assert_eq!(cpu.registers.a, 0x80);
    assert!(!cpu.registers.check_carry());

    // Prefixed: RLC, RRC, RL, RR, SRA on b.
    let mut cpu = with_program(&[0xCB, 0x00, 0xCB, 0x08, 0xCB, 0x10, 0xCB, 0x18, 0xCB, 0x28]);
    cpu.registers.f = 0;
    cpu.registers.b = 0x80;
    cpu.cycle();
    assert_eq!(cpu.registers.b, 0x01);
    assert!(cpu.registers.check_carry());
    cpu.registers.b = 0x01;
    cpu.cycle();
    assert_eq!(cpu.registers.b, 0x80);
    assert!(cpu.registers.check_carry());
    cpu.registers.b = 0x80;
    cpu.cycle();
    assert_eq!(cpu.registers.b, 0x01);
    assert!(cpu.registers.check_carry());
    cpu.registers.b = 0x02;
    cpu.cycle();
    assert_eq!(cpu.registers.b, 0x81);
    assert!(!cpu.registers.check_carry());
    cpu.registers.b = 0x80;
    cpu.cycle();
    assert_eq!(cpu.registers.b, 0xC0);
    assert!(!cpu.registers.check_carry());
}

#[test]
fn subtract_with_carry() {
    let mut cpu = with_program(&[0x98, 0x98]);
    cpu.registers.a = 0x10;
    cpu.registers.b = 0x05;
    cpu.registers.set_carry(1);
    cpu.cycle();
    assert_eq!(cpu.registers.a, 0x0A);
    // Carry now clear.
    cpu.cycle();
    assert_eq!(cpu.registers.a, 0x05);
    // With the carry set and a <= b, b is lowered by one instead.
    let mut cpu = with_program(&[0x98]);
    cpu.registers.a = 0x05;
    cpu.registers.b = 0x05;
    cpu.registers.set_carry(1);
    assert!(cpu.cycle_defined());
    cpu.cycle();
    assert_eq!(cpu.registers.a, 0x01);
    assert!(!cpu.registers.check_carry());
    let mut cpu = with_program(&[0x98]);
    cpu.registers.a = 0x05;
    cpu.registers.b = 0x06;
    cpu.registers.set_carry(1);
    cpu.cycle();
    assert_eq!(cpu.registers.a, 0x00);
    assert!(cpu.registers.check_zero());
    // Below that it leaves range.
    let mut cpu = with_program(&[0x98]);
    cpu.registers.a = 0x05;
    cpu.registers.b = 0x07;
    cpu.registers.set_carry(1);
    assert!(!cpu.cycle_defined());
}

#[test]
fn pop_after_push_gives_word_back() {
    let mut cpu = with_program(&[]);
    cpu.registers.sp = 0xD000;
    cpu.push_word(0xBEEF);
    assert_eq!(cpu.registers.sp, 0xCFFE);
    assert_eq!(cpu.pop_word(), 0xBEEF);
    assert_eq!(cpu.registers.sp, 0xD000);
}

#[test]
fn pop_af_clears_low_flag_bits() {
    let mut cpu = with_program(&[0x01, 0xFF, 0x12, 0xC5, 0xF1]);
    cpu.cycle();
    cpu.cycle();
    cpu.cycle();
    assert_eq!(cpu.registers.a, 0x12);
    assert_eq!(cpu.registers.f, 0xF0);
}
