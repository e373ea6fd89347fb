use rusen::addressing::AddressingMode;
use rusen::cpu::Cpu;
use rusen::instruction::Instruction;
use rusen::nes::Nes;

fn machine() -> Nes {
    Nes::default()
}

/// A machine with a program placed at 0x8000 and the program counter on it.
fn machine_with_program(program: &[u8]) -> Nes {
    let mut nes = Nes::default();
    let mut addr: u16 = 0x8000;
    for b in program {
        nes.set_memory8(addr, *b);
        addr += 1;
    }
    nes.cpu.pc = 0x8000;
    nes
}

#[test]
fn test_default_power_on_state() {
    let nes = machine();
    assert_eq!(nes.cpu, Cpu { a: 0, x: 0, y: 0, s: 0x01fd, p: 0x34, pc: 0 });
    assert_eq!(nes.fetch_memory8(0x1234), 0);
}

#[test]
fn test_reset_vector_initialize() {
    // PRG byte at offset 0x3FFC/0x3FFD of a one-page image maps to
    // 0xFFFC/0xFFFD and becomes the program counter.
    let mut rom = vec![0u8; 16 + 0x4000];
    rom[4] = 1;
    rom[5] = 0;
    rom[6] = 0;
    rom[16 + 0x3ffc] = 0x00;
    rom[16 + 0x3ffd] = 0x80;
    let mut nes = machine();
    nes.load(rom);
    nes.initialize();
    assert_eq!(nes.cpu.pc, 0x8000);
}

#[test]
fn test_load_mirrors_single_prg_page() {
    let mut rom = vec![0u8; 16 + 0x4000 + 0x2000];
    rom[4] = 1;
    rom[5] = 1;
    rom[6] = 1;
    rom[16] = 0xab;
    rom[16 + 0x1234] = 0xcd;
    rom[16 + 0x4000] = 0x77; // first CHR byte
    rom[16 + 0x4000 + 0x1fff] = 0x88; // last CHR byte
    let mut nes = machine();
    nes.load(rom);
    assert!(nes.ppu.mirror);
    assert_eq!(nes.fetch_memory8(0x8000), 0xab);
    assert_eq!(nes.fetch_memory8(0xc000), 0xab);
    assert_eq!(nes.fetch_memory8(0x9234), 0xcd);
    assert_eq!(nes.fetch_memory8(0xd234), 0xcd);
    assert_eq!(nes.ppu.ram[0], 0x77);
    assert_eq!(nes.ppu.ram[0x1fff], 0x88);
}

#[test]
fn test_load_mirror_mode_uses_bit_zero_only() {
    // Header byte 6 with only higher bits set still selects horizontal
    // mirroring; bit 0 alone selects vertical.
    let mut rom = vec![0u8; 16 + 0x4000];
    rom[4] = 1;
    rom[6] = 0x02;
    let mut nes = machine();
    nes.load(rom.clone());
    assert!(!nes.ppu.mirror);
    rom[6] = 0x03;
    let mut nes2 = machine();
    nes2.load(rom);
    assert!(nes2.ppu.mirror);
}

#[test]
fn test_lda_immediate_flags() {
    // A9 80 at 0x8000; after one step A = 0x80, N = 1, Z = 0, PC = 0x8002.
    let mut nes = machine_with_program(&[0xa9, 0x80]);
    let cycles = nes.step();
    assert_eq!(cycles, Some(2));
    assert_eq!(nes.cpu.a, 0x80);
    assert_eq!(nes.cpu.p & 0x80, 0x80);
    assert_eq!(nes.cpu.p & 0x02, 0x00);
    assert_eq!(nes.cpu.pc, 0x8002);
}

#[test]
fn test_lda_zero_sets_z() {
    let mut nes = machine_with_program(&[0xa9, 0x00]);
    nes.step();
    assert_eq!(nes.cpu.a, 0x00);
    assert_eq!(nes.cpu.p & 0x02, 0x02);
    assert_eq!(nes.cpu.p & 0x80, 0x00);
}

#[test]
fn test_adc_carry_out() {
    // A = 0xF0, C = 0, program 69 20; after the step A = 0x10, C = 1,
    // V = 0, N = 0, Z = 0.
    let mut nes = machine_with_program(&[0x69, 0x20]);
    nes.cpu.a = 0xf0;
    nes.clc();
    nes.step();
    assert_eq!(nes.cpu.a, 0x10);
    assert_eq!(nes.cpu.p & 0x01, 0x01);
    assert_eq!(nes.cpu.p & 0x40, 0x00);
    assert_eq!(nes.cpu.p & 0x80, 0x00);
    assert_eq!(nes.cpu.p & 0x02, 0x00);
}

#[test]
fn test_adc_overflow_flag() {
    // 0x50 + 0x50 overflows signed arithmetic: V = 1, N = 1.
    let mut nes = machine_with_program(&[0x69, 0x50]);
    nes.cpu.a = 0x50;
    nes.clc();
    nes.step();
    assert_eq!(nes.cpu.a, 0xa0);
    assert_eq!(nes.cpu.p & 0x40, 0x40);
    assert_eq!(nes.cpu.p & 0x80, 0x80);
    assert_eq!(nes.cpu.p & 0x01, 0x00);
}

#[test]
fn test_adc_uses_incoming_carry() {
    let mut nes = machine_with_program(&[0x69, 0x10]);
    nes.cpu.a = 0x05;
    nes.sec();
    nes.step();
    assert_eq!(nes.cpu.a, 0x16);
    assert_eq!(nes.cpu.p & 0x01, 0x00);
}

#[test]
fn test_sbc_is_adc_of_complement() {
    // SBC(a, m, c) leaves the machine exactly as
    // ADC(a, m ^ 0xFF, c) does.
    let mut left = machine_with_program(&[0xe9, 0x30]);
    left.cpu.a = 0x50;
    left.sec();
    left.step();

    let mut right = machine_with_program(&[0x69, 0x30 ^ 0xff]);
    right.cpu.a = 0x50;
    right.sec();
    right.step();

    assert_eq!(left.cpu.a, right.cpu.a);
    assert_eq!(left.cpu.p, right.cpu.p);
    assert_eq!(left.cpu.a, 0x20);
    assert_eq!(left.cpu.p & 0x01, 0x01); // no borrow
}

#[test]
fn test_sbc_borrow_clears_carry() {
    let mut nes = machine_with_program(&[0xe9, 0x60]);
    nes.cpu.a = 0x50;
    nes.sec();
    nes.step();
    assert_eq!(nes.cpu.a, 0xf0);
    assert_eq!(nes.cpu.p & 0x01, 0x00); // borrow occurred
}

#[test]
fn test_branch_taken() {
    // Z = 1, program F0 05 at 0x8000; after the step PC = 0x8007.
    let mut nes = machine_with_program(&[0xf0, 0x05]);
    nes.cpu.p |= 0x02;
    nes.step();
    assert_eq!(nes.cpu.pc, 0x8007);
}

#[test]
fn test_branch_not_taken() {
    let mut nes = machine_with_program(&[0xf0, 0x05]);
    nes.cpu.p &= !0x02;
    nes.step();
    assert_eq!(nes.cpu.pc, 0x8002);
}

#[test]
fn test_branch_backward_displacement() {
    // D0 FB: a not-equal branch with displacement -5 from the
    // post-instruction counter.
    let mut nes = machine_with_program(&[0xd0, 0xfb]);
    nes.cpu.p &= !0x02;
    nes.step();
    assert_eq!(nes.cpu.pc, 0x7ffd);
}

#[test]
fn test_jsr_rts_round_trip() {
    // JSR 0x1234 from 0x8000 with S = 0x01FD, then RTS at 0x1234.
    let mut nes = machine_with_program(&[0x20, 0x34, 0x12]);
    nes.set_memory8(0x1234, 0x60);
    assert_eq!(nes.cpu.s, 0x01fd);
    nes.step();
    assert_eq!(nes.cpu.pc, 0x1234);
    assert_eq!(nes.cpu.s, 0x01fb);
    assert_eq!(nes.fetch_memory8(0x01fd), 0x80);
    assert_eq!(nes.fetch_memory8(0x01fc), 0x02);
    nes.step();
    assert_eq!(nes.cpu.pc, 0x8003);
    assert_eq!(nes.cpu.s, 0x01fd);
}

#[test]
fn test_push_pull_balance() {
    // A balanced PHA/PLA restores S, and the pull
    // hands back the pushed byte.
    let mut nes = machine();
    let s0 = nes.cpu.s;
    nes.cpu.a = 0x5a;
    nes.pha();
    assert_eq!(nes.cpu.s, s0 - 1);
    nes.cpu.a = 0x00;
    nes.pla();
    assert_eq!(nes.cpu.a, 0x5a);
    assert_eq!(nes.cpu.s, s0);
}

#[test]
fn test_php_plp_keeps_reserved_bit() {
    let mut nes = machine();
    nes.push8(0x00);
    nes.plp();
    // The reserved bit: whatever was pulled, bit 5 reads as 1.
    assert_eq!(nes.cpu.p & 0x20, 0x20);
}

#[test]
fn test_stack_pointer_wraps_within_page() {
    let mut nes = machine();
    nes.cpu.s = 0x0100;
    nes.push8(0x77);
    assert_eq!(nes.cpu.s, 0x01ff);
    assert_eq!(nes.fetch_memory8(0x0100), 0x77);
    let v = nes.pull8();
    assert_eq!(v, 0x77);
    assert_eq!(nes.cpu.s, 0x0100);
}

#[test]
fn test_status_bit5_survives_a_step() {
    // After any step, P bit 5 = 1 and the stack
    // page stays 0x01.
    let mut nes = machine_with_program(&[0xa9, 0x7f, 0x48, 0x28]);
    nes.step(); // LDA #$7F
    nes.step(); // PHA
    nes.step(); // PLP pulls 0x7F into P
    assert_eq!(nes.cpu.p & 0x20, 0x20);
    assert_eq!(nes.cpu.s & 0xff00, 0x0100);
}

#[test]
fn test_zero_page_x_wraps() {
    // B5 F0 with X = 0x20 reads from (0xF0 + 0x20) mod 256 = 0x10.
    let mut nes = machine_with_program(&[0xb5, 0xf0]);
    nes.cpu.x = 0x20;
    nes.set_memory8(0x0010, 0x42);
    nes.step();
    assert_eq!(nes.cpu.a, 0x42);
}

#[test]
fn test_zero_page_y_addressing() {
    // B6 10 with Y = 5 loads X from 0x15.
    let mut nes = machine_with_program(&[0xb6, 0x10]);
    nes.cpu.y = 0x05;
    nes.set_memory8(0x0015, 0x99);
    nes.step();
    assert_eq!(nes.cpu.x, 0x99);
}

#[test]
fn test_absolute_and_indexed_absolute() {
    // AD 00 30 loads from 0x3000; BD with X = 2 loads from base + 2.
    let mut nes = machine_with_program(&[0xad, 0x00, 0x30, 0xbd, 0x00, 0x30]);
    nes.set_memory8(0x3000, 0x11);
    nes.set_memory8(0x3002, 0x22);
    nes.cpu.x = 2;
    nes.step();
    assert_eq!(nes.cpu.a, 0x11);
    nes.step();
    assert_eq!(nes.cpu.a, 0x22);
}

#[test]
fn test_indexed_indirect_wraps_in_zero_page() {
    // A1 FE with X = 1: the pointer is fetched from 0xFF and 0x00.
    let mut nes = machine_with_program(&[0xa1, 0xfe]);
    nes.cpu.x = 0x01;
    nes.set_memory8(0x00ff, 0x34);
    nes.set_memory8(0x0000, 0x12);
    nes.set_memory8(0x1234, 0x5a);
    nes.step();
    assert_eq!(nes.cpu.a, 0x5a);
}

#[test]
fn test_indirect_indexed_adds_y() {
    // B1 40 with Y = 3: pointer at 0x40/0x41 plus Y.
    let mut nes = machine_with_program(&[0xb1, 0x40]);
    nes.cpu.y = 0x03;
    nes.set_memory8(0x0040, 0x00);
    nes.set_memory8(0x0041, 0x20);
    nes.set_memory8(0x2003, 0x58);
    nes.step();
    assert_eq!(nes.cpu.a, 0x58);
}

#[test]
fn test_jmp_indirect() {
    // 6C 00 02 jumps through the pointer at 0x0200/0x0201.
    let mut nes = machine_with_program(&[0x6c, 0x00, 0x02]);
    nes.set_memory8(0x0200, 0xcd);
    nes.set_memory8(0x0201, 0xab);
    nes.step();
    assert_eq!(nes.cpu.pc, 0xabcd);
}

#[test]
fn test_asl_accumulator_and_memory() {
    let mut nes = machine_with_program(&[0x0a, 0x06, 0x40]);
    nes.cpu.a = 0x81;
    nes.step(); // ASL A
    assert_eq!(nes.cpu.a, 0x02);
    assert_eq!(nes.cpu.p & 0x01, 0x01);
    nes.set_memory8(0x0040, 0x41);
    nes.step(); // ASL 0x40
    assert_eq!(nes.fetch_memory8(0x0040), 0x82);
    assert_eq!(nes.cpu.p & 0x01, 0x00);
    assert_eq!(nes.cpu.p & 0x80, 0x80);
}

#[test]
fn test_lsr_sets_carry_from_bit0() {
    let mut nes = machine_with_program(&[0x4a]);
    nes.cpu.a = 0x03;
    nes.step();
    assert_eq!(nes.cpu.a, 0x01);
    assert_eq!(nes.cpu.p & 0x01, 0x01);
}

#[test]
fn test_rol_ror_rotate_through_carry() {
    let mut nes = machine_with_program(&[0x2a, 0x6a]);
    nes.cpu.a = 0x80;
    nes.sec();
    nes.step(); // ROL A: 0x80 -> 0x01, carry out 1
    assert_eq!(nes.cpu.a, 0x01);
    assert_eq!(nes.cpu.p & 0x01, 0x01);
    nes.step(); // ROR A: 0x01 with carry 1 -> 0x80, carry out 1
    assert_eq!(nes.cpu.a, 0x80);
    assert_eq!(nes.cpu.p & 0x01, 0x01);
}

#[test]
fn test_rol_memory_operand() {
    let mut nes = machine_with_program(&[0x26, 0x10]);
    nes.set_memory8(0x0010, 0xc0);
    nes.clc();
    nes.step();
    assert_eq!(nes.fetch_memory8(0x0010), 0x80);
    assert_eq!(nes.cpu.p & 0x01, 0x01);
}

#[test]
fn test_logic_operations() {
    let mut nes = machine_with_program(&[0x29, 0x0f, 0x09, 0x30, 0x49, 0xff]);
    nes.cpu.a = 0x5a;
    nes.step(); // AND #$0F
    assert_eq!(nes.cpu.a, 0x0a);
    nes.step(); // ORA #$30
    assert_eq!(nes.cpu.a, 0x3a);
    nes.step(); // EOR #$FF
    assert_eq!(nes.cpu.a, 0xc5);
    assert_eq!(nes.cpu.p & 0x80, 0x80);
}

#[test]
fn test_cmp_flag_cases() {
    // Greater: C = 1, Z = 0. Equal: C = 1, Z = 1. Less: C = 0, N from the
    // low byte of the difference.
    let mut nes = machine_with_program(&[0xc9, 0x10, 0xc9, 0x20, 0xc9, 0x30]);
    nes.cpu.a = 0x20;
    nes.step();
    assert_eq!(nes.cpu.p & 0x01, 0x01);
    assert_eq!(nes.cpu.p & 0x02, 0x00);
    nes.step();
    assert_eq!(nes.cpu.p & 0x01, 0x01);
    assert_eq!(nes.cpu.p & 0x02, 0x02);
    nes.step();
    assert_eq!(nes.cpu.p & 0x01, 0x00);
    assert_eq!(nes.cpu.p & 0x80, 0x80);
}

#[test]
fn test_bit_sets_nzv_from_memory() {
    let mut nes = machine_with_program(&[0x2c, 0x00, 0x03]);
    nes.set_memory8(0x0300, 0xc0);
    nes.cpu.a = 0x0f;
    nes.step();
    assert_eq!(nes.cpu.p & 0x02, 0x02); // A & M == 0
    assert_eq!(nes.cpu.p & 0x80, 0x80); // bit 7 of M
    assert_eq!(nes.cpu.p & 0x40, 0x40); // bit 6 of M
}

#[test]
fn test_bit_zero_page_ignores_x() {
    // 24 40 addresses the zero page directly, whatever X holds.
    let mut nes = machine_with_program(&[0x24, 0x40]);
    nes.cpu.x = 0x05;
    nes.cpu.a = 0x01;
    nes.set_memory8(0x0040, 0x41);
    nes.set_memory8(0x0045, 0x80);
    nes.step();
    assert_eq!(nes.cpu.p & 0x02, 0x00); // A & M != 0
    assert_eq!(nes.cpu.p & 0x80, 0x00); // bit 7 of M clear
    assert_eq!(nes.cpu.p & 0x40, 0x40); // bit 6 of M set
    assert_eq!(nes.cpu.pc, 0x8002);
}

#[test]
fn test_inc_dec_wrap_in_memory() {
    // Both update N and Z from the produced byte.
    let mut nes = machine_with_program(&[0xe6, 0x10, 0xc6, 0x11]);
    nes.set_memory8(0x0010, 0xff);
    nes.set_memory8(0x0011, 0x00);
    nes.step();
    assert_eq!(nes.fetch_memory8(0x0010), 0x00);
    assert_eq!(nes.cpu.p & 0x02, 0x02);
    assert_eq!(nes.cpu.p & 0x80, 0x00);
    nes.step();
    assert_eq!(nes.fetch_memory8(0x0011), 0xff);
    assert_eq!(nes.cpu.p & 0x80, 0x80);
    assert_eq!(nes.cpu.p & 0x02, 0x00);
}

#[test]
fn test_register_increments_wrap_and_set_flags() {
    let mut nes = machine_with_program(&[0xe8, 0xca, 0xca]);
    nes.cpu.x = 0xff;
    nes.step(); // INX: 0xFF -> 0x00
    assert_eq!(nes.cpu.x, 0x00);
    assert_eq!(nes.cpu.p & 0x02, 0x02);
    nes.step(); // DEX: 0x00 -> 0xFF
    assert_eq!(nes.cpu.x, 0xff);
    assert_eq!(nes.cpu.p & 0x80, 0x80);
    nes.step(); // DEX: 0xFF -> 0xFE
    assert_eq!(nes.cpu.x, 0xfe);
}

#[test]
fn test_transfers_and_stack_register() {
    let mut nes = machine_with_program(&[0xaa, 0xa8, 0x9a, 0xba]);
    nes.cpu.a = 0x42;
    nes.step(); // TAX
    assert_eq!(nes.cpu.x, 0x42);
    nes.step(); // TAY
    assert_eq!(nes.cpu.y, 0x42);
    let p_before = nes.cpu.p;
    nes.step(); // TXS: the one transfer that alters no flags
    assert_eq!(nes.cpu.s, 0x0142);
    assert_eq!(nes.cpu.p, p_before);
    nes.cpu.s = 0x01ab;
    nes.step(); // TSX
    assert_eq!(nes.cpu.x, 0xab);
}

#[test]
fn test_flag_instructions() {
    let mut nes = machine_with_program(&[0x38, 0x18, 0x78, 0x58, 0xf8, 0xd8, 0xb8]);
    nes.step(); // SEC
    assert_eq!(nes.cpu.p & 0x01, 0x01);
    nes.step(); // CLC
    assert_eq!(nes.cpu.p & 0x01, 0x00);
    nes.step(); // SEI
    assert_eq!(nes.cpu.p & 0x04, 0x04);
    nes.step(); // CLI
    assert_eq!(nes.cpu.p & 0x04, 0x00);
    nes.step(); // SED
    assert_eq!(nes.cpu.p & 0x08, 0x08);
    nes.step(); // CLD
    assert_eq!(nes.cpu.p & 0x08, 0x00);
    nes.cpu.p |= 0x40;
    nes.step(); // CLV
    assert_eq!(nes.cpu.p & 0x40, 0x00);
}

#[test]
fn test_brk_pushes_state_and_jumps_through_vector() {
    let mut nes = machine_with_program(&[0x00]);
    nes.cpu.p &= !0x04; // interrupts enabled
    nes.set_memory8(0xfffe, 0x00);
    nes.set_memory8(0xffff, 0x90);
    let p_before = nes.cpu.p | 0x10;
    nes.step();
    assert_eq!(nes.cpu.pc, 0x9000);
    assert_eq!(nes.cpu.p & 0x04, 0x04);
    assert_eq!(nes.cpu.s, 0x01fa);
    // Pushed: PC + 1 = 0x8002 high then low, then P with B set.
    assert_eq!(nes.fetch_memory8(0x01fd), 0x80);
    assert_eq!(nes.fetch_memory8(0x01fc), 0x02);
    assert_eq!(nes.fetch_memory8(0x01fb), p_before);
}

#[test]
fn test_brk_disabled_is_a_no_op() {
    // With I set, BRK only advances over its own opcode byte.
    let mut nes = machine_with_program(&[0x00]);
    nes.cpu.p |= 0x04;
    nes.step();
    assert_eq!(nes.cpu.pc, 0x8001);
    assert_eq!(nes.cpu.s, 0x01fd);
}

#[test]
fn test_rti_restores_status_and_counter() {
    let mut nes = machine();
    nes.cpu.pc = 0x8000;
    nes.set_memory8(0x8000, 0x40);
    nes.push8(0x90); // PC high
    nes.push8(0x00); // PC low
    nes.push8(0x03); // status
    nes.step();
    assert_eq!(nes.cpu.pc, 0x9000);
    // bit 5 reads as 1 whatever was pushed
    assert_eq!(nes.cpu.p, 0x23);
    assert_eq!(nes.cpu.s, 0x01fd);
}

#[test]
fn test_unknown_opcode_is_fatal_and_leaves_state() {
    let mut nes = machine_with_program(&[0x02]);
    let r = nes.step();
    assert_eq!(r, None);
    assert_eq!(nes.cpu.pc, 0x8000);
}

#[test]
fn test_decode_table_entries() {
    let nes = machine();
    assert_eq!(
        nes.instructions(0xa9),
        Some((Instruction::LDA, AddressingMode::Immediate, 2))
    );
    assert_eq!(
        nes.instructions(0x7e),
        Some((Instruction::ROR, AddressingMode::AbsoluteX, 7))
    );
    assert_eq!(
        nes.instructions(0x24),
        Some((Instruction::BIT, AddressingMode::ZeroPage, 3))
    );
    assert_eq!(
        nes.instructions(0x00),
        Some((Instruction::BRK, AddressingMode::Implied, 7))
    );
    assert_eq!(nes.instructions(0x02), None);
    assert_eq!(nes.instructions(0xff), None);
}

#[test]
fn test_nop_advances_counter_only() {
    let mut nes = machine_with_program(&[0xea]);
    let before = nes.cpu;
    let cycles = nes.step();
    assert_eq!(cycles, Some(2));
    assert_eq!(nes.cpu.a, before.a);
    assert_eq!(nes.cpu.p, before.p);
    assert_eq!(nes.cpu.pc, 0x8001);
}

#[test]
fn test_ldy_and_absolute_y() {
    // A0 07 loads Y; B9 00 30 then loads A from 0x3000 + Y.
    let mut nes = machine_with_program(&[0xa0, 0x07, 0xb9, 0x00, 0x30]);
    nes.set_memory8(0x3007, 0x66);
    nes.step();
    assert_eq!(nes.cpu.y, 0x07);
    nes.step();
    assert_eq!(nes.cpu.a, 0x66);
}

#[test]
fn test_txa_tya_copy_into_accumulator() {
    let mut nes = machine_with_program(&[0x8a, 0x98]);
    nes.cpu.x = 0x31;
    nes.cpu.y = 0x00;
    nes.step(); // TXA
    assert_eq!(nes.cpu.a, 0x31);
    nes.step(); // TYA
    assert_eq!(nes.cpu.a, 0x00);
    assert_eq!(nes.cpu.p & 0x02, 0x02);
}

#[test]
fn test_store_instructions_write_memory() {
    let mut nes = machine_with_program(&[0x85, 0x10, 0x86, 0x11, 0x84, 0x12]);
    nes.cpu.a = 0x0a;
    nes.cpu.x = 0x0b;
    nes.cpu.y = 0x0c;
    nes.step();
    nes.step();
    nes.step();
    assert_eq!(nes.fetch_memory8(0x0010), 0x0a);
    assert_eq!(nes.fetch_memory8(0x0011), 0x0b);
    assert_eq!(nes.fetch_memory8(0x0012), 0x0c);
}
