#![allow(non_snake_case)]

use gb::alu::{CARRY, ZERO};
use gb::cpu;
use gb::cpu::Z80;

#[test]
fn test_the_cpu() {
    cpu::Z80::new();
}

// Register tests
#[test]
fn test_register_getting_pairs() {
    let mut cpu = Z80::new();
    assert_eq!(cpu.regs.hl(), 0x0);
    cpu.regs.h = 0x80;
    assert_eq!(cpu.regs.hl(), 0x8000);
    cpu.regs.l = 0x80;
    assert_eq!(cpu.regs.hl(), 0x8080);
}

#[test]
fn test_register_setting_hl() {
    let mut cpu = Z80::new();
    assert_eq!(cpu.regs.hl(), 0x0);
    cpu.regs.set_hl(0x8811);
    assert_eq!(cpu.regs.h, 0x88);
    assert_eq!(cpu.regs.l, 0x11);
}

// CPU tests
#[test]
fn test_the_clock_moves_forward_in_time() {
    let mut cpu = Z80::new();
    cpu.clock.tick(1);
    assert_eq!(cpu.clock.m, 1);
    assert_eq!(cpu.clock.t, 4);
    cpu.clock.tick(4);
    assert_eq!(cpu.clock.m, 1 + 4);
    assert_eq!(cpu.clock.t, 4 + 16);
}

#[test]
fn test_incrementing_16_bit_numbers() {
    let mut cpu = Z80::new();
    // Boring case - inc l
    let i = cpu.inc16(0x0);
    assert_eq!(i, 0x1);
    // Overflow
    let almost_overflowing = 0xFFFF;
    let overflowing = cpu.inc16(almost_overflowing);
    assert_eq!(overflowing, 0x0);
}

#[test]
fn test_setting_CPU_flags() {
    let mut cpu = Z80::new();
    cpu.set_flag(CARRY);
    assert!(cpu.flag_is_set(CARRY));
    cpu.set_flag(ZERO);
    assert!(cpu.flag_is_set(ZERO));
}

#[test]
fn test_the_alu_adds_8_bit_numbers() {
    let mut cpu = Z80::new();
    let added = cpu.add8(200, 100);
    assert_eq!(added, 44);
    assert!(cpu.flag_is_set(CARRY));
}

#[test]
fn test_the_alu_adds_16_bit_numbers() {
    let mut cpu = Z80::new();
    let added = cpu.add16(65535, 50);
    assert_eq!(added, 49);
    assert!(cpu.flag_is_set(CARRY));
}

#[test]
fn test_setting_flags() {
    let mut cpu = Z80::new();
    assert!(!cpu.flag_is_set(CARRY));
    cpu.set_flag(CARRY);
    assert!(cpu.flag_is_set(CARRY));
}

#[test]
fn test_unsetting_flags() {
    let mut cpu = Z80::new();
    cpu.set_flag(CARRY);
    cpu.unset_flag(CARRY);
    assert!(!cpu.flag_is_set(CARRY));
}

// 8-bit loads

#[test]
fn test_the_instruction_set_can_LDrr() {
    let mut cpu = Z80::new();
    cpu.regs.b = 0x01;
    cpu.LDrr_ab();
    assert_eq!(cpu.regs.a, 0x01);
    assert_eq!(cpu.clock.t, 4);
}

#[test]
fn test_the_instruction_set_can_LDrn() {
    let mut cpu = Z80::new();
    cpu.regs.a = 0x05;
    cpu.regs.pc = 0xC000;
    cpu.LDrn_a();
    // memory is filled with zeros, so the accumulator is now zero too
    assert_eq!(cpu.regs.a, 0x00);
    assert_eq!(cpu.regs.pc, 0xC001);
    assert_eq!(cpu.clock.t, 8);
}

#[test]
fn test_the_instruction_set_can_LDrHLm() {
    let mut cpu = Z80::new();
    cpu.regs.a = 0x01;
    cpu.regs.h = 0xC0;
    cpu.regs.l = 0x01;
    cpu.mmu.write_byte(0xC001, 0x05);
    cpu.LDrHLm_a();
    assert_eq!(cpu.regs.a, 0x05);
    assert_eq!(cpu.clock.t, 8);
}

#[test]
fn test_the_instruction_set_can_LDHLmr() {
    let mut cpu = Z80::new();
    cpu.regs.a = 0x01;
    cpu.regs.h = 0xC0;
    cpu.regs.l = 0x01;
    cpu.LDHLmr_a();
    assert_eq!(cpu.mmu.read(0xC001), 0x01);
    assert_eq!(cpu.clock.t, 8);
}

#[test]
fn test_the_instruction_set_can_LDHLmn() {
    let mut cpu = Z80::new();
    cpu.regs.h = 0xC0;
    cpu.regs.l = 0x05;
    cpu.regs.pc = 0xC000;
    cpu.mmu.write_byte(0xC000, 0x01);
    cpu.mmu.write_byte(0xC005, 0x02);
    cpu.LDHLmn();
    assert_eq!(cpu.mmu.read(0xC005), 0x01);
    assert_eq!(cpu.clock.t, 12);
}

#[test]
fn test_the_instruction_set_can_LDABCm() {
    let mut cpu = Z80::new();
    cpu.regs.b = 0xC0;
    cpu.regs.c = 0x05;
    cpu.regs.a = 0x01;
    cpu.mmu.write_byte(0xC005, 0x02);
    cpu.LDABCm();
    assert_eq!(cpu.regs.a, 0x02);
    assert_eq!(cpu.clock.t, 8);
}

#[test]
fn test_the_instruction_set_can_LDADEm() {
    let mut cpu = Z80::new();
    cpu.regs.d = 0xC0;
    cpu.regs.e = 0x05;
    cpu.regs.a = 0x01;
    cpu.mmu.write_byte(0xC005, 0x02);
    cpu.LDADEm();
    assert_eq!(cpu.regs.a, 0x02);
    assert_eq!(cpu.clock.t, 8);
}

#[test]
fn test_the_instruction_set_can_LDAnn() {
    let mut cpu = Z80::new();
    cpu.regs.a = 0x01; // prime a with 1, so the failing case is more obvious
    cpu.regs.pc = 0xC000;
    cpu.mmu.write_byte(0xC000, 0x05);
    cpu.mmu.write_byte(0xC001, 0xC0);
    cpu.mmu.write_byte(0xC005, 0x02);
    cpu.LDAnn();
    assert_eq!(cpu.regs.a, 0x02);
    assert_eq!(cpu.clock.t, 16);
}

#[test]
fn test_the_instruction_set_can_LDBCmA() {
    let mut cpu = Z80::new();
    cpu.regs.b = 0xC0;
    cpu.regs.c = 0x05;
    cpu.regs.a = 0x01;
    cpu.mmu.write_byte(0xC005, 0x02);
    cpu.LDBCmA();
    assert_eq!(cpu.mmu.read(0xC005), 0x01);
    assert_eq!(cpu.clock.t, 8);
}

#[test]
fn test_the_instruction_set_can_LDDEmA() {
    let mut cpu = Z80::new();
    cpu.regs.d = 0xC0;
    cpu.regs.e = 0x05;
    cpu.regs.a = 0x01;
    cpu.mmu.write_byte(0xC005, 0x02);
    cpu.LDDEmA();
    assert_eq!(cpu.mmu.read(0xC005), 0x01);
    assert_eq!(cpu.clock.t, 8);
}

#[test]
fn test_the_instruction_set_can_LDnmA() {
    let mut cpu = Z80::new();
    cpu.regs.a = 0x04;
    cpu.regs.pc = 0xC000;
    cpu.mmu.write_byte(0xC000, 0x05);
    cpu.mmu.write_byte(0xC001, 0xC0);
    cpu.mmu.write_byte(0xC005, 0x01);
    cpu.LDnmA();
    assert_eq!(cpu.regs.a, 0x04);
    assert_eq!(cpu.clock.t, 16);
}

#[test]
fn test_the_instruction_set_can_LDIHLmA() {
    let mut cpu = Z80::new();
    cpu.regs.a = 0x01;
    cpu.regs.h = 0xC0;
    cpu.regs.l = 0x01;
    cpu.mmu.write_byte(0xC001, 0x05);
    cpu.LDIHLmA();
    assert_eq!(cpu.mmu.read(0xC001), 0x01);
    assert_eq!(cpu.regs.l, 0x02);
    assert_eq!(cpu.clock.t, 8);
}

#[test]
fn test_the_instruction_set_can_LDIAHLm() {
    let mut cpu = Z80::new();
    cpu.regs.a = 0x01;
    cpu.regs.h = 0xC0;
    cpu.regs.l = 0x01;
    cpu.mmu.write_byte(0xC001, 0x05);
    cpu.LDIAHLm();
    assert_eq!(cpu.regs.a, 0x05);
    assert_eq!(cpu.regs.l, 0x02);
    assert_eq!(cpu.clock.t, 8);
}

// 8-bit arithmetic

#[test]
fn test_the_instruction_set_can_ADDr() {
    let mut cpu = Z80::new();
    cpu.regs.a = 0x64;
    cpu.regs.b = 0xC8;
    cpu.ADDr_b();
    assert!(cpu.flag_is_set(CARRY));
    assert_eq!(cpu.regs.a, 0x2C); // = 256 (carry bit) + 44
    assert_eq!(cpu.clock.t, 4);
}

#[test]
fn test_the_instruction_set_can_ADDn() {
    let mut cpu = Z80::new();
    cpu.regs.a = 0x64;
    cpu.regs.pc = 0xC000;
    cpu.mmu.write_byte(0xC000, 0xC8);
    cpu.ADDn();
    assert!(cpu.flag_is_set(CARRY));
    assert_eq!(cpu.regs.a, 0x2C);
    assert_eq!(cpu.clock.t, 8);
}

#[test]
fn test_the_instruction_set_can_ADDHL() {
    let mut cpu = Z80::new();
    cpu.regs.a = 0x64;
    cpu.regs.h = 0xC0;
    cpu.regs.l = 0x01;
    cpu.mmu.write_byte(0xC001, 0xC8);
    cpu.ADDHL();
    assert!(cpu.flag_is_set(CARRY));
    assert_eq!(cpu.regs.a, 0x2C);
    assert_eq!(cpu.clock.t, 8);
}

#[test]
fn test_the_instruction_set_can_ADCr_b() {
    let mut cpu = Z80::new();
    cpu.regs.a = 0x64;
    cpu.regs.b = 0xC8;
    cpu.mmu.write_byte(0xC001, 0xC8);
    cpu.ADCr_b();
    assert!(cpu.flag_is_set(CARRY));
    // the carry was clear before the instruction, so nothing is added to the sum
    assert_eq!(cpu.regs.a, 0x2C);
    assert_eq!(cpu.clock.t, 4);
}

#[test]
fn test_the_instruction_set_can_ADCn() {
    let mut cpu = Z80::new();
    cpu.regs.a = 0x64;
    cpu.regs.pc = 0xC000;
    cpu.mmu.write_byte(0xC000, 0xC8);
    cpu.ADCn();
    assert!(cpu.flag_is_set(CARRY));
    // the carry was clear before the instruction, so nothing is added to the sum
    assert_eq!(cpu.regs.a, 0x2C);
    assert_eq!(cpu.clock.t, 8);
}

#[test]
fn test_the_instruction_set_can_ADCHL() {
    let mut cpu = Z80::new();
    cpu.regs.a = 0x64;
    cpu.regs.h = 0xC0;
    cpu.regs.l = 0x01;
    cpu.mmu.write_byte(0xC001, 0xC8);
    cpu.ADCHL();
    assert!(cpu.flag_is_set(CARRY));
    // the carry was clear before the instruction, so nothing is added to the sum
    assert_eq!(cpu.regs.a, 0x2C);
    assert_eq!(cpu.clock.t, 8);
}

// 16-bit arithmetic
#[test]
fn test_the_instruction_set_can_ADDHLrr() {
    let mut cpu = Z80::new();
    cpu.regs.h = 0x10;
    cpu.regs.l = 0x01;
    cpu.regs.b = 0x11;
    cpu.regs.c = 0x02;
    cpu.ADDHLBC();
    assert_eq!(cpu.regs.hl(), 0x2103);
    assert_eq!(cpu.clock.t, 8);
}

#[test]
fn test_the_instruction_set_can_ADDHLSP() {
    let mut cpu = Z80::new();
    cpu.regs.h = 0x10;
    cpu.regs.l = 0x01;
    cpu.regs.sp = 0x1102;
    cpu.ADDHLSP();
    assert_eq!(cpu.regs.hl(), 0x2103);
    assert_eq!(cpu.clock.t, 8);
}

#[test]
fn test_the_instruction_set_can_INCrr() {
    let mut cpu = Z80::new();
    cpu.regs.h = 0x10;
    cpu.regs.l = 0x01;
    cpu.INCHL();
    assert_eq!(cpu.regs.hl(), 0x1002);
    assert_eq!(cpu.clock.t, 8);
}

#[test]
fn test_the_instruction_set_can_INCSP() {
    let mut cpu = Z80::new();
    cpu.regs.sp = 0x1102;
    cpu.INCSP();
    assert_eq!(cpu.regs.sp, 0x1103);
    assert_eq!(cpu.clock.t, 8);
}

#[test]
fn test_the_instruction_set_can_CCF() {
    let mut cpu = Z80::new();
    cpu.CCF();
    assert!(cpu.flag_is_set(CARRY));
    assert_eq!(cpu.clock.t, 4);
    cpu.CCF();
    assert!(!cpu.flag_is_set(CARRY));
    assert_eq!(cpu.clock.t, 8);
}
