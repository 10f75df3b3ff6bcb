use gb::alu::{CARRY, HALFCARRY, SUBTRACT, ZERO};
use gb::cpu::Z80;
use gb::mmu::{ImageError, BIOS_SIZE, MMU, ROM_SIZE};

#[test]
fn add8_sets_carry_only_past_255() {
    let mut cpu = Z80::new();
    assert_eq!(cpu.add8(200, 100), 44);
    assert!(cpu.flag_is_set(CARRY));
    assert!(!cpu.flag_is_set(ZERO));
    assert_eq!(cpu.add8(100, 155), 255);
    assert!(!cpu.flag_is_set(CARRY));
    assert_eq!(cpu.add8(100, 156), 0);
    assert!(cpu.flag_is_set(CARRY));
}

#[test]
fn add8_sets_zero_only_for_an_unmasked_zero_sum() {
    let mut cpu = Z80::new();
    assert_eq!(cpu.add8(0, 0), 0);
    assert!(cpu.flag_is_set(ZERO));
    assert!(!cpu.flag_is_set(CARRY));
    // wraps to zero, but the nine-bit sum is 256
    assert_eq!(cpu.add8(128, 128), 0);
    assert!(!cpu.flag_is_set(ZERO));
    assert!(cpu.flag_is_set(CARRY));
}

#[test]
fn add8_sets_half_carry_from_the_low_nibble() {
    let mut cpu = Z80::new();
    cpu.add8(0x0F, 0x01);
    assert!(cpu.flag_is_set(HALFCARRY));
    cpu.add8(0x0E, 0x01);
    assert!(!cpu.flag_is_set(HALFCARRY));
}

#[test]
fn add8_clears_flags_it_does_not_define() {
    let mut cpu = Z80::new();
    cpu.set_flag(SUBTRACT);
    cpu.set_flag(CARRY);
    cpu.add8(1, 2);
    assert_eq!(cpu.regs.f, 0);
}

#[test]
fn add16_wraps_and_sets_carry() {
    let mut cpu = Z80::new();
    assert_eq!(cpu.add16(65535, 50), 49);
    assert!(cpu.flag_is_set(CARRY));
    assert_eq!(cpu.add16(0x1001, 0x1102), 0x2103);
    assert!(!cpu.flag_is_set(CARRY));
    assert!(!cpu.flag_is_set(ZERO));
    cpu.add16(0x0FFF, 0x0001);
    assert!(cpu.flag_is_set(HALFCARRY));
}

#[test]
fn inc16_wraps_with_zero_and_without_carry() {
    let mut cpu = Z80::new();
    assert_eq!(cpu.inc16(0xFFFF), 0x0000);
    assert!(cpu.flag_is_set(ZERO));
    assert!(!cpu.flag_is_set(CARRY));
    assert_eq!(cpu.inc16(0x00FF), 0x0100);
    assert!(!cpu.flag_is_set(ZERO));
}

#[test]
fn register_pairs_join_and_split() {
    let mut cpu = Z80::new();
    cpu.regs.b = 0x12;
    cpu.regs.c = 0x34;
    assert_eq!(cpu.regs.bc(), 0x1234);
    cpu.regs.set_de(0xBEEF);
    assert_eq!(cpu.regs.d, 0xBE);
    assert_eq!(cpu.regs.e, 0xEF);
    assert_eq!(cpu.regs.de(), 0xBEEF);
    cpu.regs.set_hl(0x00FF);
    assert_eq!(cpu.regs.h, 0x00);
    assert_eq!(cpu.regs.l, 0xFF);
}

#[test]
fn working_ram_is_mirrored() {
    let mut mmu = MMU::new();
    mmu.write_byte(0xC001, 0x42);
    assert_eq!(mmu.read(0xC001), 0x42);
    assert_eq!(mmu.read(0xE001), 0x42);
    mmu.write_byte(0xFDFF, 0x17);
    assert_eq!(mmu.read(0xDDFF), 0x17);
    mmu.write_byte(0xDFFF, 0x99);
    assert_eq!(mmu.read(0xDFFF), 0x99);
}

#[test]
fn word_round_trip_is_little_endian() {
    let mut mmu = MMU::new();
    mmu.write_word(0xDFFF, 0xA1B2);
    assert_eq!(mmu.read_word(0xDFFF), 0xA1B2);
    assert_eq!(mmu.read(0xDFFF), 0xB2);
    assert_eq!(mmu.read(0xE000), 0xA1);
    mmu.write_word(0x8000, 0x0102);
    assert_eq!(mmu.read_word(0x8000), 0x0102);
}

#[test]
fn firmware_overlay_ends_at_0x0100() {
    let mut firmware = vec![0u8; BIOS_SIZE];
    firmware[0x50] = 0xAA;
    let mut rom = vec![0u8; ROM_SIZE];
    rom[0x50] = 0xBB;
    rom[0x100] = 0xCC;
    let mut mmu = match MMU::with_images(firmware, rom) {
        Ok(m) => m,
        Err(_) => panic!("images of the right size were refused"),
    };
    assert_eq!(mmu.read(0x0050), 0xAA);
    assert_eq!(mmu.read(0x00FF), 0x00);
    assert_eq!(mmu.read(0x0050), 0xAA);
    assert_eq!(mmu.read(0x0100), 0xCC);
    assert_eq!(mmu.read(0x0050), 0xBB);
}

#[test]
fn writes_under_the_overlay_are_dropped() {
    let mut mmu = MMU::new();
    mmu.write_byte(0x0010, 0x33);
    assert_eq!(mmu.read(0x0010), 0x00);
    mmu.read(0x0100);
    assert_eq!(mmu.read(0x0010), 0x00);
    mmu.write_byte(0x0010, 0x33);
    assert_eq!(mmu.read(0x0010), 0x33);
}

#[test]
fn images_of_the_wrong_size_are_refused() {
    let bad = MMU::with_images(vec![0u8; 10], vec![0u8; ROM_SIZE]);
    assert!(matches!(bad, Err(ImageError::FirmwareSize)));
    let bad = MMU::with_images(vec![0u8; BIOS_SIZE], vec![0u8; 10]);
    assert!(matches!(bad, Err(ImageError::RomSize)));
    let bad = MMU::with_images(vec![0u8; 1], vec![0u8; 1]);
    assert!(matches!(bad, Err(ImageError::FirmwareSize)));
}

#[test]
fn video_and_zero_page_regions_keep_their_bytes() {
    let mut mmu = MMU::new();
    mmu.write_byte(0x8001, 0x11);
    assert_eq!(mmu.read(0x8001), 0x11);
    assert_eq!(mmu.gpu.vram[1], 0x11);
    mmu.write_byte(0xFE10, 0x22);
    assert_eq!(mmu.read(0xFE10), 0x22);
    assert_eq!(mmu.gpu.oam[0x10], 0x22);
    mmu.write_byte(0xFF80, 0x33);
    assert_eq!(mmu.read(0xFF80), 0x33);
    mmu.write_byte(0xA005, 0x44);
    assert_eq!(mmu.read(0xA005), 0x44);
}

#[test]
fn unusable_and_io_regions_read_zero() {
    let mut mmu = MMU::new();
    mmu.write_byte(0xFEA0, 0x55);
    assert_eq!(mmu.read(0xFEA0), 0x00);
    mmu.write_byte(0xFF00, 0x66);
    assert_eq!(mmu.read(0xFF00), 0x00);
    mmu.write_byte(0xFF7F, 0x77);
    assert_eq!(mmu.read(0xFF7F), 0x00);
}

#[test]
fn every_opcode_moves_the_clock_forward() {
    let mut cpu = Z80::new();
    cpu.regs.pc = 0xC000;
    for op in 0..=255u8 {
        let (m, t) = cpu.elapsed_cycles();
        cpu.call(op);
        assert!(cpu.clock.m > m);
        assert!(cpu.clock.t > t);
        assert_eq!(cpu.clock.t, 4 * cpu.clock.m);
    }
}

#[test]
fn loading_b_into_a_takes_four_cycles() {
    let mut cpu = Z80::new();
    cpu.regs.pc = 0xC000;
    cpu.mmu.write_byte(0xC000, 0x06); // LD b,n
    cpu.mmu.write_byte(0xC001, 0x01);
    cpu.mmu.write_byte(0xC002, 0x78); // LD a,b
    assert_eq!(cpu.step(), 0x06);
    assert_eq!(cpu.regs.b, 0x01);
    assert_eq!(cpu.regs.pc, 0xC002);
    let t = cpu.clock.t;
    cpu.step();
    assert_eq!(cpu.regs.a, 0x01);
    assert_eq!(cpu.clock.t, t + 4);
    assert_eq!(cpu.regs.pc, 0xC003);
}

#[test]
fn opcodes_without_a_handler_only_take_time() {
    let mut cpu = Z80::new();
    cpu.regs.a = 0x12;
    cpu.regs.pc = 0xC000;
    cpu.call(0xD3);
    assert_eq!(cpu.regs.a, 0x12);
    assert_eq!(cpu.regs.pc, 0xC000);
    assert_eq!(cpu.regs.f, 0);
    assert_eq!(cpu.clock.t, 4);
}

#[test]
fn dispatch_reaches_the_handlers() {
    let mut cpu = Z80::new();
    cpu.regs.sp = 0x00FF;
    cpu.call(0x33); // INC SP
    assert_eq!(cpu.regs.sp, 0x0100);
    cpu.regs.a = 0x01;
    cpu.regs.h = 0xC0;
    cpu.regs.l = 0x10;
    cpu.call(0x77); // LD (HL),a
    assert_eq!(cpu.mmu.read(0xC010), 0x01);
    cpu.call(0x86); // ADD A,(HL)
    assert_eq!(cpu.regs.a, 0x02);
    cpu.call(0x3F); // CCF
    assert!(cpu.flag_is_set(CARRY));
    assert_eq!(cpu.clock.t, 8 + 8 + 8 + 4);
}

#[test]
fn adc_adds_the_carry_held_before_the_instruction() {
    let mut cpu = Z80::new();
    cpu.set_flag(CARRY);
    cpu.regs.a = 0x01;
    cpu.regs.c = 0x01;
    cpu.ADCr_c();
    assert_eq!(cpu.regs.a, 0x03);
    assert!(!cpu.flag_is_set(CARRY));
    // a carry produced by the addition itself adds nothing
    cpu.regs.a = 0xFF;
    cpu.regs.c = 0x02;
    cpu.ADCr_c();
    assert_eq!(cpu.regs.a, 0x01);
    assert!(cpu.flag_is_set(CARRY));
}

#[test]
fn adc_wraps_without_recomputing_flags() {
    let mut cpu = Z80::new();
    cpu.set_flag(CARRY);
    cpu.regs.a = 0xFF;
    cpu.regs.b = 0x00;
    cpu.ADCr_b();
    assert_eq!(cpu.regs.a, 0x00);
    assert_eq!(cpu.regs.f, 0x00);
}

#[test]
fn handled_opcodes_are_reported() {
    assert!(Z80::has_handler(0x78));
    assert!(Z80::has_handler(0x00));
    assert!(Z80::has_handler(0xCE));
    assert!(Z80::has_handler(0x36));
    assert!(!Z80::has_handler(0x76));
    assert!(!Z80::has_handler(0xD3));
    assert!(!Z80::has_handler(0xCB));
    assert!(!Z80::has_handler(0x90));
}

#[test]
fn the_prefix_consumes_the_extended_opcode() {
    let mut cpu = Z80::new();
    cpu.regs.pc = 0xC000;
    cpu.regs.a = 0x12;
    cpu.mmu.write_byte(0xC000, 0xCB);
    cpu.mmu.write_byte(0xC001, 0x37);
    cpu.mmu.write_byte(0xC002, 0x00);
    let op = cpu.step();
    assert_eq!(op, 0xCB);
    assert_eq!(cpu.regs.pc, 0xC002);
    assert_eq!(cpu.regs.a, 0x12);
    assert_eq!(cpu.clock.t, 4);
    cpu.call_extended(0x37);
    assert_eq!(cpu.regs.pc, 0xC002);
    assert_eq!(cpu.clock.t, 8);
}

#[test]
fn ccf_keeps_the_other_flags() {
    let mut cpu = Z80::new();
    cpu.set_flag(ZERO);
    cpu.CCF();
    assert!(cpu.flag_is_set(ZERO));
    assert!(cpu.flag_is_set(CARRY));
}

#[test]
fn ldi_increments_hl_across_a_byte_boundary() {
    let mut cpu = Z80::new();
    cpu.regs.set_hl(0xC0FF);
    cpu.regs.a = 0x09;
    cpu.LDIHLmA();
    assert_eq!(cpu.regs.hl(), 0xC100);
    assert_eq!(cpu.mmu.read(0xC0FF), 0x09);
}

#[test]
fn reset_zeroes_registers_and_clock_together() {
    let mut cpu = Z80::new();
    cpu.regs.a = 3;
    cpu.regs.pc = 0xC000;
    cpu.mmu.write_byte(0xC000, 0x21);
    cpu.NOP();
    cpu.reset();
    assert_eq!(cpu.regs.a, 0);
    assert_eq!(cpu.regs.pc, 0);
    assert_eq!(cpu.elapsed_cycles(), (0, 0));
    assert_eq!(cpu.mmu.read(0xC000), 0x21);
}
