use gb::mmu::MMU;

#[test]
fn test_writing_a_byte() {
    let mut mmu = MMU::new();
    mmu.write_byte(0xC001, 0x05);
    assert_eq!(mmu.read(0xC001), 0x05);
    mmu.write_byte(0xFFFF, 0x05);
    assert_eq!(mmu.read(0xFFFF), 0x05);
}

#[test]
fn test_writing_a_word() {
    let mut mmu = MMU::new();
    mmu.write_word(0xC001, 0x0605);
    assert_eq!(mmu.read(0xC001), 0x05);
    assert_eq!(mmu.read(0xC002), 0x06);
}

#[test]
fn test_reading_a_word() {
    let mut mmu = MMU::new();
    mmu.write_word(0xC001, 0x0605);
    assert_eq!(mmu.read_word(0xC001), 0x0605);
}
