fn make_cgb_rom(cart_type: u8) -> Vec<u8> {
    let mut rom = vec![0x76u8; 0x8000]; // HALT sled
    rom[0x143] = 0x80; // CGB compatible flag
    rom[0x147] = cart_type;
    rom[0x148] = 0x00; // 32KB ROM
    rom[0x149] = 0x02; // 8KB RAM
    rom
}

#[test]
fn test_cgb_detection() {
    let rom = make_cgb_rom(0x00);
    assert!(rugb::cartridge::is_cgb(&rom));

    // DMG-only ROM
    let mut dmg_rom = vec![0x76u8; 0x8000];
    dmg_rom[0x143] = 0x00;
    assert!(!rugb::cartridge::is_cgb(&dmg_rom));
}

#[test]
fn test_cgb_only_detection() {
    let mut rom = vec![0x76u8; 0x8000];
    rom[0x143] = 0xC0; // CGB only
    assert!(rugb::cartridge::is_cgb(&rom));
}
