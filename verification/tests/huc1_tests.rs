use rugb::cartridge::Cartridge;
use rugb::cartridge::huc1::Huc1;

fn make_rom(num_banks: usize) -> Vec<u8> {
    let mut rom = vec![0u8; num_banks * 0x4000];
    for bank in 0..num_banks {
        let start = bank * 0x4000;
        for byte in &mut rom[start..start + 0x4000] {
            *byte = bank as u8;
        }
    }
    rom
}

fn cart(num_banks: usize) -> Huc1 {
    let rom = make_rom(num_banks);
    Huc1::new(&rom, 0x2000, String::from("TEST"), true)
}


#[test]
fn huc1_rom_bank_0_maps_to_1() {
    let mut c = cart(4);
    c.write(0x2000, 0x00);
    assert_eq!(c.rom_bank, 1);
}


#[test]
fn rom_bank_6bit_mask() {
    let mut c = cart(4);
    c.write(0x2000, 0x42); // 0x42 & 0x3F = 0x02
    assert_eq!(c.rom_bank, 2);
}


#[test]
fn ram_enabled_by_0x0a() {
    let mut c = cart(2);
    c.write(0x0000, 0x0A);
    assert!(c.ram_enabled);
    assert!(!c.ir_mode);
    assert_eq!(c.read(0xA000), 0x00);
}


#[test]
fn ir_mode_returns_0xc0() {
    let mut c = cart(2);
    c.write(0x0000, 0x0E);
    assert!(c.ir_mode);
    assert!(!c.ram_enabled);
    assert_eq!(c.read(0xA000), 0xC0);
}


#[test]
fn huc1_save_load_roundtrip() {
    let mut c = cart(4);
    c.write(0x0000, 0x0A);
    c.write(0x2000, 0x03);
    c.write(0xA000, 0xBB);

    let mut buf = Vec::new();
    c.save_state(&mut buf);

    let mut c2 = cart(4);
    let mut slice: &[u8] = &buf;
    c2.load_state(&mut slice);

    assert_eq!(c2.rom_bank, 3);
    assert!(c2.ram_enabled);
    assert_eq!(c2.read(0xA000), 0xBB);
}
