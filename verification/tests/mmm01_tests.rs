use rugb::cartridge::Cartridge;
use rugb::cartridge::mmm01::Mmm01;

fn make_rom(num_banks: usize) -> Vec<u8> {
    let mut rom = vec![0u8; num_banks * 0x4000];
    for bank in 0..num_banks {
        let start = bank * 0x4000;
        for byte in &mut rom[start..start + 0x4000] {
            *byte = bank as u8;
        }
    }
    rom
}


#[test]
fn outer_mode_reads_last_banks() {
    let rom = make_rom(8);
    let c = Mmm01::new(&rom, 0x2000, String::from("TEST"), false);
    // Bank 0 should read from second-to-last bank (6)
    assert_eq!(c.read(0x0000), 6);
    // Bank 1 should read from last bank (7)
    assert_eq!(c.read(0x4000), 7);
}


#[test]
fn mapping_activate() {
    let rom = make_rom(8);
    let mut c = Mmm01::new(&rom, 0x2000, String::from("TEST"), false);
    assert!(!c.mapping_active);
    c.write(0x0000, 0x01);
    assert!(c.mapping_active);
}


#[test]
fn inner_mode_bank_switching() {
    let rom = make_rom(8);
    let mut c = Mmm01::new(&rom, 0x2000, String::from("TEST"), false);
    c.write(0x0000, 0x01); // activate
    c.write(0x2000, 0x03); // select inner bank 3
    assert_eq!(c.read(0x4000), 3);
}


#[test]
fn mmm01_save_load_roundtrip() {
    let rom = make_rom(8);
    let mut c = Mmm01::new(&rom, 0x2000, String::from("TEST"), false);
    c.write(0x0000, 0x01);
    c.write(0x2000, 0x05);

    let mut buf = Vec::new();
    c.save_state(&mut buf);

    let mut c2 = Mmm01::new(&rom, 0x2000, String::from("TEST"), false);
    let mut slice: &[u8] = &buf;
    c2.load_state(&mut slice);

    assert!(c2.mapping_active);
    assert_eq!(c2.inner_rom_bank, 5);
}
