use rugb::cartridge::Cartridge;
use rugb::cartridge::huc3::{Huc3, CYCLES_PER_MINUTE};

fn cart(num_banks: usize) -> Huc3 {
    let rom = vec![0u8; num_banks * 0x4000];
    Huc3::new(&rom, 0x2000, String::from("TEST"), true)
}


#[test]
fn huc3_rom_bank_0_maps_to_1() {
    let mut c = cart(4);
    c.write(0x2000, 0x00);
    assert_eq!(c.rom_bank, 1);
}


#[test]
fn ram_access_when_enabled() {
    let mut c = cart(2);
    c.write(0x0000, 0x0A);
    c.write(0xA000, 0x42);
    assert_eq!(c.read(0xA000), 0x42);
}


#[test]
fn huc3_ram_disabled_returns_0xff() {
    let c = cart(2);
    assert_eq!(c.read(0xA000), 0xFF);
}


#[test]
fn rtc_ticks_advance_minutes() {
    let mut c = cart(2);
    assert_eq!(c.rtc_minutes, 0);
    c.tick_rtc(CYCLES_PER_MINUTE);
    assert_eq!(c.rtc_minutes, 1);
    c.tick_rtc(CYCLES_PER_MINUTE * 5);
    assert_eq!(c.rtc_minutes, 6);
}


#[test]
fn huc3_save_load_roundtrip() {
    let mut c = cart(4);
    c.write(0x0000, 0x0A);
    c.write(0x2000, 0x03);
    c.write(0xA000, 0xBB);
    c.tick_rtc(CYCLES_PER_MINUTE * 10);

    let mut buf = Vec::new();
    c.save_state(&mut buf);

    let mut c2 = cart(4);
    let mut slice: &[u8] = &buf;
    c2.load_state(&mut slice);

    assert_eq!(c2.rom_bank, 3);
    assert_eq!(c2.rtc_minutes, 10);
    assert_eq!(c2.read(0xA000), 0xBB);
}
