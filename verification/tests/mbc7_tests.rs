use rugb::cartridge::Cartridge;
use rugb::cartridge::mbc7::{Mbc7, Eeprom93c56, ACCEL_CENTER};

fn make_rom(num_banks: usize) -> Vec<u8> {
    let mut rom = vec![0u8; num_banks * 0x4000];
    for bank in 0..num_banks {
        let start = bank * 0x4000;
        for byte in &mut rom[start..start + 0x4000] {
            *byte = bank as u8;
        }
    }
    rom
}

fn cart(num_banks: usize) -> Mbc7 {
    let rom = make_rom(num_banks);
    Mbc7::new(&rom, String::from("TEST"), true)
}

fn enable_sensors(c: &mut Mbc7) {
    c.write(0x0000, 0x0A);
    c.write(0x4000, 0x40);
}


#[test]
fn rom_bank_9bit() {
    let mut c = cart(4);
    c.write(0x2000, 0x03);
    assert_eq!(c.rom_bank, 3);
    assert_eq!(c.read(0x4000), 3);
}


#[test]
fn not_readable_without_both_enables() {
    let mut c = cart(2);
    c.write(0x0000, 0x0A); // step 1 only
    assert_eq!(c.read(0xA020), 0xFF);
}


#[test]
fn accelerometer_latch_and_read() {
    let mut c = cart(2);
    enable_sensors(&mut c);
    c.set_tilt(100, -50);
    c.write(0xA000, 0x55); // latch
    let x = c.read(0xA020) as u16 | (c.read(0xA030) as u16) << 8;
    let y = c.read(0xA040) as u16 | (c.read(0xA050) as u16) << 8;
    assert_eq!(x, ACCEL_CENTER.wrapping_add(100));
    assert_eq!(y, ACCEL_CENTER.wrapping_sub(50));
}


#[test]
fn eeprom_write_enable() {
    let mut c = cart(2);
    enable_sensors(&mut c);
    // EWEN command: start(1) + opcode(00) + addr(11xxxxx) = 10011xxxxx
    // 10 bits: 1_00_1100000 = 0b1001100000 = 0x260 shifted into SPI
    // We need to clock in 10 bits via CS/SK/DI
    let eeprom_addr = 0xA080;
    // Assert CS
    c.write(eeprom_addr, 0x80); // CS=1, SK=0
                                // Clock in: 1 0 0 1 1 0 0 0 0 0 (start=1, op=00, addr=1100000)
    let bits: [bool; 10] = [
        true, false, false, true, true, false, false, false, false, false,
    ];
    for &bit in &bits {
        let di = if bit { 0x02 } else { 0x00 };
        c.write(eeprom_addr, 0x80 | di); // SK=0
        c.write(eeprom_addr, 0xC0 | di); // SK=1 (rising edge)
    }
    assert!(c.eeprom.write_enabled);
}


#[test]
fn eeprom_read() {
    let mut c = cart(2);
    enable_sensors(&mut c);
    // Pre-fill EEPROM word 0 with 0xABCD
    c.eeprom.data[0] = 0xAB;
    c.eeprom.data[1] = 0xCD;

    let eeprom_addr = 0xA080;
    // READ command: start(1) + opcode(10) + addr(0000000) = 1_10_0000000
    c.write(eeprom_addr, 0x80); // CS=1
    let bits: [bool; 10] = [
        true, true, false, false, false, false, false, false, false, false,
    ];
    for &bit in &bits {
        let di = if bit { 0x02 } else { 0x00 };
        c.write(eeprom_addr, 0x80 | di);
        c.write(eeprom_addr, 0xC0 | di);
    }
    // Now clock out 16 data bits
    let mut result: u16 = 0;
    for i in 0..16 {
        c.write(eeprom_addr, 0x80); // SK=0
        c.write(eeprom_addr, 0xC0); // SK=1 → read DO
        let do_bit = c.read(eeprom_addr) & 0x01;
        result |= (do_bit as u16) << (15 - i);
    }
    assert_eq!(result, 0xABCD);
}


#[test]
fn mbc7_save_load_roundtrip() {
    let mut c = cart(4);
    c.write(0x2000, 0x05);
    c.set_tilt(200, -100);
    c.eeprom.data[0] = 0x42;

    let mut buf = Vec::new();
    c.save_state(&mut buf);

    let mut c2 = cart(4);
    let mut slice: &[u8] = &buf;
    c2.load_state(&mut slice);

    assert_eq!(c2.rom_bank, 5);
    assert_eq!(c2.tilt_x, 200);
    assert_eq!(c2.tilt_y, -100);
    assert_eq!(c2.eeprom.data[0], 0x42);
}

/// Clock `bits` into the EEPROM with CS held high.
fn clock_bits(c: &mut Mbc7, bits: &[bool]) {
    for &bit in bits {
        let di = if bit { 0x02 } else { 0x00 };
        c.write(0xA080, 0x80 | di);
        c.write(0xA080, 0xC0 | di);
    }
}

fn word_bits(v: u32, n: u32) -> Vec<bool> {
    (0..n).rev().map(|i| (v >> i) & 1 != 0).collect()
}

#[test]
fn eeprom_write_then_read_word() {
    let mut c = cart(2);
    enable_sensors(&mut c);
    // EWEN
    c.write(0xA080, 0x80);
    clock_bits(&mut c, &word_bits(0b1_00_1100000, 10));
    c.write(0xA080, 0x00);
    assert!(c.eeprom.write_enabled);
    // WRITE address 5 with 0xBEEF: start 1, opcode 01, address, then 16 data bits
    c.write(0xA080, 0x80);
    let mut cmd = word_bits(0b1_01_0000101, 10);
    cmd.extend(word_bits(0xBEEF, 16));
    clock_bits(&mut c, &cmd);
    c.write(0xA080, 0x00);
    assert_eq!(c.eeprom.data[10], 0xBE);
    assert_eq!(c.eeprom.data[11], 0xEF);
    assert_eq!(c.eeprom.data[12], 0xFF);
    // READ address 5: a dummy 0 then the 16 bits, most significant first
    c.write(0xA080, 0x80);
    clock_bits(&mut c, &word_bits(0b1_10_0000101, 10));
    assert_eq!(c.eeprom.read_byte() & 1, 0);
    let mut word = 0u16;
    for _ in 0..16 {
        c.write(0xA080, 0x80);
        c.write(0xA080, 0xC0);
        word = (word << 1) | (c.eeprom.read_byte() & 1) as u16;
    }
    assert_eq!(word, 0xBEEF);
}
