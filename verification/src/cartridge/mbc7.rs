//! MBC7 mapper (cart type 0x22) — used by Kirby Tilt 'n' Tumble.
//! MBC5-style ROM banking, an accelerometer, and a 93C56 EEPROM (256 bytes).
use vstd::prelude::*;
use crate::savestate::{lemma_take_u8, lemma_take_u16, lemma_take_u32, lemma_take_i16, lemma_take_bool, lemma_take_vec, MAX_VEC_LEN as VEC_CAP};
use super::{Cartridge, rom_byte, bank_count, read_rom_banked, wrap_bank, ram_loaded};
use crate::savestate::{push_bool, push_u16, push_i16, push_slice, pop_bool, pop_u16, pop_i16, pop_vec,
    take_bool, take_u16, take_i16, take_vec, enc_bool, enc_slice, le16, u16_of_i16};

verus! {

pub const ACCEL_CENTER: u16 = 0x81D0;

/// 93C56-compatible EEPROM (128 × 16-bit = 256 bytes), bit-banged over SPI.
pub struct Eeprom93c56 {
    pub data: [u8; 256],
    pub cs: bool,
    pub sk: bool,
    pub di: bool,
    pub do_out: bool,
    pub write_enabled: bool,
    /// Command shift register
    pub bits_in: u32,
    pub bit_count: u8,
    pub reading: bool,
    pub read_data: u16,
    pub read_bit: u8,
}

/// The bit shifted out of a 16-bit word during read-out (most significant first).
pub open spec fn out_bit(word: u16, read_bit: u8) -> bool {
    if read_bit < 16 { (word >> ((15 - read_bit) as u16)) & 1 != 0 } else { word & 1 != 0 }
}

/// The 10-bit command (start bit, opcode, address) in a shift register
/// holding `count` >= 10 bits: the data bits of a WRITE or WRAL follow it,
/// so it sits `count - 10` bits up.
pub open spec fn command_of(bits: u32, count: u8) -> u32 {
    let sh = (count - 10) as u32;
    if sh < 32 { bits >> sh } else { 0 }
}

impl Eeprom93c56 {
    /// While a word is being shifted out, fewer than 16 of its bits have gone.
    pub open spec fn wf(&self) -> bool {
        self.reading ==> self.read_bit < 16
    }

    pub open spec fn read_byte_spec(&self) -> u8 {
        ((if self.do_out { 0x01u8 } else { 0 }) | (if self.di { 0x02u8 } else { 0 })
            | (if self.sk { 0x40u8 } else { 0 }) | (if self.cs { 0x80u8 } else { 0 })) as u8
    }

    /// The shift register after one more input bit.
    pub open spec fn shifted(&self) -> u32 {
        (self.bits_in << 1u32) | (if self.di { 1u32 } else { 0u32 })
    }

    /// Register effect of a complete command held in the shift register.
    pub open spec fn command_regs(&self, bits: u32, count: u8) -> Eeprom93c56 {
        let cmd = command_of(bits, count);
        let opcode = (cmd >> 7u32) & 0x03;
        let addr = cmd & 0x7F;
        let cleared = Eeprom93c56 { bit_count: 0, bits_in: 0, ..*self };
        if count == 10 && (cmd >> 9u32) & 1 != 1 {
            cleared
        } else if opcode == 2 {
            let byte_addr = (addr * 2) as int;
            Eeprom93c56 {
                read_data: (self.data@[byte_addr] * 256 + self.data@[byte_addr + 1]) as u16,
                read_bit: 0,
                reading: true,
                do_out: false,
                bits_in: bits,
                bit_count: count,
                ..*self
            }
        } else if opcode == 1 {
            if count < 26 { Eeprom93c56 { bits_in: bits, bit_count: count, ..*self } } else { cleared }
        } else if opcode == 3 {
            cleared
        } else {
            let sub = (addr >> 5u32) & 0x03;
            if sub == 3 {
                Eeprom93c56 { write_enabled: true, ..cleared }
            } else if sub == 0 {
                Eeprom93c56 { write_enabled: false, ..cleared }
            } else if sub == 1 && count < 26 {
                Eeprom93c56 { bits_in: bits, bit_count: count, ..*self }
            } else {
                cleared
            }
        }
    }

    /// Data effect of a complete command held in the shift register.
    pub open spec fn command_data(&self, bits: u32, count: u8) -> Seq<u8> {
        let cmd = command_of(bits, count);
        let opcode = (cmd >> 7u32) & 0x03;
        let addr = cmd & 0x7F;
        let byte_addr = (addr * 2) as int;
        let word = bits & 0xFFFF;
        if (count == 10 && (cmd >> 9u32) & 1 != 1) || !self.write_enabled {
            self.data@
        } else if opcode == 1 && count >= 26 {
            self.data@.update(byte_addr, (word / 256) as u8).update(byte_addr + 1, (word % 256) as u8)
        } else if opcode == 3 {
            self.data@.update(byte_addr, 0xFF).update(byte_addr + 1, 0xFF)
        } else if opcode == 0 && (addr >> 5u32) & 0x03 == 2 {
            Seq::new(256, |i: int| 0xFFu8)
        } else if opcode == 0 && (addr >> 5u32) & 0x03 == 1 && count >= 26 {
            Seq::new(256, |i: int| if i % 2 == 0 { (word / 256) as u8 } else { (word % 256) as u8 })
        } else {
            self.data@
        }
    }

    /// Register effect of a write to the control byte (CS bit 7, SK bit 6, DI bit 1).
    pub open spec fn write_regs(&self, val: u8) -> Eeprom93c56 {
        let new_cs = val & 0x80 != 0;
        let new_sk = val & 0x40 != 0;
        let di = val & 0x02 != 0;
        if !new_cs {
            Eeprom93c56 { di, cs: false, sk: false, bit_count: 0, bits_in: 0, reading: false, do_out: true, ..*self }
        } else {
            let s = Eeprom93c56 { di, cs: true, sk: new_sk, ..*self };
            if !(new_sk && !self.sk) {
                s
            } else if self.reading {
                let rb = if self.read_bit < 255 { (self.read_bit + 1) as u8 } else { 255u8 };
                if rb >= 16 {
                    Eeprom93c56 { read_bit: rb, reading: false, do_out: true, ..s }
                } else {
                    Eeprom93c56 { read_bit: rb, do_out: out_bit(self.read_data, self.read_bit), ..s }
                }
            } else {
                let bits = s.shifted();
                let count = if self.bit_count < 255 { (self.bit_count + 1) as u8 } else { 0u8 };
                if count < 10 {
                    Eeprom93c56 { bits_in: bits, bit_count: count, ..s }
                } else {
                    s.command_regs(bits, count)
                }
            }
        }
    }

    /// Data effect of a write to the control byte.
    pub open spec fn write_data(&self, val: u8) -> Seq<u8> {
        let new_sk = val & 0x40 != 0;
        let s = Eeprom93c56 { di: val & 0x02 != 0, cs: true, sk: new_sk, ..*self };
        let count = if self.bit_count < 255 { (self.bit_count + 1) as u8 } else { 0u8 };
        if val & 0x80 != 0 && new_sk && !self.sk && !self.reading && count >= 10 {
            s.command_data(s.shifted(), count)
        } else {
            self.data@
        }
    }

    pub fn new() -> (r: Self)
        ensures
            r.data@ == Seq::new(256, |i: int| 0xFFu8),
            !r.cs && !r.sk && !r.di && r.do_out && !r.write_enabled,
            r.bits_in == 0 && r.bit_count == 0 && !r.reading && r.read_data == 0 && r.read_bit == 0,
    {
        let data = [0xFFu8; 256];
        assert(data@ =~= Seq::new(256, |i: int| 0xFFu8));
        Eeprom93c56 {
            data,
            cs: false,
            sk: false,
            di: false,
            do_out: true,
            write_enabled: false,
            bits_in: 0,
            bit_count: 0,
            reading: false,
            read_data: 0,
            read_bit: 0,
        }
    }

    pub fn read_byte(&self) -> (r: u8)
        ensures r == self.read_byte_spec(),
    {
        let mut val = 0u8;
        if self.do_out {
            val |= 0x01;
        }
        if self.di {
            val |= 0x02;
        }
        if self.sk {
            val |= 0x40;
        }
        if self.cs {
            val |= 0x80;
        }
        let (a, b, c, d) = (self.do_out, self.di, self.sk, self.cs);
        assert(val == ((if a { 0x01u8 } else { 0 }) | (if b { 0x02u8 } else { 0 })
            | (if c { 0x40u8 } else { 0 }) | (if d { 0x80u8 } else { 0 }))) by (bit_vector)
            requires val == ({
                let v1 = if a { 0u8 | 0x01u8 } else { 0u8 };
                let v2 = if b { v1 | 0x02u8 } else { v1 };
                let v3 = if c { v2 | 0x40u8 } else { v2 };
                if d { v3 | 0x80u8 } else { v3 }
            });
        val
    }

    /// Clock one control byte into the EEPROM. A counter that reaches its
    /// limit wraps rather than overflowing.
    pub fn write_byte(&mut self, val: u8)
        ensures
            final(self).data@ == old(self).write_data(val),
            *final(self) == (Eeprom93c56 { data: final(self).data, ..old(self).write_regs(val) }),
            old(self).wf() ==> final(self).wf(),
    {
        let new_cs = val & 0x80 != 0;
        let new_sk = val & 0x40 != 0;
        self.di = val & 0x02 != 0;

        if !new_cs {
            self.cs = false;
            self.sk = false;
            self.bit_count = 0;
            self.bits_in = 0;
            self.reading = false;
            self.do_out = true;
            return;
        }

        let rising_edge = new_sk && !self.sk;
        self.cs = new_cs;
        self.sk = new_sk;

        if !rising_edge {
            return;
        }

        if self.reading {
            let rd = self.read_data;
            let rb = self.read_bit;
            self.do_out = if rb < 16 { (rd >> ((15 - rb) as u16)) & 1 != 0 } else { rd & 1 != 0 };
            self.read_bit = if rb < 255 { rb + 1 } else { 255 };
            if self.read_bit >= 16 {
                self.reading = false;
                self.do_out = true;
            }
            return;
        }

        self.bits_in = (self.bits_in << 1u32) | (if self.di { 1u32 } else { 0u32 });
        self.bit_count = if self.bit_count < 255 { self.bit_count + 1 } else { 0 };

        if self.bit_count < 10 {
            return;
        }

        let bits = self.bits_in;
        // The command sits above the data bits gathered after it.
        let sh = (self.bit_count - 10) as u32;
        let cmd = if sh < 32 { bits >> sh } else { 0 };
        if self.bit_count == 10 && (cmd >> 9u32) & 1 != 1 {
            self.bit_count = 0;
            self.bits_in = 0;
            return;
        }

        let opcode = (cmd >> 7u32) & 0x03;
        let addr = cmd & 0x7F;
        assert(addr < 128 && opcode < 4 && (addr >> 5u32) & 0x03 < 4 && bits & 0xFFFF <= 0xFFFF) by (bit_vector)
            requires addr == cmd & 0x7F, opcode == (cmd >> 7u32) & 0x03;
        let byte_addr = addr as usize * 2;

        if opcode == 2 {
            let hi = self.data[byte_addr];
            let lo = self.data[byte_addr + 1];
            self.read_data = hi as u16 * 256 + lo as u16;
            self.read_bit = 0;
            self.reading = true;
            self.do_out = false;
        } else if opcode == 1 {
            if self.bit_count < 26 {
                return;
            }
            if self.write_enabled {
                let data_word = bits & 0xFFFF;
                self.data[byte_addr] = (data_word / 256) as u8;
                self.data[byte_addr + 1] = (data_word % 256) as u8;
            }
            self.bit_count = 0;
            self.bits_in = 0;
        } else if opcode == 3 {
            if self.write_enabled {
                self.data[byte_addr] = 0xFF;
                self.data[byte_addr + 1] = 0xFF;
            }
            self.bit_count = 0;
            self.bits_in = 0;
        } else {
            let sub = (addr >> 5u32) & 0x03;
            if sub == 3 {
                self.write_enabled = true;
            } else if sub == 0 {
                self.write_enabled = false;
            } else if sub == 2 {
                if self.write_enabled {
                    let ghost pre = *self;
                    let mut i: usize = 0;
                    while i < 256
                        invariant
                            i <= 256,
                            *self == (Eeprom93c56 { data: self.data, ..pre }),
                            forall|j: int| 0 <= j < i ==> self.data@[j] == 0xFF,
                        decreases 256 - i,
                    {
                        self.data[i] = 0xFF;
                        i = i + 1;
                    }
                    assert(self.data@ =~= Seq::new(256, |i: int| 0xFFu8));
                }
            } else {
                if self.bit_count < 26 {
                    return;
                }
                if self.write_enabled {
                    let data_word = bits & 0xFFFF;
                    let hi = (data_word / 256) as u8;
                    let lo = (data_word % 256) as u8;
                    let ghost pre = *self;
                    let mut i: usize = 0;
                    while i < 256
                        invariant
                            i <= 256,
                            i % 2 == 0,
                            *self == (Eeprom93c56 { data: self.data, ..pre }),
                            forall|j: int| 0 <= j < i ==> self.data@[j] == (if j % 2 == 0 { hi } else { lo }),
                        decreases 256 - i,
                    {
                        self.data[i] = hi;
                        self.data[i + 1] = lo;
                        i = i + 2;
                    }
                    assert(self.data@ =~= Seq::new(256, |i: int| if i % 2 == 0 { hi } else { lo }));
                }
            }
            self.bit_count = 0;
            self.bits_in = 0;
        }
    }
}

pub struct Mbc7 {
    pub rom: Vec<u8>,
    pub title: String,
    pub battery: bool,
    pub rom_bank: u16,
    /// Two-step RAM/sensor enable
    pub ram_enable_1: bool,
    pub ram_enable_2: bool,
    /// Latched accelerometer value (centre = 0x81D0)
    pub accel_x: u16,
    pub accel_y: u16,
    pub accel_latched: bool,
    /// Raw tilt input from the host
    pub tilt_x: i16,
    pub tilt_y: i16,
    pub eeprom: Eeprom93c56,
}

/// The accelerometer reading for a tilt: centre plus tilt, clamped to 16 bits.
pub open spec fn accel_of(tilt: i16) -> u16 {
    let v = ACCEL_CENTER + tilt;
    if v < 0 { 0 } else if v > 0xFFFF { 0xFFFF } else { v as u16 }
}

impl Mbc7 {
    pub open spec fn rom_bank_spec(&self) -> nat {
        (self.rom_bank as nat) % bank_count(self.rom@.len())
    }

    pub open spec fn enabled_spec(&self) -> bool {
        self.ram_enable_1 && self.ram_enable_2
    }

    pub open spec fn write_regs(&self, addr: u16, val: u8) -> Mbc7 {
        if addr <= 0x1FFF {
            Mbc7 { ram_enable_1: val == 0x0A, ram_enable_2: if val == 0x0A { self.ram_enable_2 } else { false }, ..*self }
        } else if addr <= 0x2FFF {
            Mbc7 { rom_bank: (self.rom_bank & 0x100) | (val as u16), ..*self }
        } else if addr <= 0x3FFF {
            Mbc7 { rom_bank: (self.rom_bank & 0xFF) | ((((val & 0x01) as u16) * 256) as u16), ..*self }
        } else if addr <= 0x5FFF {
            Mbc7 { ram_enable_2: val == 0x40, ..*self }
        } else {
            *self
        }
    }

    pub fn new(data: &[u8], title: String, battery: bool) -> (r: Self)
        ensures
            r.rom@ == data@,
            r.title == title && r.battery == battery,
            r.rom_bank == 1 && !r.ram_enable_1 && !r.ram_enable_2,
            r.accel_x == ACCEL_CENTER && r.accel_y == ACCEL_CENTER && !r.accel_latched,
            r.tilt_x == 0 && r.tilt_y == 0,
            r.eeprom.data@ == Seq::new(256, |i: int| 0xFFu8),
            r.eeprom.wf() && !r.eeprom.write_enabled,
    {
        Mbc7 {
            rom: vstd::slice::slice_to_vec(data),
            title,
            battery,
            rom_bank: 1,
            ram_enable_1: false,
            ram_enable_2: false,
            accel_x: ACCEL_CENTER,
            accel_y: ACCEL_CENTER,
            accel_latched: false,
            tilt_x: 0,
            tilt_y: 0,
            eeprom: Eeprom93c56::new(),
        }
    }

    pub fn effective_rom_bank(&self) -> (r: usize)
        ensures r == self.rom_bank_spec(), r < bank_count(self.rom@.len()),
    {
        wrap_bank(self.rom_bank as usize, self.rom.len())
    }

    pub fn is_enabled(&self) -> (r: bool)
        ensures r == self.enabled_spec(),
    {
        self.ram_enable_1 && self.ram_enable_2
    }

    pub fn latch_accel(&mut self)
        ensures
            *final(self) == (Mbc7 { accel_x: accel_of(old(self).tilt_x), accel_y: accel_of(old(self).tilt_y),
                accel_latched: true, ..*old(self) }),
    {
        let x = ACCEL_CENTER as i32 + self.tilt_x as i32;
        let y = ACCEL_CENTER as i32 + self.tilt_y as i32;
        self.accel_x = if x < 0 { 0 } else if x > 0xFFFF { 0xFFFF } else { x as u16 };
        self.accel_y = if y < 0 { 0 } else if y > 0xFFFF { 0xFFFF } else { y as u16 };
        self.accel_latched = true;
    }
}

impl Cartridge for Mbc7 {
    open spec fn read_spec(&self, addr: u16) -> u8 {
        if addr <= 0x3FFF {
            rom_byte(self.rom@, addr as int)
        } else if addr <= 0x7FFF {
            rom_byte(self.rom@, self.rom_bank_spec() * 0x4000 + (addr - 0x4000))
        } else if 0xA000 <= addr <= 0xBFFF {
            if !self.enabled_spec() {
                0xFF
            } else {
                let reg = addr & 0xF0;
                if reg == 0x00 { 0x00 }
                else if reg == 0x20 { (self.accel_x % 256) as u8 }
                else if reg == 0x30 { (self.accel_x / 256) as u8 }
                else if reg == 0x40 { (self.accel_y % 256) as u8 }
                else if reg == 0x50 { (self.accel_y / 256) as u8 }
                else if reg == 0x60 { 0x00 }
                else if reg == 0x80 { self.eeprom.read_byte_spec() }
                else { 0xFF }
            }
        } else {
            0xFF
        }
    }

    open spec fn write_post(&self, new: &Self, addr: u16, val: u8) -> bool {
        if addr <= 0x5FFF {
            *new == self.write_regs(addr, val)
        } else if 0xA000 <= addr <= 0xBFFF && self.enabled_spec() && addr & 0xF0 == 0x00 && val == 0x55 {
            *new == (Mbc7 { accel_x: accel_of(self.tilt_x), accel_y: accel_of(self.tilt_y), accel_latched: true, ..*self })
        } else if 0xA000 <= addr <= 0xBFFF && self.enabled_spec() && addr & 0xF0 == 0x80 {
            &&& new.eeprom.data@ == self.eeprom.write_data(val)
            &&& new.eeprom == (Eeprom93c56 { data: new.eeprom.data, ..self.eeprom.write_regs(val) })
            &&& *new == (Mbc7 { eeprom: new.eeprom, ..*self })
        } else {
            *new == *self
        }
    }

    open spec fn title_spec(&self) -> Seq<char> {
        self.title@
    }

    open spec fn serialized(&self) -> Seq<u8> {
        le16(self.rom_bank) + enc_bool(self.ram_enable_1) + enc_bool(self.ram_enable_2)
            + le16(u16_of_i16(self.tilt_x)) + le16(u16_of_i16(self.tilt_y)) + le16(self.accel_x)
            + le16(self.accel_y) + enc_bool(self.accel_latched) + enc_bool(self.eeprom.write_enabled)
            + enc_slice(self.eeprom.data@)
    }

    open spec fn load_post(&self, new: &Self, d0: Seq<u8>, d1: Seq<u8>) -> bool {
        let (rb, s1) = take_u16(d0);
        let (e1, s2) = take_bool(s1);
        let (e2, s3) = take_bool(s2);
        let (tx, s4) = take_i16(s3);
        let (ty, s5) = take_i16(s4);
        let (ax, s6) = take_u16(s5);
        let (ay, s7) = take_u16(s6);
        let (lat, s8) = take_bool(s7);
        let (we, s9) = take_bool(s8);
        let (eep, s10) = take_vec(s9);
        &&& new.eeprom.data@ == ram_loaded(self.eeprom.data@, eep)
        &&& new.eeprom == (Eeprom93c56 { data: new.eeprom.data, write_enabled: we, ..self.eeprom })
        &&& *new == (Mbc7 { eeprom: new.eeprom, rom_bank: rb, ram_enable_1: e1, ram_enable_2: e2,
                tilt_x: tx, tilt_y: ty, accel_x: ax, accel_y: ay, accel_latched: lat, ..*self })
        &&& d1 == s10
    }

    open spec fn battery_spec(&self) -> bool {
        self.battery
    }

    open spec fn ram_spec(&self) -> Seq<u8> {
        self.eeprom.data@
    }

    open spec fn rumble_spec(&self) -> bool {
        false
    }

    open spec fn rtc_post(&self, new: &Self, cycles: u32) -> bool {
        *new == *self
    }

    open spec fn rtc_ok(&self, cycles: u32) -> bool {
        true
    }

    open spec fn tilt_post(&self, new: &Self, x: i16, y: i16) -> bool {
        *new == (Mbc7 { tilt_x: x, tilt_y: y, ..*self })
    }

    open spec fn load_ok(&self, d: Seq<u8>) -> bool {
        true
    }

    fn read(&self, addr: u16) -> (r: u8) {
        if addr <= 0x3FFF {
            let idx = addr as usize;
            if idx < self.rom.len() { self.rom[idx] } else { 0xFF }
        } else if addr <= 0x7FFF {
            read_rom_banked(&self.rom, self.effective_rom_bank(), addr - 0x4000)
        } else if 0xA000 <= addr && addr <= 0xBFFF {
            if !self.is_enabled() {
                return 0xFF;
            }
            match addr & 0xF0 {
                0x00 => 0x00,
                0x20 => (self.accel_x % 256) as u8,
                0x30 => (self.accel_x / 256) as u8,
                0x40 => (self.accel_y % 256) as u8,
                0x50 => (self.accel_y / 256) as u8,
                0x60 => 0x00,
                0x80 => self.eeprom.read_byte(),
                _ => 0xFF,
            }
        } else {
            0xFF
        }
    }

    fn write(&mut self, addr: u16, val: u8) {
        if addr <= 0x1FFF {
            self.ram_enable_1 = val == 0x0A;
            if !self.ram_enable_1 {
                self.ram_enable_2 = false;
            }
        } else if addr <= 0x2FFF {
            self.rom_bank = (self.rom_bank & 0x100) | val as u16;
        } else if addr <= 0x3FFF {
            self.rom_bank = (self.rom_bank & 0xFF) | ((val & 0x01) as u16 * 256);
        } else if addr <= 0x5FFF {
            self.ram_enable_2 = val == 0x40;
        } else if 0xA000 <= addr && addr <= 0xBFFF {
            if !self.is_enabled() {
                return;
            }
            let reg = addr & 0xF0;
            if reg == 0x00 {
                if val == 0x55 {
                    self.latch_accel();
                }
            } else if reg == 0x80 {
                self.eeprom.write_byte(val);
            }
        }
    }

    fn title(&self) -> (r: &str) {
        self.title.as_str()
    }

    fn save_state(&self, d: &mut Vec<u8>) {
        push_u16(d, self.rom_bank);
        push_bool(d, self.ram_enable_1);
        push_bool(d, self.ram_enable_2);
        push_i16(d, self.tilt_x);
        push_i16(d, self.tilt_y);
        push_u16(d, self.accel_x);
        push_u16(d, self.accel_y);
        push_bool(d, self.accel_latched);
        push_bool(d, self.eeprom.write_enabled);
        push_slice(d, self.eeprom.data.as_slice());
        assert(d@ =~= old(d)@ + self.serialized());
    }

    fn load_state(&mut self, d: &mut &[u8]) {
        self.rom_bank = pop_u16(d);
        self.ram_enable_1 = pop_bool(d);
        self.ram_enable_2 = pop_bool(d);
        self.tilt_x = pop_i16(d);
        self.tilt_y = pop_i16(d);
        self.accel_x = pop_u16(d);
        self.accel_y = pop_u16(d);
        self.accel_latched = pop_bool(d);
        self.eeprom.write_enabled = pop_bool(d);
        let eeprom_data = pop_vec(d);
        self.load_eeprom(eeprom_data.as_slice());
    }

    fn has_battery(&self) -> (r: bool) {
        self.battery
    }

    fn ram_data(&self) -> (r: &[u8]) {
        self.eeprom.data.as_slice()
    }

    fn load_ram(&mut self, data: &[u8]) {
        self.load_eeprom(data);
    }

    fn rumble(&self) -> (r: bool) {
        false
    }

    fn tick_rtc(&mut self, cycles: u32) {
    }

    fn set_rtc_offset(&mut self, seconds: i32) {
    }

    fn set_tilt(&mut self, x: i16, y: i16) {
        self.tilt_x = x;
        self.tilt_y = y;
    }
}

impl Mbc7 {
    /// Copies the prefix of `data` over the EEPROM contents.
    pub fn load_eeprom(&mut self, data: &[u8])
        ensures
            final(self).eeprom.data@ == ram_loaded(old(self).eeprom.data@, data@),
            final(self).eeprom == (Eeprom93c56 { data: final(self).eeprom.data, ..old(self).eeprom }),
            *final(self) == (Mbc7 { eeprom: final(self).eeprom, ..*old(self) }),
    {
        let len: usize = if data.len() < 256 { data.len() } else { 256 };
        let mut i: usize = 0;
        while i < len
            invariant
                len == (if data@.len() < 256 { data@.len() } else { 256 }),
                i <= len,
                forall|j: int| 0 <= j < i ==> self.eeprom.data@[j] == data@[j],
                forall|j: int| i <= j < 256 ==> self.eeprom.data@[j] == old(self).eeprom.data@[j],
                *self == (Mbc7 { eeprom: self.eeprom, ..*old(self) }),
                self.eeprom == (Eeprom93c56 { data: self.eeprom.data, ..old(self).eeprom }),
            decreases len - i,
        {
            self.eeprom.data[i] = data[i];
            i = i + 1;
        }
        assert(self.eeprom.data@ =~= ram_loaded(old(self).eeprom.data@, data@));
    }
}

/// Saving an MBC7 controller and loading the bytes back restores its
/// EEPROM contents and write enable, ROM bank, RAM enables, tilt and
/// accelerometer state; the cursor moves past exactly the saved bytes.
/// The saved bytes of an MBC7 controller followed by `tail`, field by field.
proof fn lemma_mbc7_bytes(c: Mbc7, tail: Seq<u8>)
    ensures ({
        let t9 = enc_slice(c.eeprom.data@) + tail;
        let t8 = enc_bool(c.eeprom.write_enabled) + t9;
        let t7 = enc_bool(c.accel_latched) + t8;
        let t6 = le16(c.accel_y) + t7;
        let t5 = le16(c.accel_x) + t6;
        let t4 = le16(u16_of_i16(c.tilt_y)) + t5;
        let t3 = le16(u16_of_i16(c.tilt_x)) + t4;
        let t2 = enc_bool(c.ram_enable_2) + t3;
        let t1 = enc_bool(c.ram_enable_1) + t2;
        c.serialized() + tail == le16(c.rom_bank) + t1
    }),
{
    let t9 = enc_slice(c.eeprom.data@) + tail;
    let t8 = enc_bool(c.eeprom.write_enabled) + t9;
    let t7 = enc_bool(c.accel_latched) + t8;
    let t6 = le16(c.accel_y) + t7;
    let t5 = le16(c.accel_x) + t6;
    let t4 = le16(u16_of_i16(c.tilt_y)) + t5;
    let t3 = le16(u16_of_i16(c.tilt_x)) + t4;
    let t2 = enc_bool(c.ram_enable_2) + t3;
    let t1 = enc_bool(c.ram_enable_1) + t2;
    assert(c.serialized() + tail =~= le16(c.rom_bank) + t1);
}

/// Saving an MBC7 controller and loading the bytes back restores its
/// EEPROM contents and write enable, ROM bank, RAM enables, tilt and
/// accelerometer state; the cursor moves past exactly the saved bytes.
pub proof fn lemma_mbc7_roundtrip(c: Mbc7, n: Mbc7, tail: Seq<u8>, rest: Seq<u8>)
    requires c.load_post(&n, c.serialized() + tail, rest),
    ensures
        n.eeprom.data@ == c.eeprom.data@,
        n.eeprom.write_enabled == c.eeprom.write_enabled,
        n.rom_bank == c.rom_bank && n.ram_enable_1 == c.ram_enable_1 && n.ram_enable_2 == c.ram_enable_2,
        n.tilt_x == c.tilt_x && n.tilt_y == c.tilt_y && n.accel_x == c.accel_x && n.accel_y == c.accel_y,
        n.accel_latched == c.accel_latched,
        rest == tail,
{
    let t9 = enc_slice(c.eeprom.data@) + tail;
    let t8 = enc_bool(c.eeprom.write_enabled) + t9;
    let t7 = enc_bool(c.accel_latched) + t8;
    let t6 = le16(c.accel_y) + t7;
    let t5 = le16(c.accel_x) + t6;
    let t4 = le16(u16_of_i16(c.tilt_y)) + t5;
    let t3 = le16(u16_of_i16(c.tilt_x)) + t4;
    let t2 = enc_bool(c.ram_enable_2) + t3;
    let t1 = enc_bool(c.ram_enable_1) + t2;
    lemma_mbc7_bytes(c, tail);
    lemma_take_u16(c.rom_bank, t1);
    lemma_take_bool(c.ram_enable_1, t2);
    lemma_take_bool(c.ram_enable_2, t3);
    lemma_take_i16(c.tilt_x, t4);
    lemma_take_i16(c.tilt_y, t5);
    lemma_take_u16(c.accel_x, t6);
    lemma_take_u16(c.accel_y, t7);
    lemma_take_bool(c.accel_latched, t8);
    lemma_take_bool(c.eeprom.write_enabled, t9);
    lemma_take_vec(c.eeprom.data@, tail);
    assert(ram_loaded(c.eeprom.data@, c.eeprom.data@) =~= c.eeprom.data@);
}

} // verus!
