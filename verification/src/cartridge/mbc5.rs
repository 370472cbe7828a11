//! MBC5 — the most common mapper for later Game Boy and Game Boy Color titles.
//!
//! Supports up to 8 MB ROM (9-bit bank number) and 128 KB RAM (4-bit bank
//! number). Unlike MBC1, bank 0 IS valid for the switchable region.
//!   0x0000-0x1FFF: RAM enable (0x0A enables)
//!   0x2000-0x2FFF: ROM bank low 8 bits
//!   0x3000-0x3FFF: ROM bank bit 8
//!   0x4000-0x5FFF: RAM bank (4 bits; 3 bits plus the motor on rumble carts)
use vstd::prelude::*;
use crate::savestate::{lemma_take_u8, lemma_take_u16, lemma_take_u32, lemma_take_i16, lemma_take_bool, lemma_take_vec, MAX_VEC_LEN as VEC_CAP};
use super::{Cartridge, rom_byte, ram_byte, read_rom_small, ram_loaded, copy_prefix};
use crate::savestate::{push_bool, push_u8, push_u16, push_slice, pop_bool, pop_u8, pop_u16, pop_vec,
    take_bool, take_u8, take_u16, take_vec, enc_bool, enc_slice, le16};

verus! {

pub struct Mbc5 {
    pub rom: Vec<u8>,
    pub ram: Vec<u8>,
    pub title: String,
    pub ram_enabled: bool,
    /// 9-bit ROM bank (0-511)
    pub rom_bank: u16,
    /// 4-bit RAM bank (0-15)
    pub ram_bank: u8,
    pub battery: bool,
    pub has_rumble: bool,
    pub rumble_active: bool,
}

impl Mbc5 {
    pub open spec fn ram_offset(&self, addr: u16) -> int {
        self.ram_bank * 0x2000 + (addr - 0xA000)
    }

    pub open spec fn write_regs(&self, addr: u16, val: u8) -> Mbc5 {
        if addr <= 0x1FFF {
            Mbc5 { ram_enabled: val & 0x0F == 0x0A, ..*self }
        } else if addr <= 0x2FFF {
            Mbc5 { rom_bank: ((self.rom_bank & 0x100) | (val as u16)) as u16, ..*self }
        } else if addr <= 0x3FFF {
            Mbc5 { rom_bank: (self.rom_bank & 0xFF) | ((((val & 0x01) as u16) * 256) as u16), ..*self }
        } else if self.has_rumble {
            Mbc5 { rumble_active: val & 0x08 != 0, ram_bank: val & 0x07, ..*self }
        } else {
            Mbc5 { ram_bank: val & 0x0F, ..*self }
        }
    }

    pub fn new(data: &[u8], ram_size: usize, title: String, battery: bool, rumble: bool) -> (r: Self)
        ensures
            r.rom@ == data@,
            r.ram@ == Seq::new(if ram_size > 0 { ram_size as nat } else { 0x2000 }, |i: int| 0u8),
            r.title == title,
            !r.ram_enabled && r.rom_bank == 1 && r.ram_bank == 0,
            r.battery == battery && r.has_rumble == rumble && !r.rumble_active,
    {
        let ram = vec![0u8; if ram_size > 0 { ram_size } else { 0x2000 }];
        assert(ram@ =~= Seq::new(if ram_size > 0 { ram_size as nat } else { 0x2000 }, |i: int| 0u8));
        Mbc5 {
            rom: vstd::slice::slice_to_vec(data),
            ram,
            title,
            ram_enabled: false,
            rom_bank: 1,
            ram_bank: 0,
            battery,
            has_rumble: rumble,
            rumble_active: false,
        }
    }
}

impl Cartridge for Mbc5 {
    open spec fn read_spec(&self, addr: u16) -> u8 {
        if addr <= 0x3FFF {
            rom_byte(self.rom@, addr as int)
        } else if addr <= 0x7FFF {
            rom_byte(self.rom@, self.rom_bank * 0x4000 + (addr - 0x4000))
        } else if 0xA000 <= addr <= 0xBFFF {
            if !self.ram_enabled || self.ram@.len() == 0 { 0xFF } else { ram_byte(self.ram@, self.ram_offset(addr)) }
        } else {
            0xFF
        }
    }

    open spec fn write_post(&self, new: &Self, addr: u16, val: u8) -> bool {
        if addr <= 0x5FFF {
            *new == self.write_regs(addr, val)
        } else if 0xA000 <= addr <= 0xBFFF && self.ram_enabled && self.ram@.len() > 0
            && self.ram_offset(addr) < self.ram@.len() {
            &&& new.ram@ == self.ram@.update(self.ram_offset(addr), val)
            &&& *new == (Mbc5 { ram: new.ram, ..*self })
        } else {
            *new == *self
        }
    }

    open spec fn title_spec(&self) -> Seq<char> {
        self.title@
    }

    open spec fn serialized(&self) -> Seq<u8> {
        enc_bool(self.ram_enabled) + le16(self.rom_bank) + seq![self.ram_bank] + enc_slice(self.ram@)
    }

    open spec fn load_post(&self, new: &Self, d0: Seq<u8>, d1: Seq<u8>) -> bool {
        let (en, s1) = take_bool(d0);
        let (rb, s2) = take_u16(s1);
        let (ab, s3) = take_u8(s2);
        let (ram, s4) = take_vec(s3);
        &&& new.ram@ == ram
        &&& *new == (Mbc5 { ram: new.ram, ram_enabled: en, rom_bank: rb, ram_bank: ab, ..*self })
        &&& d1 == s4
    }

    open spec fn battery_spec(&self) -> bool {
        self.battery
    }

    open spec fn ram_spec(&self) -> Seq<u8> {
        self.ram@
    }

    open spec fn rumble_spec(&self) -> bool {
        self.rumble_active
    }

    open spec fn rtc_post(&self, new: &Self, cycles: u32) -> bool {
        *new == *self
    }

    open spec fn rtc_ok(&self, cycles: u32) -> bool {
        true
    }

    open spec fn tilt_post(&self, new: &Self, x: i16, y: i16) -> bool {
        *new == *self
    }

    open spec fn load_ok(&self, d: Seq<u8>) -> bool {
        true
    }

    fn read(&self, addr: u16) -> (r: u8) {
        if addr <= 0x3FFF {
            let idx = addr as usize;
            if idx < self.rom.len() { self.rom[idx] } else { 0xFF }
        } else if addr <= 0x7FFF {
            read_rom_small(&self.rom, self.rom_bank as usize, addr - 0x4000)
        } else if 0xA000 <= addr && addr <= 0xBFFF {
            if !self.ram_enabled || self.ram.len() == 0 {
                return 0xFF;
            }
            let offset = self.ram_bank as usize * 0x2000 + (addr - 0xA000) as usize;
            if offset < self.ram.len() { self.ram[offset] } else { 0xFF }
        } else {
            0xFF
        }
    }

    fn write(&mut self, addr: u16, val: u8) {
        if addr <= 0x1FFF {
            self.ram_enabled = (val & 0x0F) == 0x0A;
        } else if addr <= 0x2FFF {
            self.rom_bank = (self.rom_bank & 0x100) | val as u16;
        } else if addr <= 0x3FFF {
            self.rom_bank = (self.rom_bank & 0xFF) | ((val & 0x01) as u16 * 256);
        } else if addr <= 0x5FFF {
            if self.has_rumble {
                self.rumble_active = val & 0x08 != 0;
                self.ram_bank = val & 0x07;
            } else {
                self.ram_bank = val & 0x0F;
            }
        } else if 0xA000 <= addr && addr <= 0xBFFF {
            if !self.ram_enabled || self.ram.len() == 0 {
                return;
            }
            let offset = self.ram_bank as usize * 0x2000 + (addr - 0xA000) as usize;
            if offset < self.ram.len() {
                self.ram.set(offset, val);
            }
        }
    }

    fn title(&self) -> (r: &str) {
        self.title.as_str()
    }

    fn save_state(&self, d: &mut Vec<u8>) {
        push_bool(d, self.ram_enabled);
        push_u16(d, self.rom_bank);
        push_u8(d, self.ram_bank);
        push_slice(d, self.ram.as_slice());
        assert(d@ =~= old(d)@ + self.serialized());
    }

    fn load_state(&mut self, d: &mut &[u8]) {
        self.ram_enabled = pop_bool(d);
        self.rom_bank = pop_u16(d);
        self.ram_bank = pop_u8(d);
        self.ram = pop_vec(d);
    }

    fn has_battery(&self) -> (r: bool) {
        self.battery
    }

    fn ram_data(&self) -> (r: &[u8]) {
        self.ram.as_slice()
    }

    fn load_ram(&mut self, data: &[u8]) {
        copy_prefix(&mut self.ram, data);
    }

    fn rumble(&self) -> (r: bool) {
        self.rumble_active
    }

    fn tick_rtc(&mut self, cycles: u32) {
    }

    fn set_rtc_offset(&mut self, seconds: i32) {
    }

    fn set_tilt(&mut self, x: i16, y: i16) {
    }
}

/// Saving an MBC5 controller and loading the bytes back restores its RAM
/// and registers; the cursor moves past exactly the saved bytes.
pub proof fn lemma_mbc5_roundtrip(c: Mbc5, n: Mbc5, tail: Seq<u8>, rest: Seq<u8>)
    requires
        c.ram@.len() <= VEC_CAP,
        c.load_post(&n, c.serialized() + tail, rest),
    ensures
        n.ram@ == c.ram@,
        n.ram_enabled == c.ram_enabled && n.rom_bank == c.rom_bank && n.ram_bank == c.ram_bank,
        rest == tail,
{
    let t3 = enc_slice(c.ram@) + tail;
    let t2 = seq![c.ram_bank] + t3;
    let t1 = le16(c.rom_bank) + t2;
    assert(c.serialized() + tail =~= enc_bool(c.ram_enabled) + t1);
    lemma_take_bool(c.ram_enabled, t1);
    lemma_take_u16(c.rom_bank, t2);
    lemma_take_u8(c.ram_bank, t3);
    lemma_take_vec(c.ram@, tail);
}

/// Writing `lo` to 0x2000-0x2FFF and then `hi` to 0x3000-0x3FFF selects
/// the 9-bit ROM bank `(hi mod 2) · 256 + lo`, whatever bank was selected
/// before: the window 0x4000-0x7FFF then shows that bank, and 0x0000-0x3FFF
/// always shows bank 0.
pub proof fn lemma_mbc5_rom_window(m: Mbc5, m1: Mbc5, m2: Mbc5, lo: u8, hi: u8)
    requires
        m.write_post(&m1, 0x2000, lo),
        m1.write_post(&m2, 0x3000, hi),
    ensures
        m2.rom_bank == (hi % 2) * 256 + lo,
        forall|off: int| 0 <= off < 0x4000 ==> #[trigger] m2.read_spec((0x4000 + off) as u16)
            == rom_byte(m.rom@, ((hi % 2) * 256 + lo) * 0x4000 + off),
        forall|off: int| 0 <= off < 0x4000 ==> #[trigger] m2.read_spec(off as u16) == rom_byte(m.rom@, off),
{
    let old = m.rom_bank;
    assert(hi & 1u8 == hi % 2
        && (((old & 0x100u16) | (lo as u16)) & 0xFFu16) | ((((hi & 1u8) as u16) * 256) as u16)
            == (lo as u16) + ((hi & 1u8) as u16) * 256) by (bit_vector);
}

} // verus!
