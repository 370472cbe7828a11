//! HuC1 mapper (cart type 0xFF) — MBC1-like with an infrared LED stub.
//! Used by some Hudson Soft games.
use vstd::prelude::*;
use crate::savestate::{lemma_take_u8, lemma_take_u16, lemma_take_u32, lemma_take_i16, lemma_take_bool, lemma_take_vec, MAX_VEC_LEN as VEC_CAP};
use super::{Cartridge, rom_byte, ram_byte, bank_count, read_rom_banked, wrap_bank, ram_loaded, copy_prefix};
use crate::savestate::{push_bool, push_u8, push_slice, pop_bool, pop_u8, pop_vec, take_bool, take_u8,
    take_vec, enc_bool, enc_slice};

verus! {

pub struct Huc1 {
    pub rom: Vec<u8>,
    pub ram: Vec<u8>,
    pub title: String,
    pub ram_enabled: bool,
    pub ir_mode: bool,
    pub rom_bank: u8,
    pub ram_bank: u8,
    pub banking_mode: u8,
    pub battery: bool,
}

impl Huc1 {
    pub open spec fn rom_bank_spec(&self) -> nat {
        let bank: usize = if self.banking_mode == 0 {
            ((self.ram_bank as usize) << 5usize) | (self.rom_bank as usize)
        } else {
            self.rom_bank as usize
        };
        (bank as nat) % bank_count(self.rom@.len())
    }

    pub open spec fn ram_offset(&self, addr: u16) -> int {
        (if self.banking_mode == 1 { self.ram_bank as int } else { 0 }) * 0x2000 + (addr - 0xA000)
    }

    pub open spec fn write_regs(&self, addr: u16, val: u8) -> Huc1 {
        if addr <= 0x1FFF {
            if val == 0x0E {
                Huc1 { ir_mode: true, ram_enabled: false, ..*self }
            } else if val & 0x0F == 0x0A {
                Huc1 { ir_mode: false, ram_enabled: true, ..*self }
            } else {
                Huc1 { ir_mode: false, ram_enabled: false, ..*self }
            }
        } else if addr <= 0x3FFF {
            Huc1 { rom_bank: if val & 0x3F == 0 { 1 } else { val & 0x3F }, ..*self }
        } else if addr <= 0x5FFF {
            Huc1 { ram_bank: val & 0x03, ..*self }
        } else {
            Huc1 { banking_mode: val & 0x01, ..*self }
        }
    }

    pub fn new(data: &[u8], ram_size: usize, title: String, battery: bool) -> (r: Self)
        ensures
            r.rom@ == data@,
            r.ram@ == Seq::new(ram_size as nat, |i: int| 0u8),
            r.title == title,
            !r.ram_enabled && !r.ir_mode && r.rom_bank == 1 && r.ram_bank == 0 && r.banking_mode == 0,
            r.battery == battery,
    {
        let ram = vec![0u8; ram_size];
        assert(ram@ =~= Seq::new(ram_size as nat, |i: int| 0u8));
        Huc1 {
            rom: vstd::slice::slice_to_vec(data),
            ram,
            title,
            ram_enabled: false,
            ir_mode: false,
            rom_bank: 1,
            ram_bank: 0,
            banking_mode: 0,
            battery,
        }
    }

    pub fn effective_rom_bank(&self) -> (r: usize)
        ensures r == self.rom_bank_spec(), r < bank_count(self.rom@.len()),
    {
        let bank = if self.banking_mode == 0 {
            (self.ram_bank as usize) << 5 | self.rom_bank as usize
        } else {
            self.rom_bank as usize
        };
        wrap_bank(bank, self.rom.len())
    }
}

impl Cartridge for Huc1 {
    open spec fn read_spec(&self, addr: u16) -> u8 {
        if addr <= 0x3FFF {
            rom_byte(self.rom@, addr as int)
        } else if addr <= 0x7FFF {
            rom_byte(self.rom@, self.rom_bank_spec() * 0x4000 + (addr - 0x4000))
        } else if 0xA000 <= addr <= 0xBFFF {
            if self.ir_mode {
                0xC0
            } else if !self.ram_enabled || self.ram@.len() == 0 {
                0xFF
            } else {
                ram_byte(self.ram@, self.ram_offset(addr))
            }
        } else {
            0xFF
        }
    }

    open spec fn write_post(&self, new: &Self, addr: u16, val: u8) -> bool {
        if addr <= 0x7FFF {
            *new == self.write_regs(addr, val)
        } else if 0xA000 <= addr <= 0xBFFF && self.ram_enabled && self.ram@.len() > 0 && !self.ir_mode
            && self.ram_offset(addr) < self.ram@.len() {
            &&& new.ram@ == self.ram@.update(self.ram_offset(addr), val)
            &&& *new == (Huc1 { ram: new.ram, ..*self })
        } else {
            *new == *self
        }
    }

    open spec fn title_spec(&self) -> Seq<char> {
        self.title@
    }

    open spec fn serialized(&self) -> Seq<u8> {
        enc_bool(self.ram_enabled) + enc_bool(self.ir_mode) + seq![self.rom_bank, self.ram_bank, self.banking_mode]
            + enc_slice(self.ram@)
    }

    open spec fn load_post(&self, new: &Self, d0: Seq<u8>, d1: Seq<u8>) -> bool {
        let (en, s1) = take_bool(d0);
        let (ir, s2) = take_bool(s1);
        let (rb, s3) = take_u8(s2);
        let (ab, s4) = take_u8(s3);
        let (mode, s5) = take_u8(s4);
        let (ram, s6) = take_vec(s5);
        &&& new.ram@ == ram
        &&& *new == (Huc1 { ram: new.ram, ram_enabled: en, ir_mode: ir, rom_bank: rb, ram_bank: ab,
                banking_mode: mode, ..*self })
        &&& d1 == s6
    }

    open spec fn battery_spec(&self) -> bool {
        self.battery
    }

    open spec fn ram_spec(&self) -> Seq<u8> {
        self.ram@
    }

    open spec fn rumble_spec(&self) -> bool {
        false
    }

    open spec fn rtc_post(&self, new: &Self, cycles: u32) -> bool {
        *new == *self
    }

    open spec fn rtc_ok(&self, cycles: u32) -> bool {
        true
    }

    open spec fn tilt_post(&self, new: &Self, x: i16, y: i16) -> bool {
        *new == *self
    }

    open spec fn load_ok(&self, d: Seq<u8>) -> bool {
        true
    }

    fn read(&self, addr: u16) -> (r: u8) {
        if addr <= 0x3FFF {
            let idx = addr as usize;
            if idx < self.rom.len() { self.rom[idx] } else { 0xFF }
        } else if addr <= 0x7FFF {
            read_rom_banked(&self.rom, self.effective_rom_bank(), addr - 0x4000)
        } else if 0xA000 <= addr && addr <= 0xBFFF {
            if self.ir_mode {
                return 0xC0;
            }
            if !self.ram_enabled || self.ram.len() == 0 {
                return 0xFF;
            }
            let bank: usize = if self.banking_mode == 1 { self.ram_bank as usize } else { 0 };
            let offset = bank * 0x2000 + (addr - 0xA000) as usize;
            if offset < self.ram.len() { self.ram[offset] } else { 0xFF }
        } else {
            0xFF
        }
    }

    fn write(&mut self, addr: u16, val: u8) {
        if addr <= 0x1FFF {
            if val == 0x0E {
                self.ir_mode = true;
                self.ram_enabled = false;
            } else if val & 0x0F == 0x0A {
                self.ir_mode = false;
                self.ram_enabled = true;
            } else {
                self.ir_mode = false;
                self.ram_enabled = false;
            }
        } else if addr <= 0x3FFF {
            let mut bank = val & 0x3F;
            if bank == 0 {
                bank = 1;
            }
            self.rom_bank = bank;
        } else if addr <= 0x5FFF {
            self.ram_bank = val & 0x03;
        } else if addr <= 0x7FFF {
            self.banking_mode = val & 0x01;
        } else if 0xA000 <= addr && addr <= 0xBFFF {
            if !self.ram_enabled || self.ram.len() == 0 || self.ir_mode {
                return;
            }
            let bank: usize = if self.banking_mode == 1 { self.ram_bank as usize } else { 0 };
            let offset = bank * 0x2000 + (addr - 0xA000) as usize;
            if offset < self.ram.len() {
                self.ram.set(offset, val);
            }
        }
    }

    fn title(&self) -> (r: &str) {
        self.title.as_str()
    }

    fn save_state(&self, d: &mut Vec<u8>) {
        push_bool(d, self.ram_enabled);
        push_bool(d, self.ir_mode);
        push_u8(d, self.rom_bank);
        push_u8(d, self.ram_bank);
        push_u8(d, self.banking_mode);
        push_slice(d, self.ram.as_slice());
        assert(d@ =~= old(d)@ + self.serialized());
    }

    fn load_state(&mut self, d: &mut &[u8]) {
        self.ram_enabled = pop_bool(d);
        self.ir_mode = pop_bool(d);
        self.rom_bank = pop_u8(d);
        self.ram_bank = pop_u8(d);
        self.banking_mode = pop_u8(d);
        self.ram = pop_vec(d);
    }

    fn has_battery(&self) -> (r: bool) {
        self.battery
    }

    fn ram_data(&self) -> (r: &[u8]) {
        self.ram.as_slice()
    }

    fn load_ram(&mut self, data: &[u8]) {
        copy_prefix(&mut self.ram, data);
    }

    fn rumble(&self) -> (r: bool) {
        false
    }

    fn tick_rtc(&mut self, cycles: u32) {
    }

    fn set_rtc_offset(&mut self, seconds: i32) {
    }

    fn set_tilt(&mut self, x: i16, y: i16) {
    }
}

/// Saving a HuC1 controller and loading the bytes back restores its RAM and
/// registers; the cursor moves past exactly the saved bytes.
pub proof fn lemma_huc1_roundtrip(c: Huc1, n: Huc1, tail: Seq<u8>, rest: Seq<u8>)
    requires
        c.ram@.len() <= VEC_CAP,
        c.load_post(&n, c.serialized() + tail, rest),
    ensures
        n.ram@ == c.ram@,
        n.ram_enabled == c.ram_enabled && n.ir_mode == c.ir_mode && n.rom_bank == c.rom_bank,
        n.ram_bank == c.ram_bank && n.banking_mode == c.banking_mode,
        rest == tail,
{
    let t5 = enc_slice(c.ram@) + tail;
    let t4 = seq![c.banking_mode] + t5;
    let t3 = seq![c.ram_bank] + t4;
    let t2 = seq![c.rom_bank] + t3;
    let t1 = enc_bool(c.ir_mode) + t2;
    assert(c.serialized() + tail =~= enc_bool(c.ram_enabled) + t1);
    lemma_take_bool(c.ram_enabled, t1);
    lemma_take_bool(c.ir_mode, t2);
    lemma_take_u8(c.rom_bank, t3);
    lemma_take_u8(c.ram_bank, t4);
    lemma_take_u8(c.banking_mode, t5);
    lemma_take_vec(c.ram@, tail);
}

} // verus!
