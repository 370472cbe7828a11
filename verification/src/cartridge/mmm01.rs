//! MMM01 mapper (cart types 0x0B-0x0D) — multi-cart mapper.
//! On power-up the last 32 KiB of ROM is mapped (the menu). A write to
//! 0x0000-0x1FFF with bit 0 set activates the "inner" MBC1-like mode whose
//! ROM base comes from the outer bank register.
use vstd::prelude::*;
use crate::savestate::{lemma_take_u8, lemma_take_u16, lemma_take_u32, lemma_take_i16, lemma_take_bool, lemma_take_vec, MAX_VEC_LEN as VEC_CAP};
use super::{Cartridge, rom_byte, ram_byte, ram_loaded, copy_prefix};
use crate::savestate::{push_bool, push_u8, push_slice, pop_bool, pop_u8, pop_vec, take_bool, take_u8,
    take_vec, enc_bool, enc_slice};

verus! {

pub struct Mmm01 {
    pub rom: Vec<u8>,
    pub ram: Vec<u8>,
    pub title: String,
    pub battery: bool,
    pub mapping_active: bool,
    pub outer_rom_bank: u8,
    pub outer_ram_bank: u8,
    pub outer_mode: u8,
    pub inner_rom_bank: u8,
    pub inner_ram_bank: u8,
    pub inner_banking_mode: u8,
    pub ram_enabled: bool,
}

impl Mmm01 {
    /// The number of 16 KiB banks the mapper wraps by (at least 2).
    pub open spec fn banks(&self) -> nat {
        if self.rom@.len() / 0x4000 >= 2 { self.rom@.len() / 0x4000 } else { 2 }
    }

    /// The number of banks, computed from the ROM length.
    pub fn total_banks(&self) -> (r: usize)
        ensures r == self.banks(),
    {
        let n = self.rom.len() / 0x4000;
        if n >= 2 { n } else { 2 }
    }

    pub open spec fn inner_base_spec(&self) -> nat {
        (self.outer_rom_bank as nat) * 32
    }

    pub open spec fn inner_bank_spec(&self) -> nat {
        let bank = if self.inner_banking_mode == 0 {
            (((self.outer_rom_bank as usize) << 5usize) | (self.inner_rom_bank as usize)) as nat
        } else {
            self.inner_rom_bank as nat
        };
        bank % (self.banks())
    }

    pub open spec fn inner_bank0_spec(&self) -> nat {
        if self.inner_banking_mode == 1 { self.inner_base_spec() % (self.banks()) } else { 0 }
    }

    pub open spec fn ram_offset(&self, addr: u16) -> int {
        (if self.inner_banking_mode == 1 { self.inner_ram_bank as int } else { 0 }) * 0x2000 + (addr - 0xA000)
    }

    pub open spec fn write_regs(&self, addr: u16, val: u8) -> Mmm01 {
        if !self.mapping_active {
            if addr <= 0x1FFF {
                if val & 0x01 != 0 { Mmm01 { mapping_active: true, ..*self } } else { *self }
            } else if addr <= 0x3FFF {
                Mmm01 { outer_rom_bank: val & 0x3F, ..*self }
            } else if addr <= 0x5FFF {
                Mmm01 { outer_ram_bank: val & 0x03, ..*self }
            } else if addr <= 0x7FFF {
                Mmm01 { outer_mode: val & 0x01, ..*self }
            } else {
                *self
            }
        } else {
            if addr <= 0x1FFF {
                Mmm01 { ram_enabled: val & 0x0F == 0x0A, ..*self }
            } else if addr <= 0x3FFF {
                Mmm01 { inner_rom_bank: if val & 0x1F == 0 { 1 } else { val & 0x1F }, ..*self }
            } else if addr <= 0x5FFF {
                Mmm01 { inner_ram_bank: val & 0x03, ..*self }
            } else if addr <= 0x7FFF {
                Mmm01 { inner_banking_mode: val & 0x01, ..*self }
            } else {
                *self
            }
        }
    }

    pub fn new(data: &[u8], ram_size: usize, title: String, battery: bool) -> (r: Self)
        ensures
            r.rom@ == data@,
            r.ram@ == Seq::new(ram_size as nat, |i: int| 0u8),
            r.title == title && r.battery == battery,
            !r.mapping_active && r.outer_rom_bank == 0 && r.outer_ram_bank == 0 && r.outer_mode == 0,
            r.inner_rom_bank == 1 && r.inner_ram_bank == 0 && r.inner_banking_mode == 0 && !r.ram_enabled,
    {
        let ram = vec![0u8; ram_size];
        assert(ram@ =~= Seq::new(ram_size as nat, |i: int| 0u8));
        Mmm01 {
            rom: vstd::slice::slice_to_vec(data),
            ram,
            title,
            battery,
            mapping_active: false,
            outer_rom_bank: 0,
            outer_ram_bank: 0,
            outer_mode: 0,
            inner_rom_bank: 1,
            inner_ram_bank: 0,
            inner_banking_mode: 0,
            ram_enabled: false,
        }
    }

    /// Menu ROM: second-to-last bank.
    pub fn outer_bank0_offset(&self) -> (r: usize)
        ensures r == (self.banks() - 2) * 0x4000,
    {
        let n = self.total_banks();
        proof { self.lemma_bank_bytes_fit((n - 1) as nat, self.rom.len()); }
        (n - 2) * 0x4000
    }

    /// Menu ROM: last bank.
    pub fn outer_bank1_offset(&self) -> (r: usize)
        ensures r == (self.banks() - 1) * 0x4000,
    {
        let n = self.total_banks();
        proof { self.lemma_bank_bytes_fit((n - 1) as nat, self.rom.len()); }
        (n - 1) * 0x4000
    }

    pub fn inner_base(&self) -> (r: usize)
        ensures r == self.inner_base_spec(),
    {
        self.outer_rom_bank as usize * 32
    }

    pub fn inner_effective_bank(&self) -> (r: usize)
        ensures r == self.inner_bank_spec(), r < self.banks(),
    {
        let bank = if self.inner_banking_mode == 0 {
            (self.outer_rom_bank as usize) << 5 | self.inner_rom_bank as usize
        } else {
            self.inner_rom_bank as usize
        };
        bank % self.total_banks()
    }

    pub fn inner_bank0(&self) -> (r: usize)
        ensures r == self.inner_bank0_spec(), r < self.banks(),
    {
        if self.inner_banking_mode == 1 {
            self.inner_base() % self.total_banks()
        } else {
            0
        }
    }

    /// Any bank below the bank count addresses bytes that fit in a `usize`.
    proof fn lemma_bank_bytes_fit(&self, b: nat, len: usize)
        requires
            b < self.banks(),
            len == self.rom@.len(),
        ensures
            b * 0x4000 + 0x4000 <= usize::MAX,
    {
        let n = self.banks();
        if self.rom@.len() / 0x4000 >= 2 {
            assert(b * 0x4000 + 0x4000 <= n * 0x4000) by (nonlinear_arith) requires b < n;
            assert(n * 0x4000 <= self.rom@.len()) by (nonlinear_arith) requires n == self.rom@.len() / 0x4000;
        }
    }

    fn read_bank(&self, bank: usize, off: u16) -> (r: u8)
        requires
            bank < self.banks(),
            off < 0x4000,
        ensures
            r == rom_byte(self.rom@, bank * 0x4000 + off),
    {
        let len = self.rom.len();
        proof { self.lemma_bank_bytes_fit(bank as nat, len); }
        let idx = bank * 0x4000 + off as usize;
        if idx < self.rom.len() { self.rom[idx] } else { 0xFF }
    }
}

impl Cartridge for Mmm01 {
    open spec fn read_spec(&self, addr: u16) -> u8 {
        if addr <= 0x3FFF {
            if !self.mapping_active {
                rom_byte(self.rom@, (self.banks() - 2) * 0x4000 + addr)
            } else {
                rom_byte(self.rom@, self.inner_bank0_spec() * 0x4000 + addr)
            }
        } else if addr <= 0x7FFF {
            if !self.mapping_active {
                rom_byte(self.rom@, (self.banks() - 1) * 0x4000 + (addr - 0x4000))
            } else {
                rom_byte(self.rom@, self.inner_bank_spec() * 0x4000 + (addr - 0x4000))
            }
        } else if 0xA000 <= addr <= 0xBFFF {
            if !self.ram_enabled || self.ram@.len() == 0 { 0xFF } else { ram_byte(self.ram@, self.ram_offset(addr)) }
        } else {
            0xFF
        }
    }

    open spec fn write_post(&self, new: &Self, addr: u16, val: u8) -> bool {
        if self.mapping_active && 0xA000 <= addr <= 0xBFFF && self.ram_enabled && self.ram@.len() > 0
            && self.ram_offset(addr) < self.ram@.len() {
            &&& new.ram@ == self.ram@.update(self.ram_offset(addr), val)
            &&& *new == (Mmm01 { ram: new.ram, ..*self })
        } else {
            *new == self.write_regs(addr, val)
        }
    }

    open spec fn title_spec(&self) -> Seq<char> {
        self.title@
    }

    open spec fn serialized(&self) -> Seq<u8> {
        enc_bool(self.mapping_active) + seq![self.outer_rom_bank, self.outer_ram_bank, self.outer_mode,
            self.inner_rom_bank, self.inner_ram_bank, self.inner_banking_mode] + enc_bool(self.ram_enabled)
            + enc_slice(self.ram@)
    }

    open spec fn load_post(&self, new: &Self, d0: Seq<u8>, d1: Seq<u8>) -> bool {
        let (ma, s1) = take_bool(d0);
        let (orb, s2) = take_u8(s1);
        let (oab, s3) = take_u8(s2);
        let (om, s4) = take_u8(s3);
        let (irb, s5) = take_u8(s4);
        let (iab, s6) = take_u8(s5);
        let (im, s7) = take_u8(s6);
        let (en, s8) = take_bool(s7);
        let (ram, s9) = take_vec(s8);
        &&& new.ram@ == ram
        &&& *new == (Mmm01 { ram: new.ram, mapping_active: ma, outer_rom_bank: orb, outer_ram_bank: oab,
                outer_mode: om, inner_rom_bank: irb, inner_ram_bank: iab, inner_banking_mode: im,
                ram_enabled: en, ..*self })
        &&& d1 == s9
    }

    open spec fn battery_spec(&self) -> bool {
        self.battery
    }

    open spec fn ram_spec(&self) -> Seq<u8> {
        self.ram@
    }

    open spec fn rumble_spec(&self) -> bool {
        false
    }

    open spec fn rtc_post(&self, new: &Self, cycles: u32) -> bool {
        *new == *self
    }

    open spec fn rtc_ok(&self, cycles: u32) -> bool {
        true
    }

    open spec fn tilt_post(&self, new: &Self, x: i16, y: i16) -> bool {
        *new == *self
    }

    open spec fn load_ok(&self, d: Seq<u8>) -> bool {
        true
    }

    fn read(&self, addr: u16) -> (r: u8) {
        let n = self.total_banks();
        if addr <= 0x3FFF {
            if !self.mapping_active {
                self.read_bank(n - 2, addr)
            } else {
                self.read_bank(self.inner_bank0(), addr)
            }
        } else if addr <= 0x7FFF {
            if !self.mapping_active {
                self.read_bank(n - 1, addr - 0x4000)
            } else {
                self.read_bank(self.inner_effective_bank(), addr - 0x4000)
            }
        } else if 0xA000 <= addr && addr <= 0xBFFF {
            if !self.ram_enabled || self.ram.len() == 0 {
                return 0xFF;
            }
            let bank: usize = if self.inner_banking_mode == 1 { self.inner_ram_bank as usize } else { 0 };
            let offset = bank * 0x2000 + (addr - 0xA000) as usize;
            if offset < self.ram.len() { self.ram[offset] } else { 0xFF }
        } else {
            0xFF
        }
    }

    fn write(&mut self, addr: u16, val: u8) {
        if !self.mapping_active {
            if addr <= 0x1FFF {
                if val & 0x01 != 0 {
                    self.mapping_active = true;
                }
            } else if addr <= 0x3FFF {
                self.outer_rom_bank = val & 0x3F;
            } else if addr <= 0x5FFF {
                self.outer_ram_bank = val & 0x03;
            } else if addr <= 0x7FFF {
                self.outer_mode = val & 0x01;
            }
        } else {
            if addr <= 0x1FFF {
                self.ram_enabled = (val & 0x0F) == 0x0A;
            } else if addr <= 0x3FFF {
                let mut bank = val & 0x1F;
                if bank == 0 {
                    bank = 1;
                }
                self.inner_rom_bank = bank;
            } else if addr <= 0x5FFF {
                self.inner_ram_bank = val & 0x03;
            } else if addr <= 0x7FFF {
                self.inner_banking_mode = val & 0x01;
            } else if 0xA000 <= addr && addr <= 0xBFFF {
                if !self.ram_enabled || self.ram.len() == 0 {
                    return;
                }
                let bank: usize = if self.inner_banking_mode == 1 { self.inner_ram_bank as usize } else { 0 };
                let offset = bank * 0x2000 + (addr - 0xA000) as usize;
                if offset < self.ram.len() {
                    self.ram.set(offset, val);
                }
            }
        }
    }

    fn title(&self) -> (r: &str) {
        self.title.as_str()
    }

    fn save_state(&self, d: &mut Vec<u8>) {
        push_bool(d, self.mapping_active);
        push_u8(d, self.outer_rom_bank);
        push_u8(d, self.outer_ram_bank);
        push_u8(d, self.outer_mode);
        push_u8(d, self.inner_rom_bank);
        push_u8(d, self.inner_ram_bank);
        push_u8(d, self.inner_banking_mode);
        push_bool(d, self.ram_enabled);
        push_slice(d, self.ram.as_slice());
        assert(d@ =~= old(d)@ + self.serialized());
    }

    fn load_state(&mut self, d: &mut &[u8]) {
        self.mapping_active = pop_bool(d);
        self.outer_rom_bank = pop_u8(d);
        self.outer_ram_bank = pop_u8(d);
        self.outer_mode = pop_u8(d);
        self.inner_rom_bank = pop_u8(d);
        self.inner_ram_bank = pop_u8(d);
        self.inner_banking_mode = pop_u8(d);
        self.ram_enabled = pop_bool(d);
        self.ram = pop_vec(d);
    }

    fn has_battery(&self) -> (r: bool) {
        self.battery
    }

    fn ram_data(&self) -> (r: &[u8]) {
        self.ram.as_slice()
    }

    fn load_ram(&mut self, data: &[u8]) {
        copy_prefix(&mut self.ram, data);
    }

    fn rumble(&self) -> (r: bool) {
        false
    }

    fn tick_rtc(&mut self, cycles: u32) {
    }

    fn set_rtc_offset(&mut self, seconds: i32) {
    }

    fn set_tilt(&mut self, x: i16, y: i16) {
    }
}

/// Saving an MMM01 controller and loading the bytes back restores its RAM
/// and its outer and inner registers; the cursor moves past exactly the
/// saved bytes.
pub proof fn lemma_mmm01_roundtrip(c: Mmm01, n: Mmm01, tail: Seq<u8>, rest: Seq<u8>)
    requires
        c.ram@.len() <= VEC_CAP,
        c.load_post(&n, c.serialized() + tail, rest),
    ensures
        n.ram@ == c.ram@,
        n.mapping_active == c.mapping_active && n.outer_rom_bank == c.outer_rom_bank,
        n.outer_ram_bank == c.outer_ram_bank && n.outer_mode == c.outer_mode,
        n.inner_rom_bank == c.inner_rom_bank && n.inner_ram_bank == c.inner_ram_bank,
        n.inner_banking_mode == c.inner_banking_mode && n.ram_enabled == c.ram_enabled,
        rest == tail,
{
    let t8 = enc_slice(c.ram@) + tail;
    let t7 = enc_bool(c.ram_enabled) + t8;
    let t6 = seq![c.inner_banking_mode] + t7;
    let t5 = seq![c.inner_ram_bank] + t6;
    let t4 = seq![c.inner_rom_bank] + t5;
    let t3 = seq![c.outer_mode] + t4;
    let t2 = seq![c.outer_ram_bank] + t3;
    let t1 = seq![c.outer_rom_bank] + t2;
    assert(c.serialized() + tail =~= enc_bool(c.mapping_active) + t1);
    lemma_take_bool(c.mapping_active, t1);
    lemma_take_u8(c.outer_rom_bank, t2);
    lemma_take_u8(c.outer_ram_bank, t3);
    lemma_take_u8(c.outer_mode, t4);
    lemma_take_u8(c.inner_rom_bank, t5);
    lemma_take_u8(c.inner_ram_bank, t6);
    lemma_take_u8(c.inner_banking_mode, t7);
    lemma_take_bool(c.ram_enabled, t8);
    lemma_take_vec(c.ram@, tail);
}

} // verus!
