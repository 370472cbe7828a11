//! MBC1 — the most common Game Boy mapper.
//!
//! Bank switching via writes to ROM address space:
//!   0x0000-0x1FFF: RAM enable (0x0A enables, anything else disables)
//!   0x2000-0x3FFF: ROM bank number (lower 5 bits, 0 maps to 1)
//!   0x4000-0x5FFF: RAM bank OR upper ROM bank bits (2 bits)
//!   0x6000-0x7FFF: Banking mode (0 = ROM, 1 = RAM)
use vstd::prelude::*;
use super::{Cartridge, rom_byte, ram_byte, bank_count, read_rom_banked, wrap_bank, ram_loaded, copy_prefix};
use crate::savestate::{push_bool, push_u8, push_slice, pop_bool, pop_u8, pop_vec, take_bool, take_u8,
    take_vec, enc_bool, enc_slice, MAX_VEC_LEN, lemma_take_roundtrips};

verus! {

pub struct Mbc1 {
    pub rom: Vec<u8>,
    pub ram: Vec<u8>,
    pub title: String,
    pub ram_enabled: bool,
    pub rom_bank: u8,
    pub ram_bank: u8,
    pub banking_mode: u8,
    pub battery: bool,
}

impl Mbc1 {
    pub open spec fn rom_bank_spec(&self) -> nat {
        let bank: usize = if self.banking_mode == 0 {
            ((self.ram_bank as usize) << 5usize) | (self.rom_bank as usize)
        } else {
            self.rom_bank as usize
        };
        (bank as nat) % bank_count(self.rom@.len())
    }

    pub open spec fn bank0_spec(&self) -> nat {
        if self.banking_mode == 1 {
            ((self.ram_bank * 32) as nat) % bank_count(self.rom@.len())
        } else {
            0
        }
    }

    /// Offset into RAM for an address in 0xA000-0xBFFF.
    pub open spec fn ram_offset(&self, addr: u16) -> int {
        (if self.banking_mode == 1 { self.ram_bank as int } else { 0 }) * 0x2000 + (addr - 0xA000)
    }

    /// The register effect of a write below 0x8000.
    pub open spec fn write_regs(&self, addr: u16, val: u8) -> Mbc1 {
        if addr <= 0x1FFF {
            Mbc1 { ram_enabled: val & 0x0F == 0x0A, ..*self }
        } else if addr <= 0x3FFF {
            Mbc1 { rom_bank: if val & 0x1F == 0 { 1 } else { val & 0x1F }, ..*self }
        } else if addr <= 0x5FFF {
            Mbc1 { ram_bank: val & 0x03, ..*self }
        } else {
            Mbc1 { banking_mode: val & 0x01, ..*self }
        }
    }

    pub fn new(data: &[u8], ram_size: usize, title: String, battery: bool) -> (r: Self)
        ensures
            r.rom@ == data@,
            r.ram@ == Seq::new(if ram_size > 0 { ram_size as nat } else { 0x2000 }, |i: int| 0u8),
            r.title == title,
            !r.ram_enabled && r.rom_bank == 1 && r.ram_bank == 0 && r.banking_mode == 0,
            r.battery == battery,
    {
        let ram = vec![0u8; if ram_size > 0 { ram_size } else { 0x2000 }];
        assert(ram@ =~= Seq::new(if ram_size > 0 { ram_size as nat } else { 0x2000 }, |i: int| 0u8));
        Mbc1 {
            rom: vstd::slice::slice_to_vec(data),
            ram,
            title,
            ram_enabled: false,
            rom_bank: 1,
            ram_bank: 0,
            banking_mode: 0,
            battery,
        }
    }

    pub fn effective_rom_bank(&self) -> (r: usize)
        ensures r == self.rom_bank_spec(), r < bank_count(self.rom@.len()),
    {
        let bank = if self.banking_mode == 0 {
            (self.ram_bank as usize) << 5 | self.rom_bank as usize
        } else {
            self.rom_bank as usize
        };
        wrap_bank(bank, self.rom.len())
    }

    pub fn effective_bank0(&self) -> (r: usize)
        ensures r == self.bank0_spec(), r < bank_count(self.rom@.len()),
    {
        if self.banking_mode == 1 {
            wrap_bank(self.ram_bank as usize * 32, self.rom.len())
        } else {
            0
        }
    }
}

impl Cartridge for Mbc1 {
    open spec fn read_spec(&self, addr: u16) -> u8 {
        if addr <= 0x3FFF {
            rom_byte(self.rom@, self.bank0_spec() * 0x4000 + addr)
        } else if addr <= 0x7FFF {
            rom_byte(self.rom@, self.rom_bank_spec() * 0x4000 + (addr - 0x4000))
        } else if 0xA000 <= addr <= 0xBFFF {
            if !self.ram_enabled || self.ram@.len() == 0 {
                0xFF
            } else {
                ram_byte(self.ram@, self.ram_offset(addr))
            }
        } else {
            0xFF
        }
    }

    open spec fn write_post(&self, new: &Self, addr: u16, val: u8) -> bool {
        if addr <= 0x7FFF {
            *new == self.write_regs(addr, val)
        } else if 0xA000 <= addr <= 0xBFFF && self.ram_enabled && self.ram@.len() > 0
            && self.ram_offset(addr) < self.ram@.len() {
            &&& new.ram@ == self.ram@.update(self.ram_offset(addr), val)
            &&& *new == (Mbc1 { ram: new.ram, ..*self })
        } else {
            *new == *self
        }
    }

    open spec fn title_spec(&self) -> Seq<char> {
        self.title@
    }

    open spec fn serialized(&self) -> Seq<u8> {
        enc_bool(self.ram_enabled) + seq![self.rom_bank, self.ram_bank, self.banking_mode]
            + enc_slice(self.ram@)
    }

    open spec fn load_post(&self, new: &Self, d0: Seq<u8>, d1: Seq<u8>) -> bool {
        let (en, s1) = take_bool(d0);
        let (rb, s2) = take_u8(s1);
        let (ab, s3) = take_u8(s2);
        let (mode, s4) = take_u8(s3);
        let (ram, s5) = take_vec(s4);
        &&& new.ram@ == ram
        &&& *new == (Mbc1 { ram: new.ram, ram_enabled: en, rom_bank: rb, ram_bank: ab, banking_mode: mode, ..*self })
        &&& d1 == s5
    }

    open spec fn battery_spec(&self) -> bool {
        self.battery
    }

    open spec fn ram_spec(&self) -> Seq<u8> {
        self.ram@
    }

    open spec fn rumble_spec(&self) -> bool {
        false
    }

    open spec fn rtc_post(&self, new: &Self, cycles: u32) -> bool {
        *new == *self
    }

    open spec fn rtc_ok(&self, cycles: u32) -> bool {
        true
    }

    open spec fn tilt_post(&self, new: &Self, x: i16, y: i16) -> bool {
        *new == *self
    }

    open spec fn load_ok(&self, d: Seq<u8>) -> bool {
        true
    }

    fn read(&self, addr: u16) -> (r: u8) {
        if addr <= 0x3FFF {
            read_rom_banked(&self.rom, self.effective_bank0(), addr)
        } else if addr <= 0x7FFF {
            read_rom_banked(&self.rom, self.effective_rom_bank(), addr - 0x4000)
        } else if 0xA000 <= addr && addr <= 0xBFFF {
            if !self.ram_enabled || self.ram.len() == 0 {
                return 0xFF;
            }
            let bank: usize = if self.banking_mode == 1 { self.ram_bank as usize } else { 0 };
            let offset = bank * 0x2000 + (addr - 0xA000) as usize;
            if offset < self.ram.len() { self.ram[offset] } else { 0xFF }
        } else {
            0xFF
        }
    }

    fn write(&mut self, addr: u16, val: u8) {
        if addr <= 0x1FFF {
            self.ram_enabled = (val & 0x0F) == 0x0A;
        } else if addr <= 0x3FFF {
            let mut bank = val & 0x1F;
            if bank == 0 {
                bank = 1;
            }
            self.rom_bank = bank;
        } else if addr <= 0x5FFF {
            self.ram_bank = val & 0x03;
        } else if addr <= 0x7FFF {
            self.banking_mode = val & 0x01;
        } else if 0xA000 <= addr && addr <= 0xBFFF {
            if !self.ram_enabled || self.ram.len() == 0 {
                return;
            }
            let bank: usize = if self.banking_mode == 1 { self.ram_bank as usize } else { 0 };
            let offset = bank * 0x2000 + (addr - 0xA000) as usize;
            if offset < self.ram.len() {
                self.ram.set(offset, val);
            }
        }
    }

    fn title(&self) -> (r: &str) {
        self.title.as_str()
    }

    fn save_state(&self, d: &mut Vec<u8>) {
        push_bool(d, self.ram_enabled);
        push_u8(d, self.rom_bank);
        push_u8(d, self.ram_bank);
        push_u8(d, self.banking_mode);
        push_slice(d, self.ram.as_slice());
        assert(d@ =~= old(d)@ + self.serialized());
    }

    fn load_state(&mut self, d: &mut &[u8]) {
        self.ram_enabled = pop_bool(d);
        self.rom_bank = pop_u8(d);
        self.ram_bank = pop_u8(d);
        self.banking_mode = pop_u8(d);
        self.ram = pop_vec(d);
    }

    fn has_battery(&self) -> (r: bool) {
        self.battery
    }

    fn ram_data(&self) -> (r: &[u8]) {
        self.ram.as_slice()
    }

    fn load_ram(&mut self, data: &[u8]) {
        copy_prefix(&mut self.ram, data);
    }

    fn rumble(&self) -> (r: bool) {
        false
    }

    fn tick_rtc(&mut self, cycles: u32) {
    }

    fn set_rtc_offset(&mut self, seconds: i32) {
    }

    fn set_tilt(&mut self, x: i16, y: i16) {
    }
}

/// Saving an MBC1 and loading the bytes back restores its registers and RAM
/// (RAM of at most `MAX_VEC_LEN` bytes) and leaves the cursor after them.
pub proof fn lemma_mbc1_roundtrip(c: Mbc1, n: Mbc1, tail: Seq<u8>, rest: Seq<u8>)
    requires
        c.ram@.len() <= MAX_VEC_LEN,
        c.load_post(&n, c.serialized() + tail, rest),
    ensures
        n.ram@ == c.ram@,
        n.ram_enabled == c.ram_enabled && n.rom_bank == c.rom_bank,
        n.ram_bank == c.ram_bank && n.banking_mode == c.banking_mode,
        n.rom == c.rom && n.title == c.title && n.battery == c.battery,
        rest == tail,
{
    let t4 = enc_slice(c.ram@) + tail;
    let t3 = seq![c.banking_mode] + t4;
    let t2 = seq![c.ram_bank] + t3;
    let t1 = seq![c.rom_bank] + t2;
    lemma_take_roundtrips(tail);
    lemma_take_roundtrips(t4);
    lemma_take_roundtrips(t3);
    lemma_take_roundtrips(t2);
    lemma_take_roundtrips(t1);
    assert(c.serialized() + tail =~= enc_bool(c.ram_enabled) + t1);
}


/// The lower-bank register as a write to 0x2000-0x3FFF leaves it: the low
/// five bits of the byte, with 0 read as 1.
pub open spec fn mbc1_lower_bits(val: u8) -> int {
    if val % 32 == 0 { 1 } else { (val % 32) as int }
}

/// The bank registers as the writes of `upper` and `lower` leave them, and
/// the bank number that mode 0 builds from them: upper bits above lower bits.
proof fn lemma_mbc1_bank_bits(upper: u8, lower: u8)
    ensures
        upper & 3u8 == upper % 4,
        lower & 0x1Fu8 == lower % 32,
        (((upper & 3u8) as usize) << 5usize) | ((lower & 0x1Fu8) as usize) == (upper % 4) * 32 + lower % 32,
        (((upper & 3u8) as usize) << 5usize) | 1usize == (upper % 4) * 32 + 1,
{
    assert(upper & 3u8 == upper % 4 && lower & 0x1Fu8 == lower % 32
        && (((upper & 3u8) as usize) << 5usize) | ((lower & 0x1Fu8) as usize) == (upper % 4) * 32 + lower % 32
        && (((upper & 3u8) as usize) << 5usize) | 1usize == (upper % 4) * 32 + 1) by (bit_vector);
}

/// In banking mode 0, after writing `upper` to 0x4000-0x5FFF and then
/// `lower` to 0x2000-0x3FFF, the window 0x4000-0x7FFF shows ROM bank
/// `(upper mod 4) · 32 + lower bits` (the upper two bits above the lower
/// five), taken modulo the number of banks in the ROM, and 0x0000-0x3FFF
/// shows bank 0.
pub proof fn lemma_mbc1_rom_window(m: Mbc1, m1: Mbc1, m2: Mbc1, upper: u8, lower: u8)
    requires
        m.banking_mode == 0,
        m.write_post(&m1, 0x4000, upper),
        m1.write_post(&m2, 0x2000, lower),
    ensures
        forall|off: int| 0 <= off < 0x4000 ==> #[trigger] m2.read_spec((0x4000 + off) as u16)
            == rom_byte(m.rom@, (((upper % 4) * 32 + mbc1_lower_bits(lower)) as nat % bank_count(m.rom@.len())) * 0x4000 + off),
        forall|off: int| 0 <= off < 0x4000 ==> #[trigger] m2.read_spec(off as u16) == rom_byte(m.rom@, off),
{
    lemma_mbc1_bank_bits(upper, lower);
    assert(m2.rom_bank_spec() == ((upper % 4) * 32 + mbc1_lower_bits(lower)) as nat % bank_count(m.rom@.len()));
}

/// In banking mode 1, after writing `upper` to 0x4000-0x5FFF and then
/// `lower` to 0x2000-0x3FFF, the upper bits select the bank at
/// 0x0000-0x3FFF (bank `(upper mod 4) · 32`) and the window 0x4000-0x7FFF
/// shows the lower bits alone, each modulo the number of banks.
pub proof fn lemma_mbc1_rom_window_mode1(m: Mbc1, m1: Mbc1, m2: Mbc1, upper: u8, lower: u8)
    requires
        m.banking_mode == 1,
        m.write_post(&m1, 0x4000, upper),
        m1.write_post(&m2, 0x2000, lower),
    ensures
        forall|off: int| 0 <= off < 0x4000 ==> #[trigger] m2.read_spec((0x4000 + off) as u16)
            == rom_byte(m.rom@, (mbc1_lower_bits(lower) as nat % bank_count(m.rom@.len())) * 0x4000 + off),
        forall|off: int| 0 <= off < 0x4000 ==> #[trigger] m2.read_spec(off as u16)
            == rom_byte(m.rom@, (((upper % 4) * 32) as nat % bank_count(m.rom@.len())) * 0x4000 + off),
{
    lemma_mbc1_bank_bits(upper, lower);
    assert(m2.rom_bank_spec() == mbc1_lower_bits(lower) as nat % bank_count(m.rom@.len()));
    assert(m2.bank0_spec() == ((upper % 4) * 32) as nat % bank_count(m.rom@.len()));
}
/// MBC1 external RAM: with RAM enabled, a byte written at 0xA000 + `off`
/// lands in RAM bank `ram_bank` (mode 1) or bank 0 (mode 0) at offset
/// `off`, and reads back unchanged; with RAM disabled, reads give 0xFF and
/// writes change nothing.
pub proof fn lemma_mbc1_ram(m: Mbc1, n: Mbc1, off: int, v: u8)
    requires
        0 <= off < 0x2000,
        m.write_post(&n, (0xA000 + off) as u16, v),
        m.ram_enabled ==> (if m.banking_mode == 1 { m.ram_bank as int } else { 0 }) * 0x2000 + off < m.ram@.len(),
    ensures
        m.ram_enabled ==> n.ram@ == m.ram@.update((if m.banking_mode == 1 { m.ram_bank as int } else { 0 }) * 0x2000 + off, v)
            && n.read_spec((0xA000 + off) as u16) == v,
        !m.ram_enabled ==> n == m && m.read_spec((0xA000 + off) as u16) == 0xFF,
{
}

} // verus!
