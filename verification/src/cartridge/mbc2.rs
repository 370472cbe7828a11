//! MBC2 — simple mapper with built-in 512×4-bit RAM.
//!
//! ROM banking via writes to 0x0000-0x3FFF:
//!   - Bit 8 of address = 0: RAM enable (low nibble 0x0A enables)
//!   - Bit 8 of address = 1: ROM bank select (4 bits, 0 maps to 1)
//! RAM is 512 bytes at 0xA000-0xA1FF (mirrored), only the low 4 bits are used.
use vstd::prelude::*;
use crate::savestate::{lemma_take_u8, lemma_take_u16, lemma_take_u32, lemma_take_i16, lemma_take_bool, lemma_take_vec, MAX_VEC_LEN as VEC_CAP};
use super::{Cartridge, rom_byte, read_rom_small, ram_loaded};
use crate::savestate::{push_bool, push_u8, pop_bool, pop_u8, take_bool, take_u8, enc_bool, rest_after};

verus! {

pub struct Mbc2 {
    pub rom: Vec<u8>,
    pub ram: [u8; 512],
    pub title: String,
    pub ram_enabled: bool,
    pub rom_bank: u8,
    pub battery: bool,
}

impl Mbc2 {
    pub open spec fn write_regs(&self, addr: u16, val: u8) -> Mbc2 {
        if addr & 0x0100 == 0 {
            Mbc2 { ram_enabled: val & 0x0F == 0x0A, ..*self }
        } else {
            Mbc2 { rom_bank: if val & 0x0F == 0 { 1 } else { val & 0x0F }, ..*self }
        }
    }

    pub fn new(data: &[u8], title: String, battery: bool) -> (r: Self)
        ensures
            r.rom@ == data@,
            r.ram@ == Seq::new(512, |i: int| 0u8),
            r.title == title,
            !r.ram_enabled && r.rom_bank == 1 && r.battery == battery,
    {
        let ram = [0u8; 512];
        assert(ram@ =~= Seq::new(512, |i: int| 0u8));
        Mbc2 { rom: vstd::slice::slice_to_vec(data), ram, title, ram_enabled: false, rom_bank: 1, battery }
    }
}

impl Cartridge for Mbc2 {
    open spec fn read_spec(&self, addr: u16) -> u8 {
        if addr <= 0x3FFF {
            rom_byte(self.rom@, addr as int)
        } else if addr <= 0x7FFF {
            rom_byte(self.rom@, (if self.rom_bank >= 1 { self.rom_bank } else { 1 }) * 0x4000 + (addr - 0x4000))
        } else if 0xA000 <= addr <= 0xBFFF {
            if !self.ram_enabled { 0xFF } else { self.ram@[((addr - 0xA000) % 512) as int] | 0xF0 }
        } else {
            0xFF
        }
    }

    open spec fn write_post(&self, new: &Self, addr: u16, val: u8) -> bool {
        if addr <= 0x3FFF {
            *new == self.write_regs(addr, val)
        } else if 0xA000 <= addr <= 0xBFFF && self.ram_enabled {
            &&& new.ram@ == self.ram@.update((addr - 0xA000) % 512, val & 0x0F)
            &&& *new == (Mbc2 { ram: new.ram, ..*self })
        } else {
            *new == *self
        }
    }

    open spec fn title_spec(&self) -> Seq<char> {
        self.title@
    }

    open spec fn serialized(&self) -> Seq<u8> {
        enc_bool(self.ram_enabled) + seq![self.rom_bank] + self.ram@
    }

    open spec fn load_post(&self, new: &Self, d0: Seq<u8>, d1: Seq<u8>) -> bool {
        let (en, s1) = take_bool(d0);
        let (rb, s2) = take_u8(s1);
        &&& new.ram@ == s2.subrange(0, 512)
        &&& *new == (Mbc2 { ram: new.ram, ram_enabled: en, rom_bank: rb, ..*self })
        &&& d1 == s2.subrange(512, s2.len() as int)
    }

    open spec fn battery_spec(&self) -> bool {
        self.battery
    }

    open spec fn ram_spec(&self) -> Seq<u8> {
        self.ram@
    }

    open spec fn rumble_spec(&self) -> bool {
        false
    }

    open spec fn rtc_post(&self, new: &Self, cycles: u32) -> bool {
        *new == *self
    }

    open spec fn rtc_ok(&self, cycles: u32) -> bool {
        true
    }

    open spec fn tilt_post(&self, new: &Self, x: i16, y: i16) -> bool {
        *new == *self
    }

    /// The state must hold the 512 RAM bytes after the two register bytes.
    open spec fn load_ok(&self, d: Seq<u8>) -> bool {
        rest_after(d, 2).len() >= 512
    }

    fn read(&self, addr: u16) -> (r: u8) {
        if addr <= 0x3FFF {
            let idx = addr as usize;
            if idx < self.rom.len() { self.rom[idx] } else { 0xFF }
        } else if addr <= 0x7FFF {
            let bank: usize = if self.rom_bank >= 1 { self.rom_bank as usize } else { 1 };
            read_rom_small(&self.rom, bank, addr - 0x4000)
        } else if 0xA000 <= addr && addr <= 0xBFFF {
            if !self.ram_enabled {
                return 0xFF;
            }
            let offset = ((addr - 0xA000) % 512) as usize;
            self.ram[offset] | 0xF0
        } else {
            0xFF
        }
    }

    fn write(&mut self, addr: u16, val: u8) {
        if addr <= 0x3FFF {
            if addr & 0x0100 == 0 {
                self.ram_enabled = (val & 0x0F) == 0x0A;
            } else {
                self.rom_bank = val & 0x0F;
                if self.rom_bank == 0 {
                    self.rom_bank = 1;
                }
            }
        } else if 0xA000 <= addr && addr <= 0xBFFF {
            if !self.ram_enabled {
                return;
            }
            let offset = ((addr - 0xA000) % 512) as usize;
            self.ram[offset] = val & 0x0F;
        }
    }

    fn title(&self) -> (r: &str) {
        self.title.as_str()
    }

    fn save_state(&self, d: &mut Vec<u8>) {
        push_bool(d, self.ram_enabled);
        push_u8(d, self.rom_bank);
        let ghost mid = d@;
        let mut i: usize = 0;
        while i < 512
            invariant
                i <= 512,
                d@ == mid + self.ram@.subrange(0, i as int),
            decreases 512 - i,
        {
            d.push(self.ram[i]);
            i = i + 1;
            assert(d@ =~= mid + self.ram@.subrange(0, i as int));
        }
        assert(self.ram@.subrange(0, 512) =~= self.ram@);
        assert(d@ =~= old(d)@ + self.serialized());
    }

    fn load_state(&mut self, d: &mut &[u8]) {
        self.ram_enabled = pop_bool(d);
        self.rom_bank = pop_u8(d);
        let ghost s2 = d@;
        let mut ram = [0u8; 512];
        let mut i: usize = 0;
        while i < 512
            invariant
                i <= 512,
                d@ == s2,
                s2.len() >= 512,
                forall|j: int| 0 <= j < i ==> ram@[j] == s2[j],
            decreases 512 - i,
        {
            ram[i] = d[i];
            i = i + 1;
        }
        assert(ram@ =~= s2.subrange(0, 512));
        self.ram = ram;
        *d = &d[512..d.len()];
    }

    fn has_battery(&self) -> (r: bool) {
        self.battery
    }

    fn ram_data(&self) -> (r: &[u8]) {
        self.ram.as_slice()
    }

    fn load_ram(&mut self, data: &[u8]) {
        let len: usize = if data.len() < 512 { data.len() } else { 512 };
        let mut i: usize = 0;
        while i < len
            invariant
                len == (if data@.len() < 512 { data@.len() } else { 512 }),
                i <= len,
                forall|j: int| 0 <= j < i ==> self.ram@[j] == data@[j],
                forall|j: int| i <= j < 512 ==> self.ram@[j] == old(self).ram@[j],
            decreases len - i,
        {
            self.ram[i] = data[i];
            i = i + 1;
        }
        assert(self.ram@ =~= ram_loaded(old(self).ram@, data@));
    }

    fn rumble(&self) -> (r: bool) {
        false
    }

    fn tick_rtc(&mut self, cycles: u32) {
    }

    fn set_rtc_offset(&mut self, seconds: i32) {
    }

    fn set_tilt(&mut self, x: i16, y: i16) {
    }
}

/// Saving an MBC2 controller and loading the bytes back restores its RAM,
/// RAM enable and ROM bank; the cursor moves past exactly the saved bytes.
pub proof fn lemma_mbc2_roundtrip(c: Mbc2, n: Mbc2, tail: Seq<u8>, rest: Seq<u8>)
    requires c.load_post(&n, c.serialized() + tail, rest),
    ensures
        n.ram@ == c.ram@,
        n.ram_enabled == c.ram_enabled && n.rom_bank == c.rom_bank,
        rest == tail,
{
    let t2 = c.ram@ + tail;
    let t1 = seq![c.rom_bank] + t2;
    assert(c.serialized() + tail =~= enc_bool(c.ram_enabled) + t1);
    lemma_take_bool(c.ram_enabled, t1);
    lemma_take_u8(c.rom_bank, t2);
    assert(t2.subrange(0, 512) =~= c.ram@);
    assert(t2.subrange(512, t2.len() as int) =~= tail);
}

/// MBC2's built-in RAM holds 512 half-bytes: with RAM enabled, a byte
/// written at 0xA000 + `off` keeps only its low nibble, and reading any
/// address that mirrors it (every 512 bytes up to 0xBFFF) gives that nibble
/// with the upper four bits set. With RAM disabled, writes change nothing
/// and reads give 0xFF.
pub proof fn lemma_mbc2_ram(m: Mbc2, n: Mbc2, off: int, v: u8, off2: int)
    requires
        0 <= off < 0x2000,
        0 <= off2 < 0x2000,
        off2 % 512 == off % 512,
        m.ram@.len() == 512,
        m.write_post(&n, (0xA000 + off) as u16, v),
    ensures
        m.ram_enabled ==> n.read_spec((0xA000 + off2) as u16) == 0xF0 + v % 16,
        !m.ram_enabled ==> n == m && m.read_spec((0xA000 + off2) as u16) == 0xFF,
{
    crate::cpu::lemma_low_nibble(v);
    let x = v & 0x0F;
    assert(x < 16 ==> x | 0xF0u8 == x + 0xF0) by (bit_vector);
}

/// MBC2 registers sit below 0x4000 and are told apart by address bit 8:
/// with it clear, a write enables RAM exactly when its low nibble is 0xA;
/// with it set, the low nibble selects the ROM bank shown at 0x4000-0x7FFF,
/// 0 counting as 1.
pub proof fn lemma_mbc2_registers(m: Mbc2, n: Mbc2, addr: u16, v: u8)
    requires
        addr <= 0x3FFF,
        m.write_post(&n, addr, v),
    ensures
        addr & 0x0100 == 0 ==> n.ram_enabled == (v % 16 == 0xA) && n.rom_bank == m.rom_bank,
        addr & 0x0100 != 0 ==> n.ram_enabled == m.ram_enabled
            && forall|off: int| 0 <= off < 0x4000 ==> #[trigger] n.read_spec((0x4000 + off) as u16)
                == rom_byte(m.rom@, (if v % 16 == 0 { 1 } else { v % 16 }) * 0x4000 + off),
{
    crate::cpu::lemma_low_nibble(v);
}

} // verus!
