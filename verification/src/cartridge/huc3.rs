//! HuC3 mapper (cart type 0xFE) — MBC3-like with RTC, IR, and tone generator.
//! Used by Robopon and some Hudson Soft games.
use vstd::prelude::*;
use crate::savestate::{lemma_take_u8, lemma_take_u16, lemma_take_u32, lemma_take_i16, lemma_take_bool, lemma_take_vec, MAX_VEC_LEN as VEC_CAP};
use super::{Cartridge, rom_byte, ram_byte, bank_count, read_rom_banked, wrap_bank, ram_loaded, copy_prefix};
use crate::savestate::{push_bool, push_u8, push_u32, push_slice, pop_bool, pop_u8, pop_u32, pop_vec,
    take_bool, take_u8, take_u32, take_vec, enc_bool, enc_slice, le32};

verus! {

pub const CYCLES_PER_MINUTE: u32 = 251658240;

pub struct Huc3 {
    pub rom: Vec<u8>,
    pub ram: Vec<u8>,
    pub title: String,
    pub ram_enabled: bool,
    pub rom_bank: u8,
    pub ram_bank: u8,
    /// 0x00/0x0A = RAM, 0x0B = RTC, 0x0C = IR, 0x0D = tone
    pub mode: u8,
    pub battery: bool,
    pub rtc_minutes: u32,
    pub rtc_cycles: u32,
    pub cmd_reg: u8,
    pub read_nibble: u8,
}

impl Huc3 {
    pub open spec fn rom_bank_spec(&self) -> nat {
        (self.rom_bank as nat) % bank_count(self.rom@.len())
    }

    pub open spec fn ram_offset(&self, addr: u16) -> int {
        self.ram_bank * 0x2000 + (addr - 0xA000)
    }

    pub open spec fn days(&self) -> u32 {
        self.rtc_minutes / 1440
    }

    /// The effect of an RTC command byte written while in RTC mode.
    pub open spec fn rtc_command(&self, val: u8) -> Huc3 {
        let cmd = (val / 16) % 16;
        if cmd == 0x01 { Huc3 { read_nibble: (self.rtc_minutes % 16) as u8, ..*self } }
        else if cmd == 0x02 { Huc3 { read_nibble: ((self.rtc_minutes / 16) % 16) as u8, ..*self } }
        else if cmd == 0x03 { Huc3 { read_nibble: ((self.rtc_minutes / 256) % 16) as u8, ..*self } }
        else if cmd == 0x04 { Huc3 { read_nibble: (self.days() % 16) as u8, ..*self } }
        else if cmd == 0x05 { Huc3 { read_nibble: ((self.days() / 16) % 16) as u8, ..*self } }
        else if cmd == 0x06 { Huc3 { read_nibble: ((self.days() / 256) % 16) as u8, ..*self } }
        else { Huc3 { cmd_reg: val % 16, ..*self } }
    }

    pub open spec fn write_regs(&self, addr: u16, val: u8) -> Huc3 {
        if addr <= 0x1FFF {
            Huc3 { mode: val, ram_enabled: val == 0x0A, ..*self }
        } else if addr <= 0x3FFF {
            Huc3 { rom_bank: if val & 0x7F == 0 { 1 } else { val & 0x7F }, ..*self }
        } else if addr <= 0x5FFF {
            Huc3 { ram_bank: val & 0x0F, ..*self }
        } else {
            *self
        }
    }

    /// Minutes and leftover cycles after `cycles` more T-cycles.
    pub open spec fn rtc_after(&self, cycles: u32) -> (u32, u32) {
        let total = self.rtc_cycles + cycles;
        ((self.rtc_minutes + total / (CYCLES_PER_MINUTE as int)) as u32, (total % (CYCLES_PER_MINUTE as int)) as u32)
    }

    pub fn new(data: &[u8], ram_size: usize, title: String, battery: bool) -> (r: Self)
        ensures
            r.rom@ == data@,
            r.ram@ == Seq::new(ram_size as nat, |i: int| 0u8),
            r.title == title,
            !r.ram_enabled && r.rom_bank == 1 && r.ram_bank == 0 && r.mode == 0,
            r.battery == battery && r.rtc_minutes == 0 && r.rtc_cycles == 0,
            r.cmd_reg == 0 && r.read_nibble == 0,
    {
        let ram = vec![0u8; ram_size];
        assert(ram@ =~= Seq::new(ram_size as nat, |i: int| 0u8));
        Huc3 {
            rom: vstd::slice::slice_to_vec(data),
            ram,
            title,
            ram_enabled: false,
            rom_bank: 1,
            ram_bank: 0,
            mode: 0,
            battery,
            rtc_minutes: 0,
            rtc_cycles: 0,
            cmd_reg: 0,
            read_nibble: 0,
        }
    }

    pub fn effective_rom_bank(&self) -> (r: usize)
        ensures r == self.rom_bank_spec(), r < bank_count(self.rom@.len()),
    {
        wrap_bank(self.rom_bank as usize, self.rom.len())
    }
}

impl Cartridge for Huc3 {
    open spec fn read_spec(&self, addr: u16) -> u8 {
        if addr <= 0x3FFF {
            rom_byte(self.rom@, addr as int)
        } else if addr <= 0x7FFF {
            rom_byte(self.rom@, self.rom_bank_spec() * 0x4000 + (addr - 0x4000))
        } else if 0xA000 <= addr <= 0xBFFF {
            if self.mode == 0x0B {
                (1 + 2 * (self.read_nibble % 16)) as u8
            } else if self.mode == 0x0C || self.mode == 0x0D {
                0x00
            } else if !self.ram_enabled || self.ram@.len() == 0 {
                0xFF
            } else {
                ram_byte(self.ram@, self.ram_offset(addr))
            }
        } else {
            0xFF
        }
    }

    open spec fn write_post(&self, new: &Self, addr: u16, val: u8) -> bool {
        if addr <= 0x7FFF {
            *new == self.write_regs(addr, val)
        } else if 0xA000 <= addr <= 0xBFFF && self.mode == 0x0B {
            *new == self.rtc_command(val)
        } else if 0xA000 <= addr <= 0xBFFF && (self.mode == 0x0A || self.mode == 0x00) && self.ram_enabled
            && self.ram@.len() > 0 && self.ram_offset(addr) < self.ram@.len() {
            &&& new.ram@ == self.ram@.update(self.ram_offset(addr), val)
            &&& *new == (Huc3 { ram: new.ram, ..*self })
        } else {
            *new == *self
        }
    }

    open spec fn title_spec(&self) -> Seq<char> {
        self.title@
    }

    open spec fn serialized(&self) -> Seq<u8> {
        seq![self.rom_bank, self.ram_bank] + enc_bool(self.ram_enabled) + seq![self.mode]
            + le32(self.rtc_minutes) + le32(self.rtc_cycles) + enc_slice(self.ram@)
    }

    open spec fn load_post(&self, new: &Self, d0: Seq<u8>, d1: Seq<u8>) -> bool {
        let (rb, s1) = take_u8(d0);
        let (ab, s2) = take_u8(s1);
        let (en, s3) = take_bool(s2);
        let (mode, s4) = take_u8(s3);
        let (mins, s5) = take_u32(s4);
        let (cyc, s6) = take_u32(s5);
        let (ram, s7) = take_vec(s6);
        &&& new.ram@ == ram
        &&& *new == (Huc3 { ram: new.ram, rom_bank: rb, ram_bank: ab, ram_enabled: en, mode,
                rtc_minutes: mins, rtc_cycles: cyc, ..*self })
        &&& d1 == s7
    }

    open spec fn battery_spec(&self) -> bool {
        self.battery
    }

    open spec fn ram_spec(&self) -> Seq<u8> {
        self.ram@
    }

    open spec fn rumble_spec(&self) -> bool {
        false
    }

    open spec fn rtc_post(&self, new: &Self, cycles: u32) -> bool {
        *new == (Huc3 { rtc_minutes: self.rtc_after(cycles).0, rtc_cycles: self.rtc_after(cycles).1, ..*self })
    }

    /// The cycle counter and the minute counter must not overflow.
    open spec fn rtc_ok(&self, cycles: u32) -> bool {
        self.rtc_cycles + cycles <= u32::MAX
            && self.rtc_minutes + (self.rtc_cycles + cycles) / (CYCLES_PER_MINUTE as int) <= u32::MAX
    }

    open spec fn tilt_post(&self, new: &Self, x: i16, y: i16) -> bool {
        *new == *self
    }

    open spec fn load_ok(&self, d: Seq<u8>) -> bool {
        true
    }

    fn read(&self, addr: u16) -> (r: u8) {
        if addr <= 0x3FFF {
            let idx = addr as usize;
            if idx < self.rom.len() { self.rom[idx] } else { 0xFF }
        } else if addr <= 0x7FFF {
            read_rom_banked(&self.rom, self.effective_rom_bank(), addr - 0x4000)
        } else if 0xA000 <= addr && addr <= 0xBFFF {
            match self.mode {
                0x0B => 1 + 2 * (self.read_nibble % 16),
                0x0C => 0x00,
                0x0D => 0x00,
                _ => {
                    if !self.ram_enabled || self.ram.len() == 0 {
                        return 0xFF;
                    }
                    let offset = self.ram_bank as usize * 0x2000 + (addr - 0xA000) as usize;
                    if offset < self.ram.len() { self.ram[offset] } else { 0xFF }
                }
            }
        } else {
            0xFF
        }
    }

    fn write(&mut self, addr: u16, val: u8) {
        if addr <= 0x1FFF {
            self.mode = val;
            self.ram_enabled = val == 0x0A;
        } else if addr <= 0x3FFF {
            let mut bank = val & 0x7F;
            if bank == 0 {
                bank = 1;
            }
            self.rom_bank = bank;
        } else if addr <= 0x5FFF {
            self.ram_bank = val & 0x0F;
        } else if 0xA000 <= addr && addr <= 0xBFFF {
            if self.mode == 0x0B {
                let cmd = (val / 16) % 16;
                let data = val % 16;
                match cmd {
                    0x01 => self.read_nibble = (self.rtc_minutes % 16) as u8,
                    0x02 => self.read_nibble = ((self.rtc_minutes / 16) % 16) as u8,
                    0x03 => self.read_nibble = ((self.rtc_minutes / 256) % 16) as u8,
                    0x04 => {
                        let days = self.rtc_minutes / 1440;
                        self.read_nibble = (days % 16) as u8;
                    }
                    0x05 => {
                        let days = self.rtc_minutes / 1440;
                        self.read_nibble = ((days / 16) % 16) as u8;
                    }
                    0x06 => {
                        let days = self.rtc_minutes / 1440;
                        self.read_nibble = ((days / 256) % 16) as u8;
                    }
                    _ => self.cmd_reg = data,
                }
            } else if self.mode == 0x0A || self.mode == 0x00 {
                if !self.ram_enabled || self.ram.len() == 0 {
                    return;
                }
                let offset = self.ram_bank as usize * 0x2000 + (addr - 0xA000) as usize;
                if offset < self.ram.len() {
                    self.ram.set(offset, val);
                }
            }
        }
    }

    fn title(&self) -> (r: &str) {
        self.title.as_str()
    }

    fn save_state(&self, d: &mut Vec<u8>) {
        push_u8(d, self.rom_bank);
        push_u8(d, self.ram_bank);
        push_bool(d, self.ram_enabled);
        push_u8(d, self.mode);
        push_u32(d, self.rtc_minutes);
        push_u32(d, self.rtc_cycles);
        push_slice(d, self.ram.as_slice());
        assert(d@ =~= old(d)@ + self.serialized());
    }

    fn load_state(&mut self, d: &mut &[u8]) {
        self.rom_bank = pop_u8(d);
        self.ram_bank = pop_u8(d);
        self.ram_enabled = pop_bool(d);
        self.mode = pop_u8(d);
        self.rtc_minutes = pop_u32(d);
        self.rtc_cycles = pop_u32(d);
        self.ram = pop_vec(d);
    }

    fn has_battery(&self) -> (r: bool) {
        self.battery
    }

    fn ram_data(&self) -> (r: &[u8]) {
        self.ram.as_slice()
    }

    fn load_ram(&mut self, data: &[u8]) {
        copy_prefix(&mut self.ram, data);
    }

    fn rumble(&self) -> (r: bool) {
        false
    }

    /// Advance the minute counter by whole minutes of T-cycles.
    fn tick_rtc(&mut self, cycles: u32) {
        let ghost total = self.rtc_cycles + cycles;
        self.rtc_cycles = self.rtc_cycles + cycles;
        let ghost m0 = self.rtc_minutes;
        while self.rtc_cycles >= CYCLES_PER_MINUTE
            invariant
                total == old(self).rtc_cycles + cycles,
                self.rtc_minutes + (self.rtc_cycles as int) / (CYCLES_PER_MINUTE as int)
                    == old(self).rtc_minutes + total / (CYCLES_PER_MINUTE as int),
                (self.rtc_cycles as int) % (CYCLES_PER_MINUTE as int) == total % (CYCLES_PER_MINUTE as int),
                old(self).rtc_minutes + total / (CYCLES_PER_MINUTE as int) <= u32::MAX,
                *self == (Huc3 { rtc_minutes: self.rtc_minutes, rtc_cycles: self.rtc_cycles, ..*old(self) }),
            decreases self.rtc_cycles,
        {
            self.rtc_cycles = self.rtc_cycles - CYCLES_PER_MINUTE;
            self.rtc_minutes = self.rtc_minutes + 1;
        }
    }

    fn set_rtc_offset(&mut self, seconds: i32) {
    }

    fn set_tilt(&mut self, x: i16, y: i16) {
    }
}

/// Saving a HuC3 controller and loading the bytes back restores its RAM,
/// registers and clock; the cursor moves past exactly the saved bytes.
pub proof fn lemma_huc3_roundtrip(c: Huc3, n: Huc3, tail: Seq<u8>, rest: Seq<u8>)
    requires
        c.ram@.len() <= VEC_CAP,
        c.load_post(&n, c.serialized() + tail, rest),
    ensures
        n.ram@ == c.ram@,
        n.rom_bank == c.rom_bank && n.ram_bank == c.ram_bank && n.ram_enabled == c.ram_enabled,
        n.mode == c.mode && n.rtc_minutes == c.rtc_minutes && n.rtc_cycles == c.rtc_cycles,
        rest == tail,
{
    let t6 = enc_slice(c.ram@) + tail;
    let t5 = le32(c.rtc_cycles) + t6;
    let t4 = le32(c.rtc_minutes) + t5;
    let t3 = seq![c.mode] + t4;
    let t2 = enc_bool(c.ram_enabled) + t3;
    let t1 = seq![c.ram_bank] + t2;
    assert(c.serialized() + tail =~= seq![c.rom_bank] + t1);
    lemma_take_u8(c.rom_bank, t1);
    lemma_take_u8(c.ram_bank, t2);
    lemma_take_bool(c.ram_enabled, t3);
    lemma_take_u8(c.mode, t4);
    lemma_take_u32(c.rtc_minutes, t5);
    lemma_take_u32(c.rtc_cycles, t6);
    lemma_take_vec(c.ram@, tail);
}

} // verus!
