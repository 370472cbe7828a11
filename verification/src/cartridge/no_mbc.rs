//! ROM-only cartridge — no memory bank controller (at most 32 KiB of ROM,
//! no external RAM). Used by Tetris, Dr. Mario, etc.
use vstd::prelude::*;
use super::{Cartridge, rom_byte, header_title, parse_title, ram_loaded};

verus! {

pub struct NoMbc {
    pub rom: Vec<u8>,
    pub title: String,
}

impl NoMbc {
    pub fn new(data: &[u8]) -> (r: Self)
        ensures
            r.rom@ == data@,
            r.title@ == (if data@.len() >= 0x0144 { header_title(data@) } else { "Unknown"@ }),
    {
        let title = if data.len() >= 0x0144 {
            parse_title(data)
        } else {
            "Unknown".to_owned()
        };
        NoMbc { rom: vstd::slice::slice_to_vec(data), title }
    }

    /// A 32 KiB all-zero ROM with an empty title.
    pub fn empty() -> (r: Self)
        ensures
            r.rom@ == Seq::new(0x8000, |i: int| 0u8),
            r.title@ == Seq::<char>::empty(),
    {
        let rom = vec![0u8; 0x8000];
        assert(rom@ =~= Seq::new(0x8000, |i: int| 0u8));
        NoMbc { rom, title: String::new() }
    }
}

impl Cartridge for NoMbc {
    open spec fn read_spec(&self, addr: u16) -> u8 {
        rom_byte(self.rom@, addr as int)
    }

    open spec fn write_post(&self, new: &Self, addr: u16, val: u8) -> bool {
        *new == *self
    }

    open spec fn title_spec(&self) -> Seq<char> {
        self.title@
    }

    open spec fn serialized(&self) -> Seq<u8> {
        Seq::empty()
    }

    open spec fn load_post(&self, new: &Self, d0: Seq<u8>, d1: Seq<u8>) -> bool {
        *new == *self && d1 == d0
    }

    open spec fn battery_spec(&self) -> bool {
        false
    }

    open spec fn ram_spec(&self) -> Seq<u8> {
        Seq::empty()
    }

    open spec fn rumble_spec(&self) -> bool {
        false
    }

    open spec fn rtc_post(&self, new: &Self, cycles: u32) -> bool {
        *new == *self
    }

    open spec fn rtc_ok(&self, cycles: u32) -> bool {
        true
    }

    open spec fn tilt_post(&self, new: &Self, x: i16, y: i16) -> bool {
        *new == *self
    }

    open spec fn load_ok(&self, d: Seq<u8>) -> bool {
        true
    }

    fn read(&self, addr: u16) -> (r: u8) {
        let idx = addr as usize;
        if idx < self.rom.len() { self.rom[idx] } else { 0xFF }
    }

    /// ROM-only: writes are ignored.
    fn write(&mut self, addr: u16, val: u8) {
    }

    fn title(&self) -> (r: &str) {
        self.title.as_str()
    }

    /// ROM-only: no mutable state to save.
    fn save_state(&self, data: &mut Vec<u8>) {
        assert(data@ =~= old(data)@ + self.serialized());
    }

    /// ROM-only: nothing to restore.
    fn load_state(&mut self, data: &mut &[u8]) {
    }

    fn has_battery(&self) -> (r: bool) {
        false
    }

    fn ram_data(&self) -> (r: &[u8]) {
        let e: &[u8] = &[];
        e
    }

    /// ROM-only: there is no RAM, so the cartridge stays as it is.
    fn load_ram(&mut self, data: &[u8])
        ensures *final(self) == *old(self),
    {
        assert(ram_loaded(Seq::empty(), data@) =~= Seq::<u8>::empty());
    }

    fn rumble(&self) -> (r: bool) {
        false
    }

    fn tick_rtc(&mut self, cycles: u32) {
    }

    fn set_rtc_offset(&mut self, seconds: i32) {
    }

    fn set_tilt(&mut self, x: i16, y: i16) {
    }
}

} // verus!
