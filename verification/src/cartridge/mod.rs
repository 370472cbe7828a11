//! Game Boy cartridges: the header parser and the memory bank controllers.
use vstd::prelude::*;

pub mod mbc1;
pub mod mbc2;
pub mod mbc5;
pub mod mbc7;
pub mod mmm01;
pub mod huc1;
pub mod huc3;
pub mod no_mbc;


use huc1::Huc1;
use huc3::Huc3;
use mbc1::Mbc1;
use mbc2::Mbc2;
use mbc5::Mbc5;
use mbc7::Mbc7;
use mmm01::Mmm01;
use no_mbc::NoMbc;

verus! {

/// The interface every mapper offers to the memory bus.
pub trait Cartridge: Sized {
    /// The byte a read at `addr` returns.
    spec fn read_spec(&self, addr: u16) -> u8;
    /// `new` is the cartridge after a write of `val` at `addr`.
    spec fn write_post(&self, new: &Self, addr: u16, val: u8) -> bool;
    /// The game title from the header.
    spec fn title_spec(&self) -> Seq<char>;
    /// The bytes `save_state` appends.
    spec fn serialized(&self) -> Seq<u8>;
    /// `new` and the cursor `d1` are what `load_state` makes of the cursor `d0`.
    spec fn load_post(&self, new: &Self, d0: Seq<u8>, d1: Seq<u8>) -> bool;
    /// Whether the cartridge has battery-backed RAM.
    spec fn battery_spec(&self) -> bool;
    /// The battery-backed RAM contents.
    spec fn ram_spec(&self) -> Seq<u8>;
    /// Whether the rumble motor is on.
    spec fn rumble_spec(&self) -> bool;
    /// `new` is the cartridge after `cycles` T-cycles of its real-time clock.
    spec fn rtc_post(&self, new: &Self, cycles: u32) -> bool;
    /// Whether `tick_rtc(cycles)` can run without overflow.
    spec fn rtc_ok(&self, cycles: u32) -> bool;
    /// `new` is the cartridge after the host reports a tilt of (x, y).
    spec fn tilt_post(&self, new: &Self, x: i16, y: i16) -> bool;
    /// Whether `load_state` accepts the cursor `d`.
    spec fn load_ok(&self, d: Seq<u8>) -> bool;

    fn read(&self, addr: u16) -> (r: u8)
        ensures r == self.read_spec(addr);

    fn write(&mut self, addr: u16, val: u8)
        ensures old(self).write_post(final(self), addr, val);

    fn title(&self) -> (r: &str)
        ensures r@ == self.title_spec();

    fn save_state(&self, data: &mut Vec<u8>)
        ensures final(data)@ == old(data)@ + self.serialized();

    fn load_state(&mut self, data: &mut &[u8])
        requires old(self).load_ok(old(data)@),
        ensures old(self).load_post(final(self), old(data)@, final(data)@);

    fn has_battery(&self) -> (r: bool)
        ensures r == self.battery_spec();

    fn ram_data(&self) -> (r: &[u8])
        ensures r@ == self.ram_spec();

    /// Restore cartridge RAM from previously saved data; the length of RAM
    /// never changes.
    fn load_ram(&mut self, data: &[u8])
        ensures
            final(self).ram_spec() == ram_loaded(old(self).ram_spec(), data@);

    fn rumble(&self) -> (r: bool)
        ensures r == self.rumble_spec();

    /// Advance the real-time clock by the given T-cycles (HuC3 only).
    fn tick_rtc(&mut self, cycles: u32)
        requires old(self).rtc_ok(cycles),
        ensures old(self).rtc_post(final(self), cycles);

    /// Set the RTC offset in seconds; no mapper here has a settable clock.
    fn set_rtc_offset(&mut self, seconds: i32)
        ensures *final(self) == *old(self);

    /// Feed accelerometer data from the host (MBC7 only). Centre = 0x81D0.
    fn set_tilt(&mut self, x: i16, y: i16)
        ensures old(self).tilt_post(final(self), x, y);
}

/// One cartridge of any supported mapper, as the memory bus holds it.
pub enum AnyCartridge {
    NoMbc(NoMbc),
    Mbc1(Mbc1),
    Mbc2(Mbc2),
    Mbc5(Mbc5),
    Mbc7(Mbc7),
    Mmm01(Mmm01),
    Huc1(Huc1),
    Huc3(Huc3),
}

impl Cartridge for AnyCartridge {
    open spec fn read_spec(&self, addr: u16) -> u8 {
        match self {
            AnyCartridge::NoMbc(c) => c.read_spec(addr),
            AnyCartridge::Mbc1(c) => c.read_spec(addr),
            AnyCartridge::Mbc2(c) => c.read_spec(addr),
            AnyCartridge::Mbc5(c) => c.read_spec(addr),
            AnyCartridge::Mbc7(c) => c.read_spec(addr),
            AnyCartridge::Mmm01(c) => c.read_spec(addr),
            AnyCartridge::Huc1(c) => c.read_spec(addr),
            AnyCartridge::Huc3(c) => c.read_spec(addr),
        }
    }

    open spec fn write_post(&self, new: &Self, addr: u16, val: u8) -> bool {
        match self {
            AnyCartridge::NoMbc(c) => match new { AnyCartridge::NoMbc(n) => c.write_post(&n, addr, val), _ => false },
            AnyCartridge::Mbc1(c) => match new { AnyCartridge::Mbc1(n) => c.write_post(&n, addr, val), _ => false },
            AnyCartridge::Mbc2(c) => match new { AnyCartridge::Mbc2(n) => c.write_post(&n, addr, val), _ => false },
            AnyCartridge::Mbc5(c) => match new { AnyCartridge::Mbc5(n) => c.write_post(&n, addr, val), _ => false },
            AnyCartridge::Mbc7(c) => match new { AnyCartridge::Mbc7(n) => c.write_post(&n, addr, val), _ => false },
            AnyCartridge::Mmm01(c) => match new { AnyCartridge::Mmm01(n) => c.write_post(&n, addr, val), _ => false },
            AnyCartridge::Huc1(c) => match new { AnyCartridge::Huc1(n) => c.write_post(&n, addr, val), _ => false },
            AnyCartridge::Huc3(c) => match new { AnyCartridge::Huc3(n) => c.write_post(&n, addr, val), _ => false },
        }
    }

    open spec fn title_spec(&self) -> Seq<char> {
        match self {
            AnyCartridge::NoMbc(c) => c.title_spec(),
            AnyCartridge::Mbc1(c) => c.title_spec(),
            AnyCartridge::Mbc2(c) => c.title_spec(),
            AnyCartridge::Mbc5(c) => c.title_spec(),
            AnyCartridge::Mbc7(c) => c.title_spec(),
            AnyCartridge::Mmm01(c) => c.title_spec(),
            AnyCartridge::Huc1(c) => c.title_spec(),
            AnyCartridge::Huc3(c) => c.title_spec(),
        }
    }

    open spec fn serialized(&self) -> Seq<u8> {
        match self {
            AnyCartridge::NoMbc(c) => c.serialized(),
            AnyCartridge::Mbc1(c) => c.serialized(),
            AnyCartridge::Mbc2(c) => c.serialized(),
            AnyCartridge::Mbc5(c) => c.serialized(),
            AnyCartridge::Mbc7(c) => c.serialized(),
            AnyCartridge::Mmm01(c) => c.serialized(),
            AnyCartridge::Huc1(c) => c.serialized(),
            AnyCartridge::Huc3(c) => c.serialized(),
        }
    }

    open spec fn load_post(&self, new: &Self, d0: Seq<u8>, d1: Seq<u8>) -> bool {
        match self {
            AnyCartridge::NoMbc(c) => match new { AnyCartridge::NoMbc(n) => c.load_post(&n, d0, d1), _ => false },
            AnyCartridge::Mbc1(c) => match new { AnyCartridge::Mbc1(n) => c.load_post(&n, d0, d1), _ => false },
            AnyCartridge::Mbc2(c) => match new { AnyCartridge::Mbc2(n) => c.load_post(&n, d0, d1), _ => false },
            AnyCartridge::Mbc5(c) => match new { AnyCartridge::Mbc5(n) => c.load_post(&n, d0, d1), _ => false },
            AnyCartridge::Mbc7(c) => match new { AnyCartridge::Mbc7(n) => c.load_post(&n, d0, d1), _ => false },
            AnyCartridge::Mmm01(c) => match new { AnyCartridge::Mmm01(n) => c.load_post(&n, d0, d1), _ => false },
            AnyCartridge::Huc1(c) => match new { AnyCartridge::Huc1(n) => c.load_post(&n, d0, d1), _ => false },
            AnyCartridge::Huc3(c) => match new { AnyCartridge::Huc3(n) => c.load_post(&n, d0, d1), _ => false },
        }
    }

    open spec fn battery_spec(&self) -> bool {
        match self {
            AnyCartridge::NoMbc(c) => c.battery_spec(),
            AnyCartridge::Mbc1(c) => c.battery_spec(),
            AnyCartridge::Mbc2(c) => c.battery_spec(),
            AnyCartridge::Mbc5(c) => c.battery_spec(),
            AnyCartridge::Mbc7(c) => c.battery_spec(),
            AnyCartridge::Mmm01(c) => c.battery_spec(),
            AnyCartridge::Huc1(c) => c.battery_spec(),
            AnyCartridge::Huc3(c) => c.battery_spec(),
        }
    }

    open spec fn ram_spec(&self) -> Seq<u8> {
        match self {
            AnyCartridge::NoMbc(c) => c.ram_spec(),
            AnyCartridge::Mbc1(c) => c.ram_spec(),
            AnyCartridge::Mbc2(c) => c.ram_spec(),
            AnyCartridge::Mbc5(c) => c.ram_spec(),
            AnyCartridge::Mbc7(c) => c.ram_spec(),
            AnyCartridge::Mmm01(c) => c.ram_spec(),
            AnyCartridge::Huc1(c) => c.ram_spec(),
            AnyCartridge::Huc3(c) => c.ram_spec(),
        }
    }

    open spec fn rumble_spec(&self) -> bool {
        match self {
            AnyCartridge::NoMbc(c) => c.rumble_spec(),
            AnyCartridge::Mbc1(c) => c.rumble_spec(),
            AnyCartridge::Mbc2(c) => c.rumble_spec(),
            AnyCartridge::Mbc5(c) => c.rumble_spec(),
            AnyCartridge::Mbc7(c) => c.rumble_spec(),
            AnyCartridge::Mmm01(c) => c.rumble_spec(),
            AnyCartridge::Huc1(c) => c.rumble_spec(),
            AnyCartridge::Huc3(c) => c.rumble_spec(),
        }
    }

    open spec fn rtc_post(&self, new: &Self, cycles: u32) -> bool {
        match self {
            AnyCartridge::NoMbc(c) => match new { AnyCartridge::NoMbc(n) => c.rtc_post(&n, cycles), _ => false },
            AnyCartridge::Mbc1(c) => match new { AnyCartridge::Mbc1(n) => c.rtc_post(&n, cycles), _ => false },
            AnyCartridge::Mbc2(c) => match new { AnyCartridge::Mbc2(n) => c.rtc_post(&n, cycles), _ => false },
            AnyCartridge::Mbc5(c) => match new { AnyCartridge::Mbc5(n) => c.rtc_post(&n, cycles), _ => false },
            AnyCartridge::Mbc7(c) => match new { AnyCartridge::Mbc7(n) => c.rtc_post(&n, cycles), _ => false },
            AnyCartridge::Mmm01(c) => match new { AnyCartridge::Mmm01(n) => c.rtc_post(&n, cycles), _ => false },
            AnyCartridge::Huc1(c) => match new { AnyCartridge::Huc1(n) => c.rtc_post(&n, cycles), _ => false },
            AnyCartridge::Huc3(c) => match new { AnyCartridge::Huc3(n) => c.rtc_post(&n, cycles), _ => false },
        }
    }

    open spec fn rtc_ok(&self, cycles: u32) -> bool {
        match self {
            AnyCartridge::NoMbc(c) => c.rtc_ok(cycles),
            AnyCartridge::Mbc1(c) => c.rtc_ok(cycles),
            AnyCartridge::Mbc2(c) => c.rtc_ok(cycles),
            AnyCartridge::Mbc5(c) => c.rtc_ok(cycles),
            AnyCartridge::Mbc7(c) => c.rtc_ok(cycles),
            AnyCartridge::Mmm01(c) => c.rtc_ok(cycles),
            AnyCartridge::Huc1(c) => c.rtc_ok(cycles),
            AnyCartridge::Huc3(c) => c.rtc_ok(cycles),
        }
    }

    open spec fn tilt_post(&self, new: &Self, x: i16, y: i16) -> bool {
        match self {
            AnyCartridge::NoMbc(c) => match new { AnyCartridge::NoMbc(n) => c.tilt_post(&n, x, y), _ => false },
            AnyCartridge::Mbc1(c) => match new { AnyCartridge::Mbc1(n) => c.tilt_post(&n, x, y), _ => false },
            AnyCartridge::Mbc2(c) => match new { AnyCartridge::Mbc2(n) => c.tilt_post(&n, x, y), _ => false },
            AnyCartridge::Mbc5(c) => match new { AnyCartridge::Mbc5(n) => c.tilt_post(&n, x, y), _ => false },
            AnyCartridge::Mbc7(c) => match new { AnyCartridge::Mbc7(n) => c.tilt_post(&n, x, y), _ => false },
            AnyCartridge::Mmm01(c) => match new { AnyCartridge::Mmm01(n) => c.tilt_post(&n, x, y), _ => false },
            AnyCartridge::Huc1(c) => match new { AnyCartridge::Huc1(n) => c.tilt_post(&n, x, y), _ => false },
            AnyCartridge::Huc3(c) => match new { AnyCartridge::Huc3(n) => c.tilt_post(&n, x, y), _ => false },
        }
    }

    open spec fn load_ok(&self, d: Seq<u8>) -> bool {
        match self {
            AnyCartridge::NoMbc(c) => c.load_ok(d),
            AnyCartridge::Mbc1(c) => c.load_ok(d),
            AnyCartridge::Mbc2(c) => c.load_ok(d),
            AnyCartridge::Mbc5(c) => c.load_ok(d),
            AnyCartridge::Mbc7(c) => c.load_ok(d),
            AnyCartridge::Mmm01(c) => c.load_ok(d),
            AnyCartridge::Huc1(c) => c.load_ok(d),
            AnyCartridge::Huc3(c) => c.load_ok(d),
        }
    }

    fn read(&self, addr: u16) -> (r: u8) {
        match self {
            AnyCartridge::NoMbc(c) => c.read(addr),
            AnyCartridge::Mbc1(c) => c.read(addr),
            AnyCartridge::Mbc2(c) => c.read(addr),
            AnyCartridge::Mbc5(c) => c.read(addr),
            AnyCartridge::Mbc7(c) => c.read(addr),
            AnyCartridge::Mmm01(c) => c.read(addr),
            AnyCartridge::Huc1(c) => c.read(addr),
            AnyCartridge::Huc3(c) => c.read(addr),
        }
    }

    fn write(&mut self, addr: u16, val: u8) {
        match self {
            AnyCartridge::NoMbc(c) => c.write(addr, val),
            AnyCartridge::Mbc1(c) => c.write(addr, val),
            AnyCartridge::Mbc2(c) => c.write(addr, val),
            AnyCartridge::Mbc5(c) => c.write(addr, val),
            AnyCartridge::Mbc7(c) => c.write(addr, val),
            AnyCartridge::Mmm01(c) => c.write(addr, val),
            AnyCartridge::Huc1(c) => c.write(addr, val),
            AnyCartridge::Huc3(c) => c.write(addr, val),
        }
    }

    fn title(&self) -> (r: &str) {
        match self {
            AnyCartridge::NoMbc(c) => c.title(),
            AnyCartridge::Mbc1(c) => c.title(),
            AnyCartridge::Mbc2(c) => c.title(),
            AnyCartridge::Mbc5(c) => c.title(),
            AnyCartridge::Mbc7(c) => c.title(),
            AnyCartridge::Mmm01(c) => c.title(),
            AnyCartridge::Huc1(c) => c.title(),
            AnyCartridge::Huc3(c) => c.title(),
        }
    }

    fn save_state(&self, data: &mut Vec<u8>) {
        match self {
            AnyCartridge::NoMbc(c) => c.save_state(data),
            AnyCartridge::Mbc1(c) => c.save_state(data),
            AnyCartridge::Mbc2(c) => c.save_state(data),
            AnyCartridge::Mbc5(c) => c.save_state(data),
            AnyCartridge::Mbc7(c) => c.save_state(data),
            AnyCartridge::Mmm01(c) => c.save_state(data),
            AnyCartridge::Huc1(c) => c.save_state(data),
            AnyCartridge::Huc3(c) => c.save_state(data),
        }
    }

    fn load_state(&mut self, data: &mut &[u8]) {
        match self {
            AnyCartridge::NoMbc(c) => c.load_state(data),
            AnyCartridge::Mbc1(c) => c.load_state(data),
            AnyCartridge::Mbc2(c) => c.load_state(data),
            AnyCartridge::Mbc5(c) => c.load_state(data),
            AnyCartridge::Mbc7(c) => c.load_state(data),
            AnyCartridge::Mmm01(c) => c.load_state(data),
            AnyCartridge::Huc1(c) => c.load_state(data),
            AnyCartridge::Huc3(c) => c.load_state(data),
        }
    }

    fn has_battery(&self) -> (r: bool) {
        match self {
            AnyCartridge::NoMbc(c) => c.has_battery(),
            AnyCartridge::Mbc1(c) => c.has_battery(),
            AnyCartridge::Mbc2(c) => c.has_battery(),
            AnyCartridge::Mbc5(c) => c.has_battery(),
            AnyCartridge::Mbc7(c) => c.has_battery(),
            AnyCartridge::Mmm01(c) => c.has_battery(),
            AnyCartridge::Huc1(c) => c.has_battery(),
            AnyCartridge::Huc3(c) => c.has_battery(),
        }
    }

    fn ram_data(&self) -> (r: &[u8]) {
        match self {
            AnyCartridge::NoMbc(c) => c.ram_data(),
            AnyCartridge::Mbc1(c) => c.ram_data(),
            AnyCartridge::Mbc2(c) => c.ram_data(),
            AnyCartridge::Mbc5(c) => c.ram_data(),
            AnyCartridge::Mbc7(c) => c.ram_data(),
            AnyCartridge::Mmm01(c) => c.ram_data(),
            AnyCartridge::Huc1(c) => c.ram_data(),
            AnyCartridge::Huc3(c) => c.ram_data(),
        }
    }

    fn load_ram(&mut self, data: &[u8]) {
        match self {
            AnyCartridge::NoMbc(c) => c.load_ram(data),
            AnyCartridge::Mbc1(c) => c.load_ram(data),
            AnyCartridge::Mbc2(c) => c.load_ram(data),
            AnyCartridge::Mbc5(c) => c.load_ram(data),
            AnyCartridge::Mbc7(c) => c.load_ram(data),
            AnyCartridge::Mmm01(c) => c.load_ram(data),
            AnyCartridge::Huc1(c) => c.load_ram(data),
            AnyCartridge::Huc3(c) => c.load_ram(data),
        }
    }

    fn rumble(&self) -> (r: bool) {
        match self {
            AnyCartridge::NoMbc(c) => c.rumble(),
            AnyCartridge::Mbc1(c) => c.rumble(),
            AnyCartridge::Mbc2(c) => c.rumble(),
            AnyCartridge::Mbc5(c) => c.rumble(),
            AnyCartridge::Mbc7(c) => c.rumble(),
            AnyCartridge::Mmm01(c) => c.rumble(),
            AnyCartridge::Huc1(c) => c.rumble(),
            AnyCartridge::Huc3(c) => c.rumble(),
        }
    }

    fn tick_rtc(&mut self, cycles: u32) {
        match self {
            AnyCartridge::NoMbc(c) => c.tick_rtc(cycles),
            AnyCartridge::Mbc1(c) => c.tick_rtc(cycles),
            AnyCartridge::Mbc2(c) => c.tick_rtc(cycles),
            AnyCartridge::Mbc5(c) => c.tick_rtc(cycles),
            AnyCartridge::Mbc7(c) => c.tick_rtc(cycles),
            AnyCartridge::Mmm01(c) => c.tick_rtc(cycles),
            AnyCartridge::Huc1(c) => c.tick_rtc(cycles),
            AnyCartridge::Huc3(c) => c.tick_rtc(cycles),
        }
    }

    fn set_rtc_offset(&mut self, seconds: i32) {
        match self {
            AnyCartridge::NoMbc(c) => c.set_rtc_offset(seconds),
            AnyCartridge::Mbc1(c) => c.set_rtc_offset(seconds),
            AnyCartridge::Mbc2(c) => c.set_rtc_offset(seconds),
            AnyCartridge::Mbc5(c) => c.set_rtc_offset(seconds),
            AnyCartridge::Mbc7(c) => c.set_rtc_offset(seconds),
            AnyCartridge::Mmm01(c) => c.set_rtc_offset(seconds),
            AnyCartridge::Huc1(c) => c.set_rtc_offset(seconds),
            AnyCartridge::Huc3(c) => c.set_rtc_offset(seconds),
        }
    }

    fn set_tilt(&mut self, x: i16, y: i16) {
        match self {
            AnyCartridge::NoMbc(c) => c.set_tilt(x, y),
            AnyCartridge::Mbc1(c) => c.set_tilt(x, y),
            AnyCartridge::Mbc2(c) => c.set_tilt(x, y),
            AnyCartridge::Mbc5(c) => c.set_tilt(x, y),
            AnyCartridge::Mbc7(c) => c.set_tilt(x, y),
            AnyCartridge::Mmm01(c) => c.set_tilt(x, y),
            AnyCartridge::Huc1(c) => c.set_tilt(x, y),
            AnyCartridge::Huc3(c) => c.set_tilt(x, y),
        }
    }
}

/// Whether the cartridge type byte declares battery-backed RAM.
pub open spec fn type_has_battery(t: u8) -> bool {
    t == 0x03 || t == 0x06 || t == 0x09 || t == 0x0D || t == 0x0F || t == 0x10 || t == 0x13
        || t == 0x1B || t == 0x1E || t == 0x22 || t == 0xFE || t == 0xFF
}

/// Parse the ROM header (type byte 0x0147, RAM size 0x0149) and build the
/// matching mapper over a copy of the ROM. Short images and types without a
/// mapper here become ROM-only cartridges.
pub fn from_rom(data: &[u8]) -> (r: AnyCartridge)
    ensures
        data@.len() < 0x150 ==> r is NoMbc,
        data@.len() >= 0x150 ==> ({
            let t = data@[0x0147];
            &&& (t == 0x00 ==> r is NoMbc)
            &&& (0x01 <= t <= 0x03 ==> (r matches AnyCartridge::Mbc1(c) && c.rom@ == data@
                    && c.title@ == header_title(data@) && c.battery == type_has_battery(t)
                    && c.ram@.len() == (if ram_size_spec(data@[0x0149]) > 0 { ram_size_spec(data@[0x0149]) as nat } else { 0x2000 })))
            &&& (0x05 <= t <= 0x06 ==> (r matches AnyCartridge::Mbc2(c) && c.rom@ == data@
                    && c.battery == type_has_battery(t)))
            &&& (0x0B <= t <= 0x0D ==> (r matches AnyCartridge::Mmm01(c) && c.rom@ == data@
                    && c.ram@.len() == ram_size_spec(data@[0x0149]) && c.battery == type_has_battery(t)))
            &&& (0x19 <= t <= 0x1E ==> (r matches AnyCartridge::Mbc5(c) && c.rom@ == data@
                    && c.battery == type_has_battery(t) && c.has_rumble == (0x1C <= t <= 0x1E)))
            &&& (t == 0x22 ==> (r matches AnyCartridge::Mbc7(c) && c.rom@ == data@ && c.battery))
            &&& (t == 0xFE ==> (r matches AnyCartridge::Huc3(c) && c.rom@ == data@ && c.battery
                    && c.ram@.len() == ram_size_spec(data@[0x0149])))
            &&& (t == 0xFF ==> (r matches AnyCartridge::Huc1(c) && c.rom@ == data@ && c.battery
                    && c.ram@.len() == ram_size_spec(data@[0x0149])))
            &&& (!(t <= 0x03 || 0x05 <= t <= 0x06 || 0x0B <= t <= 0x0D || 0x19 <= t <= 0x1E || t == 0x22
                    || t == 0xFE || t == 0xFF) ==> r is NoMbc)
        }),
{
    if data.len() < 0x150 {
        return AnyCartridge::NoMbc(NoMbc::new(data));
    }
    let cart_type = data[0x0147];
    let rom_title = parse_title(data);
    let ram_size = parse_ram_size(data[0x0149]);
    let has_battery = match cart_type {
        0x03 | 0x06 | 0x09 | 0x0D | 0x0F | 0x10 | 0x13 | 0x1B | 0x1E | 0x22 | 0xFE | 0xFF => true,
        _ => false,
    };
    let has_rumble = 0x1C <= cart_type && cart_type <= 0x1E;
    match cart_type {
        0x00 => AnyCartridge::NoMbc(NoMbc::new(data)),
        0x01..=0x03 => AnyCartridge::Mbc1(Mbc1::new(data, ram_size, rom_title, has_battery)),
        0x05..=0x06 => AnyCartridge::Mbc2(Mbc2::new(data, rom_title, has_battery)),
        0x0B..=0x0D => AnyCartridge::Mmm01(Mmm01::new(data, ram_size, rom_title, has_battery)),
        0x19..=0x1E => AnyCartridge::Mbc5(Mbc5::new(data, ram_size, rom_title, has_battery, has_rumble)),
        0x22 => AnyCartridge::Mbc7(Mbc7::new(data, rom_title, has_battery)),
        0xFE => AnyCartridge::Huc3(Huc3::new(data, ram_size, rom_title, has_battery)),
        0xFF => AnyCartridge::Huc1(Huc1::new(data, ram_size, rom_title, has_battery)),
        _ => AnyCartridge::NoMbc(NoMbc::new(data)),
    }
}

/// The title characters: header bytes up to the first zero, each read as a
/// Latin-1 character.
pub open spec fn title_chars(s: Seq<u8>) -> Seq<char>
    decreases s.len(),
{
    if s.len() == 0 || s[0] == 0 {
        Seq::empty()
    } else {
        seq![s[0] as char] + title_chars(s.drop_first())
    }
}

/// The title field of a ROM header (0x0134..0x0144).
pub open spec fn header_title(data: Seq<u8>) -> Seq<char> {
    title_chars(data.subrange(0x134, 0x144))
}

/// Appends one character to a string.
#[verifier::external_body]
fn string_push(s: &mut String, c: char)
    ensures
        final(s)@ == old(s)@.push(c),
{
    s.push(c);
}

fn byte_char(b: u8) -> (c: char)
    ensures c == b as char,
{
    b as char
}

/// Detect a Game Boy Color title (header byte 0x0143 is 0x80 or 0xC0).
pub fn is_cgb(data: &[u8]) -> (r: bool)
    ensures
        r == (data@.len() > 0x0143 && (data@[0x0143] == 0x80 || data@[0x0143] == 0xC0)),
{
    if data.len() <= 0x0143 {
        return false;
    }
    data[0x0143] == 0x80 || data[0x0143] == 0xC0
}

/// Parse the header title.
pub fn parse_title(data: &[u8]) -> (r: String)
    requires
        data@.len() >= 0x0144,
    ensures
        r@ == header_title(data@),
{
    text_field(data, 0x134, 0x144)
}

/// The characters of `data[start..end]` up to the first zero byte.
pub fn text_field(data: &[u8], start: usize, end: usize) -> (r: String)
    requires
        start <= end <= data@.len(),
    ensures
        r@ == title_chars(data@.subrange(start as int, end as int)),
{
    let mut title = String::new();
    let ghost field = data@.subrange(start as int, end as int);
    let ghost n = end - start;
    let mut i: usize = start;
    proof {
        assert(field.subrange(0, n) =~= field);
        assert(title@ + title_chars(field) =~= title_chars(field));
    }
    while i < end
        invariant
            start <= i <= end,
            end <= data@.len(),
            n == end - start,
            field == data@.subrange(start as int, end as int),
            title_chars(field) == title@ + title_chars(field.subrange(i - start, n)),
        ensures
            title_chars(field) == title@,
        decreases end - i,
    {
        let ghost rest = field.subrange(i - start, n);
        if data[i] == 0 {
            assert(rest[0] == 0);
            assert(title_chars(rest) == Seq::<char>::empty());
            assert(title@ + title_chars(rest) =~= title@);
            break;
        }
        let c = byte_char(data[i]);
        let ghost before = title@;
        string_push(&mut title, c);
        assert(rest.drop_first() =~= field.subrange(i + 1 - start, n));
        assert(title_chars(rest) == seq![c] + title_chars(rest.drop_first()));
        assert(before + title_chars(rest) =~= title@ + title_chars(rest.drop_first()));
        i = i + 1;
        proof {
            if i == end {
                assert(field.subrange(n, n) =~= Seq::<u8>::empty());
                assert(title@ + title_chars(field.subrange(n, n)) =~= title@);
            }
        }
    }
    title
}

/// A ROM byte, or 0xFF past the end of the image.
pub open spec fn rom_byte(rom: Seq<u8>, off: int) -> u8 {
    if 0 <= off < rom.len() { rom[off] } else { 0xFF }
}

/// The RAM byte at `off`, or 0xFF past the end.
pub open spec fn ram_byte(ram: Seq<u8>, off: int) -> u8 {
    if 0 <= off < ram.len() { ram[off] } else { 0xFF }
}

/// The number of 16 KiB banks a mapper wraps bank numbers by (at least 1).
pub open spec fn bank_count(len: nat) -> nat {
    if len / 0x4000 >= 1 { len / 0x4000 } else { 1 }
}

/// A bank number reduced modulo the bank count addresses bytes within (or
/// just past) the image without overflow.
pub proof fn lemma_bank_fits(b: nat, len: nat)
    requires
        b < bank_count(len),
    ensures
        len >= 0x4000 ==> b * 0x4000 + 0x4000 <= len,
        len < 0x4000 ==> b == 0,
{
    if len >= 0x4000 {
        let n = len / 0x4000;
        assert(b * 0x4000 + 0x4000 <= n * 0x4000) by (nonlinear_arith)
            requires b < n;
        assert(n * 0x4000 <= len) by (nonlinear_arith)
            requires n == len / 0x4000;
    }
}

/// Reads a ROM byte at `bank * 0x4000 + off` (0xFF past the end).
pub fn read_rom_banked(rom: &Vec<u8>, bank: usize, off: u16) -> (r: u8)
    requires
        bank < bank_count(rom@.len()),
        off < 0x4000,
    ensures
        r == rom_byte(rom@, bank * 0x4000 + off),
{
    let len = rom.len();
    proof { lemma_bank_fits(bank as nat, rom@.len()); }
    assert(bank * 0x4000 + 0x4000 <= len + 0x4000);
    let idx = bank * 0x4000 + off as usize;
    if idx < rom.len() { rom[idx] } else { 0xFF }
}

/// Reads a ROM byte at a small bank number that needs no wrapping.
pub fn read_rom_small(rom: &Vec<u8>, bank: usize, off: u16) -> (r: u8)
    requires
        bank < 0x10000,
        off < 0x4000,
    ensures
        r == rom_byte(rom@, bank * 0x4000 + off),
{
    assert(bank * 0x4000 <= 0xFFFF * 0x4000) by (nonlinear_arith)
        requires bank < 0x10000;
    let idx = bank * 0x4000 + off as usize;
    if idx < rom.len() { rom[idx] } else { 0xFF }
}

/// `bank % bank_count(len)`, computed.
pub fn wrap_bank(bank: usize, len: usize) -> (r: usize)
    ensures
        r == (bank as nat) % bank_count(len as nat),
        r < bank_count(len as nat),
{
    let n = len / 0x4000;
    let n = if n >= 1 { n } else { 1 };
    bank % n
}

/// RAM as `load_ram` leaves it: the data's prefix over the old contents.
pub open spec fn ram_loaded(ram: Seq<u8>, data: Seq<u8>) -> Seq<u8> {
    if data.len() < ram.len() {
        data + ram.subrange(data.len() as int, ram.len() as int)
    } else {
        data.subrange(0, ram.len() as int)
    }
}

/// Copies the prefix of `data` over `ram`.
pub fn copy_prefix(ram: &mut Vec<u8>, data: &[u8])
    ensures
        final(ram)@ == ram_loaded(old(ram)@, data@),
{
    let len = if data.len() < ram.len() { data.len() } else { ram.len() };
    let mut i: usize = 0;
    while i < len
        invariant
            len <= data@.len(),
            len <= old(ram)@.len(),
            len == (if data@.len() < old(ram)@.len() { data@.len() } else { old(ram)@.len() }),
            i <= len,
            ram@.len() == old(ram)@.len(),
            forall|j: int| 0 <= j < i ==> ram@[j] == data@[j],
            forall|j: int| i <= j < ram@.len() ==> ram@[j] == old(ram)@[j],
        decreases len - i,
    {
        ram.set(i, data[i]);
        i = i + 1;
    }
    assert(ram@ =~= ram_loaded(old(ram)@, data@));
}

/// Decode the RAM size header byte (0x0149) into bytes.
pub open spec fn ram_size_spec(code: u8) -> usize {
    if code == 0x01 { 2048 }
    else if code == 0x02 { 8192 }
    else if code == 0x03 { 32768 }
    else if code == 0x04 { 131072 }
    else if code == 0x05 { 65536 }
    else { 0 }
}

pub fn parse_ram_size(code: u8) -> (r: usize)
    ensures r == ram_size_spec(code),
{
    match code {
        0x00 => 0,
        0x01 => 2 * 1024,
        0x02 => 8 * 1024,
        0x03 => 32 * 1024,
        0x04 => 128 * 1024,
        0x05 => 64 * 1024,
        _ => 0,
    }
}

} // verus!
