//! GBA memory bus — routes all CPU reads/writes to the correct subsystem.
use vstd::prelude::*;
use super::cartridge::{Cartridge, CartView};
use super::io::IoRegisters;
use super::keypad::Keypad;

verus! {

/// GBA memory bus.
pub struct Bus {
    /// 256 KB external work RAM (2 wait state)
    pub ewram: Vec<u8>,
    /// 32 KB internal work RAM (0 wait state)
    pub iwram: Vec<u8>,
    /// I/O registers
    pub io: IoRegisters,
    /// 1 KB palette RAM (BG + OBJ, 256 colors each)
    pub palette: Vec<u8>,
    /// 96 KB video RAM
    pub vram: Vec<u8>,
    /// 1 KB OAM (128 sprites × 8 bytes)
    pub oam: Vec<u8>,
    /// Game Pak ROM (up to 32 MB)
    pub rom: Vec<u8>,
    /// Cartridge backup (SRAM/Flash/EEPROM)
    pub cart: Cartridge,
    /// Keypad input
    pub keypad: Keypad,
}

/// The bus as the specifications see it.
pub struct BusView {
    pub ewram: Seq<u8>,
    pub iwram: Seq<u8>,
    pub io: IoRegisters,
    pub palette: Seq<u8>,
    pub vram: Seq<u8>,
    pub oam: Seq<u8>,
    pub rom: Seq<u8>,
    pub cart: CartView,
    pub keypad: Keypad,
}

impl View for Bus {
    type V = BusView;

    open spec fn view(&self) -> BusView {
        BusView {
            ewram: self.ewram@,
            iwram: self.iwram@,
            io: self.io,
            palette: self.palette@,
            vram: self.vram@,
            oam: self.oam@,
            rom: self.rom@,
            cart: self.cart@,
            keypad: self.keypad,
        }
    }
}

/// A little-endian halfword from two bytes.
pub open spec fn le16(b0: u8, b1: u8) -> u16 {
    (b0 + 256 * b1) as u16
}

/// A little-endian word from four bytes.
pub open spec fn le32(b0: u8, b1: u8, b2: u8, b3: u8) -> u32 {
    (b0 + 0x100 * b1 + 0x10000 * b2 + 0x1000000 * b3) as u32
}

/// ROM byte at `i`; reads past the end give 0.
pub open spec fn rom_at(rom: Seq<u8>, i: int) -> u8 {
    if 0 <= i < rom.len() { rom[i] } else { 0 }
}

/// VRAM offset: 96 KB, with the upper 32 KB of the 128 KB window
/// (0x18000-0x1FFFF) mirroring the start of VRAM (0x00000-0x07FFF).
pub open spec fn mirror_vram_spec(addr: u32) -> int {
    let offset = addr % 0x20000;
    if offset >= 0x18000 { offset - 0x18000 } else { offset as int }
}

/// The memory region: the top byte of the address.
pub open spec fn region(addr: u32) -> u32 {
    addr / 0x100_0000
}

impl BusView {
    /// The fixed memory sizes and the cartridge invariant.
    pub open spec fn wf(self) -> bool {
        &&& self.ewram.len() == 0x40000
        &&& self.iwram.len() == 0x8000
        &&& self.palette.len() == 0x400
        &&& self.vram.len() == 0x18000
        &&& self.oam.len() == 0x400
        &&& self.cart.wf()
        &&& self.io.timers_wf()
    }

    /// An I/O halfword read: KEYINPUT comes from the keypad.
    pub open spec fn read_io16_spec(self, addr: u32) -> u16 {
        if addr % 0x400 == 0x130 { self.keypad.state } else { self.io.read16_spec(addr) }
    }

    #[verifier::opaque]
    pub open spec fn read8_spec(self, addr: u32) -> u8 {
        let r = region(addr);
        if r == 0x02 { self.ewram[(addr % 0x40000) as int] }
        else if r == 0x03 { self.iwram[(addr % 0x8000) as int] }
        else if r == 0x04 {
            let v = self.read_io16_spec((addr / 2 * 2) as u32);
            if addr % 2 == 0 { (v % 256) as u8 } else { (v / 256) as u8 }
        }
        else if r == 0x05 { self.palette[(addr % 0x400) as int] }
        else if r == 0x06 { self.vram[mirror_vram_spec(addr)] }
        else if r == 0x07 { self.oam[(addr % 0x400) as int] }
        else if 0x08 <= r <= 0x0D { rom_at(self.rom, (addr % 0x200_0000) as int) }
        else if 0x0E <= r <= 0x0F { self.cart.read_spec(addr) }
        else { 0 }
    }

    /// A halfword read; the address is forced to halfword alignment.
    #[verifier::opaque]
    pub open spec fn read16_spec(self, addr: u32) -> u16 {
        let a = (addr / 2 * 2) as u32;
        let r = region(a);
        if r == 0x02 { let i = (a % 0x40000) as int; le16(self.ewram[i], self.ewram[i + 1]) }
        else if r == 0x03 { let i = (a % 0x8000) as int; le16(self.iwram[i], self.iwram[i + 1]) }
        else if r == 0x04 { self.read_io16_spec(a) }
        else if r == 0x05 { let i = (a % 0x400) as int; le16(self.palette[i], self.palette[i + 1]) }
        else if r == 0x06 { let i = mirror_vram_spec(a); le16(self.vram[i], self.vram[i + 1]) }
        else if r == 0x07 { let i = (a % 0x400) as int; le16(self.oam[i], self.oam[i + 1]) }
        else if 0x08 <= r <= 0x0D {
            let i = (a % 0x200_0000) as int;
            le16(rom_at(self.rom, i), rom_at(self.rom, i + 1))
        }
        else if 0x0E <= r <= 0x0F {
            // SRAM/Flash is an 8-bit bus: the byte appears in both halves
            let v = self.cart.read_spec(a);
            le16(v, v)
        }
        else { 0 }
    }

    /// A word read; the address is forced to word alignment.
    #[verifier::opaque]
    pub open spec fn read32_spec(self, addr: u32) -> u32 {
        let a = (addr / 4 * 4) as u32;
        let r = region(a);
        if r == 0x02 { let i = (a % 0x40000) as int; le32(self.ewram[i], self.ewram[i + 1], self.ewram[i + 2], self.ewram[i + 3]) }
        else if r == 0x03 { let i = (a % 0x8000) as int; le32(self.iwram[i], self.iwram[i + 1], self.iwram[i + 2], self.iwram[i + 3]) }
        else if r == 0x04 { (self.read_io16_spec(a) + 0x10000 * self.read_io16_spec((a + 2) as u32)) as u32 }
        else if r == 0x05 { let i = (a % 0x400) as int; le32(self.palette[i], self.palette[i + 1], self.palette[i + 2], self.palette[i + 3]) }
        else if r == 0x06 { let i = mirror_vram_spec(a); le32(self.vram[i], self.vram[i + 1], self.vram[i + 2], self.vram[i + 3]) }
        else if r == 0x07 { let i = (a % 0x400) as int; le32(self.oam[i], self.oam[i + 1], self.oam[i + 2], self.oam[i + 3]) }
        else if 0x08 <= r <= 0x0D {
            let i = (a % 0x200_0000) as int;
            le32(rom_at(self.rom, i), rom_at(self.rom, i + 1), rom_at(self.rom, i + 2), rom_at(self.rom, i + 3))
        }
        else { 0 }
    }

    /// The bus after a byte write. I/O bytes are merged into their
    /// halfword; palette and VRAM bytes are written to both halves of the
    /// halfword; OAM and ROM ignore byte writes.
    #[verifier::opaque]
    pub open spec fn write8_spec(self, addr: u32, val: u8) -> BusView {
        let r = region(addr);
        if r == 0x02 { BusView { ewram: self.ewram.update((addr % 0x40000) as int, val), ..self } }
        else if r == 0x03 { BusView { iwram: self.iwram.update((addr % 0x8000) as int, val), ..self } }
        else if r == 0x04 {
            let aligned = (addr / 2 * 2) as u32;
            let cur = self.read_io16_spec(aligned);
            let merged = if addr % 2 == 0 { (cur / 256 * 256 + val) as u16 } else { (cur % 256 + 256 * val) as u16 };
            BusView { io: self.io.write16_spec(aligned, merged), ..self }
        }
        else if r == 0x05 {
            let a = ((addr % 0x400) / 2 * 2) as int;
            BusView { palette: self.palette.update(a, val).update(a + 1, val), ..self }
        }
        else if r == 0x06 {
            let a = mirror_vram_spec(addr) / 2 * 2;
            BusView { vram: self.vram.update(a, val).update(a + 1, val), ..self }
        }
        else if 0x0E <= r <= 0x0F { BusView { cart: self.cart.write_spec(addr, val), ..self } }
        else { self }
    }

    /// The bus after a halfword write (address forced to alignment); ROM and
    /// the backup region ignore halfword writes.
    #[verifier::opaque]
    pub open spec fn write16_spec(self, addr: u32, val: u16) -> BusView {
        let a = (addr / 2 * 2) as u32;
        let r = region(a);
        let lo = (val % 256) as u8;
        let hi = (val / 256) as u8;
        if r == 0x02 { let i = (a % 0x40000) as int; BusView { ewram: self.ewram.update(i, lo).update(i + 1, hi), ..self } }
        else if r == 0x03 { let i = (a % 0x8000) as int; BusView { iwram: self.iwram.update(i, lo).update(i + 1, hi), ..self } }
        else if r == 0x04 { BusView { io: self.io.write16_spec(a, val), ..self } }
        else if r == 0x05 { let i = (a % 0x400) as int; BusView { palette: self.palette.update(i, lo).update(i + 1, hi), ..self } }
        else if r == 0x06 { let i = mirror_vram_spec(a); BusView { vram: self.vram.update(i, lo).update(i + 1, hi), ..self } }
        else if r == 0x07 { let i = (a % 0x400) as int; BusView { oam: self.oam.update(i, lo).update(i + 1, hi), ..self } }
        else { self }
    }

    /// `s` with the four little-endian bytes of `val` stored at `i`.
    pub open spec fn store32(s: Seq<u8>, i: int, val: u32) -> Seq<u8> {
        s.update(i, (val % 0x100) as u8).update(i + 1, ((val / 0x100) % 0x100) as u8)
            .update(i + 2, ((val / 0x10000) % 0x100) as u8).update(i + 3, (val / 0x1000000) as u8)
    }

    /// The bus after a word write (address forced to alignment); an I/O word
    /// is two halfword writes, low half first.
    #[verifier::opaque]
    pub open spec fn write32_spec(self, addr: u32, val: u32) -> BusView {
        let a = (addr / 4 * 4) as u32;
        let r = region(a);
        if r == 0x02 { BusView { ewram: BusView::store32(self.ewram, (a % 0x40000) as int, val), ..self } }
        else if r == 0x03 { BusView { iwram: BusView::store32(self.iwram, (a % 0x8000) as int, val), ..self } }
        else if r == 0x04 {
            BusView { io: self.io.write16_spec(a, (val % 0x10000) as u16).write16_spec((a + 2) as u32, (val / 0x10000) as u16), ..self }
        }
        else if r == 0x05 { BusView { palette: BusView::store32(self.palette, (a % 0x400) as int, val), ..self } }
        else if r == 0x06 { BusView { vram: BusView::store32(self.vram, mirror_vram_spec(a), val), ..self } }
        else if r == 0x07 { BusView { oam: BusView::store32(self.oam, (a % 0x400) as int, val), ..self } }
        else { self }
    }
}

impl Bus {
    pub fn new(rom: Vec<u8>) -> (r: Self)
        ensures
            r@.wf(),
            r@.ewram == Seq::new(0x40000, |i: int| 0u8),
            r@.iwram == Seq::new(0x8000, |i: int| 0u8),
            r@.palette == Seq::new(0x400, |i: int| 0u8),
            r@.vram == Seq::new(0x18000, |i: int| 0u8),
            r@.oam == Seq::new(0x400, |i: int| 0u8),
            r@.rom == rom@,
            super::cartridge::fresh_cart(r@.cart, rom@),
            r.io.is_reset(),
            r.keypad.state == 0x03FF,
    {
        let cart = Cartridge::new(rom.as_slice());
        let r = Bus {
            ewram: vec![0u8; 0x40000],
            iwram: vec![0u8; 0x8000],
            io: IoRegisters::new(),
            palette: vec![0u8; 0x400],
            vram: vec![0u8; 0x18000],
            oam: vec![0u8; 0x400],
            rom,
            cart,
            keypad: Keypad::new(),
        };
        assert(r@.ewram =~= Seq::new(0x40000, |i: int| 0u8));
        assert(r@.iwram =~= Seq::new(0x8000, |i: int| 0u8));
        assert(r@.palette =~= Seq::new(0x400, |i: int| 0u8));
        assert(r@.vram =~= Seq::new(0x18000, |i: int| 0u8));
        assert(r@.oam =~= Seq::new(0x400, |i: int| 0u8));
        r
    }

    pub fn read8(&self, addr: u32) -> (r: u8)
        requires self@.wf(),
        ensures r == self@.read8_spec(addr),
    {
        proof { reveal(BusView::read8_spec); }
        match addr / 0x100_0000 {
            // BIOS (not emulated: reads give 0)
            0x00 => 0,
            0x02 => self.ewram[(addr % 0x40000) as usize],
            0x03 => self.iwram[(addr % 0x8000) as usize],
            0x04 => {
                let val = self.read_io16(addr / 2 * 2);
                if addr % 2 == 0 { (val % 256) as u8 } else { (val / 256) as u8 }
            }
            0x05 => self.palette[(addr % 0x400) as usize],
            0x06 => {
                let a = self.mirror_vram(addr);
                self.vram[a]
            }
            0x07 => self.oam[(addr % 0x400) as usize],
            0x08..=0x0D => {
                let offset = (addr % 0x200_0000) as usize;
                if offset < self.rom.len() { self.rom[offset] } else { 0 }
            }
            0x0E..=0x0F => self.cart.read(addr),
            // Open bus
            _ => 0,
        }
    }

    pub fn read16(&self, addr: u32) -> (r: u16)
        requires self@.wf(),
        ensures r == self@.read16_spec(addr),
    {
        proof { reveal(BusView::read16_spec); }
        // Force alignment
        let addr = addr / 2 * 2;
        match addr / 0x100_0000 {
            0x00 => 0,
            0x02 => {
                let a = (addr % 0x40000) as usize;
                self.ewram[a] as u16 + 256 * self.ewram[a + 1] as u16
            }
            0x03 => {
                let a = (addr % 0x8000) as usize;
                self.iwram[a] as u16 + 256 * self.iwram[a + 1] as u16
            }
            0x04 => self.read_io16(addr),
            0x05 => {
                let a = (addr % 0x400) as usize;
                self.palette[a] as u16 + 256 * self.palette[a + 1] as u16
            }
            0x06 => {
                let a = self.mirror_vram(addr);
                self.vram[a] as u16 + 256 * self.vram[a + 1] as u16
            }
            0x07 => {
                let a = (addr % 0x400) as usize;
                self.oam[a] as u16 + 256 * self.oam[a + 1] as u16
            }
            0x08..=0x0D => {
                let offset = (addr % 0x200_0000) as usize;
                let lo = if offset < self.rom.len() { self.rom[offset] } else { 0 };
                let hi = if offset + 1 < self.rom.len() { self.rom[offset + 1] } else { 0 };
                lo as u16 + 256 * hi as u16
            }
            0x0E..=0x0F => {
                // SRAM/Flash is 8-bit bus — return byte duplicated
                let v = self.cart.read(addr);
                v as u16 + 256 * v as u16
            }
            _ => 0,
        }
    }

    pub fn read32(&self, addr: u32) -> (r: u32)
        requires self@.wf(),
        ensures r == self@.read32_spec(addr),
    {
        proof { reveal(BusView::read32_spec); }
        // Force alignment
        let addr = addr / 4 * 4;
        match addr / 0x100_0000 {
            0x02 => {
                let a = (addr % 0x40000) as usize;
                le32_exec(self.ewram[a], self.ewram[a + 1], self.ewram[a + 2], self.ewram[a + 3])
            }
            0x03 => {
                let a = (addr % 0x8000) as usize;
                le32_exec(self.iwram[a], self.iwram[a + 1], self.iwram[a + 2], self.iwram[a + 3])
            }
            0x04 => {
                let lo = self.read_io16(addr) as u32;
                let hi = self.read_io16(addr + 2) as u32;
                lo + 0x10000 * hi
            }
            0x05 => {
                let a = (addr % 0x400) as usize;
                le32_exec(self.palette[a], self.palette[a + 1], self.palette[a + 2], self.palette[a + 3])
            }
            0x06 => {
                let a = self.mirror_vram(addr);
                le32_exec(self.vram[a], self.vram[a + 1], self.vram[a + 2], self.vram[a + 3])
            }
            0x07 => {
                let a = (addr % 0x400) as usize;
                le32_exec(self.oam[a], self.oam[a + 1], self.oam[a + 2], self.oam[a + 3])
            }
            0x08..=0x0D => {
                let offset = (addr % 0x200_0000) as usize;
                let b0 = if offset < self.rom.len() { self.rom[offset] } else { 0 };
                let b1 = if offset + 1 < self.rom.len() { self.rom[offset + 1] } else { 0 };
                let b2 = if offset + 2 < self.rom.len() { self.rom[offset + 2] } else { 0 };
                let b3 = if offset + 3 < self.rom.len() { self.rom[offset + 3] } else { 0 };
                le32_exec(b0, b1, b2, b3)
            }
            _ => 0,
        }
    }

    pub fn write8(&mut self, addr: u32, val: u8)
        requires old(self)@.wf(),
        ensures final(self)@ == old(self)@.write8_spec(addr, val), final(self)@.wf(),
    {
        proof { reveal(BusView::write8_spec); }
        match addr / 0x100_0000 {
            0x02 => self.ewram.set((addr % 0x40000) as usize, val),
            0x03 => self.iwram.set((addr % 0x8000) as usize, val),
            0x04 => {
                // 8-bit I/O writes are merged into the halfword
                let aligned = addr / 2 * 2;
                let mut current = self.read_io16(aligned);
                if addr % 2 == 0 {
                    current = current / 256 * 256 + val as u16;
                } else {
                    current = current % 256 + 256 * val as u16;
                }
                self.write_io16(aligned, current);
            }
            0x05 => {
                // Palette: 8-bit writes duplicate to both bytes of the halfword
                let a = ((addr % 0x400) / 2 * 2) as usize;
                self.palette.set(a, val);
                self.palette.set(a + 1, val);
            }
            0x06 => {
                // VRAM: 8-bit writes duplicate to the halfword
                let a = self.mirror_vram(addr) / 2 * 2;
                self.vram.set(a, val);
                self.vram.set(a + 1, val);
            }
            // OAM ignores 8-bit writes
            0x0E..=0x0F => {
                self.cart.write(addr, val);
            }
            _ => {}
        }
    }

    pub fn write16(&mut self, addr: u32, val: u16)
        requires old(self)@.wf(),
        ensures final(self)@ == old(self)@.write16_spec(addr, val), final(self)@.wf(),
    {
        proof { reveal(BusView::write16_spec); }
        let addr = addr / 2 * 2;
        let lo = (val % 256) as u8;
        let hi = (val / 256) as u8;
        match addr / 0x100_0000 {
            0x02 => {
                let a = (addr % 0x40000) as usize;
                self.ewram.set(a, lo);
                self.ewram.set(a + 1, hi);
            }
            0x03 => {
                let a = (addr % 0x8000) as usize;
                self.iwram.set(a, lo);
                self.iwram.set(a + 1, hi);
            }
            0x04 => self.write_io16(addr, val),
            0x05 => {
                let a = (addr % 0x400) as usize;
                self.palette.set(a, lo);
                self.palette.set(a + 1, hi);
            }
            0x06 => {
                let a = self.mirror_vram(addr);
                self.vram.set(a, lo);
                self.vram.set(a + 1, hi);
            }
            0x07 => {
                let a = (addr % 0x400) as usize;
                self.oam.set(a, lo);
                self.oam.set(a + 1, hi);
            }
            _ => {}
        }
    }

    pub fn write32(&mut self, addr: u32, val: u32)
        requires old(self)@.wf(),
        ensures final(self)@ == old(self)@.write32_spec(addr, val), final(self)@.wf(),
    {
        proof { reveal(BusView::write32_spec); }
        let addr = addr / 4 * 4;
        match addr / 0x100_0000 {
            0x02 => {
                let a = (addr % 0x40000) as usize;
                store32(&mut self.ewram, a, val);
            }
            0x03 => {
                let a = (addr % 0x8000) as usize;
                store32(&mut self.iwram, a, val);
            }
            0x04 => {
                self.write_io16(addr, (val % 0x10000) as u16);
                self.write_io16(addr + 2, (val / 0x10000) as u16);
            }
            0x05 => {
                let a = (addr % 0x400) as usize;
                store32(&mut self.palette, a, val);
            }
            0x06 => {
                let a = self.mirror_vram(addr);
                store32(&mut self.vram, a, val);
            }
            0x07 => {
                let a = (addr % 0x400) as usize;
                store32(&mut self.oam, a, val);
            }
            _ => {}
        }
    }

    fn read_io16(&self, addr: u32) -> (r: u16)
        ensures r == self@.read_io16_spec(addr),
    {
        let reg = addr % 0x400;
        if reg == 0x130 {
            return self.keypad.read();
        }
        self.io.read16(addr)
    }

    fn write_io16(&mut self, addr: u32, val: u16)
        ensures
            *final(self) == (Bus { io: old(self).io.write16_spec(addr, val), ..*old(self) }),
            old(self).io.timers_wf() ==> final(self).io.timers_wf(),
    {
        self.io.write16(addr, val);
        proof { if old(self).io.timers_wf() { old(self).io.lemma_write16_timers_wf(addr, val); } }
    }

    /// VRAM mirroring: 96KB total. Addresses 0x18000-0x1FFFF mirror the
    /// start of VRAM.
    fn mirror_vram(&self, addr: u32) -> (r: usize)
        ensures r == mirror_vram_spec(addr),
    {
        let offset = addr % 0x20000;
        if offset >= 0x18000 {
            (offset - 0x18000) as usize
        } else {
            offset as usize
        }
    }
}

/// Store the four little-endian bytes of `val` at `a`.
fn store32(mem: &mut Vec<u8>, a: usize, val: u32)
    requires a + 4 <= old(mem).len(),
    ensures final(mem)@ == BusView::store32(old(mem)@, a as int, val),
{
    mem.set(a, (val % 0x100) as u8);
    mem.set(a + 1, ((val / 0x100) % 0x100) as u8);
    mem.set(a + 2, ((val / 0x10000) % 0x100) as u8);
    mem.set(a + 3, (val / 0x1000000) as u8);
}

/// A little-endian word from four bytes.
fn le32_exec(b0: u8, b1: u8, b2: u8, b3: u8) -> (r: u32)
    ensures r == le32(b0, b1, b2, b3),
{
    b0 as u32 + 0x100 * b1 as u32 + 0x10000 * b2 as u32 + 0x1000000 * b3 as u32
}


/// A byte written to work RAM (EWRAM, IWRAM), palette RAM or VRAM reads back
/// unchanged. (Palette and VRAM byte writes fill the whole halfword with the
/// byte; OAM ignores byte writes.)
pub proof fn lemma_write8_read8(b: BusView, addr: u32, val: u8)
    requires b.wf(), region(addr) == 2 || region(addr) == 3 || region(addr) == 5 || region(addr) == 6,
    ensures b.write8_spec(addr, val).read8_spec(addr) == val,
{
    reveal(BusView::write8_spec);
    reveal(BusView::read8_spec);
}

/// A byte written to EWRAM or IWRAM leaves every other byte of that RAM
/// as it was.
pub proof fn lemma_write8_frame(b: BusView, addr: u32, val: u8, other: u32)
    requires
        b.wf(),
        (region(addr) == 2 && region(other) == 2 && addr % 0x40000 != other % 0x40000)
            || (region(addr) == 3 && region(other) == 3 && addr % 0x8000 != other % 0x8000),
    ensures b.write8_spec(addr, val).read8_spec(other) == b.read8_spec(other),
{
    reveal(BusView::write8_spec);
    reveal(BusView::read8_spec);
}

/// A halfword written to work RAM, palette RAM, VRAM or OAM reads back
/// unchanged (both at the aligned address).
#[verifier::spinoff_prover]
#[verifier::rlimit(40)]
pub proof fn lemma_write16_read16(b: BusView, addr: u32, val: u16)
    requires b.wf(), 2 <= region(addr) <= 7, region(addr) != 4,
    ensures b.write16_spec(addr, val).read16_spec(addr) == val,
{
    reveal(BusView::write16_spec);
    reveal(BusView::read16_spec);
    assert(region((addr / 2 * 2) as u32) == region(addr));
}

/// A word written to work RAM, palette RAM, VRAM or OAM reads back unchanged.
#[verifier::spinoff_prover]
#[verifier::rlimit(40)]
pub proof fn lemma_write32_read32(b: BusView, addr: u32, val: u32)
    requires b.wf(), 2 <= region(addr) <= 7, region(addr) != 4,
    ensures b.write32_spec(addr, val).read32_spec(addr) == val,
{
    reveal(BusView::write32_spec);
    reveal(BusView::read32_spec);
    assert(region((addr / 4 * 4) as u32) == region(addr));
    let b0 = (val % 0x100) as u8;
    let b1 = ((val / 0x100) % 0x100) as u8;
    let b2 = ((val / 0x10000) % 0x100) as u8;
    let b3 = (val / 0x1000000) as u8;
    assert(b0 + 0x100 * b1 + 0x10000 * b2 + 0x1000000 * b3 == val) by (nonlinear_arith)
        requires b0 == val % 0x100, b1 == (val / 0x100) % 0x100, b2 == (val / 0x10000) % 0x100,
            b3 == val / 0x1000000, val <= 0xFFFF_FFFFu32;
}

/// EWRAM repeats every 256 KB and IWRAM every 32 KB through their regions.
pub proof fn lemma_ram_mirrors(b: BusView, addr: u32)
    requires
        (region(addr) == 2 && region((addr + 0x40000) as u32) == 2)
            || (region(addr) == 3 && region((addr + 0x8000) as u32) == 3),
        addr + 0x40000 <= u32::MAX,
    ensures
        region(addr) == 2 ==> b.read8_spec(addr) == b.read8_spec((addr + 0x40000) as u32),
        region(addr) == 3 ==> b.read8_spec(addr) == b.read8_spec((addr + 0x8000) as u32),
{
    reveal(BusView::read8_spec);
}

} // verus!
