//! Memory bus: routes CPU reads and writes to the cartridge, video memory,
//! work RAM (eight 4 KiB banks, switchable through SVBK), OAM, the I/O
//! registers and high RAM. Also overlays the boot ROM and Game Genie cheats
//! on cartridge ROM reads, and performs OAM DMA.
use vstd::prelude::*;
use crate::cartridge::{AnyCartridge, Cartridge};
use crate::cartridge::no_mbc::NoMbc;
use crate::joypad::Joypad;
use crate::ppu::Ppu;
use crate::serial::Serial;
use crate::timer::Timer;
use crate::savestate::{push_u8, push_bool, pop_u8, pop_bool, take_u8, take_bool, enc_bool};

verus! {

/// A Game Genie code: replace the ROM byte at `addr` by `new_val`, either
/// always or only while the original byte equals `compare`.
#[derive(Clone, Copy)]
pub struct GgCheat {
    pub addr: u16,
    pub new_val: u8,
    pub compare: Option<u8>,
}

/// The byte a ROM read returns once the cheats are applied: the first
/// matching cheat wins.
pub open spec fn apply_cheats(cheats: Seq<GgCheat>, addr: u16, orig: u8) -> u8
    decreases cheats.len(),
{
    if cheats.len() == 0 {
        orig
    } else {
        let c = cheats[0];
        if c.addr == addr && (c.compare.is_none() || c.compare == Some(orig)) {
            c.new_val
        } else {
            apply_cheats(cheats.drop_first(), addr, orig)
        }
    }
}

pub struct Mmu {
    pub cart: AnyCartridge,
    pub ppu: Ppu,
    pub timer: Timer,
    pub joypad: Joypad,
    pub serial: Serial,
    /// Eight 4 KiB work RAM banks; bank 0 is fixed at 0xC000.
    pub wram: [u8; 32768],
    /// The bank mapped at 0xD000 (1-7).
    pub wram_bank: u8,
    pub hram: [u8; 127],
    /// Interrupt enable (0xFFFF)
    pub ie: u8,
    /// Interrupt flags (0xFF0F)
    pub interrupt_flag: u8,
    pub boot_rom: Vec<u8>,
    pub boot_rom_active: bool,
    pub cheats: Vec<GgCheat>,
}

/// Whether a register address belongs to the PPU.
pub open spec fn is_ppu_register(addr: u16) -> bool {
    (0xFF40 <= addr <= 0xFF4B && addr != 0xFF46) || addr == 0xFF4F || 0xFF68 <= addr <= 0xFF6B
}

/// `m1` is `m0` after the writes `ws`, in order (an instruction writes at
/// most two bytes).
pub open spec fn writes_applied(m0: Mmu, m1: Mmu, ws: Seq<(u16, u8)>) -> bool {
    if ws.len() == 0 {
        m1 == m0
    } else if ws.len() == 1 {
        m0.write_post(&m1, ws[0].0, ws[0].1)
    } else {
        &&& ws.len() == 2
        &&& exists|mid: Mmu| #[trigger] m0.write_post(&mid, ws[0].0, ws[0].1) && mid.write_post(&m1, ws[1].0, ws[1].1)
    }
}

impl Mmu {
    /// Index into the work RAM array for an address in 0xC000-0xFDFF
    /// (0xE000-0xFDFF echoes 0xC000-0xDDFF).
    pub open spec fn wram_index(&self, addr: u16) -> int {
        let a = if addr >= 0xE000 { addr - 0x2000 } else { addr as int };
        if a < 0xD000 { a - 0xC000 } else { (self.wram_bank % 8) * 0x1000 + (a - 0xD000) }
    }

    /// The byte a read at `addr` returns.
    #[verifier::opaque]
    pub open spec fn read_spec(&self, addr: u16) -> u8 {
        if addr <= 0x7FFF {
            if self.boot_rom_active && addr < 0x100 && addr < self.boot_rom@.len() {
                self.boot_rom@[addr as int]
            } else {
                apply_cheats(self.cheats@, addr, self.cart.read_spec(addr))
            }
        } else if addr <= 0x9FFF {
            self.ppu.read_vram_banked_spec(addr)
        } else if addr <= 0xBFFF {
            self.cart.read_spec(addr)
        } else if addr <= 0xFDFF {
            self.wram@[self.wram_index(addr)]
        } else if addr <= 0xFE9F {
            self.ppu.oam@[addr - 0xFE00]
        } else if addr <= 0xFEFF {
            0xFF
        } else if addr == 0xFF00 {
            self.joypad.read_spec()
        } else if addr == 0xFF01 || addr == 0xFF02 {
            self.serial.read_spec(addr)
        } else if 0xFF04 <= addr <= 0xFF07 {
            self.timer.read_spec(addr)
        } else if addr == 0xFF0F {
            self.interrupt_flag
        } else if is_ppu_register(addr) {
            self.ppu.read_register_spec(addr)
        } else if addr == 0xFF70 {
            self.wram_bank
        } else if 0xFF80 <= addr <= 0xFFFE {
            self.hram@[addr - 0xFF80]
        } else if addr == 0xFFFF {
            self.ie
        } else {
            0xFF
        }
    }

    /// `new` is the bus after a write of `val` at `addr`.
    #[verifier::opaque]
    pub open spec fn write_post(&self, new: &Mmu, addr: u16, val: u8) -> bool {
        if addr <= 0x7FFF || (0xA000 <= addr <= 0xBFFF) {
            &&& self.cart.write_post(&new.cart, addr, val)
            &&& *new == (Mmu { cart: new.cart, ..*self })
        } else if addr <= 0x9FFF {
            &&& self.ppu.write_vram_banked_post(&new.ppu, addr, val)
            &&& *new == (Mmu { ppu: new.ppu, ..*self })
        } else if addr <= 0xFDFF {
            &&& new.wram@ == self.wram@.update(self.wram_index(addr), val)
            &&& *new == (Mmu { wram: new.wram, ..*self })
        } else if addr <= 0xFE9F {
            &&& self.ppu.write_oam_post(&new.ppu, addr, val)
            &&& *new == (Mmu { ppu: new.ppu, ..*self })
        } else if addr <= 0xFEFF {
            *new == *self
        } else if addr == 0xFF00 {
            *new == (Mmu { joypad: Joypad { select_bits: val & 0x30, ..self.joypad }, ..*self })
        } else if addr == 0xFF01 || addr == 0xFF02 {
            *new == (Mmu { serial: self.serial.write_spec(addr, val), ..*self })
        } else if 0xFF04 <= addr <= 0xFF07 {
            let (t, f) = self.timer.write_spec(addr, val, self.interrupt_flag);
            *new == (Mmu { timer: t, interrupt_flag: f, ..*self })
        } else if addr == 0xFF0F {
            *new == (Mmu { interrupt_flag: val, ..*self })
        } else if addr == 0xFF46 {
            &&& new.ppu.oam@ == Seq::new(160, |i: int| self.read_spec((val * 256 + i) as u16))
            &&& new.ppu == (Ppu { oam: new.ppu.oam, ..self.ppu })
            &&& *new == (Mmu { ppu: new.ppu, ..*self })
        } else if is_ppu_register(addr) {
            &&& self.ppu.write_register_post(&new.ppu, addr, val)
            &&& *new == (Mmu { ppu: new.ppu, ..*self })
        } else if addr == 0xFF50 {
            *new == (Mmu { boot_rom_active: if val != 0 { false } else { self.boot_rom_active }, ..*self })
        } else if addr == 0xFF70 {
            *new == (Mmu { wram_bank: if val & 0x07 == 0 { 1 } else { val & 0x07 }, ..*self })
        } else if 0xFF80 <= addr <= 0xFFFE {
            &&& new.hram@ == self.hram@.update(addr - 0xFF80, val)
            &&& *new == (Mmu { hram: new.hram, ..*self })
        } else if addr == 0xFFFF {
            *new == (Mmu { ie: val, ..*self })
        } else {
            *new == *self
        }
    }

    /// The bytes `save_state` appends: bank register, IE, IF, boot ROM
    /// switch, then work RAM and high RAM.
    pub open spec fn serialized(&self) -> Seq<u8> {
        seq![self.wram_bank, self.ie, self.interrupt_flag] + enc_bool(self.boot_rom_active) + self.wram@ + self.hram@
    }

    pub fn new() -> (r: Self)
        ensures
            r.cart is NoMbc,
            r.cart.read_spec(0x0100) == 0,
            r.wram_bank == 1 && r.ie == 0 && r.interrupt_flag == 0,
            r.wram@ == Seq::new(32768, |i: int| 0u8),
            r.hram@ == Seq::new(127, |i: int| 0u8),
            r.boot_rom@.len() == 0 && !r.boot_rom_active && r.cheats@.len() == 0,
            r.ppu.timing_ok() && r.ppu.lcdc == 0x91 && r.timer.valid(),
    {
        let wram = [0u8; 32768];
        let hram = [0u8; 127];
        assert(wram@ =~= Seq::new(32768, |i: int| 0u8));
        assert(hram@ =~= Seq::new(127, |i: int| 0u8));
        Mmu {
            cart: AnyCartridge::NoMbc(NoMbc::empty()),
            ppu: Ppu::new(),
            timer: Timer::new(),
            joypad: Joypad::new(),
            serial: Serial::new(),
            wram,
            wram_bank: 1,
            hram,
            ie: 0,
            interrupt_flag: 0,
            boot_rom: Vec::new(),
            boot_rom_active: false,
            cheats: Vec::new(),
        }
    }

    /// Install a boot ROM and map it over 0x0000-0x00FF.
    pub fn set_boot_rom(&mut self, data: Vec<u8>)
        ensures
            *final(self) == (Mmu { boot_rom: data, boot_rom_active: true, ..*old(self) }),
    {
        self.boot_rom = data;
        self.boot_rom_active = true;
    }

    /// Add a Game Genie cheat; earlier cheats take precedence.
    pub fn add_gg_cheat(&mut self, addr: u16, new_val: u8, compare: Option<u8>)
        ensures
            final(self).cheats@ == old(self).cheats@.push(GgCheat { addr, new_val, compare }),
            *final(self) == (Mmu { cheats: final(self).cheats, ..*old(self) }),
    {
        self.cheats.push(GgCheat { addr, new_val, compare });
    }

    pub fn clear_cheats(&mut self)
        ensures
            final(self).cheats@.len() == 0,
            *final(self) == (Mmu { cheats: final(self).cheats, ..*old(self) }),
    {
        self.cheats.clear();
    }

    fn cheat_value(&self, addr: u16, orig: u8) -> (r: u8)
        ensures r == apply_cheats(self.cheats@, addr, orig),
    {
        let mut i: usize = 0;
        assert(self.cheats@.subrange(0, self.cheats@.len() as int) =~= self.cheats@);
        while i < self.cheats.len()
            invariant
                i <= self.cheats@.len(),
                apply_cheats(self.cheats@, addr, orig) == apply_cheats(self.cheats@.subrange(i as int, self.cheats@.len() as int), addr, orig),
            decreases self.cheats@.len() - i,
        {
            let c = self.cheats[i];
            let ghost rest = self.cheats@.subrange(i as int, self.cheats@.len() as int);
            assert(rest[0] == c);
            if c.addr == addr {
                match c.compare {
                    None => return c.new_val,
                    Some(expected) => {
                        if expected == orig {
                            return c.new_val;
                        }
                    }
                }
            }
            assert(rest.drop_first() =~= self.cheats@.subrange(i + 1, self.cheats@.len() as int));
            i = i + 1;
        }
        assert(self.cheats@.subrange(i as int, self.cheats@.len() as int) =~= Seq::<GgCheat>::empty());
        orig
    }

    fn wram_offset(&self, addr: u16) -> (r: usize)
        requires 0xC000 <= addr <= 0xFDFF,
        ensures r == self.wram_index(addr), r < 32768,
    {
        let a = if addr >= 0xE000 { addr - 0x2000 } else { addr };
        if a < 0xD000 {
            (a - 0xC000) as usize
        } else {
            (self.wram_bank % 8) as usize * 0x1000 + (a - 0xD000) as usize
        }
    }

    pub fn read(&self, addr: u16) -> (r: u8)
        ensures r == self.read_spec(addr),
    {
        proof { reveal(Mmu::read_spec); }
        if addr <= 0x7FFF {
            if self.boot_rom_active && addr < 0x100 && (addr as usize) < self.boot_rom.len() {
                self.boot_rom[addr as usize]
            } else {
                let orig = self.cart.read(addr);
                self.cheat_value(addr, orig)
            }
        } else if addr <= 0x9FFF {
            self.ppu.read_vram_banked(addr)
        } else if addr <= 0xBFFF {
            self.cart.read(addr)
        } else if addr <= 0xFDFF {
            self.wram[self.wram_offset(addr)]
        } else if addr <= 0xFE9F {
            self.ppu.read_oam(addr)
        } else if addr <= 0xFEFF {
            0xFF
        } else if addr == 0xFF00 {
            self.joypad.read()
        } else if addr == 0xFF01 || addr == 0xFF02 {
            self.serial.read(addr)
        } else if 0xFF04 <= addr && addr <= 0xFF07 {
            self.timer.read(addr)
        } else if addr == 0xFF0F {
            self.interrupt_flag
        } else if (0xFF40 <= addr && addr <= 0xFF4B && addr != 0xFF46) || addr == 0xFF4F
            || (0xFF68 <= addr && addr <= 0xFF6B) {
            self.ppu.read_register(addr)
        } else if addr == 0xFF70 {
            self.wram_bank
        } else if 0xFF80 <= addr && addr <= 0xFFFE {
            self.hram[(addr - 0xFF80) as usize]
        } else if addr == 0xFFFF {
            self.ie
        } else {
            0xFF
        }
    }

    /// Copy 160 bytes from `val * 0x100` into OAM.
    fn oam_dma(&mut self, val: u8)
        ensures
            final(self).ppu.oam@ == Seq::new(160, |i: int| old(self).read_spec((val * 256 + i) as u16)),
            final(self).ppu == (Ppu { oam: final(self).ppu.oam, ..old(self).ppu }),
            *final(self) == (Mmu { ppu: final(self).ppu, ..*old(self) }),
    {
        proof { reveal(Mmu::read_spec); }
        let src = val as u16 * 256;
        let ghost pre = *self;
        let mut i: u16 = 0;
        while i < 0xA0
            invariant
                i <= 0xA0,
                src == val * 256,
                self.ppu == (Ppu { oam: self.ppu.oam, ..pre.ppu }),
                *self == (Mmu { ppu: self.ppu, ..pre }),
                forall|k: int| 0 <= k < i ==> self.ppu.oam@[k] == pre.read_spec((val * 256 + k) as u16),
                forall|k: int| i <= k < 160 ==> self.ppu.oam@[k] == pre.ppu.oam@[k],
            decreases 0xA0 - i,
        {
            let b = self.read(src + i);
            proof { reveal(Mmu::read_spec); }
            assert(b == pre.read_spec((val * 256 + i) as u16));
            self.ppu.oam[i as usize] = b;
            i = i + 1;
        }
        assert(self.ppu.oam@ =~= Seq::new(160, |i: int| pre.read_spec((val * 256 + i) as u16)));
    }

    pub fn write(&mut self, addr: u16, val: u8)
        ensures old(self).write_post(final(self), addr, val),
    {
        proof { reveal(Mmu::write_post); }
        if addr <= 0x7FFF || (0xA000 <= addr && addr <= 0xBFFF) {
            self.cart.write(addr, val);
        } else if addr <= 0x9FFF {
            self.ppu.write_vram_banked(addr, val);
        } else if addr <= 0xFDFF {
            let idx = self.wram_offset(addr);
            self.wram[idx] = val;
        } else if addr <= 0xFE9F {
            self.ppu.write_oam(addr, val);
        } else if addr <= 0xFEFF {
        } else if addr == 0xFF00 {
            self.joypad.write(val);
        } else if addr == 0xFF01 || addr == 0xFF02 {
            self.serial.write(addr, val);
        } else if 0xFF04 <= addr && addr <= 0xFF07 {
            self.timer.write(addr, val, &mut self.interrupt_flag);
        } else if addr == 0xFF0F {
            self.interrupt_flag = val;
        } else if addr == 0xFF46 {
            self.oam_dma(val);
        } else if (0xFF40 <= addr && addr <= 0xFF4B) || addr == 0xFF4F || (0xFF68 <= addr && addr <= 0xFF6B) {
            self.ppu.write_register(addr, val);
        } else if addr == 0xFF50 {
            if val != 0 {
                self.boot_rom_active = false;
            }
        } else if addr == 0xFF70 {
            let bank = val & 0x07;
            self.wram_bank = if bank == 0 { 1 } else { bank };
        } else if 0xFF80 <= addr && addr <= 0xFFFE {
            self.hram[(addr - 0xFF80) as usize] = val;
        } else if addr == 0xFFFF {
            self.ie = val;
        }
    }

    pub fn save_state(&self, d: &mut Vec<u8>)
        ensures final(d)@ == old(d)@ + self.serialized(),
    {
        push_u8(d, self.wram_bank);
        push_u8(d, self.ie);
        push_u8(d, self.interrupt_flag);
        push_bool(d, self.boot_rom_active);
        let ghost mid = d@;
        let mut i: usize = 0;
        while i < 32768
            invariant
                i <= 32768,
                d@ == mid + self.wram@.subrange(0, i as int),
            decreases 32768 - i,
        {
            d.push(self.wram[i]);
            i = i + 1;
            assert(d@ =~= mid + self.wram@.subrange(0, i as int));
        }
        let ghost mid2 = d@;
        let mut j: usize = 0;
        while j < 127
            invariant
                j <= 127,
                d@ == mid2 + self.hram@.subrange(0, j as int),
            decreases 127 - j,
        {
            d.push(self.hram[j]);
            j = j + 1;
            assert(d@ =~= mid2 + self.hram@.subrange(0, j as int));
        }
        assert(self.wram@.subrange(0, 32768) =~= self.wram@);
        assert(self.hram@.subrange(0, 127) =~= self.hram@);
        assert(d@ =~= old(d)@ + self.serialized());
    }

    /// Restore the bus's own state. The state must hold the work RAM and
    /// high RAM images after the four register bytes.
    pub fn load_state(&mut self, d: &mut &[u8])
        requires
            old(d)@.len() >= 4 + 32768 + 127,
        ensures
            ({
                let s = old(d)@;
                &&& final(self).wram_bank == s[0] && final(self).ie == s[1] && final(self).interrupt_flag == s[2]
                &&& final(self).boot_rom_active == (s[3] != 0)
                &&& final(self).wram@ == s.subrange(4, 32772)
                &&& final(self).hram@ == s.subrange(32772, 32899)
                &&& *final(self) == (Mmu { wram_bank: s[0], ie: s[1], interrupt_flag: s[2],
                        boot_rom_active: s[3] != 0, wram: final(self).wram, hram: final(self).hram, ..*old(self) })
                &&& final(d)@ == s.subrange(32899, s.len() as int)
            }),
    {
        let ghost s = d@;
        self.wram_bank = pop_u8(d);
        self.ie = pop_u8(d);
        self.interrupt_flag = pop_u8(d);
        self.boot_rom_active = pop_bool(d);
        assert(d@ =~= s.subrange(4, s.len() as int));
        let mut wram = [0u8; 32768];
        let mut i: usize = 0;
        while i < 32768
            invariant
                i <= 32768,
                d@ == s.subrange(4, s.len() as int),
                s.len() >= 32899,
                forall|j: int| 0 <= j < i ==> wram@[j] == s[4 + j],
            decreases 32768 - i,
        {
            wram[i] = d[i];
            i = i + 1;
        }
        let mut hram = [0u8; 127];
        let mut k: usize = 0;
        while k < 127
            invariant
                k <= 127,
                d@ == s.subrange(4, s.len() as int),
                s.len() >= 32899,
                forall|j: int| 0 <= j < k ==> hram@[j] == s[32772 + j],
            decreases 127 - k,
        {
            hram[k] = d[32768 + k];
            k = k + 1;
        }
        assert(wram@ =~= s.subrange(4, 32772));
        assert(hram@ =~= s.subrange(32772, 32899));
        self.wram = wram;
        self.hram = hram;
        *d = &d[32895..d.len()];
        assert(d@ =~= s.subrange(32899, s.len() as int));
    }
}


/// A byte written to work RAM (0xC000-0xFDFF, the echo area included), high
/// RAM, IF or IE reads back unchanged.
pub proof fn lemma_write_read(m: Mmu, n: Mmu, addr: u16, val: u8)
    requires
        m.write_post(&n, addr, val),
        (0xC000 <= addr <= 0xFDFF) || (0xFF80 <= addr <= 0xFFFE) || addr == 0xFF0F || addr == 0xFFFF,
    ensures n.read_spec(addr) == val,
{
    reveal(Mmu::write_post);
    reveal(Mmu::read_spec);
}

/// The echo area 0xE000-0xFDFF reads the work RAM 0x2000 below it.
pub proof fn lemma_echo_ram(m: Mmu, addr: u16)
    requires 0xE000 <= addr <= 0xFDFF,
    ensures m.read_spec(addr) == m.read_spec((addr - 0x2000) as u16),
{
    reveal(Mmu::read_spec);
}

/// Saving the bus's own state and loading the bytes back (see `load_state`)
/// restores the WRAM bank, IE, IF, the boot-ROM flag, work RAM and high RAM,
/// and the cursor moves past exactly the saved bytes.
pub proof fn lemma_mmu_roundtrip(m: Mmu, tail: Seq<u8>)
    ensures ({
        let s = m.serialized() + tail;
        &&& s.len() >= 4 + 32768 + 127
        &&& s[0] == m.wram_bank && s[1] == m.ie && s[2] == m.interrupt_flag
        &&& (s[3] != 0) == m.boot_rom_active
        &&& s.subrange(4, 32772) == m.wram@
        &&& s.subrange(32772, 32899) == m.hram@
        &&& s.subrange(32899, s.len() as int) == tail
    }),
{
    let s = m.serialized() + tail;
    assert(s.subrange(4, 32772) =~= m.wram@);
    assert(s.subrange(32772, 32899) =~= m.hram@);
    assert(s.subrange(32899, s.len() as int) =~= tail);
}

} // verus!
