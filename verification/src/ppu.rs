//! PPU — Pixel Processing Unit.
//!
//! Renders 160x144 pixels per frame via a scanline state machine. Each frame
//! is 154 scanlines (144 visible + 10 VBlank), each scanline 456 T-cycles:
//! OAM scan (80 dots), pixel transfer (172 dots), HBlank (204 dots).
use vstd::prelude::*;
use vstd::arithmetic::power2::pow2;
use crate::raster::{paint_span, upto, over, lemma_span_next, lemma_span_from, lemma_span_skip, lemma_span_rest,
    lemma_span_congr, lemma_span_compose, lemma_span_extend};
use crate::savestate::{push_u8, push_u32, pop_u8, pop_u32, take_u8, take_u32, le32};

verus! {

broadcast use crate::bits::lemma_and_le8;


pub const SCREEN_W: usize = 160;
pub const SCREEN_H: usize = 144;

#[derive(Clone, Copy, PartialEq, Eq, Structural)]
pub enum Mode {
    /// Mode 2 — scanning OAM for sprites on this line
    OamScan,
    /// Mode 3 — pushing pixels to the LCD
    PixelTransfer,
    /// Mode 0 — rest of the line
    HBlank,
    /// Mode 1 — scanlines 144-153
    VBlank,
}

pub struct Ppu {
    pub mode: Mode,
    /// Dot counter within the current scanline
    pub dots: u32,
    /// Internal window line counter — only incremented on lines where the window was drawn
    pub window_line: u8,
    pub lcdc: u8,
    pub stat: u8,
    pub scy: u8,
    pub scx: u8,
    pub ly: u8,
    pub lyc: u8,
    pub bgp: u8,
    pub obp0: u8,
    pub obp1: u8,
    pub wy: u8,
    pub wx: u8,
    pub vram: [u8; 8192],
    pub oam: [u8; 160],
    /// Per-scanline raw BG/window color IDs (0-3) for sprite BG priority checks
    pub bg_color_ids: [u8; 160],
    /// Previous STAT interrupt line state for edge detection
    pub stat_irq_line: bool,
    pub framebuffer: [u8; 92160],
    pub cgb_mode: bool,
    /// 8 palettes × 4 colors × 2 bytes (RGB555)
    pub bg_palette_data: [u8; 64],
    pub obj_palette_data: [u8; 64],
    /// BCPS: index + auto-increment (bit 7)
    pub bg_palette_index: u8,
    /// OCPS: index + auto-increment (bit 7)
    pub obj_palette_index: u8,
    /// CGB VRAM bank 1 (bank 0 is `vram`)
    pub vram_bank1: [u8; 8192],
    /// VBK register (0 or 1)
    pub vram_bank: u8,
    pub hdma_src: u16,
    pub hdma_dst: u16,
    pub hdma_len: u8,
    pub hdma_active: bool,
}

/// The 2-bit colour number a STAT read reports for a mode.
pub open spec fn mode_bits(m: Mode) -> u8 {
    match m {
        Mode::HBlank => 0,
        Mode::VBlank => 1,
        Mode::OamScan => 2,
        Mode::PixelTransfer => 3,
    }
}

/// Greyscale shade of each DMG palette index: white, light, dark, black.
pub open spec fn shade(idx: u8) -> u8 {
    if idx == 0 { 0xFF } else if idx == 1 { 0xAA } else if idx == 2 { 0x55 } else { 0x00 }
}

impl Ppu {
    /// The stat byte with the LYC=LY coincidence bit brought up to date.
    pub open spec fn lyc_stat(&self) -> u8 {
        if self.ly == self.lyc { self.stat | 0x04 } else { self.stat & !0x04u8 }
    }

    /// The combined STAT interrupt line.
    pub open spec fn stat_line(&self) -> bool {
        (self.stat & 0x20 != 0 && self.mode == Mode::OamScan)
            || (self.stat & 0x10 != 0 && self.mode == Mode::VBlank)
            || (self.stat & 0x08 != 0 && self.mode == Mode::HBlank)
            || (self.stat & 0x40 != 0 && self.stat & 0x04 != 0)
    }

    /// The mode machine's effect of `cycles` more T-cycles with the LCD on,
    /// before any rendering: the new state, the interrupt flags, and whether
    /// the current line is to be rendered (entry into HBlank on a visible line).
    pub open spec fn advance(&self, cycles: u32, iflag: u8) -> (Ppu, u8, bool) {
        let dots = self.dots + cycles;
        match self.mode {
            Mode::OamScan => {
                if dots >= 80 {
                    (Ppu { dots: (dots - 80) as u32, mode: Mode::PixelTransfer, ..*self }, iflag, false)
                } else {
                    (Ppu { dots: dots as u32, ..*self }, iflag, false)
                }
            }
            Mode::PixelTransfer => {
                if dots >= 172 {
                    (Ppu { dots: (dots - 172) as u32, mode: Mode::HBlank, ..*self }, iflag, self.ly < 144)
                } else {
                    (Ppu { dots: dots as u32, ..*self }, iflag, false)
                }
            }
            Mode::HBlank => {
                if dots >= 204 {
                    let ly = (self.ly + 1) as u8;
                    let s = if ly >= 144 {
                        Ppu { dots: (dots - 204) as u32, ly, mode: Mode::VBlank, window_line: 0, ..*self }
                    } else {
                        Ppu { dots: (dots - 204) as u32, ly, mode: Mode::OamScan, ..*self }
                    };
                    (Ppu { stat: s.lyc_stat(), ..s }, if ly >= 144 { iflag | 0x01 } else { iflag }, false)
                } else {
                    (Ppu { dots: dots as u32, ..*self }, iflag, false)
                }
            }
            Mode::VBlank => {
                if dots >= 456 {
                    let ly1 = (self.ly + 1) as u8;
                    let s = if ly1 > 153 {
                        Ppu { dots: (dots - 456) as u32, ly: 0, mode: Mode::OamScan, ..*self }
                    } else {
                        Ppu { dots: (dots - 456) as u32, ly: ly1, ..*self }
                    };
                    (Ppu { stat: s.lyc_stat(), ..s }, iflag, false)
                } else {
                    (Ppu { dots: dots as u32, ..*self }, iflag, false)
                }
            }
        }
    }

    /// The mode machine never leaves LY above 153 and keeps the dot counter
    /// within its line.
    pub open spec fn timing_ok(&self) -> bool {
        &&& self.ly <= 153
        &&& self.dots < 456
        &&& (self.mode != Mode::VBlank ==> self.ly < 144)
    }

    pub open spec fn read_register_spec(&self, addr: u16) -> u8 {
        if addr == 0xFF40 { self.lcdc }
        else if addr == 0xFF41 { (self.stat & 0x7C) | mode_bits(self.mode) | 0x80 }
        else if addr == 0xFF42 { self.scy }
        else if addr == 0xFF43 { self.scx }
        else if addr == 0xFF44 { self.ly }
        else if addr == 0xFF45 { self.lyc }
        else if addr == 0xFF46 { 0xFF }
        else if addr == 0xFF47 { self.bgp }
        else if addr == 0xFF48 { self.obp0 }
        else if addr == 0xFF49 { self.obp1 }
        else if addr == 0xFF4A { self.wy }
        else if addr == 0xFF4B { self.wx }
        else if addr == 0xFF4F { self.vram_bank | 0xFE }
        else if addr == 0xFF68 { self.bg_palette_index }
        else if addr == 0xFF69 { self.bg_palette_data@[(self.bg_palette_index & 0x3F) as int] }
        else if addr == 0xFF6A { self.obj_palette_index }
        else if addr == 0xFF6B { self.obj_palette_data@[(self.obj_palette_index & 0x3F) as int] }
        else { 0xFF }
    }

    /// Register effect of a write (palette data writes are described apart).
    pub open spec fn write_register_regs(&self, addr: u16, val: u8) -> Ppu {
        if addr == 0xFF40 {
            if self.lcdc & 0x80 != 0 && val & 0x80 == 0 {
                Ppu { lcdc: val, ly: 0, dots: 0, mode: Mode::OamScan, window_line: 0, ..*self }
            } else {
                Ppu { lcdc: val, ..*self }
            }
        }
        else if addr == 0xFF41 { Ppu { stat: (self.stat & 0x87) | (val & 0x78), ..*self } }
        else if addr == 0xFF42 { Ppu { scy: val, ..*self } }
        else if addr == 0xFF43 { Ppu { scx: val, ..*self } }
        else if addr == 0xFF45 { Ppu { lyc: val, ..*self } }
        else if addr == 0xFF47 { Ppu { bgp: val, ..*self } }
        else if addr == 0xFF48 { Ppu { obp0: val, ..*self } }
        else if addr == 0xFF49 { Ppu { obp1: val, ..*self } }
        else if addr == 0xFF4A { Ppu { wy: val, ..*self } }
        else if addr == 0xFF4B { Ppu { wx: val, ..*self } }
        else if addr == 0xFF4F { Ppu { vram_bank: val & 1, ..*self } }
        else if addr == 0xFF68 { Ppu { bg_palette_index: val, ..*self } }
        else if addr == 0xFF69 {
            if self.bg_palette_index & 0x80 != 0 {
                Ppu { bg_palette_index: 0x80 | ((((self.bg_palette_index as int + 1) % 256) as u8) & 0x3F), ..*self }
            } else { *self }
        }
        else if addr == 0xFF6A { Ppu { obj_palette_index: val, ..*self } }
        else if addr == 0xFF6B {
            if self.obj_palette_index & 0x80 != 0 {
                Ppu { obj_palette_index: 0x80 | ((((self.obj_palette_index as int + 1) % 256) as u8) & 0x3F), ..*self }
            } else { *self }
        }
        else { *self }
    }

    /// `new` is the PPU after a register write.
    pub open spec fn write_register_post(&self, new: &Ppu, addr: u16, val: u8) -> bool {
        let r = self.write_register_regs(addr, val);
        if addr == 0xFF69 {
            &&& new.bg_palette_data@ == self.bg_palette_data@.update((self.bg_palette_index & 0x3F) as int, val)
            &&& *new == (Ppu { bg_palette_data: new.bg_palette_data, ..r })
        } else if addr == 0xFF6B {
            &&& new.obj_palette_data@ == self.obj_palette_data@.update((self.obj_palette_index & 0x3F) as int, val)
            &&& *new == (Ppu { obj_palette_data: new.obj_palette_data, ..r })
        } else {
            *new == r
        }
    }

    /// VRAM byte through the VBK bank selection.
    pub open spec fn read_vram_banked_spec(&self, addr: u16) -> u8 {
        if self.vram_bank == 1 { self.vram_bank1@[addr - 0x8000] } else { self.vram@[addr - 0x8000] }
    }

    /// `new` is the PPU after a VRAM write through the VBK bank selection.
    pub open spec fn write_vram_banked_post(&self, new: &Ppu, addr: u16, val: u8) -> bool {
        if self.vram_bank == 1 {
            &&& new.vram_bank1@ == self.vram_bank1@.update(addr - 0x8000, val)
            &&& *new == (Ppu { vram_bank1: new.vram_bank1, ..*self })
        } else {
            &&& new.vram@ == self.vram@.update(addr - 0x8000, val)
            &&& *new == (Ppu { vram: new.vram, ..*self })
        }
    }

    /// `new` is the PPU after an OAM write.
    pub open spec fn write_oam_post(&self, new: &Ppu, addr: u16, val: u8) -> bool {
        &&& new.oam@ == self.oam@.update(addr - 0xFE00, val)
        &&& *new == (Ppu { oam: new.oam, ..*self })
    }

    /// Only the framebuffer, the BG colour line and the window line counter
    /// differ between `self` and `new`.
    pub open spec fn same_but_pixels(&self, new: &Ppu) -> bool {
        *new == (Ppu { framebuffer: new.framebuffer, bg_color_ids: new.bg_color_ids, window_line: new.window_line, ..*self })
    }

    /// The bytes `save_state` appends.
    pub open spec fn serialized(&self) -> Seq<u8> {
        seq![match self.mode { Mode::OamScan => 0u8, Mode::PixelTransfer => 1u8, Mode::HBlank => 2u8, Mode::VBlank => 3u8 }]
            + le32(self.dots) + seq![self.window_line, self.lcdc, self.stat, self.scy, self.scx, self.ly,
            self.lyc, self.bgp, self.obp0, self.obp1, self.wy, self.wx] + self.vram@ + self.oam@
    }
}

impl Ppu {
    pub fn new() -> (r: Self)
        ensures
            r.mode == Mode::OamScan && r.dots == 0 && r.window_line == 0,
            r.lcdc == 0x91 && r.stat == 0 && r.scy == 0 && r.scx == 0 && r.ly == 0 && r.lyc == 0,
            r.bgp == 0xFC && r.obp0 == 0xFF && r.obp1 == 0xFF && r.wy == 0 && r.wx == 0,
            r.vram@ == Seq::new(8192, |i: int| 0u8),
            r.oam@ == Seq::new(160, |i: int| 0u8),
            r.framebuffer@ == Seq::new(92160, |i: int| 0u8),
            !r.stat_irq_line && !r.cgb_mode && r.vram_bank == 0,
            r.bg_palette_index == 0 && r.obj_palette_index == 0,
            r.timing_ok(),
    {
        let vram = [0u8; 8192];
        let oam = [0u8; 160];
        let framebuffer = [0u8; 92160];
        assert(vram@ =~= Seq::new(8192, |i: int| 0u8));
        assert(oam@ =~= Seq::new(160, |i: int| 0u8));
        assert(framebuffer@ =~= Seq::new(92160, |i: int| 0u8));
        Ppu {
            mode: Mode::OamScan,
            dots: 0,
            window_line: 0,
            lcdc: 0x91,
            stat: 0,
            scy: 0,
            scx: 0,
            ly: 0,
            lyc: 0,
            bgp: 0xFC,
            obp0: 0xFF,
            obp1: 0xFF,
            wy: 0,
            wx: 0,
            vram,
            oam,
            bg_color_ids: [0u8; 160],
            stat_irq_line: false,
            framebuffer,
            cgb_mode: false,
            bg_palette_data: [0u8; 64],
            obj_palette_data: [0u8; 64],
            bg_palette_index: 0,
            obj_palette_index: 0,
            vram_bank1: [0u8; 8192],
            vram_bank: 0,
            hdma_src: 0,
            hdma_dst: 0,
            hdma_len: 0,
            hdma_active: false,
        }
    }

    /// Advance the PPU by the given number of T-cycles. With the LCD off
    /// nothing happens.
    pub fn tick(&mut self, cycles: u32, interrupt_flag: &mut u8)
        requires
            old(self).ly < 255,
            old(self).dots + cycles <= u32::MAX,
        ensures
            old(self).lcdc & 0x80 == 0 ==> *final(self) == *old(self) && *final(interrupt_flag) == *old(interrupt_flag),
            old(self).lcdc & 0x80 != 0 ==> ({
                let (s1, f1, r) = old(self).advance(cycles, *old(interrupt_flag));
                &&& (Ppu { stat_irq_line: s1.stat_line(), ..s1 }).same_but_pixels(final(self))
                &&& *final(interrupt_flag) == (if s1.stat_line() && !s1.stat_irq_line { f1 | 0x02 } else { f1 })
                &&& !r ==> (final(self).framebuffer == s1.framebuffer && final(self).bg_color_ids == s1.bg_color_ids
                        && final(self).window_line == s1.window_line)
                &&& r ==> Ppu::scanline_rendered(&s1, &Ppu { stat_irq_line: s1.stat_irq_line, ..*final(self) })
            }),
            old(self).timing_ok() && cycles <= 80 ==> final(self).timing_ok(),
    {
        if self.lcdc & 0x80 == 0 {
            return;
        }
        self.dots = self.dots + cycles;
        match self.mode {
            Mode::OamScan => {
                if self.dots >= 80 {
                    self.dots = self.dots - 80;
                    self.mode = Mode::PixelTransfer;
                }
            }
            Mode::PixelTransfer => {
                if self.dots >= 172 {
                    self.dots = self.dots - 172;
                    self.mode = Mode::HBlank;
                    if (self.ly as usize) < SCREEN_H {
                        self.render_scanline();
                    }
                }
            }
            Mode::HBlank => {
                if self.dots >= 204 {
                    self.dots = self.dots - 204;
                    self.ly = self.ly + 1;
                    if self.ly >= 144 {
                        self.mode = Mode::VBlank;
                        *interrupt_flag = *interrupt_flag | 0x01;
                        self.window_line = 0;
                    } else {
                        self.mode = Mode::OamScan;
                    }
                    self.update_lyc_flag();
                }
            }
            Mode::VBlank => {
                if self.dots >= 456 {
                    self.dots = self.dots - 456;
                    self.ly = self.ly + 1;
                    if self.ly > 153 {
                        self.ly = 0;
                        self.mode = Mode::OamScan;
                    }
                    self.update_lyc_flag();
                }
            }
        }
        self.update_stat_irq(interrupt_flag);
    }

    /// Update the LYC=LY coincidence flag (does not request an interrupt).
    fn update_lyc_flag(&mut self)
        ensures *final(self) == (Ppu { stat: old(self).lyc_stat(), ..*old(self) }),
    {
        if self.ly == self.lyc {
            self.stat = self.stat | 0x04;
        } else {
            self.stat = self.stat & !0x04;
        }
    }

    /// Compute the combined STAT interrupt line and request the interrupt on
    /// its rising edge only.
    fn update_stat_irq(&mut self, interrupt_flag: &mut u8)
        ensures
            *final(self) == (Ppu { stat_irq_line: old(self).stat_line(), ..*old(self) }),
            *final(interrupt_flag) == (if old(self).stat_line() && !old(self).stat_irq_line {
                *old(interrupt_flag) | 0x02
            } else {
                *old(interrupt_flag)
            }),
    {
        let line = (self.stat & 0x20 != 0 && self.mode == Mode::OamScan)
            || (self.stat & 0x10 != 0 && self.mode == Mode::VBlank)
            || (self.stat & 0x08 != 0 && self.mode == Mode::HBlank)
            || (self.stat & 0x40 != 0 && self.stat & 0x04 != 0);
        if line && !self.stat_irq_line {
            *interrupt_flag = *interrupt_flag | 0x02;
        }
        self.stat_irq_line = line;
    }

    pub fn read_vram(&self, addr: u16) -> (r: u8)
        requires 0x8000 <= addr < 0xA000,
        ensures r == self.vram@[addr - 0x8000],
    {
        self.vram[(addr - 0x8000) as usize]
    }

    pub fn write_vram(&mut self, addr: u16, val: u8)
        requires 0x8000 <= addr < 0xA000,
        ensures
            final(self).vram@ == old(self).vram@.update(addr - 0x8000, val),
            *final(self) == (Ppu { vram: final(self).vram, ..*old(self) }),
    {
        self.vram[(addr - 0x8000) as usize] = val;
    }

    pub fn read_vram_banked(&self, addr: u16) -> (r: u8)
        requires 0x8000 <= addr < 0xA000,
        ensures r == self.read_vram_banked_spec(addr),
    {
        let offset = (addr - 0x8000) as usize;
        if self.vram_bank == 1 { self.vram_bank1[offset] } else { self.vram[offset] }
    }

    pub fn write_vram_banked(&mut self, addr: u16, val: u8)
        requires 0x8000 <= addr < 0xA000,
        ensures old(self).write_vram_banked_post(final(self), addr, val),
    {
        let offset = (addr - 0x8000) as usize;
        if self.vram_bank == 1 {
            self.vram_bank1[offset] = val;
        } else {
            self.vram[offset] = val;
        }
    }

    pub fn read_oam(&self, addr: u16) -> (r: u8)
        requires 0xFE00 <= addr < 0xFEA0,
        ensures r == self.oam@[addr - 0xFE00],
    {
        self.oam[(addr - 0xFE00) as usize]
    }

    pub fn write_oam(&mut self, addr: u16, val: u8)
        requires 0xFE00 <= addr < 0xFEA0,
        ensures old(self).write_oam_post(final(self), addr, val),
    {
        self.oam[(addr - 0xFE00) as usize] = val;
    }

    pub fn read_register(&self, addr: u16) -> (r: u8)
        ensures r == self.read_register_spec(addr),
    {
        match addr {
            0xFF40 => self.lcdc,
            0xFF41 => {
                let mode_bits: u8 = match self.mode {
                    Mode::HBlank => 0,
                    Mode::VBlank => 1,
                    Mode::OamScan => 2,
                    Mode::PixelTransfer => 3,
                };
                (self.stat & 0x7C) | mode_bits | 0x80
            }
            0xFF42 => self.scy,
            0xFF43 => self.scx,
            0xFF44 => self.ly,
            0xFF45 => self.lyc,
            0xFF46 => 0xFF,
            0xFF47 => self.bgp,
            0xFF48 => self.obp0,
            0xFF49 => self.obp1,
            0xFF4A => self.wy,
            0xFF4B => self.wx,
            0xFF4F => self.vram_bank | 0xFE,
            0xFF68 => self.bg_palette_index,
            0xFF69 => {
                proof { lemma_low6(self.bg_palette_index); }
                self.bg_palette_data[(self.bg_palette_index & 0x3F) as usize]
            }
            0xFF6A => self.obj_palette_index,
            0xFF6B => {
                proof { lemma_low6(self.obj_palette_index); }
                self.obj_palette_data[(self.obj_palette_index & 0x3F) as usize]
            }
            _ => 0xFF,
        }
    }

    pub fn save_state(&self, d: &mut Vec<u8>)
        ensures final(d)@ == old(d)@ + self.serialized(),
    {
        let mode_byte: u8 = match self.mode {
            Mode::OamScan => 0,
            Mode::PixelTransfer => 1,
            Mode::HBlank => 2,
            Mode::VBlank => 3,
        };
        push_u8(d, mode_byte);
        push_u32(d, self.dots);
        push_u8(d, self.window_line);
        push_u8(d, self.lcdc);
        push_u8(d, self.stat);
        push_u8(d, self.scy);
        push_u8(d, self.scx);
        push_u8(d, self.ly);
        push_u8(d, self.lyc);
        push_u8(d, self.bgp);
        push_u8(d, self.obp0);
        push_u8(d, self.obp1);
        push_u8(d, self.wy);
        push_u8(d, self.wx);
        let ghost mid = d@;
        let mut i: usize = 0;
        while i < 8192
            invariant
                i <= 8192,
                d@ == mid + self.vram@.subrange(0, i as int),
            decreases 8192 - i,
        {
            d.push(self.vram[i]);
            i = i + 1;
            assert(d@ =~= mid + self.vram@.subrange(0, i as int));
        }
        let ghost mid2 = d@;
        let mut j: usize = 0;
        while j < 160
            invariant
                j <= 160,
                d@ == mid2 + self.oam@.subrange(0, j as int),
            decreases 160 - j,
        {
            d.push(self.oam[j]);
            j = j + 1;
            assert(d@ =~= mid2 + self.oam@.subrange(0, j as int));
        }
        assert(self.vram@.subrange(0, 8192) =~= self.vram@);
        assert(self.oam@.subrange(0, 160) =~= self.oam@);
        assert(d@ =~= old(d)@ + self.serialized());
    }

    /// Restore registers, VRAM and OAM. The state must hold the whole VRAM
    /// and OAM images after the 17 register bytes.
    pub fn load_state(&mut self, d: &mut &[u8])
        requires
            old(d)@.len() >= 8369int,
        ensures
            ({
                let s = old(d)@;
                let m = s[0];
                let (dots, s2) = take_u32(s.subrange(1, s.len() as int));
                &&& final(self).mode == (if m == 0 { Mode::OamScan } else if m == 1 { Mode::PixelTransfer }
                        else if m == 2 { Mode::HBlank } else { Mode::VBlank })
                &&& final(self).dots == dots
                &&& final(self).window_line == s[5] && final(self).lcdc == s[6] && final(self).stat == s[7]
                &&& final(self).scy == s[8] && final(self).scx == s[9] && final(self).ly == s[10]
                &&& final(self).lyc == s[11] && final(self).bgp == s[12] && final(self).obp0 == s[13]
                &&& final(self).obp1 == s[14] && final(self).wy == s[15] && final(self).wx == s[16]
                &&& final(self).vram@ == s.subrange(17int, 8209int)
                &&& final(self).oam@ == s.subrange(8209int, 8369int)
                &&& *final(self) == (Ppu { mode: final(self).mode, dots: final(self).dots,
                        window_line: final(self).window_line, lcdc: final(self).lcdc, stat: final(self).stat,
                        scy: final(self).scy, scx: final(self).scx, ly: final(self).ly, lyc: final(self).lyc,
                        bgp: final(self).bgp, obp0: final(self).obp0, obp1: final(self).obp1, wy: final(self).wy,
                        wx: final(self).wx, vram: final(self).vram, oam: final(self).oam, ..*old(self) })
                &&& final(d)@ == s.subrange(8369int, s.len() as int)
            }),
    {
        let ghost s = d@;
        let m = pop_u8(d);
        self.mode = match m {
            0 => Mode::OamScan,
            1 => Mode::PixelTransfer,
            2 => Mode::HBlank,
            _ => Mode::VBlank,
        };
        self.dots = pop_u32(d);
        self.window_line = pop_u8(d);
        self.lcdc = pop_u8(d);
        self.stat = pop_u8(d);
        self.scy = pop_u8(d);
        self.scx = pop_u8(d);
        self.ly = pop_u8(d);
        self.lyc = pop_u8(d);
        self.bgp = pop_u8(d);
        self.obp0 = pop_u8(d);
        self.obp1 = pop_u8(d);
        self.wy = pop_u8(d);
        self.wx = pop_u8(d);
        assert(d@ =~= s.subrange(17, s.len() as int));
        let ghost rest = d@;
        let mut vram = [0u8; 8192];
        let mut i: usize = 0;
        while i < 8192
            invariant
                i <= 8192,
                d@ == rest,
                rest.len() >= 8192 + 160,
                forall|j: int| 0 <= j < i ==> vram@[j] == rest[j],
            decreases 8192 - i,
        {
            vram[i] = d[i];
            i = i + 1;
        }
        let mut oam = [0u8; 160];
        let mut k: usize = 0;
        while k < 160
            invariant
                k <= 160,
                d@ == rest,
                rest.len() >= 8192 + 160,
                forall|j: int| 0 <= j < k ==> oam@[j] == rest[8192 + j],
            decreases 160 - k,
        {
            oam[k] = d[8192 + k];
            k = k + 1;
        }
        assert(vram@ =~= s.subrange(17int, 8209int));
        assert(oam@ =~= s.subrange(8209int, 8369int));
        self.vram = vram;
        self.oam = oam;
        *d = &d[8352..d.len()];
        assert(d@ =~= s.subrange(8369int, s.len() as int));
    }

    pub fn write_register(&mut self, addr: u16, val: u8)
        ensures old(self).write_register_post(final(self), addr, val),
    {
        match addr {
            0xFF40 => {
                let was_on = self.lcdc & 0x80 != 0;
                self.lcdc = val;
                if was_on && val & 0x80 == 0 {
                    self.ly = 0;
                    self.dots = 0;
                    self.mode = Mode::OamScan;
                    self.window_line = 0;
                }
            }
            0xFF41 => {
                self.stat = (self.stat & 0x87) | (val & 0x78);
            }
            0xFF42 => self.scy = val,
            0xFF43 => self.scx = val,
            0xFF44 => {}
            0xFF45 => self.lyc = val,
            0xFF46 => {}
            0xFF47 => self.bgp = val,
            0xFF48 => self.obp0 = val,
            0xFF49 => self.obp1 = val,
            0xFF4A => self.wy = val,
            0xFF4B => self.wx = val,
            0xFF4F => self.vram_bank = val & 1,
            0xFF68 => self.bg_palette_index = val,
            0xFF69 => {
                proof { lemma_low6(self.bg_palette_index); }
                let idx = (self.bg_palette_index & 0x3F) as usize;
                self.bg_palette_data[idx] = val;
                if self.bg_palette_index & 0x80 != 0 {
                    self.bg_palette_index = 0x80 | (self.bg_palette_index.wrapping_add(1) & 0x3F);
                }
            }
            0xFF6A => self.obj_palette_index = val,
            0xFF6B => {
                proof { lemma_low6(self.obj_palette_index); }
                let idx = (self.obj_palette_index & 0x3F) as usize;
                self.obj_palette_data[idx] = val;
                if self.obj_palette_index & 0x80 != 0 {
                    self.obj_palette_index = 0x80 | (self.obj_palette_index.wrapping_add(1) & 0x3F);
                }
            }
            _ => {}
        }
    }
}

impl Ppu {
    /// `new` is `s` with its current line rendered (see `scanline_result`).
    pub open spec fn scanline_rendered(s: &Ppu, new: &Ppu) -> bool {
        &&& s.same_but_pixels(new)
        &&& (new.framebuffer@, new.bg_color_ids@, new.window_line) == scanline_result(*s)
    }

    fn render_scanline(&mut self)
        requires old(self).ly < 144,
        ensures Ppu::scanline_rendered(old(self), final(self)),
    {
        let ghost s0 = *self;
        self.bg_color_ids = [0u8; 160];
        assert(self.bg_color_ids@ =~= Seq::new(160, |x: int| 0u8));
        let ghost sz = *self;
        if self.lcdc & 0x01 != 0 {
            self.render_bg();
            proof {
                assert forall|x: int| #[trigger] bg_pixel(sz, x) == bg_pixel(s0, x) by {
                    let map_base: int = if s0.lcdc & 0x08 != 0 { 0x9C00 } else { 0x9800 };
                    let y = (s0.ly + s0.scy) % 256;
                    let sx = (x + s0.scx) % 256;
                    lemma_map_pixel_frame(s0, sz, map_base + (y / 8) * 32 + sx / 8, y % 8, sx % 8);
                }
                let a = |x: int| Some(bg_pixel(sz, x).1);
                let b = |x: int| Some(bg_pixel(s0, x).1);
                assert forall|x: int| #[trigger] a(x) == b(x) by {}
                lemma_span_congr(s0.framebuffer@, s0.ly * 640, 160, a, b);
                assert(self.bg_color_ids@ =~= Seq::new(160, |x: int| bg_pixel(s0, x).0));
            }
        }
        let ghost s1 = *self;
        if self.lcdc & 0x20 != 0 {
            self.render_window();
            proof {
                if s1.ly >= s1.wy {
                    let a = |x: int| if x >= window_left(s1) { Some(window_pixel(s1, x).1) } else { None };
                    let b = |x: int| if x >= window_left(s0) { Some(window_pixel(s0, x).1) } else { None };
                    assert forall|x: int| #[trigger] a(x) == b(x) by {
                        let map_base: int = if s0.lcdc & 0x40 != 0 { 0x9C00 } else { 0x9800 };
                        let wx = x - window_left(s0);
                        lemma_map_pixel_frame(s0, s1, map_base + (s0.window_line / 8) * 32 + wx / 8,
                            (s0.window_line % 8) as int, wx % 8);
                    }
                    lemma_span_congr(s1.framebuffer@, s1.ly * 640, 160, a, b);
                    assert forall|x: int| 0 <= x < 160 implies #[trigger] window_pixel(s1, x).0 == window_pixel(s0, x).0 by {
                        let map_base: int = if s0.lcdc & 0x40 != 0 { 0x9C00 } else { 0x9800 };
                        let wx = x - window_left(s0);
                        lemma_map_pixel_frame(s0, s1, map_base + (s0.window_line / 8) * 32 + wx / 8,
                            (s0.window_line % 8) as int, wx % 8);
                    }
                    assert(self.bg_color_ids@ =~= Seq::new(160, |x: int|
                        if x >= window_left(s0) { window_pixel(s0, x).0 } else { s1.bg_color_ids@[x] }));
                }
            }
        }
        let ghost s2 = *self;
        if self.lcdc & 0x02 != 0 {
            self.render_sprites();
            proof {
                lemma_line_sprites_frame(s0, s2, 40);
                let a = |x: int| drawn_by(s2, s2.bg_color_ids@, front_sprite(s2, s2.bg_color_ids@, line_sprites(s2), x), x);
                let b = |x: int| drawn_by(s0, s2.bg_color_ids@, front_sprite(s0, s2.bg_color_ids@, line_sprites(s0), x), x);
                assert forall|x: int| #[trigger] a(x) == b(x) by {
                    lemma_front_sprite_frame(s0, s2, s2.bg_color_ids@, line_sprites(s0), x);
                }
                lemma_span_congr(s2.framebuffer@, s2.ly * 640, 160, a, b);
            }
        }
    }

    /// Address of a row of a tile: unsigned ids count from `base`, signed
    /// ids from 0x9000.
    fn tile_row_addr(signed_ids: bool, base: u16, tile_id: u8, row: u16) -> (r: u16)
        requires
            base == 0x8000 || base == 0x8800,
            row < 8,
        ensures
            r == tile_row_addr_spec(signed_ids, base, tile_id, row),
            0x8000 <= r <= 0x97FE,
    {
        if signed_ids {
            if tile_id < 128 {
                0x9000 + tile_id as u16 * 16 + row * 2
            } else {
                0x8000 + tile_id as u16 * 16 + row * 2
            }
        } else {
            0x8000 + tile_id as u16 * 16 + row * 2
        }
    }

    /// The colour number and RGBA bytes of a tile-map pixel (see `map_pixel`).
    #[verifier::rlimit(30)]
    fn map_pixel_exec(&self, map_addr: u16, pixel_row: u16, pixel_col: u8) -> (r: (u8, [u8; 4]))
        requires 0x9800 <= map_addr < 0xA000, pixel_row < 8, pixel_col < 8,
        ensures
            r.0 == map_pixel(*self, map_addr as int, pixel_row as int, pixel_col as int).0,
            r.1@ == map_pixel(*self, map_addr as int, pixel_row as int, pixel_col as int).1,
            r.0 < 4,
    {
        proof { reveal(map_pixel); }
        let tile_data_base: u16 = if self.lcdc & 0x10 != 0 { 0x8000 } else { 0x8800 };
        let signed_tile_ids = self.lcdc & 0x10 == 0;
        let tile_id = self.vram[(map_addr - 0x8000) as usize];
        if self.cgb_mode {
            let map_offset = (map_addr - 0x8000) as usize;
            let attr = self.vram_bank1[map_offset];
            let palette_num = (attr & 0x07) as usize;
            let tile_bank = (attr / 8) & 1;
            let cgb_x_flip = attr & 0x20 != 0;
            let cgb_y_flip = attr & 0x40 != 0;
            let actual_pixel_row = if cgb_y_flip { 7 - pixel_row } else { pixel_row };
            let tile_addr = Self::tile_row_addr(signed_tile_ids, tile_data_base, tile_id, actual_pixel_row);
            let actual_pixel_col = if cgb_x_flip { 7 - pixel_col } else { pixel_col };
            let color_id = self.get_tile_pixel_banked(tile_addr, actual_pixel_col, tile_bank);
            let rgba = Self::cgb_palette_color(&self.bg_palette_data, palette_num, color_id as usize);
            (color_id, rgba)
        } else {
            let tile_addr = Self::tile_row_addr(signed_tile_ids, tile_data_base, tile_id, pixel_row);
            let color_id = self.get_tile_pixel(tile_addr, pixel_col);
            let shade = Self::apply_palette(self.bgp, color_id);
            let rgba = [shade, shade, shade, 0xFF];
            assert(rgba@ =~= seq![shade, shade, shade, 0xFFu8]);
            (color_id, rgba)
        }
    }

    #[verifier::spinoff_prover]
    #[verifier::rlimit(60)]
    fn render_bg(&mut self)
        requires old(self).ly < 144,
        ensures
            old(self).same_but_pixels(final(self)),
            final(self).window_line == old(self).window_line,
            final(self).framebuffer@ == paint_line(old(self).framebuffer@, old(self).ly as int,
                |x: int| Some(bg_pixel(*old(self), x).1)),
            final(self).bg_color_ids@ == Seq::new(160, |x: int| bg_pixel(*old(self), x).0),
    {
        let tile_data_base: u16 = if self.lcdc & 0x10 != 0 { 0x8000 } else { 0x8800 };
        let tile_map_base: u16 = if self.lcdc & 0x08 != 0 { 0x9C00 } else { 0x9800 };
        let signed_tile_ids = self.lcdc & 0x10 == 0;
        let y = self.ly.wrapping_add(self.scy);
        let tile_row = (y / 8) as u16;
        let pixel_row = (y % 8) as u16;
        let ghost pre = *self;
        let ghost f = |x: int| Some(bg_pixel(pre, x).1);
        proof { lemma_span_from(pre.framebuffer@, pre.ly * 640, 160, f, 0); }
        let mut x: u8 = 0;
        while x < 160
            invariant
                x <= 160,
                self.ly < 144,
                pre.same_but_pixels(self),
                self.window_line == pre.window_line,
                tile_row == ((pre.ly + pre.scy) % 256) / 8,
                pixel_row == ((pre.ly + pre.scy) % 256) % 8,
                tile_map_base == (if pre.lcdc & 0x08 != 0 { 0x9C00u16 } else { 0x9800u16 }),
                tile_data_base == (if pre.lcdc & 0x10 != 0 { 0x8000u16 } else { 0x8800u16 }),
                signed_tile_ids == (pre.lcdc & 0x10 == 0),
                f == (|x: int| Some(bg_pixel(pre, x).1)),
                self.framebuffer@ == paint_line(pre.framebuffer@, pre.ly as int, upto(f, x as int)),
                forall|k: int| 0 <= k < x ==> self.bg_color_ids@[k] == #[trigger] bg_pixel(pre, k).0,
            decreases 160 - x,
        {
            let scrolled_x = x.wrapping_add(self.scx);
            let tile_col = (scrolled_x / 8) as u16;
            let pixel_col = scrolled_x % 8;
            let map_addr = tile_map_base + tile_row * 32 + tile_col;
            let (color_id, rgba) = self.map_pixel_exec(map_addr, pixel_row, pixel_col);
            proof {
                lemma_map_pixel_frame(pre, *self, map_addr as int, pixel_row as int, pixel_col as int);
                assert(bg_pixel(pre, x as int) == map_pixel(pre, map_addr as int, pixel_row as int, pixel_col as int));
                lemma_span_next(pre.framebuffer@, pre.ly * 640, 160, f, x as int);
            }
            self.bg_color_ids[x as usize] = color_id;
            self.set_pixel_rgba(x as usize, self.ly as usize, rgba);
            x = x + 1;
        }
        proof {
            lemma_span_rest(pre.framebuffer@, pre.ly * 640, 160, f, 160);
            assert(self.bg_color_ids@ =~= Seq::new(160, |x: int| bg_pixel(pre, x).0));
        }
    }

    #[verifier::spinoff_prover]
    #[verifier::rlimit(60)]
    fn render_window(&mut self)
        requires old(self).ly < 144,
        ensures
            old(self).same_but_pixels(final(self)),
            old(self).ly < old(self).wy ==> *final(self) == *old(self),
            old(self).ly >= old(self).wy ==> {
                &&& final(self).window_line == old(self).window_line.wrapping_add(1)
                &&& final(self).framebuffer@ == paint_line(old(self).framebuffer@, old(self).ly as int,
                    |x: int| if x >= window_left(*old(self)) { Some(window_pixel(*old(self), x).1) } else { None })
                &&& final(self).bg_color_ids@ == Seq::new(160, |x: int|
                    if x >= window_left(*old(self)) { window_pixel(*old(self), x).0 } else { old(self).bg_color_ids@[x] })
            },
    {
        if self.ly < self.wy {
            return;
        }
        let wx = self.wx.saturating_sub(7);
        let tile_map_base: u16 = if self.lcdc & 0x40 != 0 { 0x9C00 } else { 0x9800 };
        let win_y = self.window_line;
        let tile_row = (win_y / 8) as u16;
        let pixel_row = (win_y % 8) as u16;
        let ghost pre = *self;
        let ghost f = |x: int| if x >= window_left(pre) { Some(window_pixel(pre, x).1) } else { None };
        proof { lemma_span_from(pre.framebuffer@, pre.ly * 640, 160, f, 0); }
        let mut x: u8 = 0;
        while x < 160
            invariant
                x <= 160,
                self.ly < 144,
                pre.same_but_pixels(self),
                self.window_line == pre.window_line,
                wx == window_left(pre),
                tile_row == pre.window_line / 8,
                pixel_row == pre.window_line % 8,
                tile_map_base == (if pre.lcdc & 0x40 != 0 { 0x9C00u16 } else { 0x9800u16 }),
                f == (|x: int| if x >= window_left(pre) { Some(window_pixel(pre, x).1) } else { None }),
                self.framebuffer@ == paint_line(pre.framebuffer@, pre.ly as int, upto(f, x as int)),
                forall|k: int| 0 <= k < x ==> #[trigger] self.bg_color_ids@[k] ==
                    (if k >= window_left(pre) { window_pixel(pre, k).0 } else { pre.bg_color_ids@[k] }),
                forall|k: int| x <= k < 160 ==> #[trigger] self.bg_color_ids@[k] == pre.bg_color_ids@[k],
            decreases 160 - x,
        {
            if x >= wx {
                let win_x = x - wx;
                let tile_col = (win_x / 8) as u16;
                let pixel_col = win_x % 8;
                let map_addr = tile_map_base + tile_row * 32 + tile_col;
                let (color_id, rgba) = self.map_pixel_exec(map_addr, pixel_row, pixel_col);
                proof {
                    lemma_map_pixel_frame(pre, *self, map_addr as int, pixel_row as int, pixel_col as int);
                    assert(window_pixel(pre, x as int) == map_pixel(pre, map_addr as int, pixel_row as int, pixel_col as int));
                    lemma_span_next(pre.framebuffer@, pre.ly * 640, 160, f, x as int);
                }
                self.bg_color_ids[x as usize] = color_id;
                self.set_pixel_rgba(x as usize, self.ly as usize, rgba);
            } else {
                proof { lemma_span_skip(pre.framebuffer@, pre.ly * 640, 160, f, x as int); }
            }
            x = x + 1;
        }
        proof {
            lemma_span_rest(pre.framebuffer@, pre.ly * 640, 160, f, 160);
            assert(self.bg_color_ids@ =~= Seq::new(160, |x: int|
                if x >= window_left(pre) { window_pixel(pre, x).0 } else { pre.bg_color_ids@[x] }));
        }
        self.window_line = self.window_line.wrapping_add(1);
    }

    /// The sprites on the current line, in OAM order, at most ten.
    fn select_sprites(&self) -> (v: Vec<(u8, u8, u8, u8, usize)>)
        ensures v@ == line_sprites(*self),
    {
        let tall_sprites = self.lcdc & 0x04 != 0;
        let sprite_height: u8 = if tall_sprites { 16 } else { 8 };
        // Visible sprites (at most 10 per line, in OAM order): (y, x, tile, attr, index)
        let mut sprites: Vec<(u8, u8, u8, u8, usize)> = Vec::new();
        let mut i: usize = 0;
        while i < 40
            invariant_except_break
                sprites@.len() < 10,
                sprites@ == line_sprites_upto(*self, i as int),
            invariant
                i <= 40,
                sprites@.len() <= 10,
                sprite_height == sprite_rows(*self),
            ensures
                sprites@ == line_sprites(*self),
            decreases 40 - i,
        {
            let base = i * 4;
            let sy = self.oam[base].wrapping_sub(16);
            let sx = self.oam[base + 1].wrapping_sub(8);
            let tile = self.oam[base + 2];
            let attr = self.oam[base + 3];
            if self.ly.wrapping_sub(sy) < sprite_height {
                sprites.push((sy, sx, tile, attr, i));
                if sprites.len() >= 10 {
                    proof { lemma_line_sprites_full(*self, (i + 1) as int, 40); }
                    break;
                }
            }
            i = i + 1;
        }
        sprites
    }

    /// Draws sprite `e` on the current line.
    #[verifier::rlimit(40)]
    fn draw_sprite(&mut self, e: (u8, u8, u8, u8, usize))
        requires old(self).ly < 144,
        ensures
            *final(self) == (Ppu { framebuffer: final(self).framebuffer, ..*old(self) }),
            final(self).framebuffer@ == paint_line(old(self).framebuffer@, old(self).ly as int,
                |x: int| sprite_draw(*old(self), old(self).bg_color_ids@, e, x)),
    {
        let ghost pre = *self;
        let ghost f = |x: int| sprite_draw(pre, pre.bg_color_ids@, e, x);
        let (sy, sx, tile0, attr, _idx) = e;
        let tall_sprites = self.lcdc & 0x04 != 0;
        let sprite_height: u8 = if tall_sprites { 16 } else { 8 };
        let mut tile = tile0;
        let palette = if attr & 0x10 != 0 { self.obp1 } else { self.obp0 };
        let x_flip = attr & 0x20 != 0;
        let y_flip = attr & 0x40 != 0;
        let bg_priority = attr & 0x80 != 0;
        let mut line = (self.ly.wrapping_sub(sy) % sprite_height) as u16;
        if tall_sprites {
            if y_flip {
                line = 15 - line;
            }
            if line >= 8 {
                tile = tile | 0x01;
                line = line - 8;
            } else {
                tile = tile & 0xFE;
            }
        } else if y_flip {
            line = 7 - line;
        }
        assert(line < 8);
        let tile_addr = 0x8000u16 + tile as u16 * 16 + line * 2;
        proof {
            assert(paint_line(pre.framebuffer@, pre.ly as int, |x: int| None::<Seq<u8>>) =~= pre.framebuffer@);
        }
        let mut pixel_x: u8 = 0;
        while pixel_x < 8
            invariant
                pixel_x <= 8,
                self.ly < 144,
                *self == (Ppu { framebuffer: self.framebuffer, ..pre }),
                0x8000 <= tile_addr <= 0x8FFE,
                tile_addr - 0x8000 == (if sprite_height == 16 {
                    let row0 = (pre.ly.wrapping_sub(sy) % 16) as int;
                    let flipped = if attr & 0x40 != 0 { 15 - row0 } else { row0 };
                    (if flipped >= 8 { (tile0 | 1) as int } else { (tile0 & 0xFE) as int }) * 16
                        + (if flipped >= 8 { flipped - 8 } else { flipped }) * 2
                } else {
                    let row0 = (pre.ly.wrapping_sub(sy) % 8) as int;
                    tile0 * 16 + (if attr & 0x40 != 0 { 7 - row0 } else { row0 }) * 2
                }),
                sprite_height == sprite_rows(pre),
                (sy, sx, tile0, attr, _idx) == e,
                palette == (if attr & 0x10 != 0 { pre.obp1 } else { pre.obp0 }),
                x_flip == (attr & 0x20 != 0), bg_priority == (attr & 0x80 != 0),
                f == (|x: int| sprite_draw(pre, pre.bg_color_ids@, e, x)),
                self.framebuffer@ == paint_line(pre.framebuffer@, pre.ly as int,
                    |x: int| if (x - sx) % 256 < pixel_x { f(x) } else { None }),
            decreases 8 - pixel_x,
        {
            let screen_x = sx.wrapping_add(pixel_x) as usize;
            let ghost g = |x: int| if (x - sx) % 256 < pixel_x { f(x) } else { None };
            let ghost h = |x: int| if (x - sx) % 256 < pixel_x + 1 { f(x) } else { None };
            proof {
                assert((screen_x - sx) % 256 == pixel_x);
                assert forall|x: int| x != screen_x implies #[trigger] g(x) == h(x) by {
                    if (x - sx) % 256 == pixel_x {
                        assert(x % 256 == screen_x);
                        if 0 <= x < 160 { assert(x == screen_x); }
                    }
                }
            }
            if screen_x < SCREEN_W {
                let bit = if x_flip { 7 - pixel_x } else { pixel_x };
                let drawn = if self.cgb_mode {
                    let cgb_palette_num = (attr & 0x07) as usize;
                    let cgb_tile_bank = (attr / 8) & 1;
                    let color_id = self.get_tile_pixel_banked(tile_addr, bit, cgb_tile_bank);
                    if color_id != 0 && !(bg_priority && self.bg_color_ids[screen_x] != 0) {
                        Some(Self::cgb_palette_color(&self.obj_palette_data, cgb_palette_num, color_id as usize))
                    } else {
                        None
                    }
                } else {
                    let color_id = self.get_tile_pixel(tile_addr, bit);
                    if color_id != 0 && !(bg_priority && self.bg_color_ids[screen_x] != 0) {
                        let shade = Self::apply_palette(palette, color_id);
                        let rgba = [shade, shade, shade, 0xFF];
                        assert(rgba@ =~= seq![shade, shade, shade, 0xFFu8]);
                        Some(rgba)
                    } else {
                        None
                    }
                };
                proof {
                    assert(h(screen_x as int) == match drawn { Some(c) => Some(c@), None => None::<Seq<u8>> });
                    lemma_span_extend(pre.framebuffer@, pre.ly * 640, 160, g, h, screen_x as int);
                }
                match drawn {
                    Some(rgba) => self.set_pixel_rgba(screen_x, self.ly as usize, rgba),
                    None => {},
                }
            } else {
                proof {
                    assert(h(screen_x as int) is None);
                    assert forall|x: int| #[trigger] g(x) == h(x) by {}
                    lemma_span_congr(pre.framebuffer@, pre.ly * 640, 160, g, h);
                }
            }
            pixel_x = pixel_x + 1;
        }
        proof {
            let g = |x: int| if (x - sx) % 256 < 8u8 { f(x) } else { None };
            assert forall|x: int| #[trigger] g(x) == f(x) by {}
            lemma_span_congr(pre.framebuffer@, pre.ly * 640, 160, g, f);
        }
    }

    fn render_sprites(&mut self)
        requires old(self).ly < 144,
        ensures
            *final(self) == (Ppu { framebuffer: final(self).framebuffer, ..*old(self) }),
            final(self).framebuffer@ == paint_line(old(self).framebuffer@, old(self).ly as int,
                |x: int| drawn_by(*old(self), old(self).bg_color_ids@, front_sprite(*old(self), old(self).bg_color_ids@, line_sprites(*old(self)), x), x)),
    {
        let mut sprites = self.select_sprites();
        sort_sprites(&mut sprites);
        let ghost pre = *self;
        let ghost sorted = sprites@;
        let ghost fb0 = self.framebuffer@;
        let mut n = sprites.len();
        proof {
            assert(sorted.subrange(n as int, n as int) =~= Seq::<(u8, u8, u8, u8, usize)>::empty());
            let f0 = |x: int| drawn_by(pre, pre.bg_color_ids@, first_drawn(pre, pre.bg_color_ids@, sorted.subrange(n as int, n as int), x), x);
            assert(paint_line(fb0, pre.ly as int, f0) =~= fb0);
        }
        while n > 0
            invariant
                n <= sprites@.len(),
                sprites@ == sorted,
                self.ly < 144,
                *self == (Ppu { framebuffer: self.framebuffer, ..pre }),
                self.framebuffer@ == paint_line(fb0, pre.ly as int,
                    |x: int| drawn_by(pre, pre.bg_color_ids@, first_drawn(pre, pre.bg_color_ids@, sorted.subrange(n as int, sorted.len() as int), x), x)),
            decreases n,
        {
            n = n - 1;
            let e = sprites[n];
            let ghost before = self.framebuffer@;
            self.draw_sprite(e);
            proof {
                let s_next = |x: int| drawn_by(pre, pre.bg_color_ids@, first_drawn(pre, pre.bg_color_ids@, sorted.subrange(n + 1, sorted.len() as int), x), x);
                let s_here = |x: int| drawn_by(pre, pre.bg_color_ids@, first_drawn(pre, pre.bg_color_ids@, sorted.subrange(n as int, sorted.len() as int), x), x);
                let d = |x: int| sprite_draw(pre, pre.bg_color_ids@, e, x);
                assert(sorted.subrange(n as int, sorted.len() as int).drop_first()
                    =~= sorted.subrange(n + 1, sorted.len() as int));
                lemma_span_compose(fb0, pre.ly * 640, 160, s_next, d);
                assert forall|x: int| #[trigger] over(d, s_next)(x) == s_here(x) by {}
                lemma_span_congr(fb0, pre.ly * 640, 160, over(d, s_next), s_here);
            }
        }
        proof {
            assert(sorted.subrange(0, sorted.len() as int) =~= sorted);
            lemma_front_sprite_is_first_drawn(pre, pre.bg_color_ids@, sorted);
            let a = |x: int| drawn_by(pre, pre.bg_color_ids@, first_drawn(pre, pre.bg_color_ids@, sorted, x), x);
            let b = |x: int| drawn_by(pre, pre.bg_color_ids@, front_sprite(pre, pre.bg_color_ids@, line_sprites(pre), x), x);
            assert forall|x: int| #[trigger] a(x) == b(x) by {}
            lemma_span_congr(fb0, pre.ly * 640, 160, a, b);
        }
    }

    /// The 2-bit colour number of a tile pixel: GB tiles store a row as two
    /// bytes, the low bit plane first.
    fn get_tile_pixel(&self, addr: u16, pixel_col: u8) -> (r: u8)
        requires
            0x8000 <= addr <= 0x9FFE,
            pixel_col < 8,
        ensures
            r == tile_pixel(self.vram@[addr - 0x8000], self.vram@[addr + 1 - 0x8000], pixel_col),
            r < 4,
    {
        let lo = self.vram[(addr - 0x8000) as usize];
        let hi = self.vram[(addr + 1 - 0x8000) as usize];
        let bit = 7 - pixel_col;
        ((hi >> bit) & 1) * 2 + ((lo >> bit) & 1)
    }

    /// Map a 2-bit colour number through a palette register to a shade.
    fn apply_palette(palette: u8, color_id: u8) -> (r: u8)
        requires color_id < 4,
        ensures r == shade((palette >> (color_id * 2)) & 0x03),
    {
        let shade_idx = (palette >> (color_id * 2)) & 0x03;
        if shade_idx == 0 { 0xFF } else if shade_idx == 1 { 0xAA } else if shade_idx == 2 { 0x55 } else { 0x00 }
    }

    fn set_pixel(&mut self, x: usize, y: usize, shade: u8)
        requires x < 160, y < 144,
        ensures
            final(self).framebuffer@ == old(self).framebuffer@
                .update((y * 160 + x) * 4, shade).update((y * 160 + x) * 4 + 1, shade)
                .update((y * 160 + x) * 4 + 2, shade).update((y * 160 + x) * 4 + 3, 0xFF),
            *final(self) == (Ppu { framebuffer: final(self).framebuffer, ..*old(self) }),
    {
        let idx = (y * SCREEN_W + x) * 4;
        self.framebuffer[idx] = shade;
        self.framebuffer[idx + 1] = shade;
        self.framebuffer[idx + 2] = shade;
        self.framebuffer[idx + 3] = 0xFF;
    }

    fn set_pixel_rgba(&mut self, x: usize, y: usize, rgba: [u8; 4])
        requires x < 160, y < 144,
        ensures
            final(self).framebuffer@ == old(self).framebuffer@
                .update((y * 160 + x) * 4, rgba@[0]).update((y * 160 + x) * 4 + 1, rgba@[1])
                .update((y * 160 + x) * 4 + 2, rgba@[2]).update((y * 160 + x) * 4 + 3, rgba@[3]),
            *final(self) == (Ppu { framebuffer: final(self).framebuffer, ..*old(self) }),
    {
        let idx = (y * SCREEN_W + x) * 4;
        self.framebuffer[idx] = rgba[0];
        self.framebuffer[idx + 1] = rgba[1];
        self.framebuffer[idx + 2] = rgba[2];
        self.framebuffer[idx + 3] = rgba[3];
    }

    /// RGBA of a CGB palette entry (RGB555, little-endian).
    fn cgb_palette_color(palette_data: &[u8; 64], palette_num: usize, color_id: usize) -> (r: [u8; 4])
        requires palette_num < 8, color_id < 4,
        ensures r@ == cgb_rgba(palette_data@[(palette_num * 4 + color_id) * 2],
            palette_data@[(palette_num * 4 + color_id) * 2 + 1]),
    {
        let idx = (palette_num * 4 + color_id) * 2;
        let lo = palette_data[idx] as u16;
        let hi = palette_data[idx + 1] as u16;
        let rgb555 = lo + hi * 256;
        let r = ((rgb555 % 32) * 8) as u8;
        let g = (((rgb555 / 32) % 32) * 8) as u8;
        let b = (((rgb555 / 1024) % 32) * 8) as u8;
        let out = [r, g, b, 0xFF];
        assert(out@ =~= cgb_rgba(palette_data@[idx as int], palette_data@[idx + 1]));
        out
    }

    /// The 2-bit colour number of a tile pixel in a chosen VRAM bank.
    fn get_tile_pixel_banked(&self, addr: u16, pixel_col: u8, bank: u8) -> (r: u8)
        requires
            0x8000 <= addr <= 0x9FFE,
            pixel_col < 8,
        ensures
            r == (if bank == 1 {
                tile_pixel(self.vram_bank1@[addr - 0x8000], self.vram_bank1@[addr + 1 - 0x8000], pixel_col)
            } else {
                tile_pixel(self.vram@[addr - 0x8000], self.vram@[addr + 1 - 0x8000], pixel_col)
            }),
            r < 4,
    {
        let offset = (addr - 0x8000) as usize;
        let (lo, hi) = if bank == 1 {
            (self.vram_bank1[offset], self.vram_bank1[offset + 1])
        } else {
            (self.vram[offset], self.vram[offset + 1])
        };
        let bit = 7 - pixel_col;
        ((hi >> bit) & 1) * 2 + ((lo >> bit) & 1)
    }
}

proof fn lemma_low6(x: u8)
    ensures x & 0x3F < 64,
{
}

/// The 2-bit colour number of column `col` of a tile row with bit planes `lo` and `hi`.
pub open spec fn tile_pixel(lo: u8, hi: u8, col: u8) -> u8 {
    (((hi >> ((7 - col) as u8)) & 1) * 2 + ((lo >> ((7 - col) as u8)) & 1)) as u8
}

/// RGBA of an RGB555 colour given as its two bytes.
pub open spec fn cgb_rgba(lo: u8, hi: u8) -> Seq<u8> {
    let c = lo + hi * 256;
    seq![((c % 32) * 8) as u8, (((c / 32) % 32) * 8) as u8, (((c / 1024) % 32) * 8) as u8, 0xFFu8]
}

/// Address of row `row` of tile `tile_id`.
pub open spec fn tile_row_addr_spec(signed_ids: bool, base: u16, tile_id: u8, row: u16) -> u16 {
    if signed_ids && tile_id < 128 {
        (0x9000 + tile_id * 16 + row * 2) as u16
    } else {
        (0x8000 + tile_id * 16 + row * 2) as u16
    }
}

/// The colour number and RGBA bytes of pixel (`col`, `row`) of the tile
/// named by the map entry at `map_addr` (shared by BG and window): DMG maps
/// the number through BGP to a grey; CGB takes palette, VRAM bank and flips
/// from the entry's attribute byte in VRAM bank 1.
#[verifier::opaque]
pub open spec fn map_pixel(p: Ppu, map_addr: int, row: int, col: int) -> (u8, Seq<u8>) {
    let signed = p.lcdc & 0x10 == 0;
    let data_base: u16 = if p.lcdc & 0x10 != 0 { 0x8000 } else { 0x8800 };
    let tile_id = p.vram@[map_addr - 0x8000];
    if p.cgb_mode {
        let attr = p.vram_bank1@[map_addr - 0x8000];
        let r = if attr & 0x40 != 0 { 7 - row } else { row };
        let c = if attr & 0x20 != 0 { 7 - col } else { col };
        let a = tile_row_addr_spec(signed, data_base, tile_id, r as u16) - 0x8000;
        let cid = if (attr / 8) & 1 == 1 {
            tile_pixel(p.vram_bank1@[a], p.vram_bank1@[a + 1], c as u8)
        } else {
            tile_pixel(p.vram@[a], p.vram@[a + 1], c as u8)
        };
        let k = ((attr & 0x07) * 4 + cid) * 2;
        (cid, cgb_rgba(p.bg_palette_data@[k], p.bg_palette_data@[k + 1]))
    } else {
        let a = tile_row_addr_spec(signed, data_base, tile_id, row as u16) - 0x8000;
        let cid = tile_pixel(p.vram@[a], p.vram@[a + 1], col as u8);
        let g = shade((p.bgp >> (cid * 2) as u8) & 0x03);
        (cid, seq![g, g, g, 0xFFu8])
    }
}

/// A visible line takes 456 dots: 80 of OAM scan, 172 of pixel transfer
/// (whose end asks for the line to be rendered) and 204 of HBlank; then LY
/// moves on, into OAM scan of the next line, or into VBlank with the VBlank
/// interrupt requested after line 143. A VBlank line takes 456 dots, and
/// after line 153 the frame starts over at line 0.
pub proof fn lemma_ppu_line_timing(p: Ppu, f: u8)
    requires
        p.mode == Mode::OamScan,
        p.dots == 0,
        p.ly < 144,
    ensures
        ({
            let (p1, f1, r1) = p.advance(80, f);
            let (p2, f2, r2) = p1.advance(172, f1);
            let (p3, f3, r3) = p2.advance(204, f2);
            &&& p.advance(79, f).0.mode == Mode::OamScan
            &&& p1.mode == Mode::PixelTransfer && p1.dots == 0 && p1.ly == p.ly && !r1 && f1 == f
            &&& p1.advance(171, f1).0.mode == Mode::PixelTransfer
            &&& p2.mode == Mode::HBlank && p2.dots == 0 && p2.ly == p.ly && r2 && f2 == f
            &&& p2.advance(203, f2).0.mode == Mode::HBlank
            &&& p3.ly == p.ly + 1 && p3.dots == 0 && !r3
            &&& p.ly + 1 < 144 ==> p3.mode == Mode::OamScan && f3 == f
            &&& p.ly + 1 == 144 ==> p3.mode == Mode::VBlank && f3 == f | 0x01
        }),
{
}

/// A VBlank line lasts 456 dots and moves LY on by one, from line 153 back
/// to line 0 in OAM scan.
pub proof fn lemma_ppu_vblank_line(p: Ppu, f: u8)
    requires
        p.mode == Mode::VBlank,
        p.dots == 0,
        144 <= p.ly <= 153,
    ensures
        p.advance(455, f).0.ly == p.ly,
        p.ly < 153 ==> p.advance(456, f).0.ly == p.ly + 1 && p.advance(456, f).0.mode == Mode::VBlank,
        p.ly == 153 ==> p.advance(456, f).0.ly == 0 && p.advance(456, f).0.mode == Mode::OamScan,
        p.advance(456, f).0.dots == 0 && p.advance(456, f).1 == f,
{
}

/// Where a DMG background or window pixel takes its tile data from. With
/// LCDC bit 4 set, tile ids are unsigned and tile `t` starts at
/// 0x8000 + 16·t. With bit 4 clear, ids are signed bytes counted from
/// 0x9000: ids 0..=127 address 0x9000..=0x97FF and ids 128..=255 address
/// 0x8800..=0x8FFF. The colour number is that of column `col` in the two
/// bytes of row `row` there.
pub proof fn lemma_dmg_tile_data_addressing(p: Ppu, map_addr: int, row: int, col: int)
    requires
        !p.cgb_mode,
        0x9800 <= map_addr < 0xA000,
        0 <= row < 8,
        0 <= col < 8,
    ensures
        ({
            let t = p.vram@[map_addr - 0x8000] as int;
            let start = if p.lcdc & 0x10 != 0 {
                0x8000 + 16 * t
            } else {
                0x9000 + 16 * (if t < 128 { t } else { t - 256 })
            };
            let a = start + 2 * row - 0x8000;
            &&& p.lcdc & 0x10 != 0 ==> 0x8000 <= start <= 0x8FF0
            &&& p.lcdc & 0x10 == 0 && t < 128 ==> 0x9000 <= start <= 0x97F0
            &&& p.lcdc & 0x10 == 0 && t >= 128 ==> 0x8800 <= start <= 0x8FF0
            &&& map_pixel(p, map_addr, row, col).0 == tile_pixel(p.vram@[a], p.vram@[a + 1], col as u8)
        }),
{
    reveal(map_pixel);
}

/// A tile row stores column `col` in bit `7 - col` of its two bit planes:
/// the colour number is twice that bit of `hi` plus that bit of `lo`, so
/// column 0 is the leftmost (most significant) bit.
pub proof fn lemma_tile_pixel_bits(lo: u8, hi: u8, col: u8)
    requires col < 8,
    ensures
        tile_pixel(lo, hi, col) == 2 * ((hi as int / pow2((7 - col) as nat) as int) % 2)
            + (lo as int / pow2((7 - col) as nat) as int) % 2,
{
    let k = (7 - col) as u8;
    vstd::bits::lemma_u8_shr_is_div(hi, k);
    vstd::bits::lemma_u8_shr_is_div(lo, k);
    vstd::bits::lemma_low_bits_mask_values();
    vstd::arithmetic::power2::lemma2_to64();
    vstd::bits::lemma_u8_low_bits_mask_is_mod(hi >> k, 1);
    vstd::bits::lemma_u8_low_bits_mask_is_mod(lo >> k, 1);
}

/// On the DMG a background or window pixel of colour number `c` shows the
/// grey that BGP holds in its bits `2c` and `2c + 1`: BGP / 4^c modulo 4.
pub proof fn lemma_dmg_bg_palette(p: Ppu, map_addr: int, row: int, col: int)
    requires
        !p.cgb_mode,
        0x9800 <= map_addr < 0xA000,
        0 <= row < 8,
        0 <= col < 8,
    ensures
        ({
            let (cid, rgba) = map_pixel(p, map_addr, row, col);
            let g = shade(((p.bgp as int / pow2((2 * cid) as nat) as int) % 4) as u8);
            &&& cid < 4
            &&& rgba == seq![g, g, g, 0xFFu8]
        }),
{
    reveal(map_pixel);
    let cid = map_pixel(p, map_addr, row, col).0;
    let t = p.vram@[map_addr - 0x8000];
    let signed = p.lcdc & 0x10 == 0;
    let base: u16 = if p.lcdc & 0x10 != 0 { 0x8000 } else { 0x8800 };
    let a = tile_row_addr_spec(signed, base, t, row as u16) - 0x8000;
    lemma_tile_pixel_bits(p.vram@[a], p.vram@[a + 1], col as u8);
    vstd::arithmetic::power2::lemma2_to64();
    let k = (cid * 2) as u8;
    vstd::bits::lemma_u8_shr_is_div(p.bgp, k);
    vstd::bits::lemma_low_bits_mask_values();
    vstd::bits::lemma_u8_low_bits_mask_is_mod(p.bgp >> k, 2);
}

/// Tile-map pixels depend on neither the framebuffer, nor the BG colour
/// line, nor the window line counter.
proof fn lemma_map_pixel_frame(p: Ppu, q: Ppu, map_addr: int, row: int, col: int)
    requires p.same_but_pixels(&q),
    ensures map_pixel(p, map_addr, row, col) == map_pixel(q, map_addr, row, col),
{
    reveal(map_pixel);
}

/// The background at pixel `x` of the current line: the map at 0x9800 or
/// 0x9C00 (LCDC bit 3) scrolled by SCX/SCY, wrapping at 256.
pub open spec fn bg_pixel(p: Ppu, x: int) -> (u8, Seq<u8>) {
    let map_base: int = if p.lcdc & 0x08 != 0 { 0x9C00 } else { 0x9800 };
    let y = (p.ly + p.scy) % 256;
    let sx = (x + p.scx) % 256;
    map_pixel(p, map_base + (y / 8) * 32 + sx / 8, y % 8, sx % 8)
}

/// The window's left edge on screen: WX - 7, at least 0.
pub open spec fn window_left(p: Ppu) -> int {
    if p.wx >= 7 { p.wx - 7 } else { 0 }
}

/// The window at pixel `x` (from its left edge on), drawn from the map at
/// 0x9800 or 0x9C00 (LCDC bit 6) at the row of the window line counter.
pub open spec fn window_pixel(p: Ppu, x: int) -> (u8, Seq<u8>) {
    let map_base: int = if p.lcdc & 0x40 != 0 { 0x9C00 } else { 0x9800 };
    let wx = x - window_left(p);
    map_pixel(p, map_base + (p.window_line / 8) * 32 + wx / 8, (p.window_line % 8) as int, wx % 8)
}

/// The framebuffer with pixel `x` of line `ly` set to `f(x)` where it is `Some`.
pub open spec fn paint_line(fb: Seq<u8>, ly: int, f: spec_fn(int) -> Option<Seq<u8>>) -> Seq<u8> {
    paint_span(fb, ly * 640, 160, f)
}

/// OAM entry `i` as (Y - 16, X - 8, tile, attributes, index), the offsets
/// wrapping.
pub open spec fn oam_entry(p: Ppu, i: int) -> (u8, u8, u8, u8, usize) {
    (p.oam@[4 * i].wrapping_sub(16), p.oam@[4 * i + 1].wrapping_sub(8), p.oam@[4 * i + 2], p.oam@[4 * i + 3], i as usize)
}

/// Sprite height: 16 with LCDC bit 2, else 8.
pub open spec fn sprite_rows(p: Ppu) -> u8 {
    if p.lcdc & 0x04 != 0 { 16 } else { 8 }
}

/// The sprites among the first `n` OAM entries that cross the current line,
/// in OAM order, at most ten.
pub open spec fn line_sprites_upto(p: Ppu, n: int) -> Seq<(u8, u8, u8, u8, usize)>
    decreases n,
{
    if n <= 0 {
        Seq::empty()
    } else {
        let s = line_sprites_upto(p, n - 1);
        let e = oam_entry(p, n - 1);
        if s.len() < 10 && p.ly.wrapping_sub(e.0) < sprite_rows(p) { s.push(e) } else { s }
    }
}

/// The (at most ten) sprites on the current line, in OAM order.
pub open spec fn line_sprites(p: Ppu) -> Seq<(u8, u8, u8, u8, usize)> {
    line_sprites_upto(p, 40)
}

/// The RGBA bytes sprite `e` puts at pixel `x` of the current line: `None`
/// where it does not cover `x`, where its pixel is transparent (colour 0),
/// or where it is behind a non-zero BG colour (attribute bit 7). DMG maps
/// the colour through OBP0/OBP1 (attribute bit 4); CGB uses the OBJ
/// palette and VRAM bank of its attributes.
pub open spec fn sprite_draw(p: Ppu, ids: Seq<u8>, e: (u8, u8, u8, u8, usize), x: int) -> Option<Seq<u8>> {
    let (sy, sx, tile0, attr, _i) = e;
    let h = sprite_rows(p);
    let px = (x - sx) % 256;
    if !(0 <= x < 160) || px >= 8 {
        None
    } else {
        let row0 = (p.ly.wrapping_sub(sy) % h) as int;
        let flipped = if attr & 0x40 != 0 { (h - 1) - row0 } else { row0 };
        let tile: int = if h == 16 { if flipped >= 8 { (tile0 | 1) as int } else { (tile0 & 0xFE) as int } } else { tile0 as int };
        let row = if h == 16 && flipped >= 8 { flipped - 8 } else { flipped };
        let a = tile * 16 + row * 2;
        let bit = (if attr & 0x20 != 0 { 7 - px } else { px }) as u8;
        let cid = if p.cgb_mode && (attr / 8) & 1 == 1 {
            tile_pixel(p.vram_bank1@[a], p.vram_bank1@[a + 1], bit)
        } else {
            tile_pixel(p.vram@[a], p.vram@[a + 1], bit)
        };
        if cid == 0 || (attr & 0x80 != 0 && ids[x] != 0) {
            None
        } else if p.cgb_mode {
            let k = ((attr & 0x07) * 4 + cid) * 2;
            Some(cgb_rgba(p.obj_palette_data@[k], p.obj_palette_data@[k + 1]))
        } else {
            let pal = if attr & 0x10 != 0 { p.obp1 } else { p.obp0 };
            let g = shade((pal >> (cid * 2) as u8) & 0x03);
            Some(seq![g, g, g, 0xFFu8])
        }
    }
}

/// Horizontal flip mirrors a sprite: with attribute bit 5 set, the sprite
/// shows at column `7 - k` what it shows unflipped at column `k` (for a
/// sprite drawn in front of the background, and both columns on screen).
pub proof fn lemma_sprite_xflip(p: Ppu, ids: Seq<u8>, e: (u8, u8, u8, u8, usize), k: int)
    requires
        0 <= k < 8,
        e.3 & 0x20 == 0,
        e.3 & 0x80 == 0,
        0 <= e.1 + k < 160,
        0 <= e.1 + 7 - k < 160,
    ensures
        sprite_draw(p, ids, (e.0, e.1, e.2, e.3 | 0x20, e.4), e.1 + 7 - k) == sprite_draw(p, ids, e, e.1 + k),
{
    let a = e.3;
    assert((a | 0x20u8) & 0x20u8 != 0 && (a | 0x20u8) & 0x40u8 == a & 0x40u8 && (a | 0x20u8) & 0x80u8 == a & 0x80u8
        && (a | 0x20u8) & 0x10u8 == a & 0x10u8 && (a | 0x20u8) & 0x07u8 == a & 0x07u8
        && ((a | 0x20u8) / 8u8) & 1u8 == (a / 8u8) & 1u8) by (bit_vector);
    assert((e.1 + k - e.1) % 256 == k && (e.1 + 7 - k - e.1) % 256 == 7 - k);
}

/// The first sprite of `s` that draws at `x`.
pub open spec fn first_drawn(p: Ppu, ids: Seq<u8>, s: Seq<(u8, u8, u8, u8, usize)>, x: int) -> Option<(u8, u8, u8, u8, usize)>
    decreases s.len(),
{
    if s.len() == 0 {
        None
    } else if sprite_draw(p, ids, s[0], x) is Some {
        Some(s[0])
    } else {
        first_drawn(p, ids, s.drop_first(), x)
    }
}

/// The sprite shown at `x`: of the sprites in `s` (in OAM order) that draw
/// there, the one with the smallest X, and on equal X the earliest.
pub open spec fn front_sprite(p: Ppu, ids: Seq<u8>, s: Seq<(u8, u8, u8, u8, usize)>, x: int) -> Option<(u8, u8, u8, u8, usize)>
    decreases s.len(),
{
    if s.len() == 0 {
        None
    } else {
        let b = front_sprite(p, ids, s.drop_last(), x);
        let e = s.last();
        if sprite_draw(p, ids, e, x) is Some && (b is None || e.1 < b.unwrap().1) { Some(e) } else { b }
    }
}

/// The bytes a chosen sprite puts at `x`.
pub open spec fn drawn_by(p: Ppu, ids: Seq<u8>, e: Option<(u8, u8, u8, u8, usize)>, x: int) -> Option<Seq<u8>> {
    match e {
        Some(e) => sprite_draw(p, ids, e, x),
        None => None,
    }
}

/// The framebuffer, BG colour line and window line counter once the
/// current line is rendered: the BG colour line is cleared; with LCDC bit 0
/// the background is drawn; with LCDC bit 5, on a line at or below WY, the
/// window is drawn from its left edge and its line counter advances; with
/// LCDC bit 1 the sprites are drawn over both.
pub open spec fn scanline_result(s: Ppu) -> (Seq<u8>, Seq<u8>, u8) {
    let ly = s.ly as int;
    let bg_on = s.lcdc & 0x01 != 0;
    let fb1 = if bg_on { paint_line(s.framebuffer@, ly, |x: int| Some(bg_pixel(s, x).1)) } else { s.framebuffer@ };
    let ids1 = if bg_on { Seq::new(160, |x: int| bg_pixel(s, x).0) } else { Seq::new(160, |x: int| 0u8) };
    let win = s.lcdc & 0x20 != 0 && s.ly >= s.wy;
    let fb2 = if win {
        paint_line(fb1, ly, |x: int| if x >= window_left(s) { Some(window_pixel(s, x).1) } else { None })
    } else {
        fb1
    };
    let ids2 = if win { Seq::new(160, |x: int| if x >= window_left(s) { window_pixel(s, x).0 } else { ids1[x] }) } else { ids1 };
    let wl = if win { s.window_line.wrapping_add(1) } else { s.window_line };
    let fb3 = if s.lcdc & 0x02 != 0 {
        paint_line(fb2, ly, |x: int| drawn_by(s, ids2, front_sprite(s, ids2, line_sprites(s), x), x))
    } else {
        fb2
    };
    (fb3, ids2, wl)
}

/// The sprites on a line do not depend on the framebuffer, the BG colour
/// line or the window line counter.
proof fn lemma_line_sprites_frame(p: Ppu, q: Ppu, n: int)
    requires p.same_but_pixels(&q),
    ensures line_sprites_upto(p, n) == line_sprites_upto(q, n),
    decreases n,
{
    if n > 0 {
        lemma_line_sprites_frame(p, q, n - 1);
    }
}

/// Which sprite shows at a pixel does not depend on the framebuffer, the
/// BG colour line or the window line counter.
proof fn lemma_front_sprite_frame(p: Ppu, q: Ppu, ids: Seq<u8>, s: Seq<(u8, u8, u8, u8, usize)>, x: int)
    requires p.same_but_pixels(&q),
    ensures
        front_sprite(p, ids, s, x) == front_sprite(q, ids, s, x),
        forall|e: (u8, u8, u8, u8, usize)| #[trigger] sprite_draw(p, ids, e, x) == sprite_draw(q, ids, e, x),
    decreases s.len(),
{
    if s.len() > 0 {
        lemma_front_sprite_frame(p, q, ids, s.drop_last(), x);
    }
}

/// Whether sprite `a` is drawn in front of sprite `b`: lower X first, ties
/// broken by the lower OAM index.
pub open spec fn sprite_before(a: (u8, u8, u8, u8, usize), b: (u8, u8, u8, u8, usize)) -> bool {
    a.1 < b.1 || (a.1 == b.1 && a.4 <= b.4)
}

/// Stable insertion sort of the selected sprites by (X, OAM index).
fn sort_sprites(v: &mut Vec<(u8, u8, u8, u8, usize)>)
    ensures
        final(v)@.len() == old(v)@.len(),
        final(v)@.to_multiset() == old(v)@.to_multiset(),
        forall|i: int, j: int| 0 <= i < j < final(v)@.len() ==> sprite_before(final(v)@[i], final(v)@[j]),
{
    let mut i: usize = 1;
    let n = v.len();
    if n == 0 {
        return;
    }
    while i < n
        invariant
            1 <= i <= n,
            n == v@.len(),
            v@.to_multiset() == old(v)@.to_multiset(),
            forall|a: int, b: int| 0 <= a < b < i ==> sprite_before(v@[a], v@[b]),
        decreases n - i,
    {
        let mut j = i;
        loop
            invariant
                0 <= j <= i < n,
                n == v@.len(),
                v@.to_multiset() == old(v)@.to_multiset(),
                forall|a: int, b: int| 0 <= a < b <= i && b != j ==> sprite_before(v@[a], v@[b]),
                forall|a: int, b: int| 0 <= a < j && j < b <= i ==> sprite_before(v@[a], v@[b]),
            ensures
                n == v@.len(),
                v@.to_multiset() == old(v)@.to_multiset(),
                forall|a: int, b: int| 0 <= a < b <= i ==> sprite_before(v@[a], v@[b]),
            decreases j,
        {
            if j == 0 {
                break;
            }
            let a = v[j - 1];
            let b = v[j];
            if !(a.1 > b.1 || (a.1 == b.1 && a.4 > b.4)) {
                assert forall|x: int, y: int| 0 <= x < y <= i implies sprite_before(v@[x], v@[y]) by {
                    if y == j && x < j - 1 {
                        assert(sprite_before(v@[x], v@[j - 1]));
                    }
                }
                break;
            }
            let ghost before = v@;
            v.set(j - 1, b);
            v.set(j, a);
            proof {
                assert(v@ =~= before.update(j - 1, b).update(j as int, a));
                lemma_swap_multiset(before, j - 1, j as int);
            }
            j = j - 1;
        }
        i = i + 1;
    }
}

proof fn lemma_swap_multiset<A>(s: Seq<A>, i: int, j: int)
    requires 0 <= i < s.len(), 0 <= j < s.len(),
    ensures s.update(i, s[j]).update(j, s[i]).to_multiset() == s.to_multiset(),
{
    vstd::seq_lib::to_multiset_update(s, i, s[j]);
    let s1 = s.update(i, s[j]);
    vstd::seq_lib::to_multiset_update(s1, j, s[i]);
    broadcast use vstd::multiset::group_multiset_axioms;
    let m = s.to_multiset();
    if i != j {
        assert(s1[j] == s[j]);
        vstd::seq_lib::to_multiset_contains(s, s[i]);
        assert(m.count(s[i]) > 0);
        assert(m.insert(s[j]).remove(s[i]).insert(s[i]).remove(s[j]) =~= m);
    } else {
        assert(m.insert(s[j]).remove(s[i]).insert(s[i]).remove(s[j]) =~= m);
    }
}


/// Once ten sprites are found, later OAM entries add none.
proof fn lemma_line_sprites_full(p: Ppu, n: int, m: int)
    requires 0 <= n <= m, line_sprites_upto(p, n).len() >= 10,
    ensures line_sprites_upto(p, m) == line_sprites_upto(p, n),
    decreases m - n,
{
    if m > n {
        lemma_line_sprites_full(p, n, m - 1);
    }
}

/// The line's sprites are OAM entries in strictly increasing OAM order.
proof fn lemma_line_sprites_order(p: Ppu, n: int)
    requires 0 <= n <= 40,
    ensures ({
        let s = line_sprites_upto(p, n);
        &&& forall|i: int| 0 <= i < s.len() ==> #[trigger] s[i] == oam_entry(p, s[i].4 as int) && s[i].4 < n
        &&& forall|i: int, j: int| 0 <= i < j < s.len() ==> #[trigger] s[i].4 < #[trigger] s[j].4
    }),
    decreases n,
{
    if n > 0 {
        lemma_line_sprites_order(p, n - 1);
        let t = line_sprites_upto(p, n - 1);
        let e = oam_entry(p, n - 1);
        let s = line_sprites_upto(p, n);
        if t.len() < 10 && p.ly.wrapping_sub(e.0) < sprite_rows(p) {
            assert(s == t.push(e));
            assert forall|i: int| 0 <= i < s.len() implies #[trigger] s[i] == oam_entry(p, s[i].4 as int) && s[i].4 < n by {
                if i < t.len() { assert(s[i] == t[i]); } else { assert(s[i] == e); }
            }
            assert forall|i: int, j: int| 0 <= i < j < s.len() implies #[trigger] s[i].4 < #[trigger] s[j].4 by {
                assert(s[i] == t[i]);
                if j < t.len() { assert(s[j] == t[j]); } else { assert(s[j] == e); assert(t[i].4 < n - 1); }
            }
        } else {
            assert(s == t);
        }
    }
}

/// `front_sprite` picks a drawing sprite of `s` that precedes (in X, then
/// OAM order) every other drawing sprite, and none only when none draws.
proof fn lemma_front_sprite_min(p: Ppu, ids: Seq<u8>, s: Seq<(u8, u8, u8, u8, usize)>, x: int)
    requires forall|i: int, j: int| 0 <= i < j < s.len() ==> #[trigger] s[i].4 < #[trigger] s[j].4,
    ensures
        front_sprite(p, ids, s, x) is None <==> forall|k: int| 0 <= k < s.len() ==> #[trigger] sprite_draw(p, ids, s[k], x) is None,
        front_sprite(p, ids, s, x) matches Some(b) ==> {
            &&& s.contains(b)
            &&& sprite_draw(p, ids, b, x) is Some
            &&& forall|k: int| 0 <= k < s.len() && #[trigger] sprite_draw(p, ids, s[k], x) is Some ==> sprite_before(b, s[k])
        },
    decreases s.len(),
{
    if s.len() > 0 {
        let t = s.drop_last();
        let last = s.len() - 1;
        assert forall|i: int, j: int| 0 <= i < j < t.len() implies #[trigger] t[i].4 < #[trigger] t[j].4 by {
            assert(t[i] == s[i] && t[j] == s[j]);
        }
        lemma_front_sprite_min(p, ids, t, x);
        let e = s[last];
        assert(s.last() == e);
        assert forall|k: int| 0 <= k < t.len() implies #[trigger] t[k] == s[k] by {}
        let r = front_sprite(p, ids, s, x);
        match front_sprite(p, ids, t, x) {
            Some(b) => {
                let kb = choose|k: int| 0 <= k < t.len() && t[k] == b;
                assert(s[kb] == b);
                assert(s.contains(b));
                assert(sprite_draw(p, ids, t[kb], x) is Some);
                if sprite_draw(p, ids, e, x) is Some && e.1 < b.1 {
                    assert(r == Some(e));
                    assert(s.contains(e)) by { assert(s[last] == e); }
                    assert forall|k: int| 0 <= k < s.len() && #[trigger] sprite_draw(p, ids, s[k], x) is Some implies sprite_before(e, s[k]) by {
                        if k < last {
                            assert(sprite_draw(p, ids, t[k], x) is Some);
                            assert(sprite_before(b, t[k]));
                        }
                    }
                } else {
                    assert(r == Some(b));
                    assert forall|k: int| 0 <= k < s.len() && #[trigger] sprite_draw(p, ids, s[k], x) is Some implies sprite_before(b, s[k]) by {
                        if k < last {
                            assert(sprite_draw(p, ids, t[k], x) is Some);
                        } else {
                            assert(k == last);
                            assert(s[kb].4 < s[last].4);
                        }
                    }
                }
            },
            None => {
                if sprite_draw(p, ids, e, x) is Some {
                    assert(r == Some(e));
                    assert(s.contains(e)) by { assert(s[last] == e); }
                    assert forall|k: int| 0 <= k < s.len() && #[trigger] sprite_draw(p, ids, s[k], x) is Some implies sprite_before(e, s[k]) by {
                        if k < last { assert(sprite_draw(p, ids, t[k], x) is None); }
                    }
                } else {
                    assert(r is None);
                    assert forall|k: int| 0 <= k < s.len() implies #[trigger] sprite_draw(p, ids, s[k], x) is None by {
                        if k < last { assert(sprite_draw(p, ids, t[k], x) is None); }
                    }
                }
            },
        }
    }
}

/// `first_drawn` of a sorted sequence is a drawing sprite that precedes
/// every other drawing sprite, and none only when none draws.
proof fn lemma_first_drawn_min(p: Ppu, ids: Seq<u8>, s: Seq<(u8, u8, u8, u8, usize)>, x: int)
    requires forall|i: int, j: int| 0 <= i < j < s.len() ==> sprite_before(#[trigger] s[i], #[trigger] s[j]),
    ensures
        first_drawn(p, ids, s, x) is None <==> forall|k: int| 0 <= k < s.len() ==> #[trigger] sprite_draw(p, ids, s[k], x) is None,
        first_drawn(p, ids, s, x) matches Some(b) ==> {
            &&& s.contains(b)
            &&& sprite_draw(p, ids, b, x) is Some
            &&& forall|k: int| 0 <= k < s.len() && #[trigger] sprite_draw(p, ids, s[k], x) is Some ==> sprite_before(b, s[k])
        },
    decreases s.len(),
{
    if s.len() > 0 {
        let t = s.drop_first();
        assert forall|i: int, j: int| 0 <= i < j < t.len() implies sprite_before(#[trigger] t[i], #[trigger] t[j]) by {
            assert(sprite_before(s[i + 1], s[j + 1]));
        }
        lemma_first_drawn_min(p, ids, t, x);
        assert forall|k: int| 0 <= k < t.len() implies #[trigger] t[k] == s[k + 1] by {}
        if sprite_draw(p, ids, s[0], x) is Some {
            assert forall|k: int| 0 <= k < s.len() && #[trigger] sprite_draw(p, ids, s[k], x) is Some implies sprite_before(s[0], s[k]) by {
                if k > 0 { assert(sprite_before(s[0], s[k])); }
            }
            assert(s.contains(s[0]));
        } else {
            match first_drawn(p, ids, t, x) {
                Some(b) => {
                    let kb = choose|k: int| 0 <= k < t.len() && t[k] == b;
                    assert(s[kb + 1] == b);
                    assert(s.contains(b));
                    assert forall|k: int| 0 <= k < s.len() && #[trigger] sprite_draw(p, ids, s[k], x) is Some implies sprite_before(b, s[k]) by {
                        assert(k > 0);
                        assert(t[k - 1] == s[k]);
                        assert(sprite_draw(p, ids, t[k - 1], x) is Some);
                    }
                },
                None => {
                    assert forall|k: int| 0 <= k < s.len() implies #[trigger] sprite_draw(p, ids, s[k], x) is None by {
                        if k > 0 { assert(t[k - 1] == s[k]); assert(sprite_draw(p, ids, t[k - 1], x) is None); }
                    }
                },
            }
        }
    }
}

/// Drawing the sorted sprites back to front shows, at each pixel, the
/// sprite `front_sprite` picks.
proof fn lemma_front_sprite_is_first_drawn(p: Ppu, ids: Seq<u8>, sorted: Seq<(u8, u8, u8, u8, usize)>)
    requires
        sorted.to_multiset() == line_sprites(p).to_multiset(),
        forall|i: int, j: int| 0 <= i < j < sorted.len() ==> sprite_before(sorted[i], sorted[j]),
    ensures
        forall|x: int| #[trigger] first_drawn(p, ids, sorted, x) == front_sprite(p, ids, line_sprites(p), x),
{
    broadcast use vstd::seq_lib::group_to_multiset_ensures;
    let l = line_sprites(p);
    lemma_line_sprites_order(p, 40);
    assert forall|x: int| #[trigger] first_drawn(p, ids, sorted, x) == front_sprite(p, ids, l, x) by {
        lemma_front_sprite_min(p, ids, l, x);
        lemma_first_drawn_min(p, ids, sorted, x);
        assert forall|y: (u8, u8, u8, u8, usize)| sorted.contains(y) <==> l.contains(y) by {
            assert(sorted.contains(y) <==> sorted.to_multiset().count(y) > 0);
            assert(l.contains(y) <==> l.to_multiset().count(y) > 0);
        }
        match (first_drawn(p, ids, sorted, x), front_sprite(p, ids, l, x)) {
            (Some(a), Some(b)) => {
                let ka = choose|k: int| 0 <= k < l.len() && l[k] == a;
                let kb = choose|k: int| 0 <= k < sorted.len() && sorted[k] == b;
                assert(l.contains(a));
                assert(sorted.contains(b));
                assert(sprite_draw(p, ids, l[ka], x) is Some);
                assert(sprite_draw(p, ids, sorted[kb], x) is Some);
                assert(sprite_before(b, a));
                assert(sprite_before(a, b));
                assert(a == oam_entry(p, a.4 as int));
                assert(b == oam_entry(p, b.4 as int));
            },
            (Some(a), None) => {
                let ka = choose|k: int| 0 <= k < sorted.len() && sorted[k] == a;
                assert(l.contains(a));
                let kl = choose|k: int| 0 <= k < l.len() && l[k] == a;
                assert(sprite_draw(p, ids, l[kl], x) is Some);
            },
            (None, Some(b)) => {
                assert(sorted.contains(b));
                let ks = choose|k: int| 0 <= k < sorted.len() && sorted[k] == b;
                assert(sprite_draw(p, ids, sorted[ks], x) is Some);
            },
            (None, None) => {},
        }
    }
}

/// Saving the PPU's state and loading the bytes back (see `load_state`)
/// restores its mode, dot counter, registers, VRAM and OAM, and the cursor
/// moves past exactly the saved bytes.
pub proof fn lemma_ppu_roundtrip(p: Ppu, tail: Seq<u8>)
    ensures ({
        let s = p.serialized() + tail;
        let m = s[0];
        &&& s.len() >= 8369
        &&& p.mode == (if m == 0 { Mode::OamScan } else if m == 1 { Mode::PixelTransfer }
                else if m == 2 { Mode::HBlank } else { Mode::VBlank })
        &&& take_u32(s.subrange(1, s.len() as int)).0 == p.dots
        &&& s[5] == p.window_line && s[6] == p.lcdc && s[7] == p.stat && s[8] == p.scy && s[9] == p.scx
        &&& s[10] == p.ly && s[11] == p.lyc && s[12] == p.bgp && s[13] == p.obp0 && s[14] == p.obp1
        &&& s[15] == p.wy && s[16] == p.wx
        &&& s.subrange(17, 8209) == p.vram@
        &&& s.subrange(8209, 8369) == p.oam@
        &&& s.subrange(8369, s.len() as int) == tail
    }),
{
    let s = p.serialized() + tail;
    let rest = s.subrange(1, s.len() as int);
    assert(rest =~= le32(p.dots) + rest.subrange(4, rest.len() as int));
    crate::savestate::lemma_take_u32(p.dots, rest.subrange(4, rest.len() as int));
    assert(s.subrange(17, 8209) =~= p.vram@);
    assert(s.subrange(8209, 8369) =~= p.oam@);
    assert(s.subrange(8369, s.len() as int) =~= tail);
}

} // verus!
