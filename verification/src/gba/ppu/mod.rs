//! GBA picture processing unit: timing, scanline composition and the
//! renderers for each background mode and for sprites.
pub mod bg;
pub mod blend;
pub mod modes;
pub mod obj;

use vstd::prelude::*;
use crate::gba::io::IoRegisters;
use bg::{BgControl, bg_control_spec, text_pixel, render_text_bg, render_affine_bg, AffineParams, affine_pixel};
use blend::{apply_brightness, brightness_spec};
use modes::{paint_row, upto, solid, rgba_spec, u16_at, mode3_pixel, mode4_pixel, mode5_pixel, lemma_paint_none,
    lemma_paint_next, lemma_paint_all, put_pixel, rgb555_to_rgba, read_u16, render_mode3_scanline,
    render_mode4_scanline, render_mode5_scanline};
use obj::{render_sprites, sprites_from, obj_reads_ok};

verus! {

pub const SCREEN_WIDTH: usize = 240;
pub const SCREEN_HEIGHT: usize = 160;
pub const CYCLES_PER_DOT: u32 = 4;
pub const HDRAW_DOTS: u32 = 240;
pub const HBLANK_DOTS: u32 = 68;
pub const SCANLINE_DOTS: u32 = HDRAW_DOTS + HBLANK_DOTS; // 308
pub const VDRAW_LINES: u32 = 160;
pub const VBLANK_LINES: u32 = 68;
pub const TOTAL_LINES: u32 = VDRAW_LINES + VBLANK_LINES; // 228

/// Cycles per scanline (308 dots × 4 cycles/dot = 1232)
pub const CYCLES_PER_SCANLINE: u32 = SCANLINE_DOTS * CYCLES_PER_DOT;
/// Total cycles per frame (228 lines × 1232 cycles = 280896)
#[verifier::nonlinear]
pub const CYCLES_PER_FRAME: u32 = TOTAL_LINES * CYCLES_PER_SCANLINE;

/// Bytes in the framebuffer: 240×160 RGBA pixels.
pub const FRAMEBUFFER_BYTES: usize = SCREEN_WIDTH * SCREEN_HEIGHT * 4;

pub struct Ppu {
    /// 240×160 RGBA pixels, row after row.
    pub framebuffer: Vec<u8>,
    /// Cycle counter within current scanline (0..1232)
    dot_cycles: u32,
    /// Current scanline (0..227)
    line: u32,
    /// IRQ flags to raise (accumulated during tick, flushed to IO)
    pending_irqs: u16,
}

/// The PPU as the specifications see it.
pub struct PpuView {
    pub framebuffer: Seq<u8>,
    pub dot_cycles: u32,
    pub line: u32,
    pub pending_irqs: u16,
}

impl View for Ppu {
    type V = PpuView;

    closed spec fn view(&self) -> PpuView {
        PpuView {
            framebuffer: self.framebuffer@,
            dot_cycles: self.dot_cycles,
            line: self.line,
            pending_irqs: self.pending_irqs,
        }
    }
}

impl PpuView {
    /// The framebuffer has its fixed size and the position is on the screen's
    /// timing grid.
    pub open spec fn wf(self) -> bool {
        &&& self.framebuffer.len() == 153600
        &&& self.dot_cycles < 1232
        &&& self.line < 228
    }
}

/// Whether BG `b` is an affine background in mode `mode` (mode 1: BG2;
/// mode 2: BG2 and BG3).
pub open spec fn bg_is_affine(mode: u16, b: int) -> bool {
    if mode == 1 { b == 2 } else if mode == 2 { b >= 2 } else { false }
}

/// The affine parameters of BG `b` (BG2's, or BG3's for `b == 3`).
pub open spec fn affine_params_spec(io: IoRegisters, b: int) -> AffineParams {
    if b == 2 {
        AffineParams { pa: io.bg2pa, pb: io.bg2pb, pc: io.bg2pc, pd: io.bg2pd, ref_x: io.bg2x, ref_y: io.bg2y }
    } else {
        AffineParams { pa: io.bg3pa, pb: io.bg3pb, pc: io.bg3pc, pd: io.bg3pd, ref_x: io.bg3x, ref_y: io.bg3y }
    }
}

/// Layer `k` of the 16 background passes: priorities 3 down to 0, and
/// within each, BG3 down to BG0; a pass paints its BG when DISPCNT enables
/// it and its priority matches.
pub open spec fn bg_pass(fb: Seq<u8>, io: IoRegisters, vram: Seq<u8>, palette: Seq<u8>, line: int, k: int) -> Seq<u8> {
    let p = 3 - k / 4;
    let b = 3 - k % 4;
    let mode = io.dispcnt & 0x07;
    if io.dispcnt & (1u16 << (8 + b) as u16) == 0 || (io.bgcnt[b] & 3) as int != p {
        fb
    } else if bg_is_affine(mode, b) {
        let ctl = bg_control_spec(io.bgcnt[b], io.bghofs[b], io.bgvofs[b]);
        let a = affine_params_spec(io, b);
        paint_row(fb, line, |x: int| affine_pixel(ctl, a, vram, palette, line, x))
    } else {
        let ctl = bg_control_spec(io.bgcnt[b], io.bghofs[b], io.bgvofs[b]);
        paint_row(fb, line, |x: int| text_pixel(ctl, vram, palette, line, x))
    }
}

/// The first `k` background passes over `fb`.
pub open spec fn bg_passes(fb: Seq<u8>, io: IoRegisters, vram: Seq<u8>, palette: Seq<u8>, line: int, k: int) -> Seq<u8>
    decreases k,
{
    if k <= 0 { fb } else { bg_pass(bg_passes(fb, io, vram, palette, line, k - 1), io, vram, palette, line, k - 1) }
}

/// The layers of the current BG mode painted on row `line`: in modes 0-2 the
/// backdrop (palette colour 0) and then the tiled BGs; in modes 3-5 the
/// bitmap; in modes 6-7 black (all bytes 0).
#[verifier::opaque]
pub open spec fn layers_spec(fb: Seq<u8>, io: IoRegisters, vram: Seq<u8>, palette: Seq<u8>, line: int) -> Seq<u8> {
    let mode = io.dispcnt & 0x07;
    if mode <= 2 {
        bg_passes(paint_row(fb, line, |x: int| Some(rgba_spec(u16_at(palette, 0)))), io, vram, palette, line, 16)
    } else if mode == 3 {
        paint_row(fb, line, |x: int| mode3_pixel(vram, line, x))
    } else if mode == 4 {
        paint_row(fb, line, |x: int| mode4_pixel(io.dispcnt, vram, palette, line, x))
    } else if mode == 5 {
        paint_row(fb, line, |x: int| mode5_pixel(io.dispcnt, vram, line, x))
    } else {
        paint_row(fb, line, |x: int| Some(solid(0)))
    }
}

/// Scanline `line` rendered over `fb`: the BG mode's layers, sprites on top
/// when DISPCNT bit 12 is set, then the brightness fade when BLDCNT selects
/// mode 2 or 3.
#[verifier::opaque]
pub open spec fn scanline_spec(fb: Seq<u8>, io: IoRegisters, vram: Seq<u8>, palette: Seq<u8>, oam: Seq<u8>, line: int) -> Seq<u8> {
    let layers = layers_spec(fb, io, vram, palette, line);
    let with_obj = if io.dispcnt & 0x1000 != 0 {
        paint_row(layers, line, |x: int| sprites_from(io.dispcnt, oam, vram, palette, line, 0, x))
    } else {
        layers
    };
    let blend_mode = (io.bldcnt >> 6u16) & 3;
    if blend_mode == 2 || blend_mode == 3 {
        brightness_spec(with_obj, line, blend_mode as u8, (io.bldy & 0x1F) as u8)
    } else {
        with_obj
    }
}

/// One pass of the tick loop: advance to the end of the drawing period or
/// of the scanline, whichever comes first within `remaining`. Entering
/// H-blank renders a visible line, sets the H-blank flag and raises the
/// H-blank IRQ if enabled; the end of a line moves to the next (wrapping
/// after 228), updates VCOUNT, clears H-blank, sets V-blank at line 160
/// (with its IRQ if enabled), clears it at line 0, and sets or clears the
/// V-count match flag (with its IRQ if enabled).
pub open spec fn tick_step(s: PpuView, io: IoRegisters, vram: Seq<u8>, palette: Seq<u8>, oam: Seq<u8>, remaining: u32)
    -> (PpuView, IoRegisters, u32)
{
    let old_dot = s.dot_cycles;
    let to_end = if old_dot < 960 { 960 - old_dot } else { 1232 - old_dot };
    let advance = if remaining < to_end { remaining as int } else { to_end };
    let dot = old_dot + advance;
    let rem = (remaining - advance) as u32;
    let (fb1, io1, irq1) = if old_dot < 960 && dot >= 960 {
        let fb1 = if s.line < 160 { scanline_spec(s.framebuffer, io, vram, palette, oam, s.line as int) } else { s.framebuffer };
        let st = io.dispstat | 0x02;
        (fb1, IoRegisters { dispstat: st, ..io }, if st & 0x10 != 0 { s.pending_irqs | 0x02 } else { s.pending_irqs })
    } else {
        (s.framebuffer, io, s.pending_irqs)
    };
    if dot >= 1232 {
        let l = if s.line + 1 >= 228 { 0 } else { s.line + 1 };
        let st0 = io1.dispstat & !0x02u16;
        let (st1, irq2) = if l == 160 {
            let st = st0 | 0x01;
            (st, if st & 0x08 != 0 { irq1 | 0x01 } else { irq1 })
        } else {
            (st0, irq1)
        };
        let st2 = if l == 0 { st1 & !0x01u16 } else { st1 };
        let (st3, irq3) = if l == (st2 >> 8u16) as int {
            let st = st2 | 0x04;
            (st, if st & 0x20 != 0 { irq2 | 0x04 } else { irq2 })
        } else {
            (st2 & !0x04u16, irq2)
        };
        (PpuView { framebuffer: fb1, dot_cycles: (dot - 1232) as u32, line: l as u32, pending_irqs: irq3 },
            IoRegisters { vcount: l as u16, dispstat: st3, ..io1 }, rem)
    } else {
        (PpuView { framebuffer: fb1, dot_cycles: dot as u32, line: s.line, pending_irqs: irq1 }, io1, rem)
    }
}

/// The tick loop run until `remaining` cycles are spent.
pub open spec fn tick_loop(s: PpuView, io: IoRegisters, vram: Seq<u8>, palette: Seq<u8>, oam: Seq<u8>, remaining: u32)
    -> (PpuView, IoRegisters)
    decreases remaining,
{
    if remaining == 0 || !s.wf() {
        (s, io)
    } else {
        let (s2, io2, r2) = tick_step(s, io, vram, palette, oam, remaining);
        if r2 < remaining { tick_loop(s2, io2, vram, palette, oam, r2) } else { (s2, io2) }
    }
}

/// Ticking the PPU changes only DISPSTAT and VCOUNT among the I/O registers.
pub proof fn lemma_tick_loop_io(s: PpuView, io: IoRegisters, vram: Seq<u8>, palette: Seq<u8>, oam: Seq<u8>, remaining: u32)
    ensures ({
        let io2 = tick_loop(s, io, vram, palette, oam, remaining).1;
        io2 == IoRegisters { dispstat: io2.dispstat, vcount: io2.vcount, ..io }
    }),
    decreases remaining,
{
    if remaining == 0 || !s.wf() {
    } else {
        let (s2, io2, r2) = tick_step(s, io, vram, palette, oam, remaining);
        if r2 < remaining {
            lemma_tick_loop_io(s2, io2, vram, palette, oam, r2);
        }
    }
}

impl Ppu {
    pub fn new() -> (r: Self)
        ensures
            r@.wf(),
            r@.framebuffer == Seq::new(153600, |i: int| 0u8),
            r@.dot_cycles == 0, r@.line == 0, r@.pending_irqs == 0,
    {
        let r = Ppu {
            framebuffer: vec![0u8; FRAMEBUFFER_BYTES],
            dot_cycles: 0,
            line: 0,
            pending_irqs: 0,
        };
        assert(r@.framebuffer =~= Seq::new(153600, |i: int| 0u8));
        r
    }

    /// The framebuffer's bytes.
    pub fn framebuffer_bytes(&self) -> (r: &[u8])
        ensures r@ == self@.framebuffer,
    {
        self.framebuffer.as_slice()
    }

    /// Advance the PPU by `cycles` T-cycles. Returns IRQ flags to raise.
    pub fn tick(&mut self, cycles: u32, io: &mut IoRegisters, vram: &[u8], palette: &[u8], oam: &[u8]) -> (irqs: u16)
        requires
            old(self)@.wf(),
            forall|l: int| 0 <= l < 160 ==> obj_reads_ok(oam@, l),
        ensures
            final(self)@.wf(),
            (final(self)@, *final(io)) == tick_loop(PpuView { pending_irqs: 0, ..old(self)@ }, *old(io), vram@, palette@, oam@, cycles),
            irqs == final(self)@.pending_irqs,
    {
        self.pending_irqs = 0;
        let mut remaining = cycles;
        let ghost s0 = self@;
        let ghost io0 = *io;

        while remaining > 0
            invariant
                self@.wf(),
                forall|l: int| 0 <= l < 160 ==> obj_reads_ok(oam@, l),
                tick_loop(self@, *io, vram@, palette@, oam@, remaining) == tick_loop(s0, io0, vram@, palette@, oam@, cycles),
            decreases remaining,
        {
            let ghost before = self@;
            let ghost io_before = *io;
            let ghost rem_before = remaining;
            let old_dot = self.dot_cycles;
            let to_end_of_phase = if old_dot < HDRAW_DOTS * CYCLES_PER_DOT {
                HDRAW_DOTS * CYCLES_PER_DOT - old_dot
            } else {
                SCANLINE_DOTS * CYCLES_PER_DOT - old_dot
            };

            let advance = if remaining < to_end_of_phase { remaining } else { to_end_of_phase };
            self.dot_cycles = self.dot_cycles + advance;
            remaining = remaining - advance;

            // Crossed into H-blank?
            if old_dot < HDRAW_DOTS * CYCLES_PER_DOT && self.dot_cycles >= HDRAW_DOTS * CYCLES_PER_DOT {
                // Render this scanline if visible
                if self.line < VDRAW_LINES {
                    self.render_scanline(io, vram, palette, oam);
                }
                // Set H-blank flag
                io.dispstat = io.dispstat | 0x02;
                if io.dispstat & 0x10 != 0 {
                    self.pending_irqs = self.pending_irqs | 0x02; // H-blank IRQ
                }
            }

            // End of scanline?
            if self.dot_cycles >= SCANLINE_DOTS * CYCLES_PER_DOT {
                self.dot_cycles = self.dot_cycles - SCANLINE_DOTS * CYCLES_PER_DOT;
                self.line = self.line + 1;

                if self.line >= TOTAL_LINES {
                    self.line = 0;
                }

                // Update VCOUNT
                io.vcount = self.line as u16;

                // Clear H-blank flag at start of new line
                io.dispstat = io.dispstat & !0x02;

                // V-blank start?
                if self.line == VDRAW_LINES {
                    io.dispstat = io.dispstat | 0x01; // V-blank flag
                    if io.dispstat & 0x08 != 0 {
                        self.pending_irqs = self.pending_irqs | 0x01; // V-blank IRQ
                    }
                }
                // V-blank end?
                if self.line == 0 {
                    io.dispstat = io.dispstat & !0x01;
                }

                // V-count match?
                let target = (io.dispstat >> 8) as u32;
                if self.line == target {
                    io.dispstat = io.dispstat | 0x04;
                    if io.dispstat & 0x20 != 0 {
                        self.pending_irqs = self.pending_irqs | 0x04; // V-count IRQ
                    }
                } else {
                    io.dispstat = io.dispstat & !0x04;
                }
            }
            proof {
                let (s2, io2, r2) = tick_step(before, io_before, vram@, palette@, oam@, rem_before);
                assert(s2 == self@ && io2 == *io && r2 == remaining);
            }
        }

        self.pending_irqs
    }

    fn render_scanline(&mut self, io: &IoRegisters, vram: &[u8], palette: &[u8], oam: &[u8])
        requires old(self)@.wf(), old(self).line < 160, obj_reads_ok(oam@, old(self).line as int),
        ensures
            final(self)@ == (PpuView {
                framebuffer: scanline_spec(old(self)@.framebuffer, *io, vram@, palette@, oam@, old(self).line as int),
                ..old(self)@
            }),
            final(self)@.wf(),
    {
        proof { reveal(scanline_spec); }
        let line = self.line as usize;
        render_layers(&mut self.framebuffer, line, io, vram, palette);

        // Render sprites on top (if OBJ enabled in DISPCNT bit 12)
        if io.dispcnt & 0x1000 != 0 {
            render_sprites(&mut self.framebuffer, line, io.dispcnt, oam, vram, palette);
        }

        // Apply brightness fade (BLDCNT mode 2 or 3)
        let blend_mode = (io.bldcnt >> 6) & 3;
        if blend_mode == 2 || blend_mode == 3 {
            let evy = (io.bldy & 0x1F) as u8;
            apply_brightness(&mut self.framebuffer, line, blend_mode as u8, evy);
        }
    }
}

/// Paints the layers of the current BG mode on row `line`.
fn render_layers(fb: &mut Vec<u8>, line: usize, io: &IoRegisters, vram: &[u8], palette: &[u8])
    requires line * 960 + 960 <= old(fb).len(),
    ensures
        final(fb)@ == layers_spec(old(fb)@, *io, vram@, palette@, line as int),
        final(fb)@.len() == old(fb)@.len(),
{
    proof { reveal(layers_spec); }
    let mode = io.dispcnt & 0x07;
    if mode <= 2 {
        // Clear scanline to backdrop color (palette[0])
        fill_backdrop(fb, line, palette);
        // Render BG layers by priority (3=lowest first, 0=highest last)
        render_bg_layers(fb, line, io, vram, palette);
    } else if mode == 3 {
        render_mode3_scanline(fb, line, vram);
    } else if mode == 4 {
        render_mode4_scanline(fb, line, io.dispcnt, vram, palette);
    } else if mode == 5 {
        render_mode5_scanline(fb, line, io.dispcnt, vram);
    } else {
        fill_black(fb, line);
    }
}

/// Fills row `line` with the backdrop colour (palette entry 0).
fn fill_backdrop(fb: &mut Vec<u8>, line: usize, palette: &[u8])
    requires line * 960 + 960 <= old(fb).len(),
    ensures final(fb)@ == paint_row(old(fb)@, line as int, |x: int| Some(rgba_spec(u16_at(palette@, 0)))),
{
    let ghost f = |x: int| Some(rgba_spec(u16_at(palette@, 0)));
    let ghost fb0 = fb@;
    let backdrop = rgb555_to_rgba(read_u16(palette, 0));
    proof { lemma_paint_none(fb0, line as int, f); }
    let mut x: usize = 0;
    while x < SCREEN_WIDTH
        invariant
            x <= 240, line * 960 + 960 <= fb0.len(),
            f == (|x: int| Some(rgba_spec(u16_at(palette@, 0)))),
            backdrop@ == rgba_spec(u16_at(palette@, 0)),
            fb@ == paint_row(fb0, line as int, upto(f, x as int)),
        decreases 240 - x,
    {
        proof { lemma_paint_next(fb0, line as int, f, x as int); }
        put_pixel(fb, line, x, backdrop);
        x = x + 1;
    }
    proof { lemma_paint_all(fb0, line as int, f); }
}

/// Fills row `line` with zero bytes.
fn fill_black(fb: &mut Vec<u8>, line: usize)
    requires line * 960 + 960 <= old(fb).len(),
    ensures final(fb)@ == paint_row(old(fb)@, line as int, |x: int| Some(solid(0))),
{
    let ghost f = |x: int| Some(solid(0));
    let ghost fb0 = fb@;
    let black = [0u8, 0, 0, 0];
    assert(black@ =~= solid(0));
    proof { lemma_paint_none(fb0, line as int, f); }
    let mut x: usize = 0;
    while x < SCREEN_WIDTH
        invariant
            x <= 240, line * 960 + 960 <= fb0.len(),
            f == (|x: int| Some(solid(0))),
            black@ == solid(0),
            fb@ == paint_row(fb0, line as int, upto(f, x as int)),
        decreases 240 - x,
    {
        proof { lemma_paint_next(fb0, line as int, f, x as int); }
        put_pixel(fb, line, x, black);
        x = x + 1;
    }
    proof { lemma_paint_all(fb0, line as int, f); }
}

/// The 16 background passes of modes 0-2.
fn render_bg_layers(fb: &mut Vec<u8>, line: usize, io: &IoRegisters, vram: &[u8], palette: &[u8])
    requires line * 960 + 960 <= old(fb).len(),
    ensures
        final(fb)@ == bg_passes(old(fb)@, *io, vram@, palette@, line as int, 16),
        final(fb)@.len() == old(fb)@.len(),
{
    let ghost fb0 = fb@;
    let mode = io.dispcnt & 0x07;
    let mut priority: usize = 4;
    while priority > 0
        invariant
            priority <= 4, mode == io.dispcnt & 0x07, line * 960 + 960 <= fb0.len(), fb@.len() == fb0.len(),
            fb@ == bg_passes(fb0, *io, vram@, palette@, line as int, (4 - priority) * 4),
        decreases priority,
    {
        priority = priority - 1;
        let mut bg_idx: usize = 4;
        while bg_idx > 0
            invariant
                priority < 4, bg_idx <= 4, mode == io.dispcnt & 0x07, line * 960 + 960 <= fb0.len(), fb@.len() == fb0.len(),
                fb@ == bg_passes(fb0, *io, vram@, palette@, line as int, (3 - priority) * 4 + (4 - bg_idx)),
            decreases bg_idx,
        {
            bg_idx = bg_idx - 1;
            let ghost k = (3 - priority) * 4 + (3 - bg_idx);
            assert(3 - k / 4 == priority && 3 - k % 4 == bg_idx) by (nonlinear_arith)
                requires k == (3 - priority) * 4 + (3 - bg_idx), priority < 4, bg_idx < 4;
            let bgcnt = io.bgcnt[bg_idx];
            // Check if this BG is enabled in DISPCNT and has this priority
            if io.dispcnt & (1u16 << (8 + bg_idx) as u16) != 0 && (bgcnt & 3) as usize == priority {
                // Mode 1 has BG0-1 text + BG2 affine, Mode 2 has BG2-3 affine
                let is_affine = if mode == 1 { bg_idx == 2 } else if mode == 2 { bg_idx >= 2 } else { false };
                let bgctrl = BgControl::from_raw(bgcnt, io.bghofs[bg_idx], io.bgvofs[bg_idx]);
                if is_affine {
                    let affine = if bg_idx == 2 {
                        AffineParams { pa: io.bg2pa, pb: io.bg2pb, pc: io.bg2pc, pd: io.bg2pd, ref_x: io.bg2x, ref_y: io.bg2y }
                    } else {
                        AffineParams { pa: io.bg3pa, pb: io.bg3pb, pc: io.bg3pc, pd: io.bg3pd, ref_x: io.bg3x, ref_y: io.bg3y }
                    };
                    render_affine_bg(fb, line, &bgctrl, vram, palette, &affine);
                } else {
                    render_text_bg(fb, line, &bgctrl, vram, palette);
                }
            }
        }
    }
}

} // verus!
