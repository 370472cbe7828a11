//! Bitmap PPU rendering modes (Mode 3, 4, 5) and the scanline model shared
//! by all renderers.
use vstd::prelude::*;
use crate::raster;
pub use crate::raster::{paint_span, upto, over};

verus! {

/// Bytes in one framebuffer row: 240 RGBA pixels.
pub const ROW_BYTES: usize = 960;

/// A little-endian halfword of `data` at `off`, or 0 where it does not fit.
pub open spec fn u16_at(data: Seq<u8>, off: int) -> u16 {
    if 0 <= off && off + 1 < data.len() { (data[off] + data[off + 1] * 256) as u16 } else { 0 }
}

/// The RGBA bytes of a 15-bit BGR555 colour: each 5-bit channel times 8,
/// alpha 255.
pub open spec fn rgba_spec(c: u16) -> Seq<u8> {
    seq![((c % 32) * 8) as u8, (((c / 32) % 32) * 8) as u8, (((c / 1024) % 32) * 8) as u8, 255u8]
}

/// The RGBA bytes of a 15-bit colour hold its three 5-bit channels, red in
/// the low bits and blue in the high bits, each scaled by 8: the colour is
/// recovered from them, and alpha is opaque.
pub proof fn lemma_rgba_channels(c: u16)
    requires c < 0x8000,
    ensures
        ({
            let s = rgba_spec(c);
            &&& s[0] % 8 == 0 && s[1] % 8 == 0 && s[2] % 8 == 0
            &&& s[0] / 8 + 32 * (s[1] / 8) + 1024 * (s[2] / 8) == c
            &&& s[3] == 255
        }),
{
    let r = c % 32;
    let g = (c / 32) % 32;
    let b = (c / 1024) % 32;
    assert(c / 1024 < 32);
    assert(c == r + 32 * g + 1024 * b);
}

/// Four equal bytes.
pub open spec fn solid(v: u8) -> Seq<u8> {
    seq![v, v, v, v]
}

/// `fb` with pixel `x` of row `line` set to the four bytes of `f(x)` wherever
/// `f(x)` is `Some`; every other byte unchanged.
pub open spec fn paint_row(fb: Seq<u8>, line: int, f: spec_fn(int) -> Option<Seq<u8>>) -> Seq<u8> {
    paint_span(fb, line * 960, 240, f)
}

/// Painting nothing changes nothing.
pub proof fn lemma_paint_none(fb: Seq<u8>, line: int, f: spec_fn(int) -> Option<Seq<u8>>)
    ensures paint_row(fb, line, upto(f, 0)) == fb,
{
    raster::lemma_span_from(fb, line * 960, 240, f, 0);
}

/// Painting one more pixel is four byte updates (or none for `None`).
pub proof fn lemma_paint_next(fb: Seq<u8>, line: int, f: spec_fn(int) -> Option<Seq<u8>>, x: int)
    requires
        0 <= x < 240, 0 <= line, line * 960 + 960 <= fb.len(),
        f(x) is Some ==> f(x).unwrap().len() == 4,
    ensures
        paint_row(fb, line, upto(f, x + 1)) == (match f(x) {
            Some(c) => paint_row(fb, line, upto(f, x)).update(line * 960 + x * 4, c[0])
                .update(line * 960 + x * 4 + 1, c[1]).update(line * 960 + x * 4 + 2, c[2])
                .update(line * 960 + x * 4 + 3, c[3]),
            None => paint_row(fb, line, upto(f, x)),
        }),
{
    raster::lemma_span_next(fb, line * 960, 240, f, x);
}

/// Painting the first 240 pixels paints the whole row.
pub proof fn lemma_paint_all(fb: Seq<u8>, line: int, f: spec_fn(int) -> Option<Seq<u8>>)
    requires 0 <= line,
    ensures paint_row(fb, line, upto(f, 240)) == paint_row(fb, line, f),
{
    raster::lemma_span_rest(fb, line * 960, 240, f, 240);
}

/// Nothing painted left of `n` means nothing changed.
pub proof fn lemma_paint_from(fb: Seq<u8>, line: int, f: spec_fn(int) -> Option<Seq<u8>>, n: int)
    requires forall|x: int| x < n ==> #[trigger] f(x) is None,
    ensures paint_row(fb, line, upto(f, n)) == fb,
{
    raster::lemma_span_from(fb, line * 960, 240, f, n);
}

/// A pixel that `f` leaves alone can be passed over.
pub proof fn lemma_paint_skip(fb: Seq<u8>, line: int, f: spec_fn(int) -> Option<Seq<u8>>, n: int)
    requires f(n) is None,
    ensures paint_row(fb, line, upto(f, n + 1)) == paint_row(fb, line, upto(f, n)),
{
    raster::lemma_span_skip(fb, line * 960, 240, f, n);
}

/// Nothing painted from `n` on: painting up to `n` is painting all of `f`.
pub proof fn lemma_paint_rest(fb: Seq<u8>, line: int, f: spec_fn(int) -> Option<Seq<u8>>, n: int)
    requires forall|x: int| x >= n ==> #[trigger] f(x) is None,
    ensures paint_row(fb, line, upto(f, n)) == paint_row(fb, line, f),
{
    assert forall|x: int| n <= x < 240 implies #[trigger] f(x) is None by {}
    raster::lemma_span_rest(fb, line * 960, 240, f, n);
}

/// Painting with two pixel functions that agree gives the same row.
pub proof fn lemma_paint_congr(fb: Seq<u8>, line: int, f: spec_fn(int) -> Option<Seq<u8>>, g: spec_fn(int) -> Option<Seq<u8>>)
    requires forall|x: int| #[trigger] f(x) == g(x),
    ensures paint_row(fb, line, f) == paint_row(fb, line, g),
{
    raster::lemma_span_congr(fb, line * 960, 240, f, g);
}

/// Painting `g` and then `f` over it paints `f` over `g`.
pub proof fn lemma_paint_compose(fb: Seq<u8>, line: int, g: spec_fn(int) -> Option<Seq<u8>>, f: spec_fn(int) -> Option<Seq<u8>>)
    ensures paint_row(paint_row(fb, line, g), line, f) == paint_row(fb, line, over(f, g)),
{
    raster::lemma_span_compose(fb, line * 960, 240, g, f);
}

/// Writes the four bytes of `c` as pixel `x` of row `line`.
pub fn put_pixel(fb: &mut Vec<u8>, line: usize, x: usize, c: [u8; 4])
    requires line * 960 + 960 <= old(fb).len(), x < 240,
    ensures
        final(fb)@ == old(fb)@.update(line * 960 + x * 4, c[0]).update(line * 960 + x * 4 + 1, c[1])
            .update(line * 960 + x * 4 + 2, c[2]).update(line * 960 + x * 4 + 3, c[3]),
{
    let dst = line * ROW_BYTES + x * 4;
    fb.set(dst, c[0]);
    fb.set(dst + 1, c[1]);
    fb.set(dst + 2, c[2]);
    fb.set(dst + 3, c[3]);
}

/// A little-endian halfword of `data` at `off` (0 where it does not fit).
pub fn read_u16(data: &[u8], offset: usize) -> (r: u16)
    ensures r == u16_at(data@, offset as int),
{
    if offset < data.len() && data.len() - offset > 1 {
        let lo = data[offset];
        let hi = data[offset + 1];
        proof { crate::bits::lemma_le16(lo, hi); }
        (lo as u16) | ((hi as u16) << 8)
    } else {
        0
    }
}

/// Convert a GBA 15-bit RGB555 color to RGBA bytes.
pub fn rgb555_to_rgba(color: u16) -> (r: [u8; 4])
    ensures r@ == rgba_spec(color),
{
    let r = ((color & 0x1F) << 3) as u8;
    let g = (((color >> 5) & 0x1F) << 3) as u8;
    let b = (((color >> 10) & 0x1F) << 3) as u8;
    assert(((color & 0x1F) << 3u16) as u8 == ((color % 32) * 8) as u8
        && (((color >> 5u16) & 0x1F) << 3u16) as u8 == (((color / 32) % 32) * 8) as u8
        && (((color >> 10u16) & 0x1F) << 3u16) as u8 == (((color / 1024) % 32) * 8) as u8) by (bit_vector);
    let out = [r, g, b, 255];
    assert(out@ =~= rgba_spec(color));
    out
}

/// The colour of pixel `x` of row `line` in mode 3.
pub open spec fn mode3_pixel(vram: Seq<u8>, line: int, x: int) -> Option<Seq<u8>> {
    Some(rgba_spec(u16_at(vram, line * 480 + x * 2)))
}

/// The colour of pixel `x` of row `line` in mode 4 (frame 1 at 0xA000 when
/// DISPCNT bit 4 is set).
pub open spec fn mode4_pixel(dispcnt: u16, vram: Seq<u8>, palette: Seq<u8>, line: int, x: int) -> Option<Seq<u8>> {
    let page: int = if dispcnt & 0x10 != 0 { 0xA000 } else { 0 };
    let a = page + line * 240 + x;
    let index: int = if 0 <= a < vram.len() { vram[a] as int } else { 0 };
    Some(rgba_spec(u16_at(palette, index * 2)))
}

/// The colour of pixel `x` of row `line` in mode 5: a 160×128 bitmap, black
/// (all four bytes 0) outside it.
pub open spec fn mode5_pixel(dispcnt: u16, vram: Seq<u8>, line: int, x: int) -> Option<Seq<u8>> {
    if line >= 128 || x >= 160 {
        Some(solid(0))
    } else {
        let page: int = if dispcnt & 0x10 != 0 { 0xA000 } else { 0 };
        Some(rgba_spec(u16_at(vram, page + line * 320 + x * 2)))
    }
}

/// Mode 3: 240×160, direct 15-bit color (no palette). Single frame in VRAM.
pub fn render_mode3_scanline(fb: &mut Vec<u8>, line: usize, vram: &[u8])
    requires line * 960 + 960 <= old(fb).len(),
    ensures final(fb)@ == paint_row(old(fb)@, line as int, |x: int| mode3_pixel(vram@, line as int, x)),
{
    let ghost f = |x: int| mode3_pixel(vram@, line as int, x);
    let ghost fb0 = fb@;
    let vram_offset = line * 480;
    proof { lemma_paint_none(fb0, line as int, f); }
    let mut x: usize = 0;
    while x < 240
        invariant
            x <= 240, line * 960 + 960 <= fb0.len(), fb0.len() <= usize::MAX,
            f == (|x: int| mode3_pixel(vram@, line as int, x)),
            vram_offset == line * 480,
            fb@ == paint_row(fb0, line as int, upto(f, x as int)),
        decreases 240 - x,
    {
        let color = read_u16(vram, vram_offset + x * 2);
        let rgba = rgb555_to_rgba(color);
        proof { lemma_paint_next(fb0, line as int, f, x as int); }
        put_pixel(fb, line, x, rgba);
        x = x + 1;
    }
    proof { lemma_paint_all(fb0, line as int, f); }
}

/// Mode 4: 240×160, 8-bit indexed (palette lookup). Double-buffered (page flip via DISPCNT bit 4).
pub fn render_mode4_scanline(fb: &mut Vec<u8>, line: usize, dispcnt: u16, vram: &[u8], palette: &[u8])
    requires line * 960 + 960 <= old(fb).len(),
    ensures
        final(fb)@ == paint_row(old(fb)@, line as int, |x: int| mode4_pixel(dispcnt, vram@, palette@, line as int, x)),
{
    let ghost f = |x: int| mode4_pixel(dispcnt, vram@, palette@, line as int, x);
    let ghost fb0 = fb@;
    let page: usize = if dispcnt & 0x10 != 0 { 0xA000 } else { 0 };
    let vram_offset = page + line * 240;
    proof { lemma_paint_none(fb0, line as int, f); }
    let mut x: usize = 0;
    while x < 240
        invariant
            x <= 240, line * 960 + 960 <= fb0.len(), fb0.len() <= usize::MAX,
            f == (|x: int| mode4_pixel(dispcnt, vram@, palette@, line as int, x)),
            vram_offset == (if dispcnt & 0x10 != 0 { 0xA000int } else { 0 }) + line * 240,
            fb@ == paint_row(fb0, line as int, upto(f, x as int)),
        decreases 240 - x,
    {
        let addr = vram_offset + x;
        let index: u8 = if addr < vram.len() { vram[addr] } else { 0 };
        // Each palette entry is 2 bytes (RGB555)
        let color = read_u16(palette, (index as usize) * 2);
        let rgba = rgb555_to_rgba(color);
        proof { lemma_paint_next(fb0, line as int, f, x as int); }
        put_pixel(fb, line, x, rgba);
        x = x + 1;
    }
    proof { lemma_paint_all(fb0, line as int, f); }
}

/// Mode 5: 160×128, direct 15-bit color. Double-buffered, smaller resolution.
pub fn render_mode5_scanline(fb: &mut Vec<u8>, line: usize, dispcnt: u16, vram: &[u8])
    requires line * 960 + 960 <= old(fb).len(),
    ensures final(fb)@ == paint_row(old(fb)@, line as int, |x: int| mode5_pixel(dispcnt, vram@, line as int, x)),
{
    let ghost f = |x: int| mode5_pixel(dispcnt, vram@, line as int, x);
    let ghost fb0 = fb@;
    let page: usize = if dispcnt & 0x10 != 0 { 0xA000 } else { 0 };
    let vram_offset = page + line * 320;
    proof { lemma_paint_none(fb0, line as int, f); }
    let mut x: usize = 0;
    while x < 240
        invariant
            x <= 240, line * 960 + 960 <= fb0.len(), fb0.len() <= usize::MAX,
            f == (|x: int| mode5_pixel(dispcnt, vram@, line as int, x)),
            vram_offset == (if dispcnt & 0x10 != 0 { 0xA000int } else { 0 }) + line * 320,
            fb@ == paint_row(fb0, line as int, upto(f, x as int)),
        decreases 240 - x,
    {
        let rgba: [u8; 4] = if line >= 128 || x >= 160 {
            let black = [0u8, 0, 0, 0];
            assert(black@ =~= solid(0));
            black
        } else {
            let color = read_u16(vram, vram_offset + x * 2);
            rgb555_to_rgba(color)
        };
        proof { lemma_paint_next(fb0, line as int, f, x as int); }
        put_pixel(fb, line, x, rgba);
        x = x + 1;
    }
    proof { lemma_paint_all(fb0, line as int, f); }
}

} // verus!
