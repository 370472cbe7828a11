//! GBA background tile rendering for Modes 0, 1 (text) and 2 (affine).
use vstd::prelude::*;
use super::modes::{paint_row, upto, lemma_paint_none, lemma_paint_next, lemma_paint_all, put_pixel,
    read_u16, rgb555_to_rgba, rgba_spec, u16_at};

verus! {

broadcast use crate::bits::lemma_and_le16;

/// Decoded BG control register + scroll values, ready for the renderer.
#[derive(Clone, Copy)]
pub struct BgControl {
    /// Priority (0 = highest, 3 = lowest)
    pub priority: u8,
    /// Character (tile data) base address in VRAM (bits 2-3 of BGCNT * 0x4000)
    pub char_base: u32,
    /// Mosaic enable
    pub mosaic: bool,
    /// True = 256-color / 1-palette (8bpp), false = 16-color / 16-palette (4bpp)
    pub palette_256: bool,
    /// Screen (map) base address in VRAM (bits 8-12 of BGCNT * 0x800)
    pub screen_base: u32,
    /// Affine overflow wrap (bit 13, affine BGs only)
    pub overflow_wrap: bool,
    /// Screen size selector (bits 14-15)
    pub size: u8,
    /// Horizontal scroll offset (9 bits, text BGs)
    pub scroll_x: u16,
    /// Vertical scroll offset (9 bits, text BGs)
    pub scroll_y: u16,
}

/// The decoded form of a BGCNT value and its scroll offsets.
pub open spec fn bg_control_spec(bgcnt: u16, hofs: u16, vofs: u16) -> BgControl {
    BgControl {
        priority: (bgcnt & 0x03) as u8,
        char_base: (((bgcnt >> 2u16) & 0x03) * 0x4000) as u32,
        mosaic: bgcnt & 0x40 != 0,
        palette_256: bgcnt & 0x80 != 0,
        screen_base: (((bgcnt >> 8u16) & 0x1F) * 0x800) as u32,
        overflow_wrap: bgcnt & 0x2000 != 0,
        size: ((bgcnt >> 14u16) & 0x03) as u8,
        scroll_x: hofs & 0x1FF,
        scroll_y: vofs & 0x1FF,
    }
}

impl BgControl {
    /// The field ranges that decoding guarantees.
    pub open spec fn wf(self) -> bool {
        &&& self.char_base <= 0xC000
        &&& self.screen_base <= 0xF800
        &&& self.size <= 3
        &&& self.scroll_x <= 0x1FF
        &&& self.scroll_y <= 0x1FF
    }

    /// Decode a raw 16-bit BGCNT register value plus scroll offsets.
    pub fn from_raw(bgcnt: u16, hofs: u16, vofs: u16) -> (r: Self)
        ensures
            r.priority == bgcnt & 0x03,
            r.char_base == ((bgcnt >> 2u16) & 0x03) * 0x4000,
            r.mosaic == (bgcnt & 0x40 != 0),
            r.palette_256 == (bgcnt & 0x80 != 0),
            r.screen_base == ((bgcnt >> 8u16) & 0x1F) * 0x800,
            r.overflow_wrap == (bgcnt & 0x2000 != 0),
            r.size == (bgcnt >> 14u16) & 0x03,
            r.scroll_x == hofs & 0x1FF,
            r.scroll_y == vofs & 0x1FF,
            r == bg_control_spec(bgcnt, hofs, vofs),
            r.wf(),
    {
        BgControl {
            priority: (bgcnt & 0x03) as u8,
            char_base: ((bgcnt >> 2) & 0x03) as u32 * 0x4000,
            mosaic: bgcnt & 0x40 != 0,
            palette_256: bgcnt & 0x80 != 0,
            screen_base: ((bgcnt >> 8) & 0x1F) as u32 * 0x800,
            overflow_wrap: bgcnt & 0x2000 != 0,
            size: ((bgcnt >> 14) & 0x03) as u8,
            scroll_x: hofs & 0x1FF,
            scroll_y: vofs & 0x1FF,
        }
    }
}

/// Text BG screen dimensions in pixels, by size field.
pub open spec fn text_dims(size: u8) -> (int, int) {
    if size == 1 { (512, 256) } else if size == 2 { (256, 512) } else if size == 3 { (512, 512) } else { (256, 256) }
}

/// The byte offset of a tile's screen entry in a text BG: 32×32-tile screen
/// blocks of 0x800 bytes, laid out left to right, then top to bottom.
pub open spec fn se_offset(tile_col: int, tile_row: int, size: u8) -> int {
    let block = if size == 1 { tile_col / 32 } else if size == 2 { tile_row / 32 }
        else if size == 3 { (tile_row / 32) * 2 + tile_col / 32 } else { 0 };
    block * 0x800 + ((tile_row % 32) * 32 + tile_col % 32) * 2
}

/// Text BG screen dimensions in pixels, by size field.
fn text_bg_dimensions(size: u8) -> (r: (usize, usize))
    ensures r.0 == text_dims(size).0, r.1 == text_dims(size).1,
{
    if size == 1 { (512, 256) } else if size == 2 { (256, 512) } else if size == 3 { (512, 512) } else { (256, 256) }
}

/// Return the screen-block offset for a given tile coordinate in a text BG.
///
/// Text BGs larger than 32x32 tiles are arranged in 32x32-tile "screen blocks":
///   size 0 (32x32): block 0
///   size 1 (64x32): blocks 0,1 left-to-right
///   size 2 (32x64): blocks 0,1 top-to-bottom
///   size 3 (64x64): blocks 0,1 (top row), 2,3 (bottom row)
///
/// Each screen block is 0x800 bytes (32 * 32 * 2).
pub fn screen_entry_offset(tile_col: usize, tile_row: usize, size: u8) -> (r: usize)
    requires tile_col < 64, tile_row < 64,
    ensures r == se_offset(tile_col as int, tile_row as int, size), r < 0x2000,
{
    // Which screen block column/row
    let block_col = tile_col / 32;
    let block_row = tile_row / 32;
    // Index within the 32x32 block
    let local_col = tile_col % 32;
    let local_row = tile_row % 32;
    // Screen block index
    let block_idx = if size == 0 {
        0
    } else if size == 1 {
        block_col
    } else if size == 2 {
        block_row
    } else if size == 3 {
        block_row * 2 + block_col
    } else {
        0
    };
    block_idx * 0x800 + (local_row * 32 + local_col) * 2
}

/// The palette colour `index` (0 where the palette is too short).
pub fn palette_color(palette: &[u8], index: usize) -> (r: [u8; 4])
    requires index < 0x8000_0000,
    ensures r@ == rgba_spec(u16_at(palette@, index * 2)),
{
    let color = read_u16(palette, index * 2);
    rgb555_to_rgba(color)
}

/// The colour index of pixel (`fx`, `fy`) of tile `tile_idx` of a BG (0
/// beyond VRAM): 8bpp tiles take 64 bytes, a byte per pixel; 4bpp tiles take
/// 32 bytes, two pixels per byte.
pub open spec fn bg_tile_index(bg: BgControl, vram: Seq<u8>, tile_idx: int, fx: int, fy: int) -> int {
    if bg.palette_256 {
        let a = bg.char_base + tile_idx * 64 + fy * 8 + fx;
        if a < vram.len() { vram[a] as int } else { 0 }
    } else {
        let a = bg.char_base + tile_idx * 32 + fy * 4 + fx / 2;
        if a < vram.len() {
            if fx % 2 == 0 { (vram[a] & 0x0F) as int } else { (vram[a] >> 4u8) as int }
        } else {
            0
        }
    }
}

/// In a 4bpp BG tile each byte holds two neighbouring pixels: the even
/// column `fx` takes the low nibble and the odd column `fx + 1` the high
/// nibble of the same byte.
pub proof fn lemma_bg_4bpp_nibbles(bg: BgControl, vram: Seq<u8>, tile_idx: int, fx: int, fy: int)
    requires
        !bg.palette_256,
        0 <= fx < 8,
        fx % 2 == 0,
        0 <= bg.char_base + tile_idx * 32 + fy * 4 + fx / 2 < vram.len(),
    ensures
        ({
            let a = bg.char_base + tile_idx * 32 + fy * 4 + fx / 2;
            &&& bg_tile_index(bg, vram, tile_idx, fx, fy) == vram[a] % 16
            &&& bg_tile_index(bg, vram, tile_idx, fx + 1, fy) == vram[a] / 16
        }),
{
    let a = bg.char_base + tile_idx * 32 + fy * 4 + fx / 2;
    let v = vram[a];
    crate::cpu::lemma_low_nibble(v);
    vstd::bits::lemma_u8_shr_is_div(v, 4u8);
    vstd::arithmetic::power2::lemma2_to64();
    assert((fx + 1) / 2 == fx / 2);
}

/// The colour of pixel `x` of row `line` in a text BG, or `None` where the
/// tile pixel has colour index 0 (transparent).
pub open spec fn text_color(bg: BgControl, vram: Seq<u8>, palette: Seq<u8>, line: int, x: int) -> Option<u16> {
    let (w, h) = text_dims(bg.size);
    let eff_y = (line + bg.scroll_y) % h;
    let eff_x = (x + bg.scroll_x) % w;
    let py = eff_y % 8;
    let px = eff_x % 8;
    let entry = u16_at(vram, bg.screen_base + se_offset(eff_x / 8, eff_y / 8, bg.size));
    let tile_idx = (entry & 0x03FF) as int;
    let fx = if entry & 0x0400 != 0 { 7 - px } else { px };
    let fy = if entry & 0x0800 != 0 { 7 - py } else { py };
    let color_idx = bg_tile_index(bg, vram, tile_idx, fx, fy);
    if color_idx == 0 {
        None
    } else {
        let pal_index = if bg.palette_256 { color_idx } else { ((entry >> 12u16) & 0x0F) * 16 + color_idx };
        Some(u16_at(palette, pal_index * 2))
    }
}

/// The RGBA bytes painted at pixel `x` of row `line` by a text BG.
pub open spec fn text_pixel(bg: BgControl, vram: Seq<u8>, palette: Seq<u8>, line: int, x: int) -> Option<Seq<u8>> {
    match text_color(bg, vram, palette, line, x) {
        Some(c) => Some(rgba_spec(c)),
        None => None,
    }
}

/// The colour index of one pixel of a tile.
fn tile_color_index(bg: &BgControl, vram: &[u8], tile_idx: usize, fx: usize, fy: usize) -> (r: usize)
    requires bg.wf(), tile_idx < 0x400, fx < 8, fy < 8,
    ensures
        r == bg_tile_index(*bg, vram@, tile_idx as int, fx as int, fy as int),
        r < 256,
{
    if bg.palette_256 {
        // 8bpp: 64 bytes per tile, 8 bytes per row
        let tile_addr = bg.char_base as usize + tile_idx * 64 + fy * 8 + fx;
        if tile_addr < vram.len() { vram[tile_addr] as usize } else { 0 }
    } else {
        // 4bpp: 32 bytes per tile, 4 bytes per row (2 pixels per byte)
        let tile_addr = bg.char_base as usize + tile_idx * 32 + fy * 4 + fx / 2;
        if tile_addr < vram.len() {
            let byte = vram[tile_addr];
            if fx % 2 == 0 { (byte & 0x0F) as usize } else { (byte >> 4) as usize }
        } else {
            0
        }
    }
}

/// Render a single scanline for a text-mode background (Modes 0 and 1).
///
/// Writes into `fb` at the correct scanline offset. Pixels with color index 0
/// (transparent) are skipped, allowing lower-priority layers to show through.
pub fn render_text_bg(fb: &mut Vec<u8>, line: usize, bg: &BgControl, vram: &[u8], palette: &[u8])
    requires line * 960 + 960 <= old(fb).len(), bg.wf(),
    ensures
        final(fb)@ == paint_row(old(fb)@, line as int, |x: int| text_pixel(*bg, vram@, palette@, line as int, x)),
{
    let ghost f = |x: int| text_pixel(*bg, vram@, palette@, line as int, x);
    let ghost fb0 = fb@;
    let (screen_w, screen_h) = text_bg_dimensions(bg.size);
    let eff_y = (line + bg.scroll_y as usize) % screen_h;
    let tile_row = eff_y / 8;
    let py = eff_y % 8; // pixel row within tile
    proof { lemma_paint_none(fb0, line as int, f); }
    let mut x: usize = 0;
    while x < 240
        invariant
            x <= 240, line * 960 + 960 <= fb0.len(), fb0.len() <= usize::MAX, bg.wf(),
            f == (|x: int| text_pixel(*bg, vram@, palette@, line as int, x)),
            screen_w == text_dims(bg.size).0, screen_h == text_dims(bg.size).1,
            eff_y == (line + bg.scroll_y) % screen_h as int, tile_row == eff_y / 8, py == eff_y % 8,
            fb@ == paint_row(fb0, line as int, upto(f, x as int)),
        decreases 240 - x,
    {
        let eff_x = (x + bg.scroll_x as usize) % screen_w;
        let tile_col = eff_x / 8;
        let px = eff_x % 8; // pixel column within tile

        // Read screen entry
        let se_off = bg.screen_base as usize + screen_entry_offset(tile_col, tile_row, bg.size);
        let entry = read_u16(vram, se_off);

        let tile_idx = (entry & 0x03FF) as usize;
        let hflip = entry & 0x0400 != 0;
        let vflip = entry & 0x0800 != 0;
        let pal_num = ((entry >> 12) & 0x0F) as usize;

        // Apply flip to pixel coordinates within tile
        let fx = if hflip { 7 - px } else { px };
        let fy = if vflip { 7 - py } else { py };

        let color_idx = tile_color_index(bg, vram, tile_idx, fx, fy);
        proof { lemma_paint_next(fb0, line as int, f, x as int); }

        // Color index 0 is transparent
        if color_idx != 0 {
            let pal_index = if bg.palette_256 { color_idx } else { pal_num * 16 + color_idx };
            let rgba = palette_color(palette, pal_index);
            put_pixel(fb, line, x, rgba);
        }
        x = x + 1;
    }
    proof { lemma_paint_all(fb0, line as int, f); }
}

/// The rotation/scaling parameters of an affine BG: the 8.8 fixed-point
/// steps along a row (PA, PC) and down the screen (PB, PD), and the 20.8
/// fixed-point reference point of the top-left pixel.
#[derive(Clone, Copy)]
pub struct AffineParams {
    pub pa: i16,
    pub pb: i16,
    pub pc: i16,
    pub pd: i16,
    pub ref_x: i32,
    pub ref_y: i32,
}

/// The side of an affine BG map in pixels, by size field.
pub open spec fn affine_side(size: u8) -> int {
    if size == 0 { 128 } else if size == 1 { 256 } else if size == 2 { 512 } else { 1024 }
}

/// The map coordinate (in whole pixels, rounded down) that screen pixel `x`
/// of row `line` shows: the reference point plus `x` steps of (PA, PC) and
/// `line` steps of (PB, PD).
pub open spec fn affine_coord(a: AffineParams, line: int, x: int) -> (int, int) {
    ((a.ref_x + a.pa * x + a.pb * line) / 256, (a.ref_y + a.pc * x + a.pd * line) / 256)
}

/// A VRAM byte, or 0 past its end.
pub open spec fn vram_byte(vram: Seq<u8>, a: int) -> u8 {
    if 0 <= a < vram.len() { vram[a] } else { 0 }
}

/// The colour index of pixel `x` of row `line` in an affine BG: 0
/// (transparent) outside the map when the BG does not wrap; otherwise the
/// 8bpp pixel of the tile that the map names at the (wrapped) coordinate.
/// The map holds one tile number per byte, `side / 8` tiles to a row.
pub open spec fn affine_index_spec(bg: BgControl, a: AffineParams, vram: Seq<u8>, line: int, x: int) -> int {
    let n = affine_side(bg.size);
    let (cx, cy) = affine_coord(a, line, x);
    if !bg.overflow_wrap && (cx < 0 || cx >= n || cy < 0 || cy >= n) {
        0
    } else {
        let tx = cx % n;
        let ty = cy % n;
        let tile = vram_byte(vram, bg.screen_base + (ty / 8) * (n / 8) + tx / 8) as int;
        vram_byte(vram, bg.char_base + tile * 64 + (ty % 8) * 8 + tx % 8) as int
    }
}

/// The colour of pixel `x` of row `line` in an affine BG, or `None` where
/// its colour index is 0 (transparent).
pub open spec fn affine_color(bg: BgControl, a: AffineParams, vram: Seq<u8>, palette: Seq<u8>, line: int, x: int)
    -> Option<u16>
{
    let ci = affine_index_spec(bg, a, vram, line, x);
    if ci == 0 { None } else { Some(u16_at(palette, ci * 2)) }
}

/// The RGBA bytes painted at pixel `x` of row `line` by an affine BG.
pub open spec fn affine_pixel(bg: BgControl, a: AffineParams, vram: Seq<u8>, palette: Seq<u8>, line: int, x: int)
    -> Option<Seq<u8>>
{
    match affine_color(bg, a, vram, palette, line, x) {
        Some(c) => Some(rgba_spec(c)),
        None => None,
    }
}

/// A value divided by 256, rounded down.
fn floor_div256(v: i128) -> (r: i128)
    requires -0x1_0000_0000_0000_0000_0000 < v < 0x1_0000_0000_0000_0000_0000,
    ensures r == v / 256,
{
    if v >= 0 {
        (v as u128 / 256) as i128
    } else {
        let m = (-v) as u128;
        -(((m + 255) / 256) as i128)
    }
}

/// `v` modulo the map side (non-negative).
fn wrap_side(v: i128, size: u8) -> (r: i128)
    requires -0x1_0000_0000_0000_0000_0000 < v < 0x1_0000_0000_0000_0000_0000,
    ensures r == (v as int) % affine_side(size), 0 <= r < affine_side(size),
{
    let n: u128 = if size == 0 { 128 } else if size == 1 { 256 } else if size == 2 { 512 } else { 1024 };
    if v >= 0 {
        (v as u128 % n) as i128
    } else {
        let m = (-v) as u128 % n;
        if m == 0 { 0 } else { (n - m) as i128 }
    }
}

/// A VRAM byte, or 0 past its end.
fn read_vram_byte(vram: &[u8], a: usize) -> (r: u8)
    ensures r == vram_byte(vram@, a as int),
{
    if a < vram.len() { vram[a] } else { 0 }
}

/// The colour index of pixel `x` of row `line` in an affine BG (0 where
/// transparent).
fn affine_index(bg: &BgControl, a: &AffineParams, vram: &[u8], line: usize, x: usize) -> (r: usize)
    requires bg.wf(), x < 240,
    ensures r < 256, r == affine_index_spec(*bg, *a, vram@, line as int, x as int),
{
    let li = line as i128;
    let xi = x as i128;
    assert(-0x8000 * 239 <= a.pa * xi <= 0x8000 * 239 && -0x8000 * 239 <= a.pc * xi <= 0x8000 * 239) by (nonlinear_arith)
        requires -0x8000 <= a.pa < 0x8000, -0x8000 <= a.pc < 0x8000, 0 <= xi < 240;
    assert(-0x8000 * 0x1_0000_0000_0000_0000 <= a.pb * li <= 0x8000 * 0x1_0000_0000_0000_0000
        && -0x8000 * 0x1_0000_0000_0000_0000 <= a.pd * li <= 0x8000 * 0x1_0000_0000_0000_0000) by (nonlinear_arith)
        requires -0x8000 <= a.pb < 0x8000, -0x8000 <= a.pd < 0x8000, 0 <= li < 0x1_0000_0000_0000_0000;
    let vx = a.ref_x as i128 + a.pa as i128 * xi + a.pb as i128 * li;
    let vy = a.ref_y as i128 + a.pc as i128 * xi + a.pd as i128 * li;
    let cx = floor_div256(vx);
    let cy = floor_div256(vy);
    let n: i128 = if bg.size == 0 { 128 } else if bg.size == 1 { 256 } else if bg.size == 2 { 512 } else { 1024 };
    if !bg.overflow_wrap && (cx < 0 || cx >= n || cy < 0 || cy >= n) {
        return 0;
    }
    let tx = wrap_side(cx, bg.size) as usize;
    let ty = wrap_side(cy, bg.size) as usize;
    let cols = (n / 8) as usize;
    assert((ty / 8) * cols <= 128 * 128) by (nonlinear_arith) requires ty < 1024, cols <= 128;
    let tile = read_vram_byte(vram, bg.screen_base as usize + (ty / 8) * cols + tx / 8) as usize;
    let ci = read_vram_byte(vram, bg.char_base as usize + tile * 64 + (ty % 8) * 8 + tx % 8) as usize;
    ci
}

/// Render a single scanline for an affine (rotation/scaling) background
/// (Modes 1 and 2): each pixel shows the map pixel at its transformed
/// coordinate (see `affine_color`); transparent pixels are left as they are.
pub fn render_affine_bg(fb: &mut Vec<u8>, line: usize, bg: &BgControl, vram: &[u8], palette: &[u8], affine: &AffineParams)
    requires line * 960 + 960 <= old(fb).len(), bg.wf(),
    ensures
        final(fb)@ == paint_row(old(fb)@, line as int, |x: int| affine_pixel(*bg, *affine, vram@, palette@, line as int, x)),
{
    let ghost f = |x: int| affine_pixel(*bg, *affine, vram@, palette@, line as int, x);
    let ghost fb0 = fb@;
    proof { lemma_paint_none(fb0, line as int, f); }
    let mut x: usize = 0;
    while x < 240
        invariant
            x <= 240, line * 960 + 960 <= fb0.len(), bg.wf(),
            f == (|x: int| affine_pixel(*bg, *affine, vram@, palette@, line as int, x)),
            fb@ == paint_row(fb0, line as int, upto(f, x as int)),
        decreases 240 - x,
    {
        let ci = affine_index(bg, affine, vram, line, x);
        proof { lemma_paint_next(fb0, line as int, f, x as int); }
        if ci != 0 {
            let rgba = palette_color(palette, ci);
            put_pixel(fb, line, x, rgba);
        }
        x = x + 1;
    }
    proof { lemma_paint_all(fb0, line as int, f); }
}

} // verus!
