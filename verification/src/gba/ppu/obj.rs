//! GBA sprite (OBJ) renderer — reads OAM and draws hardware sprites.
use vstd::prelude::*;
use super::modes::{paint_row, upto, over, lemma_paint_from, lemma_paint_skip, lemma_paint_rest, lemma_paint_next,
    lemma_paint_congr, lemma_paint_compose, put_pixel, read_u16, rgb555_to_rgba, rgba_spec, u16_at};

verus! {

broadcast use crate::bits::lemma_and_le16;

/// The little-endian halfword of OAM at `off`.
pub open spec fn oam_u16(oam: Seq<u8>, off: int) -> u16 {
    (oam[off] + oam[off + 1] * 256) as u16
}

/// A halfword read as a signed 16-bit integer.
pub open spec fn as_i16(u: u16) -> int {
    if u < 0x8000 { u as int } else { u - 0x10000 }
}

/// Sprite width and height by shape (0 square, 1 wide, 2 tall) and size (0-3).
pub open spec fn obj_dims_spec(shape: int, size: int) -> (int, int) {
    if shape == 0 {
        if size == 0 { (8, 8) } else if size == 1 { (16, 16) } else if size == 2 { (32, 32) } else { (64, 64) }
    } else if shape == 1 {
        if size == 0 { (16, 8) } else if size == 1 { (32, 8) } else if size == 2 { (32, 16) } else { (64, 32) }
    } else {
        if size == 0 { (8, 16) } else if size == 1 { (8, 32) } else if size == 2 { (16, 32) } else { (32, 64) }
    }
}

/// The row of a render box at `y` (wrapping at 256), `rh` high, that
/// scanline `line` crosses, if it crosses one.
pub open spec fn obj_local_y(y: int, rh: int, line: int) -> Option<int> {
    if y + rh > 256 {
        if line < y + rh - 256 { Some(line + 256 - y) } else if line >= y { Some(line - y) } else { None }
    } else if y <= line < y + rh {
        Some(line - y)
    } else {
        None
    }
}

/// The tile (in 32-byte units) holding tile column `col` of tile row `row`:
/// 1-D mapping lays a sprite's tiles out row after row, 2-D mapping uses a
/// 32-unit-wide tile sheet; 8bpp tiles take two units.
pub open spec fn obj_tile_index(one_d: bool, is8: bool, tile_num: int, tiles_wide: int, row: int, col: int) -> int {
    if one_d {
        if is8 { tile_num + row * (tiles_wide * 2) + col * 2 } else { tile_num + row * tiles_wide + col }
    } else {
        if is8 { tile_num + row * 32 + col * 2 } else { tile_num + row * 32 + col }
    }
}

/// The colour index of texel (`tx`, `ty`) of a sprite (0 beyond VRAM).
pub open spec fn obj_texel(vram: Seq<u8>, tile_base: int, one_d: bool, is8: bool, tile_num: int, tiles_wide: int, tx: int, ty: int) -> int {
    let addr = tile_base + obj_tile_index(one_d, is8, tile_num, tiles_wide, ty / 8, tx / 8) * 32;
    if is8 {
        let a = addr + (ty % 8) * 8 + tx % 8;
        if a < vram.len() { vram[a] as int } else { 0 }
    } else {
        let a = addr + (ty % 8) * 4 + (tx % 8) / 2;
        if a < vram.len() {
            if (tx % 8) % 2 == 0 { (vram[a] & 0x0F) as int } else { (vram[a] >> 4u8) as int }
        } else {
            0
        }
    }
}

/// In a 4bpp sprite tile each byte holds two neighbouring texels: the even
/// column `tx` takes the low nibble and the odd column `tx + 1` the high
/// nibble of the same byte.
pub proof fn lemma_obj_4bpp_nibbles(vram: Seq<u8>, tile_base: int, one_d: bool, tile_num: int, tiles_wide: int, tx: int, ty: int)
    requires
        0 <= tx,
        0 <= ty,
        tx % 2 == 0,
        0 <= tile_base + obj_tile_index(one_d, false, tile_num, tiles_wide, ty / 8, tx / 8) * 32 + (ty % 8) * 4 + (tx % 8) / 2 < vram.len(),
    ensures
        ({
            let a = tile_base + obj_tile_index(one_d, false, tile_num, tiles_wide, ty / 8, tx / 8) * 32 + (ty % 8) * 4 + (tx % 8) / 2;
            &&& obj_texel(vram, tile_base, one_d, false, tile_num, tiles_wide, tx, ty) == vram[a] % 16
            &&& obj_texel(vram, tile_base, one_d, false, tile_num, tiles_wide, tx + 1, ty) == vram[a] / 16
        }),
{
    let a = tile_base + obj_tile_index(one_d, false, tile_num, tiles_wide, ty / 8, tx / 8) * 32 + (ty % 8) * 4 + (tx % 8) / 2;
    let v = vram[a];
    crate::cpu::lemma_low_nibble(v);
    vstd::bits::lemma_u8_shr_is_div(v, 4u8);
    vstd::arithmetic::power2::lemma2_to64();
    assert((tx % 8) % 2 == 0);
    assert((tx + 1) / 8 == tx / 8 && (tx + 1) % 8 == tx % 8 + 1);
}

/// The OBJ palette colour of a colour index: `None` for index 0 (transparent)
/// or where the palette is too short.
pub open spec fn obj_color(palette: Seq<u8>, is8: bool, pal_bank: int, ci: int) -> Option<u16> {
    if ci == 0 {
        None
    } else {
        let pa = if is8 { 0x200 + ci * 2 } else { 0x200 + pal_bank * 32 + ci * 2 };
        if pa + 1 >= palette.len() { None } else { Some(u16_at(palette, pa)) }
    }
}

/// The texel of a normal sprite that screen offset `rel` of box row `ly` shows.
pub open spec fn normal_texel(a1: u16, sw: int, sh: int, ly: int, rel: int) -> (int, int) {
    let row = if a1 & 0x2000 != 0 { sh - 1 - ly } else { ly };
    let col = if a1 & 0x1000 != 0 { sw / 8 - 1 - rel / 8 } else { rel / 8 };
    let px = if a1 & 0x1000 != 0 { 7 - rel % 8 } else { rel % 8 };
    (col * 8 + px, row)
}

/// Flipping mirrors a normal sprite: horizontally, box column `rel` shows
/// texel column `sw - 1 - rel` (else `rel`); vertically, box row `ly` shows
/// texel row `sh - 1 - ly` (else `ly`).
pub proof fn lemma_normal_texel_flips(a1: u16, sw: int, sh: int, ly: int, rel: int)
    requires
        sw % 8 == 0,
        0 <= rel < sw,
        0 <= ly < sh,
    ensures
        normal_texel(a1, sw, sh, ly, rel).0 == (if a1 & 0x1000 != 0 { sw - 1 - rel } else { rel }),
        normal_texel(a1, sw, sh, ly, rel).1 == (if a1 & 0x2000 != 0 { sh - 1 - ly } else { ly }),
{
    assert(rel == 8 * (rel / 8) + rel % 8);
    assert(sw == 8 * (sw / 8));
}

/// The sprite size table: a square sprite doubles its side with each size
/// step, and for every size the wide shape is the tall shape turned on its
/// side.
pub proof fn lemma_obj_dims_table(size: int)
    requires 0 <= size < 4,
    ensures
        obj_dims_spec(0, size).0 == obj_dims_spec(0, size).1,
        size < 3 ==> obj_dims_spec(0, size + 1).0 == 2 * obj_dims_spec(0, size).0,
        obj_dims_spec(0, 0).0 == 8,
        obj_dims_spec(1, size).0 == obj_dims_spec(2, size).1,
        obj_dims_spec(1, size).1 == obj_dims_spec(2, size).0,
        obj_dims_spec(1, size).0 > obj_dims_spec(1, size).1,
{
}

/// The texel of an affine sprite that box position (`rel`, `ly`) shows: the
/// inverse transform (8.8 fixed point, matrix from OAM group `g`) about the
/// box centre, or `None` outside the sprite.
pub open spec fn affine_texel(oam: Seq<u8>, a1: u16, sw: int, sh: int, rw: int, rh: int, ly: int, rel: int) -> Option<(int, int)> {
    let g = ((a1 >> 9u16) & 0x1F) as int;
    let ix = rel - rw / 2;
    let iy = ly - rh / 2;
    let tx = (((as_i16(oam_u16(oam, g * 32 + 6)) * ix + as_i16(oam_u16(oam, g * 32 + 14)) * iy) as i32) >> 8i32) + sw / 2;
    let ty = (((as_i16(oam_u16(oam, g * 32 + 22)) * ix + as_i16(oam_u16(oam, g * 32 + 30)) * iy) as i32) >> 8i32) + sh / 2;
    if 0 <= tx < sw && 0 <= ty < sh { Some((tx, ty)) } else { None }
}

/// The colour sprite `i` gives screen pixel `x` of scanline `line`, or `None`
/// where it is disabled, off the line, transparent or off the screen.
pub open spec fn sprite_color(dispcnt: u16, oam: Seq<u8>, vram: Seq<u8>, palette: Seq<u8>, line: int, i: int, x: int) -> Option<u16> {
    let base = i * 8;
    if !(0 <= x < 240) || base + 7 >= oam.len() {
        None
    } else {
        let a0 = oam_u16(oam, base);
        let a1 = oam_u16(oam, base + 2);
        let a2 = oam_u16(oam, base + 4);
        let mode = (a0 >> 8u16) & 3;
        let shape = ((a0 >> 14u16) & 3) as int;
        if mode == 2 || shape > 2 {
            None
        } else {
            let (sw, sh) = obj_dims_spec(shape, ((a1 >> 14u16) & 3) as int);
            let rw = if mode == 3 { sw * 2 } else { sw };
            let rh = if mode == 3 { sh * 2 } else { sh };
            match obj_local_y((a0 & 0xFF) as int, rh, line) {
                None => None,
                Some(ly) => {
                    let xr = (a1 & 0x1FF) as int;
                    let rel = x - (if xr >= 256 { xr - 512 } else { xr });
                    if !(0 <= rel < rw) {
                        None
                    } else {
                        let is8 = a0 & 0x2000 != 0;
                        let tex = if mode == 1 || mode == 3 {
                            affine_texel(oam, a1, sw, sh, rw, rh, ly, rel)
                        } else {
                            Some(normal_texel(a1, sw, sh, ly, rel))
                        };
                        match tex {
                            None => None,
                            Some(t) => obj_color(palette, is8, ((a2 >> 12u16) & 0x0F) as int,
                                obj_texel(vram, if dispcnt & 7 >= 3 { 0x10000 } else { 0 }, dispcnt & 0x40 != 0, is8,
                                    (a2 & 0x03FF) as int, sw / 8, t.0, t.1)),
                        }
                    }
                }
            }
        }
    }
}

/// The RGBA bytes sprite `i` paints at pixel `x`.
pub open spec fn sprite_pixel(dispcnt: u16, oam: Seq<u8>, vram: Seq<u8>, palette: Seq<u8>, line: int, i: int, x: int) -> Option<Seq<u8>> {
    match sprite_color(dispcnt, oam, vram, palette, line, i, x) {
        Some(c) => Some(rgba_spec(c)),
        None => None,
    }
}

/// What sprites `i..127` paint at pixel `x`: the lowest-numbered sprite that
/// colours the pixel wins.
pub open spec fn sprites_from(dispcnt: u16, oam: Seq<u8>, vram: Seq<u8>, palette: Seq<u8>, line: int, i: int, x: int) -> Option<Seq<u8>>
    decreases 128 - i,
{
    if i >= 128 {
        None
    } else {
        match sprite_pixel(dispcnt, oam, vram, palette, line, i, x) {
            Some(c) => Some(c),
            None => sprites_from(dispcnt, oam, vram, palette, line, i + 1, x),
        }
    }
}

/// Sprite `i`, if it is a visible affine sprite, has its matrix within OAM.
pub open spec fn obj_read_ok(oam: Seq<u8>, line: int, i: int) -> bool {
    i * 8 + 7 < oam.len() ==> {
        let a0 = oam_u16(oam, i * 8);
        let a1 = oam_u16(oam, i * 8 + 2);
        let mode = (a0 >> 8u16) & 3;
        let shape = ((a0 >> 14u16) & 3) as int;
        let (sw, sh) = obj_dims_spec(shape, ((a1 >> 14u16) & 3) as int);
        let rh = if mode == 3 { sh * 2 } else { sh };
        (mode == 1 || mode == 3) && shape <= 2 && obj_local_y((a0 & 0xFF) as int, rh, line) is Some
            ==> ((a1 >> 9u16) & 0x1F) * 32 + 31 < oam.len()
    }
}

/// Every visible affine sprite's matrix lies within OAM (the renderer reads
/// it unchecked).
pub open spec fn obj_reads_ok(oam: Seq<u8>, line: int) -> bool {
    forall|i: int| 0 <= i < 128 ==> #[trigger] obj_read_ok(oam, line, i)
}

/// In a full 1 KB OAM every affine matrix lies within OAM, so every line
/// can be rendered.
pub proof fn lemma_full_oam_reads_ok(oam: Seq<u8>)
    requires oam.len() == 0x400,
    ensures forall|l: int| #[trigger] obj_reads_ok(oam, l),
{
    assert forall|l: int, i: int| 0 <= i < 128 implies #[trigger] obj_read_ok(oam, l, i) by {
        let a1 = oam_u16(oam, i * 8 + 2);
        assert((a1 >> 9u16) & 0x1F <= 31) by (bit_vector);
    }
}

/// Sprite width and height by shape and size.
fn obj_dims(shape: u16, size: u16) -> (r: (usize, usize))
    requires shape <= 2, size <= 3,
    ensures r.0 == obj_dims_spec(shape as int, size as int).0, r.1 == obj_dims_spec(shape as int, size as int).1,
{
    if shape == 0 {
        if size == 0 { (8, 8) } else if size == 1 { (16, 16) } else if size == 2 { (32, 32) } else { (64, 64) }
    } else if shape == 1 {
        if size == 0 { (16, 8) } else if size == 1 { (32, 8) } else if size == 2 { (32, 16) } else { (64, 32) }
    } else {
        if size == 0 { (8, 16) } else if size == 1 { (8, 32) } else if size == 2 { (16, 32) } else { (32, 64) }
    }
}

/// The colour index of a sprite texel.
fn obj_texel_exec(vram: &[u8], tile_base: usize, one_d: bool, is8: bool, tile_num: usize, tiles_wide: usize, tx: usize, ty: usize) -> (r: usize)
    requires tile_base <= 0x10000, tile_num < 0x400, tiles_wide <= 8, tx < 64, ty < 64,
    ensures r == obj_texel(vram@, tile_base as int, one_d, is8, tile_num as int, tiles_wide as int, tx as int, ty as int), r < 256,
{
    let tile_row = ty / 8;
    let pixel_y = ty % 8;
    let col_tile = tx / 8;
    let pixel_x = tx % 8;
    assert(tile_row * (tiles_wide * 2) <= 7 * 16) by (nonlinear_arith) requires tile_row < 8, tiles_wide <= 8;
    assert(tile_row * tiles_wide <= 7 * 8) by (nonlinear_arith) requires tile_row < 8, tiles_wide <= 8;
    let tile_idx = if one_d {
        if is8 { tile_num + tile_row * (tiles_wide * 2) + col_tile * 2 } else { tile_num + tile_row * tiles_wide + col_tile }
    } else {
        if is8 { tile_num + tile_row * 32 + col_tile * 2 } else { tile_num + tile_row * 32 + col_tile }
    };
    let tile_addr = tile_base + tile_idx * 32;
    if is8 {
        let byte_off = tile_addr + pixel_y * 8 + pixel_x;
        if byte_off < vram.len() { vram[byte_off] as usize } else { 0 }
    } else {
        let byte_off = tile_addr + pixel_y * 4 + pixel_x / 2;
        if byte_off < vram.len() {
            let byte = vram[byte_off];
            let nibble = if pixel_x % 2 == 0 { byte & 0x0F } else { byte >> 4 };
            nibble as usize
        } else {
            0
        }
    }
}

/// The RGBA bytes of an OBJ colour index (`None` where transparent or the
/// palette is too short).
fn obj_rgba(palette: &[u8], is8: bool, pal_bank: usize, ci: usize) -> (r: Option<[u8; 4]>)
    requires pal_bank < 16, ci < 256,
    ensures
        r is Some <==> obj_color(palette@, is8, pal_bank as int, ci as int) is Some,
        r is Some ==> r.unwrap()@ == rgba_spec(obj_color(palette@, is8, pal_bank as int, ci as int).unwrap()),
{
    if ci == 0 {
        return None;
    }
    let pal_addr = if is8 { 0x200 + ci * 2 } else { 0x200 + pal_bank * 32 + ci * 2 };
    if pal_addr + 1 >= palette.len() {
        return None;
    }
    let color = read_u16(palette, pal_addr);
    Some(rgb555_to_rgba(color))
}

/// A halfword of OAM.
fn oam_read(oam: &[u8], off: usize) -> (r: u16)
    requires off + 1 < oam@.len(),
    ensures r == oam_u16(oam@, off as int),
{
    let lo = oam[off];
    let hi = oam[off + 1];
    proof { crate::bits::lemma_le16(lo, hi); }
    (lo as u16) | ((hi as u16) << 8)
}


/// A visible box row lies inside the box.
proof fn lemma_local_y(y: int, rh: int, line: int)
    requires 0 <= y < 256, 0 < rh, 0 <= line < 256,
    ensures obj_local_y(y, rh, line) matches Some(ly) ==> 0 <= ly < rh,
{
}

/// What the exec code of a normal sprite knows about its attributes.
#[verifier::opaque]
pub open spec fn normal_ctx(oam: Seq<u8>, line: int, i: int, a0: u16, a1: u16, a2: u16, sw: int, sh: int, ly: int, x_start: int) -> bool {
    &&& 0 <= line < 256 && 0 <= i < 128 && i * 8 + 7 < oam.len()
    &&& a0 == oam_u16(oam, i * 8) && a1 == oam_u16(oam, i * 8 + 2) && a2 == oam_u16(oam, i * 8 + 4)
    &&& (a0 >> 8u16) & 3 == 0 && (a0 >> 14u16) & 3 <= 2
    &&& sw == obj_dims_spec(((a0 >> 14u16) & 3) as int, ((a1 >> 14u16) & 3) as int).0
    &&& sh == obj_dims_spec(((a0 >> 14u16) & 3) as int, ((a1 >> 14u16) & 3) as int).1
    &&& obj_local_y((a0 & 0xFF) as int, sh, line) == Some(ly)
    &&& x_start == (if (a1 & 0x1FF) >= 256 { (a1 & 0x1FF) - 512 } else { (a1 & 0x1FF) as int })
}

/// The pixel a normal sprite paints at box column `rel`.
#[verifier::spinoff_prover]
#[verifier::rlimit(80)]
fn normal_obj_pixel(dispcnt: u16, oam: &[u8], vram: &[u8], palette: &[u8], line: usize, i: usize,
    a0: u16, a1: u16, a2: u16, sw: usize, sh: usize, ly: usize, x_start: i32, rel: usize) -> (r: Option<[u8; 4]>)
    requires
        normal_ctx(oam@, line as int, i as int, a0, a1, a2, sw as int, sh as int, ly as int, x_start as int),
        rel < sw, 0 <= x_start + rel < 240,
    ensures
        match r {
            Some(c) => sprite_pixel(dispcnt, oam@, vram@, palette@, line as int, i as int, x_start + rel) == Some(c@),
            None => sprite_pixel(dispcnt, oam@, vram@, palette@, line as int, i as int, x_start + rel) is None,
        },
{
    proof {
        reveal(normal_ctx);
        lemma_local_y((a0 & 0xFF) as int, sh as int, line as int);
        assert((rel / 8) * 8 + rel % 8 == rel);
    }
    let one_d_mapping = dispcnt & 0x40 != 0;
    let tile_base: usize = if dispcnt & 0x07 >= 3 { 0x10000 } else { 0 };
    let is_8bpp = a0 & 0x2000 != 0;
    let tile_num = (a2 & 0x03FF) as usize;
    let pal_bank = ((a2 >> 12) & 0x0F) as usize;
    let tiles_wide = sw / 8;
    let hflip = a1 & 0x1000 != 0;
    let vflip = a1 & 0x2000 != 0;
    let row = if vflip { sh - 1 - ly } else { ly };
    let tx = rel / 8;
    let px = rel % 8;
    let col_tile = if hflip { tiles_wide - 1 - tx } else { tx };
    let pixel_x = if hflip { 7 - px } else { px };
    let ci = obj_texel_exec(vram, tile_base, one_d_mapping, is_8bpp, tile_num, tiles_wide, col_tile * 8 + pixel_x, row);
    obj_rgba(palette, is_8bpp, pal_bank, ci)
}

/// Draws one normal (non-affine) sprite on row `line`.
fn render_normal_obj(fb: &mut Vec<u8>, line: usize, dispcnt: u16, oam: &[u8], vram: &[u8], palette: &[u8],
    i: usize, a0: u16, a1: u16, a2: u16, sw: usize, sh: usize, ly: usize, x_start: i32)
    requires
        line * 960 + 960 <= old(fb).len(),
        normal_ctx(oam@, line as int, i as int, a0, a1, a2, sw as int, sh as int, ly as int, x_start as int),
    ensures
        final(fb)@ == paint_row(old(fb)@, line as int, |x: int| sprite_pixel(dispcnt, oam@, vram@, palette@, line as int, i as int, x)),
{
    let ghost f = |x: int| sprite_pixel(dispcnt, oam@, vram@, palette@, line as int, i as int, x);
    let ghost fb0 = fb@;
    proof {
        reveal(normal_ctx);
        assert forall|x: int| x < x_start implies #[trigger] f(x) is None by {}
        lemma_paint_from(fb0, line as int, f, x_start as int);
    }
    let tiles_wide = sw / 8;
    let mut tx: usize = 0;
    while tx < tiles_wide
        invariant
            tx <= tiles_wide, tiles_wide == sw / 8, sw <= 64, sw % 8 == 0, line * 960 + 960 <= fb0.len(),
            -256 <= x_start < 256,
            normal_ctx(oam@, line as int, i as int, a0, a1, a2, sw as int, sh as int, ly as int, x_start as int),
            f == (|x: int| sprite_pixel(dispcnt, oam@, vram@, palette@, line as int, i as int, x)),
            fb@ == paint_row(fb0, line as int, upto(f, x_start + tx * 8)),
        decreases tiles_wide - tx,
    {
        let mut px: usize = 0;
        while px < 8
            invariant
                px <= 8, tx < tiles_wide, tiles_wide == sw / 8, sw <= 64, sw % 8 == 0, line * 960 + 960 <= fb0.len(),
                -256 <= x_start < 256,
                normal_ctx(oam@, line as int, i as int, a0, a1, a2, sw as int, sh as int, ly as int, x_start as int),
                f == (|x: int| sprite_pixel(dispcnt, oam@, vram@, palette@, line as int, i as int, x)),
                fb@ == paint_row(fb0, line as int, upto(f, x_start + tx * 8 + px)),
            decreases 8 - px,
        {
            let screen_x = x_start + (tx * 8 + px) as i32;
            if screen_x < 0 || screen_x >= 240 {
                proof { lemma_paint_skip(fb0, line as int, f, screen_x as int); }
            } else {
                match normal_obj_pixel(dispcnt, oam, vram, palette, line, i, a0, a1, a2, sw, sh, ly, x_start, tx * 8 + px) {
                    Some(c) => {
                        proof { lemma_paint_next(fb0, line as int, f, screen_x as int); }
                        put_pixel(fb, line, screen_x as usize, c);
                    },
                    None => {
                        proof { lemma_paint_skip(fb0, line as int, f, screen_x as int); }
                    },
                }
            }
            px = px + 1;
        }
        tx = tx + 1;
    }
    proof {
        reveal(normal_ctx);
        assert forall|x: int| x >= x_start + sw implies #[trigger] f(x) is None by {}
        lemma_paint_rest(fb0, line as int, f, x_start + sw);
    }
}


/// What the exec code of an affine sprite knows about its attributes.
#[verifier::opaque]
pub open spec fn affine_ctx(oam: Seq<u8>, line: int, i: int, a0: u16, a1: u16, a2: u16, sw: int, sh: int, rw: int, rh: int,
    ly: int, x_start: int, pa: int, pb: int, pc: int, pd: int) -> bool {
    let g = ((a1 >> 9u16) & 0x1F) as int;
    let mode = (a0 >> 8u16) & 3;
    &&& 0 <= line < 256 && 0 <= i < 128 && i * 8 + 7 < oam.len()
    &&& a0 == oam_u16(oam, i * 8) && a1 == oam_u16(oam, i * 8 + 2) && a2 == oam_u16(oam, i * 8 + 4)
    &&& (mode == 1 || mode == 3) && (a0 >> 14u16) & 3 <= 2
    &&& sw == obj_dims_spec(((a0 >> 14u16) & 3) as int, ((a1 >> 14u16) & 3) as int).0
    &&& sh == obj_dims_spec(((a0 >> 14u16) & 3) as int, ((a1 >> 14u16) & 3) as int).1
    &&& rw == (if mode == 3 { sw * 2 } else { sw }) && rh == (if mode == 3 { sh * 2 } else { sh })
    &&& obj_local_y((a0 & 0xFF) as int, rh, line) == Some(ly)
    &&& x_start == (if (a1 & 0x1FF) >= 256 { (a1 & 0x1FF) - 512 } else { (a1 & 0x1FF) as int })
    &&& g * 32 + 31 < oam.len()
    &&& pa == as_i16(oam_u16(oam, g * 32 + 6)) && pb == as_i16(oam_u16(oam, g * 32 + 14))
    &&& pc == as_i16(oam_u16(oam, g * 32 + 22)) && pd == as_i16(oam_u16(oam, g * 32 + 30))
}

/// The pixel an affine sprite paints at box column `rx`.
#[verifier::spinoff_prover]
#[verifier::rlimit(80)]
fn affine_obj_pixel(dispcnt: u16, oam: &[u8], vram: &[u8], palette: &[u8], line: usize, i: usize,
    a0: u16, a1: u16, a2: u16, sw: usize, sh: usize, rw: usize, rh: usize, ly: usize, x_start: i32,
    pa: i32, pb: i32, pc: i32, pd: i32, rx: usize) -> (r: Option<[u8; 4]>)
    requires
        affine_ctx(oam@, line as int, i as int, a0, a1, a2, sw as int, sh as int, rw as int, rh as int, ly as int,
            x_start as int, pa as int, pb as int, pc as int, pd as int),
        rx < rw, 0 <= x_start + rx < 240,
    ensures
        match r {
            Some(c) => sprite_pixel(dispcnt, oam@, vram@, palette@, line as int, i as int, x_start + rx) == Some(c@),
            None => sprite_pixel(dispcnt, oam@, vram@, palette@, line as int, i as int, x_start + rx) is None,
        },
{
    proof {
        reveal(affine_ctx);
        lemma_local_y((a0 & 0xFF) as int, rh as int, line as int);
    }
    let one_d_mapping = dispcnt & 0x40 != 0;
    let tile_base: usize = if dispcnt & 0x07 >= 3 { 0x10000 } else { 0 };
    let is_8bpp = a0 & 0x2000 != 0;
    let tile_num = (a2 & 0x03FF) as usize;
    let pal_bank = ((a2 >> 12) & 0x0F) as usize;
    let tiles_wide = sw / 8;

    let half_rw = (rw / 2) as i32;
    let half_rh = (rh / 2) as i32;
    let half_sw = (sw / 2) as i32;
    let half_sh = (sh / 2) as i32;

    // iy = offset from render-area center for this scanline.
    let iy = ly as i32 - half_rh;
    let ix = rx as i32 - half_rw;
    assert(-0x20_0000 <= pa * ix <= 0x20_0000) by (nonlinear_arith) requires -0x8000 <= pa < 0x8000, -64 <= ix <= 64;
    assert(-0x20_0000 <= pb * iy <= 0x20_0000) by (nonlinear_arith) requires -0x8000 <= pb < 0x8000, -64 <= iy <= 64;
    assert(-0x20_0000 <= pc * ix <= 0x20_0000) by (nonlinear_arith) requires -0x8000 <= pc < 0x8000, -64 <= ix <= 64;
    assert(-0x20_0000 <= pd * iy <= 0x20_0000) by (nonlinear_arith) requires -0x8000 <= pd < 0x8000, -64 <= iy <= 64;

    // Inverse affine transform (8.8 fixed-point).
    let sx = pa * ix + pb * iy;
    let sy = pc * ix + pd * iy;
    assert(-0x4000 <= sx >> 8i32 <= 0x4000 && -0x4000 <= sy >> 8i32 <= 0x4000) by (bit_vector)
        requires -0x40_0000 <= sx <= 0x40_0000, -0x40_0000 <= sy <= 0x40_0000;
    let tex_x = (sx >> 8) + half_sw;
    let tex_y = (sy >> 8) + half_sh;

    // Bounds check against actual sprite dimensions.
    if tex_x < 0 || tex_x >= sw as i32 || tex_y < 0 || tex_y >= sh as i32 {
        return None;
    }
    let ci = obj_texel_exec(vram, tile_base, one_d_mapping, is_8bpp, tile_num, tiles_wide, tex_x as usize, tex_y as usize);
    obj_rgba(palette, is_8bpp, pal_bank, ci)
}

/// Draws one affine (rotated/scaled) sprite on row `line`.
fn render_affine_obj(fb: &mut Vec<u8>, line: usize, dispcnt: u16, oam: &[u8], vram: &[u8], palette: &[u8],
    i: usize, a0: u16, a1: u16, a2: u16, sw: usize, sh: usize, rw: usize, rh: usize, ly: usize, x_start: i32,
    pa: i32, pb: i32, pc: i32, pd: i32)
    requires
        line * 960 + 960 <= old(fb).len(),
        affine_ctx(oam@, line as int, i as int, a0, a1, a2, sw as int, sh as int, rw as int, rh as int, ly as int,
            x_start as int, pa as int, pb as int, pc as int, pd as int),
    ensures
        final(fb)@ == paint_row(old(fb)@, line as int, |x: int| sprite_pixel(dispcnt, oam@, vram@, palette@, line as int, i as int, x)),
{
    let ghost f = |x: int| sprite_pixel(dispcnt, oam@, vram@, palette@, line as int, i as int, x);
    let ghost fb0 = fb@;
    proof {
        reveal(affine_ctx);
        assert forall|x: int| x < x_start implies #[trigger] f(x) is None by {}
        lemma_paint_from(fb0, line as int, f, x_start as int);
    }
    let mut rx: usize = 0;
    while rx < rw
        invariant
            rx <= rw, rw <= 128, line * 960 + 960 <= fb0.len(), -256 <= x_start < 256,
            affine_ctx(oam@, line as int, i as int, a0, a1, a2, sw as int, sh as int, rw as int, rh as int, ly as int,
                x_start as int, pa as int, pb as int, pc as int, pd as int),
            f == (|x: int| sprite_pixel(dispcnt, oam@, vram@, palette@, line as int, i as int, x)),
            fb@ == paint_row(fb0, line as int, upto(f, x_start + rx)),
        decreases rw - rx,
    {
        let screen_x = x_start + rx as i32;
        if screen_x < 0 || screen_x >= 240 {
            proof { lemma_paint_skip(fb0, line as int, f, screen_x as int); }
        } else {
            match affine_obj_pixel(dispcnt, oam, vram, palette, line, i, a0, a1, a2, sw, sh, rw, rh, ly, x_start,
                pa, pb, pc, pd, rx) {
                Some(c) => {
                    proof { lemma_paint_next(fb0, line as int, f, screen_x as int); }
                    put_pixel(fb, line, screen_x as usize, c);
                },
                None => {
                    proof { lemma_paint_skip(fb0, line as int, f, screen_x as int); }
                },
            }
        }
        rx = rx + 1;
    }
    proof {
        reveal(affine_ctx);
        assert forall|x: int| x >= x_start + rw implies #[trigger] f(x) is None by {}
        lemma_paint_rest(fb0, line as int, f, x_start + rw);
    }
}

/// A signed affine parameter from OAM.
fn oam_param(oam: &[u8], off: usize) -> (r: i32)
    requires off + 1 < oam@.len(),
    ensures r == as_i16(oam_u16(oam@, off as int)),
{
    let u = oam_read(oam, off);
    assert((u < 0x8000 ==> (u as i16) as i32 == u as i32) && (u >= 0x8000 ==> (u as i16) as i32 == (u as i32) - 0x10000)) by (bit_vector);
    (u as i16) as i32
}

/// Draws sprite `i` on row `line`.
fn render_obj(fb: &mut Vec<u8>, line: usize, dispcnt: u16, oam: &[u8], vram: &[u8], palette: &[u8], i: usize)
    requires line * 960 + 960 <= old(fb).len(), line < 256, i < 128, obj_read_ok(oam@, line as int, i as int),
    ensures
        final(fb)@ == paint_row(old(fb)@, line as int, |x: int| sprite_pixel(dispcnt, oam@, vram@, palette@, line as int, i as int, x)),
{
    let ghost f = |x: int| sprite_pixel(dispcnt, oam@, vram@, palette@, line as int, i as int, x);
    let ghost fb0 = fb@;
    proof {
        // Where the sprite paints nothing, the row is unchanged.
        if forall|x: int| #[trigger] f(x) is None {
            lemma_paint_from(fb0, line as int, f, 0);
            lemma_paint_rest(fb0, line as int, f, 0);
        }
    }
    let base = i * 8;
    if base + 7 >= oam.len() {
        assert(forall|x: int| #[trigger] f(x) is None);
        return;
    }
    let attr0 = oam_read(oam, base);
    let attr1 = oam_read(oam, base + 2);
    let attr2 = oam_read(oam, base + 4);

    // OBJ mode (bits 8-9 of attr0): 0=normal, 1=affine, 2=disabled, 3=affine double.
    let obj_mode = (attr0 >> 8) & 0x03;
    if obj_mode == 2 {
        assert(forall|x: int| #[trigger] f(x) is None);
        return; // OBJ disabled
    }
    let is_affine = obj_mode == 1 || obj_mode == 3;
    let is_double = obj_mode == 3;
    let shape = (attr0 >> 14) & 0x03;
    let size = (attr1 >> 14) & 0x03;
    if shape > 2 {
        assert(forall|x: int| #[trigger] f(x) is None);
        return;
    }
    let (sprite_w, sprite_h) = obj_dims(shape, size);

    // For double-size affine, the rendering area is twice the sprite dimensions.
    let (render_w, render_h) = if is_double { (sprite_w * 2, sprite_h * 2) } else { (sprite_w, sprite_h) };

    // Y coordinate — 8-bit, wraps at 256.
    let y = (attr0 & 0xFF) as usize;
    // Check if this sprite intersects the current scanline (with wrapping).
    let local_y = if y + render_h > 256 {
        // Wraps past bottom of OAM Y space.
        if line < (y + render_h) - 256 {
            line + 256 - y
        } else if line >= y {
            line - y
        } else {
            assert(forall|x: int| #[trigger] f(x) is None);
            return;
        }
    } else if line >= y && line < y + render_h {
        line - y
    } else {
        assert(forall|x: int| #[trigger] f(x) is None);
        return;
    };

    // X coordinate — 9-bit signed.
    let x_raw = (attr1 & 0x1FF) as i32;
    let x_start = if x_raw >= 256 { x_raw - 512 } else { x_raw };

    if is_affine {
        let affine_group = ((attr1 >> 9) & 0x1F) as usize;
        proof { assert(obj_read_ok(oam@, line as int, i as int)); }
        let pa = oam_param(oam, affine_group * 32 + 6);
        let pb = oam_param(oam, affine_group * 32 + 14);
        let pc = oam_param(oam, affine_group * 32 + 22);
        let pd = oam_param(oam, affine_group * 32 + 30);
        proof { reveal(affine_ctx); }
        render_affine_obj(fb, line, dispcnt, oam, vram, palette, i, attr0, attr1, attr2, sprite_w, sprite_h,
            render_w, render_h, local_y, x_start, pa, pb, pc, pd);
    } else {
        proof { reveal(normal_ctx); }
        render_normal_obj(fb, line, dispcnt, oam, vram, palette, i, attr0, attr1, attr2, sprite_w, sprite_h,
            local_y, x_start);
    }
}

/// Render all visible OBJ sprites for the given scanline.
///
/// `dispcnt` — DISPCNT register value (needed for mapping mode and BG mode).
/// OBJ palette lives at palette RAM offset 0x200. Sprites are drawn from
/// index 127 down to 0, so a lower-numbered sprite covers a higher one.
/// The vertical position is 8 bits, so scanlines run below 256.
pub fn render_sprites(fb: &mut Vec<u8>, line: usize, dispcnt: u16, oam: &[u8], vram: &[u8], palette: &[u8])
    requires line * 960 + 960 <= old(fb).len(), line < 256, obj_reads_ok(oam@, line as int),
    ensures
        final(fb)@ == paint_row(old(fb)@, line as int, |x: int| sprites_from(dispcnt, oam@, vram@, palette@, line as int, 0, x)),
{
    let ghost fb0 = fb@;
    let ghost s128 = |x: int| sprites_from(dispcnt, oam@, vram@, palette@, line as int, 128, x);
    proof {
        assert(forall|x: int| #[trigger] s128(x) is None);
        lemma_paint_from(fb0, line as int, s128, 0);
        lemma_paint_rest(fb0, line as int, s128, 0);
    }
    let mut i: usize = 128;
    while i > 0
        invariant
            i <= 128, line * 960 + 960 <= fb0.len(), line < 256, obj_reads_ok(oam@, line as int),
            fb@ == paint_row(fb0, line as int, |x: int| sprites_from(dispcnt, oam@, vram@, palette@, line as int, i as int, x)),
        decreases i,
    {
        i = i - 1;
        let ghost s_next = |x: int| sprites_from(dispcnt, oam@, vram@, palette@, line as int, (i + 1) as int, x);
        let ghost s_here = |x: int| sprites_from(dispcnt, oam@, vram@, palette@, line as int, i as int, x);
        let ghost f = |x: int| sprite_pixel(dispcnt, oam@, vram@, palette@, line as int, i as int, x);
        proof { assert(obj_read_ok(oam@, line as int, i as int)); }
        render_obj(fb, line, dispcnt, oam, vram, palette, i);
        proof {
            lemma_paint_compose(fb0, line as int, s_next, f);
            assert forall|x: int| #[trigger] over(f, s_next)(x) == s_here(x) by {}
            lemma_paint_congr(fb0, line as int, over(f, s_next), s_here);
        }
    }
}

} // verus!
