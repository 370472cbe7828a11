//! GBA color blending / brightness effects.
//!
//! BLDCNT (0x04000050): selects blend mode and target layers
//!   Bits 0-5: 1st target (BG0-BG3, OBJ, BD)
//!   Bits 6-7: blend mode (0=off, 1=alpha, 2=brighten, 3=darken)
//!   Bits 8-13: 2nd target (BG0-BG3, OBJ, BD)
//! BLDALPHA (0x04000052): EVA (bits 0-4) / EVB (bits 8-12) for alpha blend
//! BLDY (0x04000054): EVY (bits 0-4) for brightness
use vstd::prelude::*;
use super::modes::ROW_BYTES;

verus! {

/// `fb` with the red, green and blue bytes of the first `n` pixels of row
/// `line` replaced by `g(i, old byte)`; alpha bytes and everything else unchanged.
pub open spec fn map_rgb(fb: Seq<u8>, line: int, n: int, g: spec_fn(int, u8) -> u8) -> Seq<u8> {
    Seq::new(fb.len(), |i: int|
        if 0 <= i - line * 960 < n * 4 && (i - line * 960) % 4 < 3 { g(i, fb[i]) } else { fb[i] })
}

proof fn lemma_map_rgb_none(fb: Seq<u8>, line: int, g: spec_fn(int, u8) -> u8)
    ensures map_rgb(fb, line, 0, g) == fb,
{
    assert(map_rgb(fb, line, 0, g) =~= fb);
}

proof fn lemma_map_rgb_next(fb: Seq<u8>, line: int, x: int, g: spec_fn(int, u8) -> u8)
    requires 0 <= x, 0 <= line, line * 960 + x * 4 + 2 < fb.len(),
    ensures ({
        let b = line * 960 + x * 4;
        map_rgb(fb, line, x + 1, g) == map_rgb(fb, line, x, g).update(b, g(b, fb[b]))
            .update(b + 1, g(b + 1, fb[b + 1])).update(b + 2, g(b + 2, fb[b + 2]))
    }),
{
    let b = line * 960 + x * 4;
    let a = map_rgb(fb, line, x + 1, g);
    let q = map_rgb(fb, line, x, g).update(b, g(b, fb[b])).update(b + 1, g(b + 1, fb[b + 1]))
        .update(b + 2, g(b + 2, fb[b + 2]));
    assert forall|i: int| 0 <= i < fb.len() implies a[i] == q[i] by {
        if b <= i < b + 3 {
            assert((i - line * 960) % 4 == i - b);
        } else if i == b + 3 {
            assert((i - line * 960) % 4 == 3);
        }
    }
    assert(a =~= q);
}

/// One channel of an alpha blend: `(a*eva + b*evb) / 16`, at most 255.
pub open spec fn mix(a: u8, b: u8, eva: int, evb: int) -> u8 {
    let v = (a * eva + b * evb) / 16;
    if v > 255 { 255 } else { v as u8 }
}

/// A coefficient capped at 16.
pub open spec fn cap16(e: u8) -> int {
    if e > 16 { 16 } else { e as int }
}

/// The number of pixels of row `line` whose blue byte lies within `len` bytes
/// (at most 240).
pub open spec fn pixels_within(line: int, len: int) -> int {
    if len < line * 960 + 3 { 0 }
    else if (len - line * 960 - 3) / 4 + 1 > 240 { 240 }
    else { (len - line * 960 - 3) / 4 + 1 }
}

/// The framebuffer after `apply_alpha_blend`: unchanged when EVA is (at
/// least) 16 and EVB is 0; otherwise each colour channel of each pixel of the
/// row whose blue byte lies within both buffers is mixed with `below`.
pub open spec fn alpha_blend_spec(fb: Seq<u8>, below: Seq<u8>, line: int, eva: u8, evb: u8) -> Seq<u8> {
    let a = cap16(eva);
    let b = cap16(evb);
    if a == 16 && b == 0 {
        fb
    } else {
        let n = pixels_within(line, if fb.len() < below.len() { fb.len() as int } else { below.len() as int });
        map_rgb(fb, line, n, |i: int, v: u8| mix(v, below[i], a, b))
    }
}

/// One channel of a brightness fade: mode 2 moves it `evy`/16 of the way to
/// 255, any other mode `evy`/16 of the way to 0.
pub open spec fn fade(v: u8, mode: u8, evy: int) -> u8 {
    if mode == 2 { (v + ((255 - v) * evy) / 16) as u8 } else { (v - (v * evy) / 16) as u8 }
}

/// The framebuffer after `apply_brightness`: unchanged when EVY is 0,
/// otherwise every colour channel of row `line` faded with EVY capped at 16.
pub open spec fn brightness_spec(fb: Seq<u8>, line: int, mode: u8, evy: u8) -> Seq<u8> {
    if evy == 0 {
        fb
    } else {
        map_rgb(fb, line, 240, |i: int, v: u8| fade(v, mode, cap16(evy)))
    }
}

/// The two ends and the direction of a brightness fade: EVY 0 leaves a
/// channel as it is, EVY 16 turns it white (mode 2) or black (mode 3), and
/// in between a brightness increase never darkens and a decrease never
/// brightens.
pub proof fn lemma_fade_range(v: u8, evy: int)
    requires 0 <= evy <= 16,
    ensures
        fade(v, 2, 0) == v && fade(v, 3, 0) == v,
        fade(v, 2, 16) == 255 && fade(v, 3, 16) == 0,
        v <= fade(v, 2, evy) <= 255,
        fade(v, 3, evy) <= v,
{
    assert(0 <= (255 - v) * evy <= (255 - v) * 16) by (nonlinear_arith)
        requires 0 <= evy <= 16, v <= 255;
    assert(0 <= v * evy <= v * 16) by (nonlinear_arith)
        requires 0 <= evy <= 16;
}

/// Alpha blending weighs the two layers by EVA/16 and EVB/16: weights 16
/// and 0 give the top layer, 0 and 16 the lower one, and 8 and 8 their
/// average rounded down.
pub proof fn lemma_mix_weights(a: u8, b: u8)
    ensures
        mix(a, b, 16, 0) == a,
        mix(a, b, 0, 16) == b,
        mix(a, b, 8, 8) == (a + b) / 2,
{
}

proof fn lemma_mix_bound(a: u8, b: u8, eva: u16, evb: u16)
    requires eva <= 16, evb <= 16,
    ensures a * eva <= 4080, b * evb <= 4080,
{
    assert(a * eva <= 4080) by (nonlinear_arith) requires a <= 255, eva <= 16;
    assert(b * evb <= 4080) by (nonlinear_arith) requires b <= 255, evb <= 16;
}

/// One mixed channel.
fn mix_exec(a: u8, b: u8, eva: u16, evb: u16) -> (r: u8)
    requires eva <= 16, evb <= 16,
    ensures r == mix(a, b, eva as int, evb as int),
{
    proof { lemma_mix_bound(a, b, eva, evb); }
    let v = ((a as u16) * eva + (b as u16) * evb) / 16;
    if v > 255 { 255 } else { v as u8 }
}

/// Apply alpha blending between the framebuffer (1st target) and a saved
/// "below" layer. EVA = 1st target coefficient (0-16), EVB = 2nd target
/// coefficient (0-16); larger values count as 16.
pub fn apply_alpha_blend(fb: &mut Vec<u8>, below: &[u8], line: usize, eva: u8, evb: u8)
    requires line * 960 + 960 <= usize::MAX,
    ensures final(fb)@ == alpha_blend_spec(old(fb)@, below@, line as int, eva, evb),
{
    let eva: u16 = if eva > 16 { 16 } else { eva as u16 };
    let evb: u16 = if evb > 16 { 16 } else { evb as u16 };
    if eva == 16 && evb == 0 {
        return; // No visible blending
    }
    let ghost fb0 = fb@;
    let ghost g = |i: int, v: u8| mix(v, below@[i], eva as int, evb as int);
    let start = line * ROW_BYTES;
    proof { lemma_map_rgb_none(fb0, line as int, g); }
    let mut x: usize = 0;
    while x < 240
        invariant_except_break
            x <= 240, start == line * 960, line * 960 + 960 <= usize::MAX, fb@.len() == fb0.len(),
            eva <= 16, evb <= 16,
            g == (|i: int, v: u8| mix(v, below@[i], eva as int, evb as int)),
            x <= pixels_within(line as int, if fb0.len() < below@.len() { fb0.len() as int } else { below@.len() as int }),
            fb@ == map_rgb(fb0, line as int, x as int, g),
        ensures
            fb@ == map_rgb(fb0, line as int,
                pixels_within(line as int, if fb0.len() < below@.len() { fb0.len() as int } else { below@.len() as int }), g),
        decreases 240 - x,
    {
        let dst = start + x * 4;
        if dst + 2 >= fb.len() || dst + 2 >= below.len() {
            break;
        }
        proof { lemma_map_rgb_next(fb0, line as int, x as int, g); }
        let r = mix_exec(fb[dst], below[dst], eva, evb);
        fb.set(dst, r);
        let gch = mix_exec(fb[dst + 1], below[dst + 1], eva, evb);
        fb.set(dst + 1, gch);
        let b = mix_exec(fb[dst + 2], below[dst + 2], eva, evb);
        fb.set(dst + 2, b);
        x = x + 1;
    }
}

/// One faded channel.
fn fade_exec(v: u8, mode: u8, evy: u16) -> (r: u8)
    requires evy <= 16,
    ensures r == fade(v, mode, evy as int),
{
    let c = v as u16;
    if mode == 2 {
        assert((255 - c) * evy <= 255 * 16) by (nonlinear_arith) requires c <= 255, evy <= 16;
        assert(c + ((255 - c) * evy) / 16 <= 255) by (nonlinear_arith) requires c <= 255, evy <= 16;
        (c + ((255 - c) * evy) / 16) as u8
    } else {
        assert(c * evy <= 255 * 16) by (nonlinear_arith) requires c <= 255, evy <= 16;
        assert((c * evy) / 16 <= c) by (nonlinear_arith) requires c <= 255, evy <= 16;
        (c - (c * evy) / 16) as u8
    }
}

/// Apply brightness fade (increase or decrease) to the entire scanline.
/// Mode 2 = brightness increase (fade to white), Mode 3 = brightness decrease (fade to black).
pub fn apply_brightness(fb: &mut Vec<u8>, line: usize, mode: u8, evy: u8)
    requires evy != 0 ==> line * 960 + 959 <= old(fb).len(),
    ensures final(fb)@ == brightness_spec(old(fb)@, line as int, mode, evy),
{
    if evy == 0 {
        return;
    }
    let evy: u16 = if evy > 16 { 16 } else { evy as u16 };
    let ghost fb0 = fb@;
    let ghost g = |i: int, v: u8| fade(v, mode, evy as int);
    let start = line * ROW_BYTES;
    proof { lemma_map_rgb_none(fb0, line as int, g); }
    let mut x: usize = 0;
    while x < 240
        invariant
            x <= 240, start == line * 960, line * 960 + 959 <= fb0.len(), fb@.len() == fb0.len(),
            evy <= 16, fb0.len() <= usize::MAX,
            g == (|i: int, v: u8| fade(v, mode, evy as int)),
            fb@ == map_rgb(fb0, line as int, x as int, g),
        decreases 240 - x,
    {
        let dst = start + x * 4;
        proof { lemma_map_rgb_next(fb0, line as int, x as int, g); }
        let r = fade_exec(fb[dst], mode, evy);
        fb.set(dst, r);
        let gch = fade_exec(fb[dst + 1], mode, evy);
        fb.set(dst + 1, gch);
        let b = fade_exec(fb[dst + 2], mode, evy);
        fb.set(dst + 2, b);
        x = x + 1;
    }
}


/// EVY values above 16 fade exactly as 16 does.
pub proof fn lemma_brightness_cap(fb: Seq<u8>, line: int, mode: u8, evy: u8)
    requires evy >= 16,
    ensures brightness_spec(fb, line, mode, evy) == brightness_spec(fb, line, mode, 16),
{
}

} // verus!
