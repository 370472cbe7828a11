use rugb::gba::ppu::bg::{BgControl, screen_entry_offset, render_text_bg, render_affine_bg, AffineParams};
use rugb::gba::ppu::modes::rgb555_to_rgba;
const SCREEN_WIDTH: usize = 240;

#[test]
fn bgcontrol_from_raw_parses_correctly() {
    // BGCNT = 0x4881: priority=1, char_base=0*0x4000=0, mosaic=false,
    //   palette_256=true, screen_base=9*0x800=0x4800, size=1
    // Actually let's build it manually:
    // bits 0-1: priority = 2 => 0x02
    // bits 2-3: char_base = 1 => 0x04
    // bit 6: mosaic = 0
    // bit 7: palette_256 = 1 => 0x80
    // bits 8-12: screen_base = 5 => 0x0500
    // bits 14-15: size = 2 => 0x8000
    let bgcnt: u16 = 0x02 | 0x04 | 0x80 | 0x0500 | 0x8000;
    let bg = BgControl::from_raw(bgcnt, 0x123, 0x1FF);
    assert_eq!(bg.priority, 2);
    assert_eq!(bg.char_base, 0x4000);
    assert!(bg.palette_256);
    assert_eq!(bg.screen_base, 5 * 0x800);
    assert_eq!(bg.size, 2);
    assert_eq!(bg.scroll_x, 0x123);
    assert_eq!(bg.scroll_y, 0x1FF);
}

#[test]
fn screen_entry_offset_size0() {
    // 32x32 single screen, tile (5, 3) => offset (3*32+5)*2
    let off = screen_entry_offset(5, 3, 0);
    assert_eq!(off, (3 * 32 + 5) * 2);
}

#[test]
fn screen_entry_offset_size1_second_block() {
    // 64x32: tile col 35 is in block 1
    let off = screen_entry_offset(35, 2, 1);
    // block 1 at 0x800, local col=3, local row=2
    assert_eq!(off, 0x800 + (2 * 32 + 3) * 2);
}

#[test]
fn transparent_pixel_not_written() {
    // Create a minimal VRAM with all-zero tile data (color index 0 = transparent)
    let vram = vec![0u8; 0x10000];
    let palette = vec![0u8; 512];
    let mut fb = vec![0xFFu8; SCREEN_WIDTH * 160 * 4]; // fill with white

    let bg = BgControl::from_raw(0, 0, 0);
    render_text_bg(&mut fb, 0, &bg, &vram, &palette);

    // Framebuffer should remain 0xFF (unchanged) since all pixels are transparent
    assert_eq!(fb[0], 0xFF);
    assert_eq!(fb[3], 0xFF);
}


const IDENTITY: AffineParams = AffineParams { pa: 0x100, pb: 0, pc: 0, pd: 0x100, ref_x: 0, ref_y: 0 };

/// VRAM with a 128x128 affine map at screen base 0x800 naming tile 1
/// everywhere, and tile 1 (char base 0) holding colour index 1 + column.
fn affine_vram() -> Vec<u8> {
    let mut vram = vec![0u8; 0x18000];
    for i in 0..(16 * 16) {
        vram[0x800 + i] = 1;
    }
    for row in 0..8 {
        for col in 0..8 {
            vram[64 + row * 8 + col] = 1 + col as u8;
        }
    }
    vram
}

fn affine_palette() -> Vec<u8> {
    let mut pal = vec![0u8; 0x200];
    for i in 0..256 {
        pal[i * 2] = i as u8; // red = index & 0x1F
    }
    pal
}

fn affine_ctl(bgcnt: u16) -> BgControl {
    BgControl::from_raw(bgcnt, 0, 0)
}

#[test]
fn affine_identity_shows_map_pixels() {
    let mut fb = vec![0xEEu8; 240 * 160 * 4];
    let ctl = affine_ctl(0x0100); // screen base 1 (0x800), char base 0, 128x128, no wrap
    render_affine_bg(&mut fb, 3, &ctl, &affine_vram(), &affine_palette(), &IDENTITY);
    let row = 3 * 960;
    for x in 0..128 {
        let want = rgb555_to_rgba(1 + (x % 8) as u16);
        assert_eq!(&fb[row + x * 4..row + x * 4 + 4], &want[..], "pixel {}", x);
    }
    // Past the 128-pixel map with no wrap: transparent, left as it was.
    assert_eq!(&fb[row + 200 * 4..row + 200 * 4 + 4], &[0xEE; 4]);
    // Other rows untouched.
    assert_eq!(fb[2 * 960], 0xEE);
}

#[test]
fn affine_wraps_when_asked() {
    let mut fb = vec![0xEEu8; 240 * 160 * 4];
    let ctl = affine_ctl(0x2100); // as above, with overflow wrap
    render_affine_bg(&mut fb, 0, &ctl, &affine_vram(), &affine_palette(), &IDENTITY);
    // x = 130 wraps to 2 -> colour index 3
    let want = rgb555_to_rgba(3);
    assert_eq!(&fb[130 * 4..130 * 4 + 4], &want[..]);
}

#[test]
fn affine_colour_zero_is_transparent() {
    let mut vram = affine_vram();
    vram[64] = 0; // tile 1, column 0 -> index 0
    let mut fb = vec![0xEEu8; 240 * 160 * 4];
    render_affine_bg(&mut fb, 0, &affine_ctl(0x0100), &vram, &affine_palette(), &IDENTITY);
    assert_eq!(&fb[0..4], &[0xEE; 4]);
    assert_eq!(&fb[8 * 4..8 * 4 + 4], &[0xEE; 4]);
}

#[test]
fn affine_scaling_halves_the_step() {
    let mut fb = vec![0xEEu8; 240 * 160 * 4];
    let half = AffineParams { pa: 0x80, pb: 0, pc: 0, pd: 0x100, ref_x: 0, ref_y: 0 };
    render_affine_bg(&mut fb, 0, &affine_ctl(0x0100), &affine_vram(), &affine_palette(), &half);
    // x = 5 samples map x = 2 -> index 3
    let want = rgb555_to_rgba(3);
    assert_eq!(&fb[5 * 4..5 * 4 + 4], &want[..]);
}
