use rugb::gba::emulator::GbaEmulator;

fn rom_with_title(title: &[u8]) -> Vec<u8> {
    let mut rom = vec![0u8; 0x200];
    for (i, b) in title.iter().enumerate() {
        rom[0xA0 + i] = *b;
    }
    rom
}

#[test]
fn test_gba_title_stops_at_zero() {
    let emu = GbaEmulator::new(&rom_with_title(b"POKEMON"));
    assert_eq!(emu.title(), "POKEMON");
}

#[test]
fn test_gba_title_full_field() {
    let emu = GbaEmulator::new(&rom_with_title(b"ABCDEFGHIJKLMNOP"));
    // Only the twelve header bytes 0xA0-0xAB form the title.
    assert_eq!(emu.title(), "ABCDEFGHIJKL");
}

#[test]
fn test_gba_title_short_rom() {
    let emu = GbaEmulator::new(&[0x41u8; 0xA4]);
    assert_eq!(emu.title(), "AAAA");
}

#[test]
fn test_gba_new_register_state() {
    let emu = GbaEmulator::new(&[0u8; 0x200]);
    assert_eq!(emu.cpu_reg(13), 0x0300_7F00);
    assert_eq!(emu.cpu_reg(15), 0x0800_0000);
    assert_eq!(emu.cpu_reg(0), 0);
    assert_eq!(emu.cpu_reg(16), 0);
    assert_eq!(emu.framebuffer().len(), 240 * 160 * 4);
}

#[test]
fn test_gba_write_read_byte() {
    let mut emu = GbaEmulator::new(&[0u8; 0x200]);
    emu.write_byte(0x0200_0123, 0x5A);
    assert_eq!(emu.read_byte(0x0200_0123), 0x5A);
    // EWRAM mirrors every 256 KiB.
    assert_eq!(emu.read_byte(0x0204_0123), 0x5A);
}

#[test]
fn test_gba_save_load_round_trip() {
    let rom = vec![0u8; 0x200];
    let mut emu = GbaEmulator::new(&rom);
    emu.cpu.regs[3] = 0x1234_5678;
    emu.cpu.cpsr = 0x6000_001F;
    emu.cpu.banked.r13[2] = 0x0300_7FA0;
    emu.cpu.banked.spsr[3] = 0x13;
    emu.write_byte(0x0200_0010, 0xAB);
    emu.write_byte(0x0300_0004, 0xCD);
    emu.write_byte(0x0500_0002, 0x1F);
    emu.write_byte(0x0600_0100, 0x77);
    emu.bus.oam[5] = 0x42;
    emu.bus.io.dispcnt = 0x0403;
    emu.bus.io.ie = 0x0001;
    emu.bus.io.ime = 1;
    emu.bus.io.bgcnt[2] = 0x1C08;
    emu.bus.io.bg2pa = -0x80;
    emu.bus.io.bg3x = -0x1234;
    emu.bus.io.winin = 0x3F1F;
    emu.bus.io.dma.channels[3].src = 0x0800_0100;
    emu.bus.io.timers.timers[1].reload = 0xFF00;
    emu.bus.io.soundcnt_h = 0x0B0E;
    emu.bus.io.psg_pending = Some((0x062, 0xF080));
    let state = emu.save_state();

    let mut other = GbaEmulator::new(&rom);
    other.load_state(&state);
    assert_eq!(other.cpu_reg(3), 0x1234_5678);
    assert_eq!(other.cpu_cpsr(), 0x6000_001F);
    assert_eq!(other.cpu.banked.r13[2], 0x0300_7FA0);
    assert_eq!(other.cpu.banked.spsr[3], 0x13);
    assert_eq!(other.read_byte(0x0200_0010), 0xAB);
    assert_eq!(other.read_byte(0x0300_0004), 0xCD);
    assert_eq!(other.read_byte(0x0500_0002), 0x1F);
    assert_eq!(other.read_byte(0x0600_0100), 0x77);
    assert_eq!(other.bus.oam[5], 0x42);
    assert_eq!(other.bus.io.dispcnt, 0x0403);
    assert_eq!(other.bus.io.ie, 0x0001);
    assert_eq!(other.bus.io.ime, 1);
    assert_eq!(other.bus.io.bgcnt[2], 0x1C08);
    assert_eq!(other.bus.io.bg2pa, -0x80);
    assert_eq!(other.bus.io.bg3x, -0x1234);
    assert_eq!(other.bus.io.winin, 0x3F1F);
    assert_eq!(other.bus.io.dma.channels[3].src, 0x0800_0100);
    assert_eq!(other.bus.io.timers.timers[1].reload, 0xFF00);
    assert_eq!(other.bus.io.soundcnt_h, 0x0B0E);
    assert_eq!(other.bus.io.psg_pending, Some((0x062, 0xF080)));
    assert_eq!(other.save_state(), state);
}

#[test]
fn test_gba_save_state_size() {
    let emu = GbaEmulator::new(&[0u8; 0x200]);
    let state = emu.save_state();
    let cpu = (16 + 1 + 6 * 3 + 5 * 2) * 4;
    let mem = 0x40000 + 0x8000 + 0x400 + 0x18000 + 0x400;
    let sram = 4 + emu.battery_ram_len();
    assert_eq!(state.len(), cpu + mem + sram + 6 * 2 + 93 * 4);
}

#[test]
fn test_gba_load_short_state() {
    let mut emu = GbaEmulator::new(&[0u8; 0x200]);
    emu.write_byte(0x0200_0000, 0x99);
    // Two words: R0 and R1; everything after reads as zero, memories are kept.
    emu.load_state(&[0x78, 0x56, 0x34, 0x12, 0x01, 0x00, 0x00, 0x00]);
    assert_eq!(emu.cpu_reg(0), 0x1234_5678);
    assert_eq!(emu.cpu_reg(1), 1);
    assert_eq!(emu.cpu_reg(13), 0);
    assert_eq!(emu.cpu_cpsr(), 0);
    assert_eq!(emu.read_byte(0x0200_0000), 0x99);
}

/// A ROM whose first instruction branches to itself (ARM `B .`).
fn spin_rom() -> Vec<u8> {
    let mut rom = vec![0u8; 0x200];
    rom[0..4].copy_from_slice(&0xEAFF_FFFEu32.to_le_bytes());
    rom
}

#[test]
fn test_gba_run_frame_spins_in_place() {
    let mut emu = GbaEmulator::new(&spin_rom());
    let log = emu.run_frame();
    assert!(log.is_empty(), "sound is off: no samples");
    assert_eq!(emu.cpu_reg(15), 0x0800_0000);
    // A whole frame brings the PPU back to line 0.
    assert_eq!(emu.bus.io.vcount, 0);
}

#[test]
fn test_gba_run_frame_stores_samples_when_sound_is_on() {
    let mut emu = GbaEmulator::new(&spin_rom());
    emu.apu.soundcnt_x = 0x80;
    let log = emu.run_frame();
    let pairs: usize = log.iter().map(|b| b.count).sum();
    // 280896 cycles at 512 cycles per sample.
    assert_eq!(pairs, 548);
    let mut pos = 0usize;
    for b in &log {
        assert_eq!(b.start, pos);
        pos = (pos + 2 * b.count) % 8192;
    }
    assert_eq!(emu.apu.ring_buffer_available(), 2 * 548);
}

#[test]
fn test_gba_run_frame_takes_vblank_irq() {
    let mut emu = GbaEmulator::new(&spin_rom());
    // IRQs enabled in the CPSR (I clear), VBlank IRQ enabled in DISPSTAT and IE.
    emu.cpu.cpsr = 0x1F;
    emu.bus.io.dispstat = 0x0008;
    emu.bus.io.ie = 0x0001;
    emu.bus.io.ime = 1;
    emu.run_frame();
    // The IRQ vector was taken (PC at 0x18 or beyond) in IRQ mode.
    assert_eq!(emu.cpu_cpsr() & 0x1F, 0x12);
    assert_ne!(emu.bus.io.irq_flags & 1, 0);
}

#[test]
fn test_gba_emulator_creation() {
    let rom = vec![0u8; 0x100];
    let emu = GbaEmulator::new(&rom);
    assert_eq!(emu.framebuffer().len(), 240 * 160 * 4);
}

#[test]
fn test_gba_framebuffer_size() {
    let rom = vec![0u8; 0x100];
    let emu = GbaEmulator::new(&rom);
    // GBA framebuffer: 240 * 160 * 4 (RGBA)
    assert_eq!(emu.framebuffer().len(), 240 * 160 * 4);
}

#[test]
fn test_gba_run_frame_no_panic() {
    // ROM full of undefined instructions — should not panic
    let rom = vec![0u8; 0x200];
    let mut emu = GbaEmulator::new(&rom);
    emu.run_frame();
}

#[test]
fn test_gba_multiple_frames() {
    let rom = vec![0u8; 0x200];
    let mut emu = GbaEmulator::new(&rom);
    for _ in 0..10 {
        emu.run_frame();
    }
    assert_eq!(emu.framebuffer().len(), 240 * 160 * 4);
}

#[test]
fn test_gba_with_dma_timer_no_panic() {
    let rom = vec![0u8; 0x200];
    let mut emu = GbaEmulator::new(&rom);
    // Run a few frames — exercises DMA, timer, APU paths
    for _ in 0..5 {
        emu.run_frame();
    }
    assert_eq!(emu.framebuffer().len(), 240 * 160 * 4);
}

#[test]
fn test_gba_flash_detection_sram() {
    // ROM containing "SRAM_V" string triggers SRAM backup detection
    let mut rom = vec![0u8; 0x200];
    let sram_str = b"SRAM_V";
    rom[0x100..0x106].copy_from_slice(sram_str);
    let emu = GbaEmulator::new(&rom);
    assert!(emu.has_battery());
}

#[test]
fn test_gba_flash_detection_flash() {
    let mut rom = vec![0u8; 0x200];
    let flash_str = b"FLASH_V";
    rom[0x100..0x107].copy_from_slice(flash_str);
    let emu = GbaEmulator::new(&rom);
    assert!(emu.has_battery());
}

#[test]
fn test_gba_no_backup_detection() {
    let rom = vec![0u8; 0x200];
    let emu = GbaEmulator::new(&rom);
    // No backup strings in ROM = no battery
    assert!(!emu.has_battery());
}

/// A ROM that enables the master sound (SOUNDCNT_X = 0x80 through a store
/// to 0x04000084) and then spins.
fn sound_on_rom() -> Vec<u8> {
    let code: [u32; 5] = [
        0xE3A0_0301, // MOV r0, #0x04000000
        0xE3A0_1080, // MOV r1, #0x80
        0xE1C0_18B4, // STRH r1, [r0, #0x84]
        0xEAFF_FFFE, // B .
        0,
    ];
    let mut rom = vec![0u8; 0x200];
    for (i, w) in code.iter().enumerate() {
        rom[i * 4..i * 4 + 4].copy_from_slice(&w.to_le_bytes());
    }
    rom
}

#[test]
fn test_gba_sound_enable_reaches_the_apu() {
    let mut emu = GbaEmulator::new(&sound_on_rom());
    let log = emu.run_frame();
    assert_ne!(emu.apu.soundcnt_x & 0x80, 0);
    assert!(!log.is_empty());
}
