//! GBA I/O register file (0x04000000 - 0x040003FF).
use vstd::prelude::*;
use vstd::array::spec_array_update;
use super::dma::{DmaController, DmaChannel};
use super::timer::{TimerController, Timer};

verus! {

pub struct IoRegisters {
    /// 0x04000000 DISPCNT — Display control
    pub dispcnt: u16,
    /// 0x04000002 — Green swap (undocumented, unused)
    pub green_swap: u16,
    /// 0x04000004 DISPSTAT — Display status
    pub dispstat: u16,
    /// 0x04000006 VCOUNT — Current scanline (read-only, set by PPU)
    pub vcount: u16,
    /// BG control registers (BG0CNT..BG3CNT at 0x08, 0x0A, 0x0C, 0x0E)
    pub bgcnt: [u16; 4],
    /// BG horizontal scroll (BG0HOFS..BG3HOFS at 0x10, 0x14, 0x18, 0x1C)
    pub bghofs: [u16; 4],
    /// BG vertical scroll (BG0VOFS..BG3VOFS at 0x12, 0x16, 0x1A, 0x1E)
    pub bgvofs: [u16; 4],
    /// BG2 affine parameters (PA, PB, PC, PD at 0x20-0x26)
    pub bg2pa: i16,
    pub bg2pb: i16,
    pub bg2pc: i16,
    pub bg2pd: i16,
    /// BG2 reference point (0x28-0x2F, 28-bit signed)
    pub bg2x: i32,
    pub bg2y: i32,
    /// BG3 affine parameters
    pub bg3pa: i16,
    pub bg3pb: i16,
    pub bg3pc: i16,
    pub bg3pd: i16,
    /// BG3 reference point
    pub bg3x: i32,
    pub bg3y: i32,
    /// Window registers (0x40-0x4B)
    pub win0h: u16,
    pub win1h: u16,
    pub win0v: u16,
    pub win1v: u16,
    pub winin: u16,
    pub winout: u16,
    /// Blend control (0x50-0x54)
    pub bldcnt: u16,
    pub bldalpha: u16,
    pub bldy: u16,
    /// DMA controller
    pub dma: DmaController,
    /// Timer controller
    pub timers: TimerController,
    /// 0x04000200 IE — Interrupt Enable
    pub ie: u16,
    /// 0x04000202 IF — Interrupt Request Flags
    pub irq_flags: u16,
    /// 0x04000208 IME — Interrupt Master Enable
    pub ime: u16,
    /// 0x04000300 POSTFLG
    pub postflg: u8,
    /// Is the CPU halted?
    pub halted: bool,
    /// 0x04000080 SOUNDCNT_L — PSG volume and panning
    pub soundcnt_l: u16,
    /// 0x04000082 SOUNDCNT_H — DMA sound control
    pub soundcnt_h: u16,
    /// 0x04000084 SOUNDCNT_X — master sound enable
    pub soundcnt_x: u16,
    /// 0x04000088 SOUNDBIAS
    pub soundbias: u16,
    /// SOUNDCNT_H was written since the APU last took the sound registers
    pub soundcnt_h_dirty: bool,
    /// The last PSG register write (offset, value) not yet handed to the APU
    pub psg_pending: Option<(u16, u16)>,
    /// Low halfwords written to the FIFO A and B ports
    pub fifo_a_lo: u16,
    pub fifo_b_lo: u16,
    /// A whole word written to FIFO A or B not yet handed to the APU
    pub fifo_a_pending: Option<u32>,
    pub fifo_b_pending: Option<u32>,
}

/// The word a FIFO port assembles from its low and high halfwords.
pub open spec fn fifo_word(lo: u16, hi: u16) -> u32 {
    ((hi as u32) << 16u32) | (lo as u32)
}

/// A 28-bit affine reference point sign-extended to 32 bits.
pub open spec fn sext28(x: i32) -> i32 {
    (x << 4i32) >> 4i32
}

impl IoRegisters {
    /// The power-on register file: everything zero but the affine matrices,
    /// which start as the identity (0x100 is 1.0 in 8.8 fixed point).
    pub open spec fn is_reset(self) -> bool {
        &&& self.dispcnt == 0 && self.green_swap == 0 && self.dispstat == 0 && self.vcount == 0
        &&& self.bgcnt@ == Seq::new(4, |i: int| 0u16)
        &&& self.bghofs@ == Seq::new(4, |i: int| 0u16)
        &&& self.bgvofs@ == Seq::new(4, |i: int| 0u16)
        &&& self.bg2pa == 0x100 && self.bg2pb == 0 && self.bg2pc == 0 && self.bg2pd == 0x100
        &&& self.bg2x == 0 && self.bg2y == 0
        &&& self.bg3pa == 0x100 && self.bg3pb == 0 && self.bg3pc == 0 && self.bg3pd == 0x100
        &&& self.bg3x == 0 && self.bg3y == 0
        &&& self.win0h == 0 && self.win1h == 0 && self.win0v == 0 && self.win1v == 0
        &&& self.winin == 0 && self.winout == 0
        &&& self.bldcnt == 0 && self.bldalpha == 0 && self.bldy == 0
        &&& forall|i: int| 0 <= i < 4 ==> self.dma.channels@[i] == DmaChannel::new_spec()
        &&& forall|i: int| 0 <= i < 4 ==> self.timers.timers@[i] == Timer::new_spec()
        &&& self.ie == 0 && self.irq_flags == 0 && self.ime == 0 && self.postflg == 0 && !self.halted
        &&& self.soundcnt_l == 0 && self.soundcnt_h == 0 && self.soundcnt_x == 0 && self.soundbias == 0x0200
        &&& !self.soundcnt_h_dirty && self.psg_pending is None
        &&& self.fifo_a_lo == 0 && self.fifo_b_lo == 0 && self.fifo_a_pending is None && self.fifo_b_pending is None
    }

    /// The halfword a read at `addr` returns; write-only registers read 0.
    pub open spec fn read16_spec(self, addr: u32) -> u16 {
        let reg = (addr % 0x400) / 2 * 2;
        if reg == 0x000 { self.dispcnt }
        else if reg == 0x002 { self.green_swap }
        else if reg == 0x004 { self.dispstat }
        else if reg == 0x006 { self.vcount }
        else if 0x008 <= reg <= 0x00E { self.bgcnt[(reg - 0x008) / 2] }
        else if reg == 0x050 { self.bldcnt }
        else if reg == 0x052 { self.bldalpha }
        else if reg == 0x0BA || reg == 0x0C6 || reg == 0x0D2 || reg == 0x0DE { self.dma.channels[(reg - 0x0BA) / 12].ctrl }
        else if 0x100 <= reg <= 0x10E {
            let t = self.timers.timers[(reg - 0x100) / 4];
            if (reg - 0x100) % 4 == 0 { t.counter } else { t.ctrl }
        }
        else if reg == 0x130 { 0x03FF }
        else if reg == 0x200 { self.ie }
        else if reg == 0x202 { self.irq_flags }
        else if reg == 0x208 { self.ime }
        else { 0 }
    }

    /// A write to DMA channel `ch`'s register at byte offset `off` (source
    /// low/high, destination low/high, count, control). The high address
    /// halves keep 11 or 12 bits; enabling a channel latches its registers.
    pub open spec fn dma_reg_spec(self, ch: int, off: int, val: u16) -> IoRegisters {
        let c = self.dma.channels[ch];
        let src_mask: u32 = if ch == 0 { 0x07FF } else { 0x0FFF };
        let dst_mask: u32 = if ch == 3 { 0x0FFF } else { 0x07FF };
        let c2 = if off == 0 {
            DmaChannel { src: (c.src & !0xFFFFu32) | (val as u32), ..c }
        } else if off == 2 {
            DmaChannel { src: (c.src & 0xFFFF) | (((val as u32) & src_mask) << 16u32), ..c }
        } else if off == 4 {
            DmaChannel { dst: (c.dst & !0xFFFFu32) | (val as u32), ..c }
        } else if off == 6 {
            DmaChannel { dst: (c.dst & 0xFFFF) | (((val as u32) & dst_mask) << 16u32), ..c }
        } else if off == 8 {
            DmaChannel { count: val, ..c }
        } else {
            let n = DmaChannel { ctrl: val, ..c };
            if c.ctrl & 0x8000 == 0 && val & 0x8000 != 0 { n.latch_spec(ch) } else { n }
        };
        IoRegisters { dma: DmaController { channels: spec_array_update(self.dma.channels, ch, c2) }, ..self }
    }

    /// Each timer's prescaler accumulator holds less than the longest
    /// prescaler period.
    pub open spec fn timers_wf(self) -> bool {
        forall|i: int| 0 <= i < 4 ==> #[trigger] self.timers.timers@[i].cycles < 1024
    }

    /// A register write keeps every timer's accumulator below the longest
    /// prescaler period.
    pub proof fn lemma_write16_timers_wf(self, addr: u32, val: u16)
        requires self.timers_wf(),
        ensures self.write16_spec(addr, val).timers_wf(),
    {
        broadcast use vstd::array::group_array_axioms;
    }

    /// A write to timer `t`'s reload (offset 0) or control (offset 2);
    /// starting a timer loads the counter from the reload value.
    pub open spec fn timer_reg_spec(self, t: int, off: int, val: u16) -> IoRegisters {
        let tm = self.timers.timers[t];
        let tm2 = if off == 0 {
            Timer { reload: val, ..tm }
        } else if tm.ctrl & 0x80 == 0 && val & 0x80 != 0 {
            Timer { ctrl: val, counter: tm.reload, cycles: 0, ..tm }
        } else {
            Timer { ctrl: val, ..tm }
        };
        IoRegisters { timers: TimerController { timers: spec_array_update(self.timers.timers, t, tm2) }, ..self }
    }

    /// The register file after a halfword write at `addr`. DISPSTAT keeps
    /// its three status bits, scroll values keep 9 bits, the affine
    /// reference points are sign-extended from 28 bits, writing IF clears
    /// the written bits, IME keeps bit 0; read-only and unused registers
    /// ignore the write.
    pub open spec fn write16_spec(self, addr: u32, val: u16) -> IoRegisters {
        let reg = (addr % 0x400) / 2 * 2;
        if reg == 0x000 { IoRegisters { dispcnt: val, ..self } }
        else if reg == 0x002 { IoRegisters { green_swap: val, ..self } }
        else if reg == 0x004 { IoRegisters { dispstat: (self.dispstat & 0x07) | (val & 0xFFF8), ..self } }
        else if 0x008 <= reg <= 0x00E { IoRegisters { bgcnt: spec_array_update(self.bgcnt, (reg - 0x008) / 2, val), ..self } }
        else if 0x010 <= reg <= 0x01E {
            let i = (reg - 0x010) / 4;
            if (reg - 0x010) % 4 == 0 {
                IoRegisters { bghofs: spec_array_update(self.bghofs, i, val & 0x1FF), ..self }
            } else {
                IoRegisters { bgvofs: spec_array_update(self.bgvofs, i, val & 0x1FF), ..self }
            }
        }
        else if reg == 0x020 { IoRegisters { bg2pa: val as i16, ..self } }
        else if reg == 0x022 { IoRegisters { bg2pb: val as i16, ..self } }
        else if reg == 0x024 { IoRegisters { bg2pc: val as i16, ..self } }
        else if reg == 0x026 { IoRegisters { bg2pd: val as i16, ..self } }
        else if reg == 0x028 { IoRegisters { bg2x: sext28((self.bg2x & !0xFFFFi32) | (val as i32)), ..self } }
        else if reg == 0x02A { IoRegisters { bg2x: sext28((self.bg2x & 0xFFFFi32) | ((val as i32) << 16i32)), ..self } }
        else if reg == 0x02C { IoRegisters { bg2y: sext28((self.bg2y & !0xFFFFi32) | (val as i32)), ..self } }
        else if reg == 0x02E { IoRegisters { bg2y: sext28((self.bg2y & 0xFFFFi32) | ((val as i32) << 16i32)), ..self } }
        else if reg == 0x030 { IoRegisters { bg3pa: val as i16, ..self } }
        else if reg == 0x032 { IoRegisters { bg3pb: val as i16, ..self } }
        else if reg == 0x034 { IoRegisters { bg3pc: val as i16, ..self } }
        else if reg == 0x036 { IoRegisters { bg3pd: val as i16, ..self } }
        else if reg == 0x038 { IoRegisters { bg3x: sext28((self.bg3x & !0xFFFFi32) | (val as i32)), ..self } }
        else if reg == 0x03A { IoRegisters { bg3x: sext28((self.bg3x & 0xFFFFi32) | ((val as i32) << 16i32)), ..self } }
        else if reg == 0x03C { IoRegisters { bg3y: sext28((self.bg3y & !0xFFFFi32) | (val as i32)), ..self } }
        else if reg == 0x03E { IoRegisters { bg3y: sext28((self.bg3y & 0xFFFFi32) | ((val as i32) << 16i32)), ..self } }
        else if reg == 0x040 { IoRegisters { win0h: val, ..self } }
        else if reg == 0x042 { IoRegisters { win1h: val, ..self } }
        else if reg == 0x044 { IoRegisters { win0v: val, ..self } }
        else if reg == 0x046 { IoRegisters { win1v: val, ..self } }
        else if reg == 0x048 { IoRegisters { winin: val, ..self } }
        else if reg == 0x04A { IoRegisters { winout: val, ..self } }
        else if reg == 0x050 { IoRegisters { bldcnt: val, ..self } }
        else if reg == 0x052 { IoRegisters { bldalpha: val, ..self } }
        else if reg == 0x054 { IoRegisters { bldy: val, ..self } }
        else if (0x060 <= reg <= 0x07E) || (0x090 <= reg <= 0x09E) { IoRegisters { psg_pending: Some((reg as u16, val)), ..self } }
        else if reg == 0x080 { IoRegisters { soundcnt_l: val, psg_pending: Some((0x080u16, val)), ..self } }
        else if reg == 0x082 { IoRegisters { soundcnt_h: val, soundcnt_h_dirty: true, ..self } }
        else if reg == 0x084 { IoRegisters { soundcnt_x: val, psg_pending: Some((0x084u16, val)), ..self } }
        else if reg == 0x088 { IoRegisters { soundbias: val, ..self } }
        else if reg == 0x0A0 { IoRegisters { fifo_a_lo: val, ..self } }
        else if reg == 0x0A2 { IoRegisters { fifo_a_pending: Some(fifo_word(self.fifo_a_lo, val)), ..self } }
        else if reg == 0x0A4 { IoRegisters { fifo_b_lo: val, ..self } }
        else if reg == 0x0A6 { IoRegisters { fifo_b_pending: Some(fifo_word(self.fifo_b_lo, val)), ..self } }
        else if 0x0B0 <= reg < 0x0E0 { self.dma_reg_spec((reg - 0x0B0) / 12, (reg - 0x0B0) % 12, val) }
        else if 0x100 <= reg < 0x110 { self.timer_reg_spec((reg - 0x100) / 4, (reg - 0x100) % 4, val) }
        else if reg == 0x200 { IoRegisters { ie: val, ..self } }
        else if reg == 0x202 { IoRegisters { irq_flags: self.irq_flags & !val, ..self } }
        else if reg == 0x208 { IoRegisters { ime: val & 1, ..self } }
        else if reg == 0x300 { IoRegisters { postflg: val as u8, ..self } }
        else { self }
    }

    pub fn new() -> (r: Self)
        ensures r.is_reset(),
    {
        let r = IoRegisters {
            dispcnt: 0,
            green_swap: 0,
            dispstat: 0,
            vcount: 0,
            bgcnt: [0; 4],
            bghofs: [0; 4],
            bgvofs: [0; 4],
            bg2pa: 0x100, // 1.0 in 8.8 fixed point
            bg2pb: 0,
            bg2pc: 0,
            bg2pd: 0x100,
            bg2x: 0,
            bg2y: 0,
            bg3pa: 0x100,
            bg3pb: 0,
            bg3pc: 0,
            bg3pd: 0x100,
            bg3x: 0,
            bg3y: 0,
            win0h: 0,
            win1h: 0,
            win0v: 0,
            win1v: 0,
            winin: 0,
            winout: 0,
            bldcnt: 0,
            bldalpha: 0,
            bldy: 0,
            dma: DmaController { channels: [DmaChannel::new(), DmaChannel::new(), DmaChannel::new(), DmaChannel::new()] },
            timers: TimerController { timers: [Timer::new(), Timer::new(), Timer::new(), Timer::new()] },
            ie: 0,
            irq_flags: 0,
            ime: 0,
            postflg: 0,
            halted: false,
            soundcnt_l: 0,
            soundcnt_h: 0,
            soundcnt_x: 0,
            soundbias: 0x0200,
            soundcnt_h_dirty: false,
            psg_pending: None,
            fifo_a_lo: 0,
            fifo_b_lo: 0,
            fifo_a_pending: None,
            fifo_b_pending: None,
        };
        assert(r.bgcnt@ =~= Seq::new(4, |i: int| 0u16));
        assert(r.bghofs@ =~= Seq::new(4, |i: int| 0u16));
        assert(r.bgvofs@ =~= Seq::new(4, |i: int| 0u16));
        r
    }

    pub fn read16(&self, addr: u32) -> (r: u16)
        ensures r == self.read16_spec(addr),
    {
        match (addr % 0x400) / 2 * 2 {
            0x000 => self.dispcnt,
            0x002 => self.green_swap,
            0x004 => self.dispstat,
            0x006 => self.vcount,
            0x008 => self.bgcnt[0],
            0x00A => self.bgcnt[1],
            0x00C => self.bgcnt[2],
            0x00E => self.bgcnt[3],
            // Scroll registers are write-only
            0x010..=0x01E => 0,
            // Affine parameters are write-only
            0x020..=0x03E => 0,
            // Window registers are write-only
            0x040..=0x04A => 0,
            0x050 => self.bldcnt,
            0x052 => self.bldalpha,
            // DMA registers (0x0B0-0x0DE) — most are write-only
            0x0BA => self.dma.channels[0].ctrl,
            0x0C6 => self.dma.channels[1].ctrl,
            0x0D2 => self.dma.channels[2].ctrl,
            0x0DE => self.dma.channels[3].ctrl,
            // Timer counters (readable)
            0x100 => self.timers.timers[0].counter,
            0x102 => self.timers.timers[0].ctrl,
            0x104 => self.timers.timers[1].counter,
            0x106 => self.timers.timers[1].ctrl,
            0x108 => self.timers.timers[2].counter,
            0x10A => self.timers.timers[2].ctrl,
            0x10C => self.timers.timers[3].counter,
            0x10E => self.timers.timers[3].ctrl,
            0x130 => 0x03FF, // KEYINPUT — overridden by bus
            0x200 => self.ie,
            0x202 => self.irq_flags,
            0x208 => self.ime,
            _ => 0,
        }
    }

    pub fn write16(&mut self, addr: u32, val: u16)
        ensures *final(self) == old(self).write16_spec(addr, val),
    {
        let reg = (addr % 0x400) / 2 * 2;
        if (0x060 <= reg && reg <= 0x07E) || (0x090 <= reg && reg <= 0x09E) {
            self.psg_pending = Some((reg as u16, val));
            return;
        }
        match reg {
            0x000 => self.dispcnt = val,
            0x002 => self.green_swap = val,
            0x004 => {
                self.dispstat = (self.dispstat & 0x07) | (val & 0xFFF8);
            }
            0x008 => self.bgcnt[0] = val,
            0x00A => self.bgcnt[1] = val,
            0x00C => self.bgcnt[2] = val,
            0x00E => self.bgcnt[3] = val,
            0x010 => self.bghofs[0] = val & 0x1FF,
            0x012 => self.bgvofs[0] = val & 0x1FF,
            0x014 => self.bghofs[1] = val & 0x1FF,
            0x016 => self.bgvofs[1] = val & 0x1FF,
            0x018 => self.bghofs[2] = val & 0x1FF,
            0x01A => self.bgvofs[2] = val & 0x1FF,
            0x01C => self.bghofs[3] = val & 0x1FF,
            0x01E => self.bgvofs[3] = val & 0x1FF,
            0x020 => self.bg2pa = val as i16,
            0x022 => self.bg2pb = val as i16,
            0x024 => self.bg2pc = val as i16,
            0x026 => self.bg2pd = val as i16,
            0x028 => {
                self.bg2x = (self.bg2x & !0xFFFF) | val as i32;
                self.bg2x = (self.bg2x << 4) >> 4; // Sign extend 28-bit
            }
            0x02A => {
                self.bg2x = (self.bg2x & 0xFFFF) | ((val as i32) << 16);
                self.bg2x = (self.bg2x << 4) >> 4;
            }
            0x02C => {
                self.bg2y = (self.bg2y & !0xFFFF) | val as i32;
                self.bg2y = (self.bg2y << 4) >> 4;
            }
            0x02E => {
                self.bg2y = (self.bg2y & 0xFFFF) | ((val as i32) << 16);
                self.bg2y = (self.bg2y << 4) >> 4;
            }
            0x030 => self.bg3pa = val as i16,
            0x032 => self.bg3pb = val as i16,
            0x034 => self.bg3pc = val as i16,
            0x036 => self.bg3pd = val as i16,
            0x038 => {
                self.bg3x = (self.bg3x & !0xFFFF) | val as i32;
                self.bg3x = (self.bg3x << 4) >> 4;
            }
            0x03A => {
                self.bg3x = (self.bg3x & 0xFFFF) | ((val as i32) << 16);
                self.bg3x = (self.bg3x << 4) >> 4;
            }
            0x03C => {
                self.bg3y = (self.bg3y & !0xFFFF) | val as i32;
                self.bg3y = (self.bg3y << 4) >> 4;
            }
            0x03E => {
                self.bg3y = (self.bg3y & 0xFFFF) | ((val as i32) << 16);
                self.bg3y = (self.bg3y << 4) >> 4;
            }
            0x040 => self.win0h = val,
            0x042 => self.win1h = val,
            0x044 => self.win0v = val,
            0x046 => self.win1v = val,
            0x048 => self.winin = val,
            0x04A => self.winout = val,
            0x050 => self.bldcnt = val,
            0x052 => self.bldalpha = val,
            0x054 => self.bldy = val,
            // Sound: PSG registers go to the APU through `psg_pending`,
            // FIFO words through `fifo_*_pending`.
            0x080 => {
                self.soundcnt_l = val;
                self.psg_pending = Some((0x080, val));
            }
            0x082 => {
                self.soundcnt_h = val;
                self.soundcnt_h_dirty = true;
            }
            0x084 => {
                self.soundcnt_x = val;
                self.psg_pending = Some((0x084, val));
            }
            0x088 => self.soundbias = val,
            0x0A0 => self.fifo_a_lo = val,
            0x0A2 => self.fifo_a_pending = Some(((val as u32) << 16) | (self.fifo_a_lo as u32)),
            0x0A4 => self.fifo_b_lo = val,
            0x0A6 => self.fifo_b_pending = Some(((val as u32) << 16) | (self.fifo_b_lo as u32)),
            // DMA source/dest/count/ctrl
            0x0B0 => self.write_dma_reg(0, 0, val),
            0x0B2 => self.write_dma_reg(0, 2, val),
            0x0B4 => self.write_dma_reg(0, 4, val),
            0x0B6 => self.write_dma_reg(0, 6, val),
            0x0B8 => self.write_dma_reg(0, 8, val),
            0x0BA => self.write_dma_reg(0, 10, val),
            // DMA1
            0x0BC => self.write_dma_reg(1, 0, val),
            0x0BE => self.write_dma_reg(1, 2, val),
            0x0C0 => self.write_dma_reg(1, 4, val),
            0x0C2 => self.write_dma_reg(1, 6, val),
            0x0C4 => self.write_dma_reg(1, 8, val),
            0x0C6 => self.write_dma_reg(1, 10, val),
            // DMA2
            0x0C8 => self.write_dma_reg(2, 0, val),
            0x0CA => self.write_dma_reg(2, 2, val),
            0x0CC => self.write_dma_reg(2, 4, val),
            0x0CE => self.write_dma_reg(2, 6, val),
            0x0D0 => self.write_dma_reg(2, 8, val),
            0x0D2 => self.write_dma_reg(2, 10, val),
            // DMA3
            0x0D4 => self.write_dma_reg(3, 0, val),
            0x0D6 => self.write_dma_reg(3, 2, val),
            0x0D8 => self.write_dma_reg(3, 4, val),
            0x0DA => self.write_dma_reg(3, 6, val),
            0x0DC => self.write_dma_reg(3, 8, val),
            0x0DE => self.write_dma_reg(3, 10, val),
            // Timers
            0x100 => self.write_timer_reg(0, 0, val),
            0x102 => self.write_timer_reg(0, 2, val),
            0x104 => self.write_timer_reg(1, 0, val),
            0x106 => self.write_timer_reg(1, 2, val),
            0x108 => self.write_timer_reg(2, 0, val),
            0x10A => self.write_timer_reg(2, 2, val),
            0x10C => self.write_timer_reg(3, 0, val),
            0x10E => self.write_timer_reg(3, 2, val),
            0x200 => self.ie = val,
            0x202 => self.irq_flags &= !val,
            0x208 => self.ime = val & 1,
            0x300 => self.postflg = val as u8,
            0x301 => self.halted = true,
            _ => {}
        }
    }

    /// Write one DMA register (see `dma_reg_spec`).
    fn write_dma_reg(&mut self, ch: usize, off: u32, val: u16)
        requires ch < 4, off == 0 || off == 2 || off == 4 || off == 6 || off == 8 || off == 10,
        ensures *final(self) == old(self).dma_reg_spec(ch as int, off as int, val),
    {
        let mut c = self.dma.channels[ch];
        let src_mask: u32 = if ch == 0 { 0x07FF } else { 0x0FFF };
        let dst_mask: u32 = if ch == 3 { 0x0FFF } else { 0x07FF };
        if off == 0 {
            c.src = (c.src & !0xFFFF) | val as u32;
        } else if off == 2 {
            c.src = (c.src & 0xFFFF) | ((val as u32 & src_mask) << 16);
        } else if off == 4 {
            c.dst = (c.dst & !0xFFFF) | val as u32;
        } else if off == 6 {
            c.dst = (c.dst & 0xFFFF) | ((val as u32 & dst_mask) << 16);
        } else if off == 8 {
            c.count = val;
        } else {
            let was_off = !c.enabled();
            c.ctrl = val;
            if was_off && c.enabled() {
                c.latch(ch);
            }
        }
        self.dma.channels[ch] = c;
    }

    /// Write one timer register (see `timer_reg_spec`).
    fn write_timer_reg(&mut self, t: usize, off: u32, val: u16)
        requires t < 4, off == 0 || off == 2,
        ensures *final(self) == old(self).timer_reg_spec(t as int, off as int, val),
    {
        let mut tm = self.timers.timers[t];
        if off == 0 {
            tm.reload = val;
        } else {
            let was_off = !tm.enabled();
            tm.ctrl = val;
            if was_off && tm.enabled() {
                tm.counter = tm.reload;
                tm.cycles = 0;
            }
        }
        self.timers.timers[t] = tm;
    }
}

/// Writing IF (0x04000202) acknowledges interrupts: every bit written as 1
/// is cleared and every other bit is kept. Writing DISPSTAT (0x04000004)
/// leaves its three status bits (VBlank, HBlank, VCount match) as they were
/// and takes the other bits from the value written.
pub proof fn lemma_io_acknowledge_and_status(io: IoRegisters, v: u16)
    ensures
        io.write16_spec(0x0400_0202, v).irq_flags & v == 0,
        io.write16_spec(0x0400_0202, v).irq_flags | (io.irq_flags & v) == io.irq_flags,
        io.write16_spec(0x0400_0004, v).dispstat & 0x07 == io.dispstat & 0x07,
        io.write16_spec(0x0400_0004, v).dispstat & 0xFFF8 == v & 0xFFF8,
{
    let f = io.irq_flags;
    let d = io.dispstat;
    assert((f & !v) & v == 0 && (f & !v) | (f & v) == f
        && ((d & 0x07) | (v & 0xFFF8)) & 0x07 == d & 0x07
        && ((d & 0x07) | (v & 0xFFF8)) & 0xFFF8 == v & 0xFFF8) by (bit_vector);
}

} // verus!
