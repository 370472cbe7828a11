//! GBA DMA controller — 4 channels with priority DMA0 > DMA1 > DMA2 > DMA3.
//!
//! Each channel has: source addr, dest addr, word count, control register.
use vstd::prelude::*;
use vstd::array::spec_array_update;

verus! {

#[derive(Clone, Copy)]
pub struct DmaChannel {
    /// Source address (27/28 bits)
    pub src: u32,
    /// Destination address (27/28 bits)
    pub dst: u32,
    /// Word count (14 bits for DMA0-2, 16 bits for DMA3)
    pub count: u16,
    /// Control register
    pub ctrl: u16,
    /// Internal latched source
    pub internal_src: u32,
    /// Internal latched destination
    pub internal_dst: u32,
    /// Internal latched count
    pub internal_count: u32,
}

/// The memories a DMA transfer reads and writes.
pub struct DmaMem {
    pub ewram: Seq<u8>,
    pub iwram: Seq<u8>,
    pub vram: Seq<u8>,
    pub palette: Seq<u8>,
    pub oam: Seq<u8>,
}

impl DmaMem {
    /// The sizes of the GBA memories: EWRAM 256 KB, IWRAM 32 KB, VRAM 96 KB,
    /// palette and OAM 1 KB.
    pub open spec fn sized(self) -> bool {
        self.ewram.len() == 0x40000 && self.iwram.len() == 0x8000 && self.vram.len() == 0x18000
            && self.palette.len() == 0x400 && self.oam.len() == 0x400
    }
}

/// A little-endian halfword from two bytes.
pub open spec fn le16(lo: u8, hi: u8) -> u16 {
    (lo + 256 * hi) as u16
}

/// A 32-bit value reduced modulo 2^32.
pub open spec fn wrap32(x: int) -> u32 {
    (x % 0x1_0000_0000) as u32
}

/// VRAM offset with the upper 32 KB mirroring the lower half of the object area.
pub open spec fn vram_index(addr: u32) -> int {
    let a = (addr % 0x20000) / 2 * 2;
    if a >= 0x18000 { a - 0x8000 } else { a as int }
}

/// The halfword a DMA read at `addr` sees (the address is halfword-aligned).
#[verifier::opaque]
pub open spec fn read16_dma_spec(addr: u32, m: DmaMem, rom: Seq<u8>) -> u16 {
    let region = addr / 0x100_0000;
    if region == 0x02 {
        let a = (addr % 0x40000) / 2 * 2;
        le16(m.ewram[a], m.ewram[a + 1])
    } else if region == 0x03 {
        let a = (addr % 0x8000) / 2 * 2;
        le16(m.iwram[a], m.iwram[a + 1])
    } else if region == 0x06 {
        let a = vram_index(addr);
        le16(m.vram[a], m.vram[a + 1])
    } else if 0x08 <= region <= 0x0D {
        let a = (addr % 0x200_0000) / 2 * 2;
        le16(if a < rom.len() { rom[a] } else { 0 }, if a + 1 < rom.len() { rom[a + 1] } else { 0 })
    } else {
        0
    }
}

pub open spec fn read32_dma_spec(addr: u32, m: DmaMem, rom: Seq<u8>) -> u32 {
    (read16_dma_spec(addr, m, rom) + 0x10000 * read16_dma_spec(wrap32(addr + 2), m, rom)) as u32
}

/// The memories after a DMA halfword write at `addr`; other regions ignore it.
#[verifier::opaque]
pub open spec fn write16_dma_spec(m: DmaMem, addr: u32, val: u16) -> DmaMem {
    let region = addr / 0x100_0000;
    let lo = (val % 256) as u8;
    let hi = (val / 256) as u8;
    if region == 0x02 {
        let a = (addr % 0x40000) / 2 * 2;
        DmaMem { ewram: m.ewram.update(a, lo).update(a + 1, hi), ..m }
    } else if region == 0x03 {
        let a = (addr % 0x8000) / 2 * 2;
        DmaMem { iwram: m.iwram.update(a, lo).update(a + 1, hi), ..m }
    } else if region == 0x05 {
        let a = (addr % 0x400) / 2 * 2;
        DmaMem { palette: m.palette.update(a, lo).update(a + 1, hi), ..m }
    } else if region == 0x06 {
        let a = vram_index(addr);
        DmaMem { vram: m.vram.update(a, lo).update(a + 1, hi), ..m }
    } else if region == 0x07 {
        let a = (addr % 0x400) / 2 * 2;
        DmaMem { oam: m.oam.update(a, lo).update(a + 1, hi), ..m }
    } else {
        m
    }
}

pub open spec fn write32_dma_spec(m: DmaMem, addr: u32, val: u32) -> DmaMem {
    write16_dma_spec(write16_dma_spec(m, addr, (val % 0x10000) as u16), wrap32(addr + 2), (val / 0x10000) as u16)
}

/// `n` units copied from `src` to `dst`, stepping the addresses by `sa` and
/// `da` (two's-complement steps) after each unit: the memories and the final
/// addresses.
pub open spec fn dma_copy(m: DmaMem, rom: Seq<u8>, src: u32, dst: u32, n: nat, word32: bool, sa: int, da: int) -> (DmaMem, u32, u32)
    decreases n,
{
    if n == 0 {
        (m, src, dst)
    } else {
        let (m1, s1, d1) = dma_copy(m, rom, src, dst, (n - 1) as nat, word32, sa, da);
        let m2 = if word32 {
            write32_dma_spec(m1, d1, read32_dma_spec(s1, m1, rom))
        } else {
            write16_dma_spec(m1, d1, read16_dma_spec(s1, m1, rom))
        };
        (m2, wrap32(s1 + sa), wrap32(d1 + da))
    }
}

impl DmaChannel {
    /// Address step direction by the 2-bit control field: increment,
    /// decrement, fixed; 3 counts as increment.
    pub open spec fn adjust_spec(field: u16) -> int {
        if field == 1 { -1 } else if field == 2 { 0 } else { 1 }
    }

    /// The channel after a transfer of its latched count: the latched
    /// addresses advance; a non-repeating channel disables itself, a
    /// repeating one with destination reload reloads its destination.
    pub open spec fn after_transfer(self, src: u32, dst: u32) -> DmaChannel {
        let c = DmaChannel { internal_src: src, internal_dst: dst, ..self };
        if self.ctrl & 0x0200 == 0 {
            DmaChannel { ctrl: self.ctrl & !0x8000u16, ..c }
        } else if (self.ctrl / 32) % 4 == 3 {
            DmaChannel { internal_dst: self.dst, ..c }
        } else {
            c
        }
    }

    /// The channel with its registers latched; a zero count means the
    /// maximum (0x10000 on DMA3, 0x4000 otherwise).
    pub open spec fn latch_spec(self, ch: int) -> DmaChannel {
        DmaChannel {
            internal_src: self.src,
            internal_dst: self.dst,
            internal_count: if self.count == 0 { if ch == 3 { 0x10000 } else { 0x4000 } } else { self.count as u32 },
            ..self
        }
    }

    pub open spec fn new_spec() -> DmaChannel {
        DmaChannel { src: 0, dst: 0, count: 0, ctrl: 0, internal_src: 0, internal_dst: 0, internal_count: 0 }
    }

    pub fn new() -> (r: Self)
        ensures r == DmaChannel::new_spec(),
    {
        DmaChannel { src: 0, dst: 0, count: 0, ctrl: 0, internal_src: 0, internal_dst: 0, internal_count: 0 }
    }

    pub fn enabled(&self) -> (r: bool)
        ensures r == (self.ctrl & 0x8000 != 0),
    {
        self.ctrl & 0x8000 != 0
    }

    pub fn timing(&self) -> (r: u8)
        ensures r == (self.ctrl / 0x1000) % 4,
    {
        ((self.ctrl / 0x1000) % 4) as u8
    }

    pub fn irq_enabled(&self) -> (r: bool)
        ensures r == (self.ctrl & 0x4000 != 0),
    {
        self.ctrl & 0x4000 != 0
    }

    pub fn is_32bit(&self) -> (r: bool)
        ensures r == (self.ctrl & 0x0400 != 0),
    {
        self.ctrl & 0x0400 != 0
    }

    pub fn repeat(&self) -> (r: bool)
        ensures r == (self.ctrl & 0x0200 != 0),
    {
        self.ctrl & 0x0200 != 0
    }

    fn src_adjust(&self) -> (r: i32)
        ensures r == DmaChannel::adjust_spec((self.ctrl / 128) % 4),
    {
        match (self.ctrl / 128) % 4 {
            0 => 1,  // Increment
            1 => -1, // Decrement
            2 => 0,  // Fixed
            _ => 1,  // Prohibited (treat as increment)
        }
    }

    fn dst_adjust(&self) -> (r: i32)
        ensures r == DmaChannel::adjust_spec((self.ctrl / 32) % 4),
    {
        match (self.ctrl / 32) % 4 {
            0 => 1,  // Increment
            1 => -1, // Decrement
            2 => 0,  // Fixed
            _ => 1,  // Increment/Reload (reloads dst on repeat)
        }
    }

    /// Latch source/dest/count when DMA is first enabled.
    pub fn latch(&mut self, ch: usize)
        ensures *final(self) == old(self).latch_spec(ch as int),
    {
        self.internal_src = self.src;
        self.internal_dst = self.dst;
        self.internal_count = if self.count == 0 {
            if ch == 3 { 0x10000 } else { 0x4000 }
        } else {
            self.count as u32
        };
    }
}

pub struct DmaController {
    pub channels: [DmaChannel; 4],
}

/// The view of five memory slices as a `DmaMem`.
pub open spec fn mem_of(ewram: Seq<u8>, iwram: Seq<u8>, vram: Seq<u8>, palette: Seq<u8>, oam: Seq<u8>) -> DmaMem {
    DmaMem { ewram, iwram, vram, palette, oam }
}

/// Immediate channels from `ch` on run in order, starting from `cyc`
/// cycles and IRQ bits `irqs`: the controller, the memories, the cycles
/// spent and the DMA IRQ bits raised (bit `8+ch`).
pub open spec fn run_from(d: DmaController, m: DmaMem, rom: Seq<u8>, ch: nat, cyc: u32, irqs: u16) -> (DmaController, DmaMem, u32, u16)
    decreases 4 - ch,
{
    if ch >= 4 {
        (d, m, cyc, irqs)
    } else {
        let c = d.channels[ch as int];
        if c.ctrl & 0x8000 == 0 || (c.ctrl / 0x1000) % 4 != 0 {
            run_from(d, m, rom, ch + 1, cyc, irqs)
        } else {
            let (d1, m1, c1, irq) = d.channel_spec(ch as int, m, rom);
            run_from(d1, m1, rom, ch + 1, wrap32(cyc + c1), if irq { irqs | (1u16 << (8 + ch) as u16) } else { irqs })
        }
    }
}

/// A halfword write leaves the memory sizes alone.
pub proof fn lemma_write16_dma_sized(m: DmaMem, addr: u32, val: u16)
    requires m.sized(),
    ensures write16_dma_spec(m, addr, val).sized(),
{
    reveal(write16_dma_spec);
}

/// A copy leaves the memory sizes alone.
pub proof fn lemma_dma_copy_sized(m: DmaMem, rom: Seq<u8>, src: u32, dst: u32, n: nat, word32: bool, sa: int, da: int)
    requires m.sized(),
    ensures dma_copy(m, rom, src, dst, n, word32, sa, da).0.sized(),
    decreases n,
{
    if n > 0 {
        let (m1, s1, d1) = dma_copy(m, rom, src, dst, (n - 1) as nat, word32, sa, da);
        lemma_dma_copy_sized(m, rom, src, dst, (n - 1) as nat, word32, sa, da);
        if word32 {
            let v = read32_dma_spec(s1, m1, rom);
            lemma_write16_dma_sized(m1, d1, (v % 0x10000) as u16);
            lemma_write16_dma_sized(write16_dma_spec(m1, d1, (v % 0x10000) as u16), wrap32(d1 + 2), (v / 0x10000) as u16);
        } else {
            lemma_write16_dma_sized(m1, d1, read16_dma_spec(s1, m1, rom));
        }
    }
}

impl DmaController {
    /// One channel's transfer of its latched count (capped at 0x10000):
    /// the controller, the memories, the cycles (2 per word, 1 per
    /// halfword) and whether it raises its IRQ.
    #[verifier::opaque]
    pub open spec fn channel_spec(self, ch: int, m: DmaMem, rom: Seq<u8>) -> (DmaController, DmaMem, u32, bool) {
        let c = self.channels[ch];
        let word32 = c.ctrl & 0x0400 != 0;
        let step: int = if word32 { 4 } else { 2 };
        let count = if c.internal_count < 0x10000 { c.internal_count } else { 0x10000 };
        let (m1, s, d) = dma_copy(m, rom, c.internal_src, c.internal_dst, count as nat, word32,
            DmaChannel::adjust_spec((c.ctrl / 128) % 4) * step, DmaChannel::adjust_spec((c.ctrl / 32) % 4) * step);
        (DmaController { channels: spec_array_update(self.channels, ch, c.after_transfer(s, d)) }, m1,
            (count * if word32 { 2u32 } else { 1u32 }) as u32, c.ctrl & 0x4000 != 0)
    }

    pub fn new() -> (r: Self)
        ensures forall|i: int| 0 <= i < 4 ==> r.channels@[i] == DmaChannel::new_spec(),
    {
        DmaController { channels: [DmaChannel::new(), DmaChannel::new(), DmaChannel::new(), DmaChannel::new()] }
    }

    /// Execute any pending immediate DMA transfers.
    /// Returns cycles consumed and IRQ flags to raise.
    pub fn run_immediate(
        &mut self,
        ewram: &mut [u8],
        iwram: &mut [u8],
        vram: &mut [u8],
        palette: &mut [u8],
        oam: &mut [u8],
        rom: &[u8],
    ) -> (r: (u32, u16))
        requires
            mem_of(old(ewram)@, old(iwram)@, old(vram)@, old(palette)@, old(oam)@).sized(),
        ensures
            ({
                let (d, m, cyc, irqs) = run_from(*old(self), mem_of(old(ewram)@, old(iwram)@, old(vram)@, old(palette)@, old(oam)@), rom@, 0, 0, 0);
                &&& *final(self) == d
                &&& mem_of(final(ewram)@, final(iwram)@, final(vram)@, final(palette)@, final(oam)@) == m
                &&& r == (cyc, irqs)
            }),
            mem_of(final(ewram)@, final(iwram)@, final(vram)@, final(palette)@, final(oam)@).sized(),
    {
        let mut cycles = 0u32;
        let mut irqs = 0u16;
        let mut ch: usize = 0;
        while ch < 4
            invariant
                ch <= 4,
                mem_of(ewram@, iwram@, vram@, palette@, oam@).sized(),
                run_from(*old(self), mem_of(old(ewram)@, old(iwram)@, old(vram)@, old(palette)@, old(oam)@), rom@, 0, 0, 0)
                    == run_from(*self, mem_of(ewram@, iwram@, vram@, palette@, oam@), rom@, ch as nat, cycles, irqs),
                cycles <= 0x20000 * ch,
            decreases 4 - ch,
        {
            if !self.channels[ch].enabled() || self.channels[ch].timing() != 0 {
                // Not immediate or not enabled
                ch += 1;
                continue;
            }
            let (c, irq) = self.execute_channel(ch, ewram, iwram, vram, palette, oam, rom);
            assert(wrap32(cycles + c) == cycles + c);
            cycles += c;
            if irq {
                // DMA IRQ flags are bits 8-11
                irqs |= 1u16 << (8 + ch as u16);
            }
            ch += 1;
        }
        (cycles, irqs)
    }

    /// Execute a specific DMA channel transfer.
    fn execute_channel(
        &mut self,
        ch: usize,
        ewram: &mut [u8],
        iwram: &mut [u8],
        vram: &mut [u8],
        palette: &mut [u8],
        oam: &mut [u8],
        rom: &[u8],
    ) -> (r: (u32, bool))
        requires
            ch < 4,
            mem_of(old(ewram)@, old(iwram)@, old(vram)@, old(palette)@, old(oam)@).sized(),
        ensures
            ({
                let (d, m, cyc, irq) = old(self).channel_spec(ch as int, mem_of(old(ewram)@, old(iwram)@, old(vram)@, old(palette)@, old(oam)@), rom@);
                &&& *final(self) == d
                &&& mem_of(final(ewram)@, final(iwram)@, final(vram)@, final(palette)@, final(oam)@) == m
                &&& r == (cyc, irq)
            }),
            r.0 <= 0x20000,
            mem_of(final(ewram)@, final(iwram)@, final(vram)@, final(palette)@, final(oam)@).sized(),
    {
        proof { reveal(DmaController::channel_spec); }
        let mut channel = self.channels[ch];
        let word32 = channel.is_32bit();
        let step = if word32 { 4u32 } else { 2u32 };
        let src_adj = channel.src_adjust() * step as i32;
        let dst_adj = channel.dst_adjust() * step as i32;
        // Cap to prevent runaway transfers
        let count = if channel.internal_count < 0x10000 { channel.internal_count } else { 0x10000 };
        let mut src = channel.internal_src;
        let mut dst = channel.internal_dst;
        let ghost m0 = mem_of(ewram@, iwram@, vram@, palette@, oam@);
        let mut i: u32 = 0;
        while i < count
            invariant
                i <= count <= 0x10000,
                mem_of(ewram@, iwram@, vram@, palette@, oam@).sized(),
                (mem_of(ewram@, iwram@, vram@, palette@, oam@), src, dst)
                    == dma_copy(m0, rom@, channel.internal_src, channel.internal_dst, i as nat, word32, src_adj as int, dst_adj as int),
                -4 <= src_adj <= 4,
                -4 <= dst_adj <= 4,
                m0.sized(),
            decreases count - i,
        {
            if word32 {
                let val = read32_dma(src, ewram, iwram, vram, rom);
                write32_dma(dst, val, ewram, iwram, vram, palette, oam);
            } else {
                let val = read16_dma(src, ewram, iwram, vram, rom);
                write16_dma(dst, val, ewram, iwram, vram, palette, oam);
            }
            src = step_addr(src, src_adj);
            dst = step_addr(dst, dst_adj);
            i += 1;
        }
        channel.internal_src = src;
        channel.internal_dst = dst;
        let irq = channel.irq_enabled();
        if !channel.repeat() {
            // Disable after transfer
            channel.ctrl &= !0x8000;
        } else if (channel.ctrl / 32) % 4 == 3 {
            // Dst reload on repeat
            channel.internal_dst = channel.dst;
        }
        self.channels[ch] = channel;
        (count * if word32 { 2 } else { 1 }, irq)
    }
}

/// An address moved by a small signed step, wrapping around.
fn step_addr(a: u32, adj: i32) -> (r: u32)
    requires -4 <= adj <= 4,
    ensures r == wrap32(a + adj),
{
    if adj >= 0 { a.wrapping_add(adj as u32) } else { a.wrapping_sub((-adj) as u32) }
}

// Simplified DMA memory access (bypasses full bus routing)
fn read16_dma(addr: u32, ewram: &[u8], iwram: &[u8], vram: &[u8], rom: &[u8]) -> (r: u16)
    requires ewram@.len() == 0x40000, iwram@.len() == 0x8000, vram@.len() == 0x18000,
    ensures
        forall|m: DmaMem| m.ewram == ewram@ && m.iwram == iwram@ && m.vram == vram@
            ==> r == #[trigger] read16_dma_spec(addr, m, rom@),
{
    proof { reveal(read16_dma_spec); }
    let region = addr / 0x100_0000;
    if region == 0x02 {
        let a = ((addr % 0x40000) / 2 * 2) as usize;
        ewram[a] as u16 + 256 * ewram[a + 1] as u16
    } else if region == 0x03 {
        let a = ((addr % 0x8000) / 2 * 2) as usize;
        iwram[a] as u16 + 256 * iwram[a + 1] as u16
    } else if region == 0x06 {
        let a = ((addr % 0x20000) / 2 * 2) as usize;
        let a = if a >= 0x18000 { a - 0x8000 } else { a };
        vram[a] as u16 + 256 * vram[a + 1] as u16
    } else if 0x08 <= region && region <= 0x0D {
        let a = ((addr % 0x200_0000) / 2 * 2) as usize;
        let lo = if a < rom.len() { rom[a] } else { 0 };
        let hi = if a + 1 < rom.len() { rom[a + 1] } else { 0 };
        lo as u16 + 256 * hi as u16
    } else {
        0
    }
}

fn read32_dma(addr: u32, ewram: &[u8], iwram: &[u8], vram: &[u8], rom: &[u8]) -> (r: u32)
    requires ewram@.len() == 0x40000, iwram@.len() == 0x8000, vram@.len() == 0x18000,
    ensures
        forall|m: DmaMem| m.ewram == ewram@ && m.iwram == iwram@ && m.vram == vram@
            ==> r == #[trigger] read32_dma_spec(addr, m, rom@),
{
    let lo = read16_dma(addr, ewram, iwram, vram, rom) as u32;
    let hi = read16_dma(addr.wrapping_add(2), ewram, iwram, vram, rom) as u32;
    lo + 0x10000 * hi
}

fn write16_dma(addr: u32, val: u16, ewram: &mut [u8], iwram: &mut [u8], vram: &mut [u8], palette: &mut [u8], oam: &mut [u8])
    requires mem_of(old(ewram)@, old(iwram)@, old(vram)@, old(palette)@, old(oam)@).sized(),
    ensures
        mem_of(final(ewram)@, final(iwram)@, final(vram)@, final(palette)@, final(oam)@)
            == write16_dma_spec(mem_of(old(ewram)@, old(iwram)@, old(vram)@, old(palette)@, old(oam)@), addr, val),
        mem_of(final(ewram)@, final(iwram)@, final(vram)@, final(palette)@, final(oam)@).sized(),
{
    proof { reveal(write16_dma_spec); }
    let lo = (val % 256) as u8;
    let hi = (val / 256) as u8;
    let region = addr / 0x100_0000;
    if region == 0x02 {
        let a = ((addr % 0x40000) / 2 * 2) as usize;
        ewram[a] = lo;
        ewram[a + 1] = hi;
    } else if region == 0x03 {
        let a = ((addr % 0x8000) / 2 * 2) as usize;
        iwram[a] = lo;
        iwram[a + 1] = hi;
    } else if region == 0x05 {
        let a = ((addr % 0x400) / 2 * 2) as usize;
        palette[a] = lo;
        palette[a + 1] = hi;
    } else if region == 0x06 {
        let mut a = ((addr % 0x20000) / 2 * 2) as usize;
        if a >= 0x18000 {
            a -= 0x8000;
        }
        vram[a] = lo;
        vram[a + 1] = hi;
    } else if region == 0x07 {
        let a = ((addr % 0x400) / 2 * 2) as usize;
        oam[a] = lo;
        oam[a + 1] = hi;
    }
}

fn write32_dma(addr: u32, val: u32, ewram: &mut [u8], iwram: &mut [u8], vram: &mut [u8], palette: &mut [u8], oam: &mut [u8])
    requires mem_of(old(ewram)@, old(iwram)@, old(vram)@, old(palette)@, old(oam)@).sized(),
    ensures
        mem_of(final(ewram)@, final(iwram)@, final(vram)@, final(palette)@, final(oam)@)
            == write32_dma_spec(mem_of(old(ewram)@, old(iwram)@, old(vram)@, old(palette)@, old(oam)@), addr, val),
        mem_of(final(ewram)@, final(iwram)@, final(vram)@, final(palette)@, final(oam)@).sized(),
{
    proof { lemma_write16_dma_sized(mem_of(ewram@, iwram@, vram@, palette@, oam@), addr, (val % 0x10000) as u16); }
    write16_dma(addr, (val % 0x10000) as u16, ewram, iwram, vram, palette, oam);
    write16_dma(addr.wrapping_add(2), (val / 0x10000) as u16, ewram, iwram, vram, palette, oam);
}

} // verus!
