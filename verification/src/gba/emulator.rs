//! The GBA system: CPU, bus, PPU and APU together, with save states.
use vstd::prelude::*;
use super::apu::{Apu, MixInput, ring_available, samples_stored};
use super::arm7tdmi::{Arm7Tdmi, CpuMode, I_FLAG};
use super::dma::{run_from, mem_of};
use super::ppu::{PpuView, tick_loop, lemma_tick_loop_io, CYCLES_PER_FRAME, TOTAL_LINES, CYCLES_PER_SCANLINE};
use super::ppu::obj::lemma_full_oam_reads_ok;
use super::timer::{Timer, TimerController, tick_upto, lemma_tick_upto_bounded};
use vstd::array::spec_array_update;
use super::bus::{Bus, BusView};
use super::cartridge::CartView;
use super::io::IoRegisters;
use super::io_state::{IO_WORDS, io_words, io_restore, io_word_array, restore_io, lemma_io_words_roundtrip,
    lemma_io_restore_timers_wf};
use super::ppu::Ppu;
use crate::cartridge::{text_field, title_chars};
use crate::savestate::{le16, le32, from_le16, from_le32, push_u16, push_u32, lemma_u16_roundtrip, lemma_u32_roundtrip};

verus! {

pub struct GbaEmulator {
    pub cpu: Arm7Tdmi,
    pub bus: Bus,
    pub ppu: Ppu,
    pub apu: Apu,
}

/// Output samples stored by one APU advance: `count` left/right pairs in
/// the ring from slot `start` on, all mixed from `input`.
#[derive(Clone, Copy, PartialEq, Eq, Structural, Debug)]
pub struct SampleBatch {
    pub start: usize,
    pub count: usize,
    pub input: MixInput,
}

/// The whole system as the specifications see it.
pub struct SystemView {
    pub cpu: Arm7Tdmi,
    pub bus: BusView,
    pub ppu: PpuView,
    pub apu: Apu,
}

/// The four timers set to the states `ts`.
pub open spec fn timer_array(a: [Timer; 4], ts: Seq<Timer>) -> [Timer; 4] {
    spec_array_update(spec_array_update(spec_array_update(spec_array_update(a, 0, ts[0]), 1, ts[1]), 2, ts[2]), 3, ts[3])
}

/// The APU after the overflows of timers 0 and 1 among the timer IRQ bits
/// `irqs` (bits 3 and 4), in that order.
pub open spec fn overflow_apu(a: Apu, irqs: u16) -> Apu {
    let a1 = if irqs & 0x08 != 0 { a.timer_overflow_spec(0) } else { a };
    if irqs & 0x10 != 0 { a1.timer_overflow_spec(1) } else { a1 }
}

/// How many left/right pairs an APU advance of `cycles` stores.
pub open spec fn stored_pairs(a: Apu, cycles: u32) -> int {
    if a.soundcnt_x & 0x80 == 0 { 0 } else {
        samples_stored(ring_available(a.write_pos as int, a.read_pos as int), (a.sample_clock + cycles) / 512)
    }
}

/// A frame lasts 228 lines of 1232 cycles.
proof fn lemma_frame_length()
    ensures CYCLES_PER_FRAME == 280896,
{
    assert(TOTAL_LINES == 228 && CYCLES_PER_SCANLINE == 1232);
    assert(TOTAL_LINES * CYCLES_PER_SCANLINE == 280896) by (nonlinear_arith)
        requires TOTAL_LINES == 228, CYCLES_PER_SCANLINE == 1232;
}

/// The CPU instruction and the PPU run for its cycles (raising the PPU's
/// IRQ bits): the system after them and the cycles spent.
pub open spec fn video_phase(s: SystemView) -> (SystemView, u32) {
    let (cpu1, bus1, cycles) = s.cpu.step_spec(s.bus);
    let (ppu2, io2) = tick_loop(PpuView { pending_irqs: 0, ..s.ppu }, bus1.io, bus1.vram, bus1.palette, bus1.oam, cycles);
    let io3 = if ppu2.pending_irqs != 0 { IoRegisters { irq_flags: io2.irq_flags | ppu2.pending_irqs, ..io2 } } else { io2 };
    (SystemView { cpu: cpu1, bus: BusView { io: io3, ..bus1 }, ppu: ppu2, apu: s.apu }, cycles)
}

/// The APU after taking the sound register writes pending in the I/O
/// registers: SOUNDCNT_H (with SOUNDCNT_L, SOUNDCNT_X and SOUNDBIAS) when it
/// was written, then the pending PSG register write, then the pending FIFO A
/// and FIFO B words; and the registers with each of those marked as taken.
pub open spec fn sound_flush(a: Apu, io: IoRegisters) -> (Apu, IoRegisters) {
    let (a1, io1) = if io.soundcnt_h_dirty {
        let h = io.soundcnt_h;
        (Apu {
            fifo_a: if h & 0x0800 != 0 { a.fifo_a.reset_spec() } else { a.fifo_a },
            fifo_b: if h & 0x8000 != 0 { a.fifo_b.reset_spec() } else { a.fifo_b },
            soundcnt_h: h & !0x8800u16,
            soundcnt_l: io.soundcnt_l,
            soundcnt_x: io.soundcnt_x,
            soundbias: io.soundbias,
            ..a
        }, IoRegisters { soundcnt_h_dirty: false, ..io })
    } else {
        (a, io)
    };
    let (a2, io2) = match io1.psg_pending {
        Some(p) => (a1.psg_write_spec(p.0, p.1), IoRegisters { psg_pending: None, ..io1 }),
        None => (a1, io1),
    };
    let (a3, io3) = match io2.fifo_a_pending {
        Some(d) => (Apu { fifo_a: a2.fifo_a.push_bytes_spec(d, 4), ..a2 }, IoRegisters { fifo_a_pending: None, ..io2 }),
        None => (a2, io2),
    };
    match io3.fifo_b_pending {
        Some(d) => (Apu { fifo_b: a3.fifo_b.push_bytes_spec(d, 4), ..a3 }, IoRegisters { fifo_b_pending: None, ..io3 }),
        None => (a3, io3),
    }
}

/// The timers advanced by `cycles` (raising their IRQ bits), with the
/// overflows of timers 0 and 1 popping the sound FIFOs.
pub open spec fn timer_phase(io: IoRegisters, a: Apu, cycles: u32) -> (IoRegisters, Apu) {
    let tk = tick_upto(io.timers.timers@, cycles, 4);
    let io4 = IoRegisters { timers: TimerController { timers: timer_array(io.timers.timers, tk.0) }, ..io };
    if tk.2 != 0 {
        (IoRegisters { irq_flags: io4.irq_flags | tk.2, ..io4 }, overflow_apu(a, tk.2))
    } else {
        (io4, a)
    }
}

/// The immediate DMA transfers run over the bus (raising their IRQ bits).
pub open spec fn dma_phase(b: BusView) -> BusView {
    let dm = run_from(b.io.dma, mem_of(b.ewram, b.iwram, b.vram, b.palette, b.oam), b.rom, 0, 0, 0);
    let io6 = IoRegisters { dma: dm.0, ..b.io };
    let io7 = if dm.3 != 0 { IoRegisters { irq_flags: io6.irq_flags | dm.3, ..io6 } } else { io6 };
    BusView { ewram: dm.1.ewram, iwram: dm.1.iwram, vram: dm.1.vram, palette: dm.1.palette, oam: dm.1.oam, io: io7, ..b }
}

/// The CPU after the IRQ check: the IRQ exception is taken when IME is on,
/// an enabled IRQ is pending and the CPSR allows IRQs.
pub open spec fn irq_phase(c: Arm7Tdmi, io: IoRegisters) -> Arm7Tdmi {
    if io.ime != 0 && io.irq_flags & io.ie != 0 && c.cpsr & I_FLAG == 0 {
        c.exception_spec(CpuMode::Irq, 0x18)
    } else {
        c
    }
}

/// One step of a frame: one CPU instruction and the PPU for its cycles; the
/// APU takes the pending sound register writes; the timers; the APU for the
/// cycles; the immediate DMA transfers; then the IRQ check. The system after
/// it, the cycles spent and the samples the APU stored.
#[verifier::opaque]
pub open spec fn frame_step(s: SystemView) -> (SystemView, u32, SampleBatch) {
    let (s1, cycles) = video_phase(s);
    let (apu_f, io_f) = sound_flush(s1.apu, s1.bus.io);
    let (io5, apu1) = timer_phase(io_f, apu_f, cycles);
    let apu2 = apu1.tick_spec(cycles);
    let batch = SampleBatch { start: apu1.write_pos, count: stored_pairs(apu1, cycles) as usize, input: apu2.mix_input_spec() };
    let bus7 = dma_phase(BusView { io: io5, ..s1.bus });
    (SystemView { cpu: irq_phase(s1.cpu, bus7.io), bus: bus7, ppu: s1.ppu, apu: apu2 }, cycles, batch)
}

/// The rest of a frame from `elapsed` cycles on: steps until the frame's
/// cycles are spent; each step that stored samples adds its batch to `log`.
pub open spec fn frame_from(s: SystemView, elapsed: int, log: Seq<SampleBatch>) -> (SystemView, Seq<SampleBatch>)
    decreases CYCLES_PER_FRAME - elapsed,
{
    if elapsed >= CYCLES_PER_FRAME {
        (s, log)
    } else {
        let (s2, c, b) = frame_step(s);
        let log2 = if b.count > 0 { log.push(b) } else { log };
        if c == 0 || elapsed + c >= CYCLES_PER_FRAME { (s2, log2) } else { frame_from(s2, elapsed + c, log2) }
    }
}

/// The little-endian bytes of a sequence of words.
pub open spec fn words(a: Seq<u32>) -> Seq<u8>
    decreases a.len(),
{
    if a.len() == 0 { Seq::empty() } else { words(a.drop_last()) + le32(a.last()) }
}

/// A 32-bit value from the front of a cursor: 0, with nothing consumed,
/// when fewer than four bytes remain.
pub open spec fn take32(c: Seq<u8>) -> (u32, Seq<u8>) {
    if c.len() < 4 { (0, c) } else { (from_le32(c), c.subrange(4, c.len() as int)) }
}

/// A 16-bit value from the front of a cursor (0 and nothing consumed when short).
pub open spec fn take16(c: Seq<u8>) -> (u16, Seq<u8>) {
    if c.len() < 2 { (0, c) } else { (from_le16(c), c.subrange(2, c.len() as int)) }
}

/// `n` 32-bit values from the front of a cursor.
pub open spec fn take_words(c: Seq<u8>, n: nat) -> (Seq<u32>, Seq<u8>)
    decreases n,
{
    if n == 0 {
        (Seq::empty(), c)
    } else {
        let (a, c1) = take_words(c, (n - 1) as nat);
        let (v, c2) = take32(c1);
        (a.push(v), c2)
    }
}

/// `n` bytes from the front of a cursor, or `None` (nothing consumed) when short.
pub open spec fn take_bytes(c: Seq<u8>, n: int) -> (Option<Seq<u8>>, Seq<u8>) {
    if c.len() < n { (None, c) } else { (Some(c.subrange(0, n)), c.subrange(n, c.len() as int)) }
}

/// What a save state holds, as `load_state` reads it.
pub struct LoadPlan {
    pub regs: Seq<u32>,
    pub cpsr: u32,
    pub r13: Seq<u32>,
    pub r14: Seq<u32>,
    pub spsr: Seq<u32>,
    pub fiq_r8_r12: Seq<u32>,
    pub usr_r8_r12: Seq<u32>,
    pub ewram: Option<Seq<u8>>,
    pub iwram: Option<Seq<u8>>,
    pub palette: Option<Seq<u8>>,
    pub vram: Option<Seq<u8>>,
    pub oam: Option<Seq<u8>>,
    pub sram: Option<Seq<u8>>,
    pub io: Seq<u16>,
    pub io_rest: Seq<u32>,
}

/// The CPU part of a save state: R0-R15, CPSR, then the banked R13, R14,
/// SPSR, FIQ R8-R12 and user R8-R12 sets; and what follows.
pub open spec fn plan_cpu(c: Seq<u8>) -> (Seq<u32>, u32, Seq<u32>, Seq<u32>, Seq<u32>, Seq<u32>, Seq<u32>, Seq<u8>) {
    let (regs, c1) = take_words(c, 16);
    let (cpsr, c2) = take32(c1);
    let (r13, c3) = take_words(c2, 6);
    let (r14, c4) = take_words(c3, 6);
    let (spsr, c5) = take_words(c4, 6);
    let (fiq, c6) = take_words(c5, 5);
    let (usr, c7) = take_words(c6, 5);
    (regs, cpsr, r13, r14, spsr, fiq, usr, c7)
}

/// The memory part: EWRAM, IWRAM, palette, VRAM and OAM blocks (each absent
/// when too short), then the length-prefixed SRAM; and what follows.
pub open spec fn plan_memory(c: Seq<u8>) -> (Seq<Option<Seq<u8>>>, Option<Seq<u8>>, Seq<u8>) {
    let (ewram, c8) = take_bytes(c, 0x40000);
    let (iwram, c9) = take_bytes(c8, 0x8000);
    let (palette, c10) = take_bytes(c9, 0x400);
    let (vram, c11) = take_bytes(c10, 0x18000);
    let (oam, c12) = take_bytes(c11, 0x400);
    let (sram_len, c13) = take32(c12);
    let (sram, c14) = take_bytes(c13, sram_len as int);
    (seq![ewram, iwram, palette, vram, oam], sram, c14)
}

/// The register part: DISPCNT, DISPSTAT, VCOUNT, IE, IF and IME.
pub open spec fn plan_io(c: Seq<u8>) -> Seq<u16> {
    let (dispcnt, d1) = take16(c);
    let (dispstat, d2) = take16(d1);
    let (vcount, d3) = take16(d2);
    let (ie, d4) = take16(d3);
    let (irq_flags, d5) = take16(d4);
    let (ime, _d6) = take16(d5);
    seq![dispcnt, dispstat, vcount, ie, irq_flags, ime]
}

/// What follows the six halfword registers.
pub open spec fn io_tail(c: Seq<u8>) -> Seq<u8> {
    take16(take16(take16(take16(take16(take16(c).1).1).1).1).1).1
}

/// Reads a save state: the CPU part, the memory part, then the registers.
/// A value that does not fit in what is left reads as 0 (a memory block as
/// absent) and consumes nothing.
pub open spec fn load_plan(data: Seq<u8>) -> LoadPlan {
    let (regs, cpsr, r13, r14, spsr, fiq, usr, c7) = plan_cpu(data);
    let (blocks, sram, c14) = plan_memory(c7);
    LoadPlan {
        regs, cpsr, r13, r14, spsr, fiq_r8_r12: fiq, usr_r8_r12: usr,
        ewram: blocks[0], iwram: blocks[1], palette: blocks[2], vram: blocks[3], oam: blocks[4], sram,
        io: plan_io(c14),
        io_rest: take_words(io_tail(c14), IO_WORDS as nat).0,
    }
}

/// `s` with its front overwritten by `d` (as much of it as fits).
pub open spec fn overwrite_front(s: Seq<u8>, d: Seq<u8>) -> Seq<u8> {
    Seq::new(s.len(), |i: int| if i < d.len() { d[i] } else { s[i] })
}

/// A memory block from a plan, or the current contents when it was absent.
pub open spec fn or_keep(b: Option<Seq<u8>>, cur: Seq<u8>) -> Seq<u8> {
    match b { Some(v) => v, None => cur }
}

impl GbaEmulator {
    /// Fixed memory sizes and the component invariants.
    pub open spec fn wf(&self) -> bool {
        &&& self.bus@.wf()
        &&& self.ppu@.wf()
        &&& self.apu.wf()
    }

    /// The system state.
    pub open spec fn sys(&self) -> SystemView {
        SystemView { cpu: self.cpu, bus: self.bus@, ppu: self.ppu@, apu: self.apu }
    }

    /// The bytes of a save state (see `load_plan` for the layout).
    pub open spec fn saved(&self) -> Seq<u8> {
        let b = self.cpu.banked;
        let bus = self.bus@;
        words(self.cpu.regs@) + le32(self.cpu.cpsr) + words(b.r13@) + words(b.r14@) + words(b.spsr@)
            + words(b.fiq_r8_r12@) + words(b.usr_r8_r12@)
            + bus.ewram + bus.iwram + bus.palette + bus.vram + bus.oam
            + le32(bus.cart.sram.len() as u32) + bus.cart.sram
            + le16(bus.io.dispcnt) + le16(bus.io.dispstat) + le16(bus.io.vcount) + le16(bus.io.ie)
            + le16(bus.io.irq_flags) + le16(bus.io.ime) + words(io_words(bus.io))
    }

    pub fn new(rom: &[u8]) -> (r: Self)
        ensures
            r.wf(),
            r.cpu.regs@ == Seq::new(16, |i: int| 0u32).update(13, 0x03007F00u32).update(15, 0x08000000u32),
            r.cpu.banked.is_reset(),
            r.bus@.rom == rom@,
            super::cartridge::fresh_cart(r.bus@.cart, rom@),
            r.bus@.ewram == Seq::new(0x40000, |i: int| 0u8),
            r.bus@.iwram == Seq::new(0x8000, |i: int| 0u8),
            r.cpu.cpsr == 0x1F | I_FLAG | super::arm7tdmi::F_FLAG,
            r.bus@.palette == Seq::new(0x400, |i: int| 0u8),
            r.bus@.vram == Seq::new(0x18000, |i: int| 0u8),
            r.bus@.oam == Seq::new(0x400, |i: int| 0u8),
            r.bus.io.is_reset(),
            r.bus.keypad.state == 0x03FF,
            r.ppu@.framebuffer == Seq::new(153600, |i: int| 0u8),
            r.ppu@.dot_cycles == 0, r.ppu@.line == 0, r.ppu@.pending_irqs == 0,
            !r.apu.psg_enabled, r.apu.soundcnt_l == 0, r.apu.soundcnt_h == 0, r.apu.soundcnt_x == 0,
            r.apu.soundbias == 0x0200, r.apu.fifo_a.count == 0, r.apu.fifo_b.count == 0,
            r.apu.write_pos == 0, r.apu.read_pos == 0, r.apu.sample_clock == 0,
    {
        GbaEmulator {
            cpu: Arm7Tdmi::new(),
            bus: Bus::new(vstd::slice::slice_to_vec(rom)),
            ppu: Ppu::new(),
            apu: Apu::new(),
        }
    }

    /// The 240×160 RGBA framebuffer.
    pub fn framebuffer(&self) -> (r: &[u8])
        ensures r@ == self.ppu@.framebuffer,
    {
        self.ppu.framebuffer_bytes()
    }

    /// Whether the cartridge has battery-backed memory.
    pub fn has_battery(&self) -> (r: bool)
        ensures r == (self.bus@.cart.sram.len() != 0),
    {
        self.bus.cart.sram.len() != 0
    }

    /// The ROM title: the header bytes 0xA0-0xAB (as many as the ROM has)
    /// up to the first zero, each byte as a character.
    pub fn title(&self) -> (r: String)
        ensures r@ == title_spec(self.bus@.rom),
    {
        let rom = self.bus.rom.as_slice();
        let end: usize = if rom.len() < 0xAC { rom.len() } else { 0xAC };
        let start: usize = if end < 0xA0 { end } else { 0xA0 };
        text_field(rom, start, end)
    }

    /// Register `n` (R0-R15), or 0 for any other number.
    pub fn cpu_reg(&self, n: u8) -> (r: u32)
        ensures r == (if n < 16 { self.cpu.regs[n as int] } else { 0 }),
    {
        if (n as usize) < 16 { self.cpu.regs[n as usize] } else { 0 }
    }

    pub fn cpu_cpsr(&self) -> (r: u32)
        ensures r == self.cpu.cpsr,
    {
        self.cpu.cpsr
    }

    /// A byte read through the bus.
    pub fn read_byte(&self, addr: u32) -> (r: u8)
        requires self.wf(),
        ensures r == self.bus@.read8_spec(addr),
    {
        self.bus.read8(addr)
    }

    /// A byte written through the bus.
    pub fn write_byte(&mut self, addr: u32, val: u8)
        requires old(self).wf(),
        ensures
            final(self).wf(),
            final(self).bus@ == old(self).bus@.write8_spec(addr, val),
            final(self).cpu == old(self).cpu, final(self).ppu@ == old(self).ppu@, final(self).apu == old(self).apu,
    {
        self.bus.write8(addr, val);
    }

    /// One CPU step (no other component advances).
    pub fn step(&mut self)
        requires old(self).wf(),
        ensures
            final(self).wf(),
            (final(self).cpu, final(self).bus@) == ({
                let (c, b, _cycles) = old(self).cpu.step_spec(old(self).bus@);
                (c, b)
            }),
            final(self).ppu@ == old(self).ppu@, final(self).apu == old(self).apu,
    {
        self.cpu.step(&mut self.bus);
    }

    /// Press or release keypad button `button` (0-9).
    pub fn set_button(&mut self, button: u8, pressed: bool)
        requires old(self).wf(),
        ensures
            final(self).wf(),
            final(self).bus@ == (BusView { keypad: super::keypad::Keypad {
                state: old(self).bus@.keypad.set_button_spec(button, pressed) }, ..old(self).bus@ }),
            final(self).cpu == old(self).cpu, final(self).ppu@ == old(self).ppu@, final(self).apu == old(self).apu,
    {
        self.bus.keypad.set_button(button, pressed);
    }

    /// The length of the battery-backed memory.
    pub fn battery_ram_len(&self) -> (r: usize)
        ensures r == self.bus@.cart.sram.len(),
    {
        self.bus.cart.sram.len()
    }

    /// Overwrites the front of the battery-backed memory with `data` (as
    /// much as fits).
    pub fn load_battery_ram(&mut self, data: &[u8])
        requires old(self).wf(),
        ensures
            final(self).wf(),
            final(self).bus@ == (BusView { cart: CartView { sram: overwrite_front(old(self).bus@.cart.sram, data@),
                ..old(self).bus@.cart }, ..old(self).bus@ }),
            final(self).cpu == old(self).cpu, final(self).ppu@ == old(self).ppu@, final(self).apu == old(self).apu,
    {
        let len = if data.len() < self.bus.cart.sram.len() { data.len() } else { self.bus.cart.sram.len() };
        copy_front(&mut self.bus.cart.sram, data, len);
        proof {
            assert(self.bus@.cart.sram =~= overwrite_front(old(self).bus@.cart.sram, data@));
        }
    }

    /// Runs one frame (see `frame_from`): the batches of output samples the
    /// APU stored, in order.
    pub fn run_frame(&mut self) -> (log: Vec<SampleBatch>)
        requires old(self).wf(),
        ensures
            final(self).wf(),
            (final(self).sys(), log@) == frame_from(old(self).sys(), 0, Seq::empty()),
    {
        let mut log: Vec<SampleBatch> = Vec::new();
        let mut cycles_this_frame: u32 = 0;
        let frame_cycles = CYCLES_PER_FRAME;
        assert(frame_cycles == 280896) by {
            lemma_frame_length();
        }
        while cycles_this_frame < frame_cycles
            invariant
                self.wf(),
                frame_cycles == CYCLES_PER_FRAME,
                frame_cycles == 280896,
                cycles_this_frame <= frame_cycles + 64,
                frame_from(self.sys(), cycles_this_frame as int, log@) == frame_from(old(self).sys(), 0, Seq::empty()),
            decreases frame_cycles + 64 - cycles_this_frame,
        {
            let cycles = self.frame_tick(&mut log);
            cycles_this_frame += cycles;
        }
        assert((self.sys(), log@) == frame_from(self.sys(), cycles_this_frame as int, log@));
        log
    }

    /// One step of a frame (see `frame_step`).
    fn frame_tick(&mut self, log: &mut Vec<SampleBatch>) -> (cycles: u32)
        requires old(self).wf(),
        ensures
            final(self).wf(),
            1 <= cycles <= 64,
            ({
                let (s2, c, b) = frame_step(old(self).sys());
                &&& final(self).sys() == s2
                &&& cycles == c
                &&& final(log)@ == (if b.count > 0 { old(log)@.push(b) } else { old(log)@ })
            }),
    {
        proof { reveal(frame_step); }
        let cycles = self.tick_video();
        self.flush_sound();
        self.tick_timers(cycles);
        let (start, stored) = self.apu.tick(cycles);
        if stored > 0 {
            let input = self.apu.mix_input();
            log.push(SampleBatch { start, count: stored, input });
        }
        self.run_dma();
        if self.bus.io.ime != 0 && self.bus.io.irq_flags & self.bus.io.ie != 0 && self.cpu.cpsr & I_FLAG == 0 {
            self.cpu.enter_exception(CpuMode::Irq, 0x18);
        }
        cycles
    }

    /// One CPU instruction, then the PPU for its cycles (see `video_phase`).
    fn tick_video(&mut self) -> (cycles: u32)
        requires old(self).wf(),
        ensures
            final(self).wf(),
            1 <= cycles <= 64,
            (final(self).sys(), cycles) == video_phase(old(self).sys()),
    {
        let ghost s = self.sys();
        let cycles = self.cpu.step(&mut self.bus);
        let ghost bus1 = self.bus@;
        let ghost ppu0 = PpuView { pending_irqs: 0, ..s.ppu };
        proof {
            lemma_full_oam_reads_ok(self.bus.oam@);
            lemma_tick_loop_io(ppu0, bus1.io, bus1.vram, bus1.palette, bus1.oam, cycles);
        }
        let ppu_irqs = self.ppu.tick(cycles, &mut self.bus.io, self.bus.vram.as_slice(), self.bus.palette.as_slice(),
            self.bus.oam.as_slice());
        if ppu_irqs != 0 {
            self.bus.io.irq_flags = self.bus.io.irq_flags | ppu_irqs;
        }
        cycles
    }

    /// Hands the pending sound register writes to the APU (see `sound_flush`).
    fn flush_sound(&mut self)
        requires old(self).wf(),
        ensures
            final(self).wf(),
            ({
                let (a, io) = sound_flush(old(self).apu, old(self).bus.io);
                final(self).sys() == (SystemView { apu: a, bus: BusView { io, ..old(self).bus@ }, ..old(self).sys() })
            }),
    {
        if self.bus.io.soundcnt_h_dirty {
            self.apu.write_soundcnt_h(self.bus.io.soundcnt_h);
            self.apu.soundcnt_l = self.bus.io.soundcnt_l;
            self.apu.soundcnt_x = self.bus.io.soundcnt_x;
            self.apu.soundbias = self.bus.io.soundbias;
            self.bus.io.soundcnt_h_dirty = false;
        }
        match self.bus.io.psg_pending {
            Some((offset, val)) => {
                self.bus.io.psg_pending = None;
                self.apu.write_psg_register(offset, val);
            }
            None => {}
        }
        match self.bus.io.fifo_a_pending {
            Some(data) => {
                self.bus.io.fifo_a_pending = None;
                self.apu.write_fifo_a(data);
            }
            None => {}
        }
        match self.bus.io.fifo_b_pending {
            Some(data) => {
                self.bus.io.fifo_b_pending = None;
                self.apu.write_fifo_b(data);
            }
            None => {}
        }
    }

    /// Advances the timers; overflows of timers 0 and 1 pop the sound FIFOs
    /// (see `timer_phase`).
    fn tick_timers(&mut self, cycles: u32)
        requires old(self).wf(), cycles <= 64,
        ensures
            final(self).wf(),
            ({
                let (io, a) = timer_phase(old(self).bus.io, old(self).apu, cycles);
                final(self).sys() == (SystemView { apu: a, bus: BusView { io, ..old(self).bus@ }, ..old(self).sys() })
            }),
    {
        let ghost io0 = self.bus.io;
        let timer_irqs = self.bus.io.timers.tick(cycles);
        let ghost tk = tick_upto(io0.timers.timers@, cycles, 4);
        proof {
            broadcast use vstd::array::group_array_axioms;
            lemma_tick_upto_bounded(io0.timers.timers@, cycles, 4);
            assert(self.bus.io.timers.timers =~= timer_array(io0.timers.timers, tk.0));
        }
        if timer_irqs != 0 {
            self.bus.io.irq_flags = self.bus.io.irq_flags | timer_irqs;
            if timer_irqs & 0x08 != 0 {
                self.apu.timer_overflow(0);
            }
            if timer_irqs & 0x10 != 0 {
                self.apu.timer_overflow(1);
            }
        }
    }

    /// Runs the immediate DMA transfers (see `dma_phase`).
    fn run_dma(&mut self)
        requires old(self).wf(),
        ensures
            final(self).wf(),
            final(self).sys() == (SystemView { bus: dma_phase(old(self).bus@), ..old(self).sys() }),
    {
        let (_, dma_irqs) = self.bus.io.dma.run_immediate(
            self.bus.ewram.as_mut_slice(),
            self.bus.iwram.as_mut_slice(),
            self.bus.vram.as_mut_slice(),
            self.bus.palette.as_mut_slice(),
            self.bus.oam.as_mut_slice(),
            self.bus.rom.as_slice(),
        );
        if dma_irqs != 0 {
            self.bus.io.irq_flags = self.bus.io.irq_flags | dma_irqs;
        }
    }

    /// Serialises the CPU, memories, cartridge SRAM and every I/O register
    /// (see `saved`).
    pub fn save_state(&self) -> (d: Vec<u8>)
        requires self.bus@.cart.sram.len() <= u32::MAX,
        ensures d@ == self.saved(),
    {
        let mut d: Vec<u8> = Vec::new();
        push_words(&mut d, &self.cpu.regs);
        push_u32(&mut d, self.cpu.cpsr);
        push_words(&mut d, &self.cpu.banked.r13);
        push_words(&mut d, &self.cpu.banked.r14);
        push_words(&mut d, &self.cpu.banked.spsr);
        push_words(&mut d, &self.cpu.banked.fiq_r8_r12);
        push_words(&mut d, &self.cpu.banked.usr_r8_r12);
        push_bytes(&mut d, self.bus.ewram.as_slice());
        push_bytes(&mut d, self.bus.iwram.as_slice());
        push_bytes(&mut d, self.bus.palette.as_slice());
        push_bytes(&mut d, self.bus.vram.as_slice());
        push_bytes(&mut d, self.bus.oam.as_slice());
        push_u32(&mut d, self.bus.cart.sram.len() as u32);
        push_bytes(&mut d, self.bus.cart.sram.as_slice());
        push_u16(&mut d, self.bus.io.dispcnt);
        push_u16(&mut d, self.bus.io.dispstat);
        push_u16(&mut d, self.bus.io.vcount);
        push_u16(&mut d, self.bus.io.ie);
        push_u16(&mut d, self.bus.io.irq_flags);
        push_u16(&mut d, self.bus.io.ime);
        let rest = io_word_array(&self.bus.io);
        push_words(&mut d, &rest);
        d
    }

    /// Restores a save state (see `load_plan`); memory blocks that are
    /// missing keep their contents, and the SRAM takes as much of the saved
    /// SRAM as fits.
    pub fn load_state(&mut self, data: &[u8])
        requires old(self).wf(),
        ensures final(self).wf(), load_post(*old(self), *final(self), data@),
    {
        let mut cur: &[u8] = data;
        load_cpu(&mut self.cpu, &mut cur);
        load_memory(&mut self.bus, &mut cur);
        let ghost c = cur@;
        let ghost io0 = self.bus.io;
        load_io(&mut self.bus.io, &mut cur);
        proof {
            let r = plan_io(c);
            lemma_io_restore_timers_wf(IoRegisters { dispcnt: r[0], dispstat: r[1], vcount: r[2], ie: r[3],
                irq_flags: r[4], ime: r[5], ..io0 }, take_words(io_tail(c), IO_WORDS as nat).0);
        }
    }
}

/// Reads the CPU part of a save state.
fn load_cpu(cpu: &mut Arm7Tdmi, cur: &mut &[u8])
    ensures ({
        let (regs, cpsr, r13, r14, spsr, fiq, usr, rest) = plan_cpu(old(cur)@);
        &&& final(cpu).regs@ == regs && final(cpu).cpsr == cpsr
        &&& final(cpu).banked.r13@ == r13 && final(cpu).banked.r14@ == r14 && final(cpu).banked.spsr@ == spsr
        &&& final(cpu).banked.fiq_r8_r12@ == fiq && final(cpu).banked.usr_r8_r12@ == usr
        &&& final(cur)@ == rest
    }),
{
    read_words(cur, &mut cpu.regs);
    cpu.cpsr = read_u32(cur);
    read_words(cur, &mut cpu.banked.r13);
    read_words(cur, &mut cpu.banked.r14);
    read_words(cur, &mut cpu.banked.spsr);
    read_words(cur, &mut cpu.banked.fiq_r8_r12);
    read_words(cur, &mut cpu.banked.usr_r8_r12);
}

/// Reads one memory block over `v` when it is present.
fn load_block(v: &mut Vec<u8>, cur: &mut &[u8], n: usize)
    requires old(v)@.len() == n, n > 0,
    ensures
        final(v)@ == or_keep(take_bytes(old(cur)@, n as int).0, old(v)@),
        final(cur)@ == take_bytes(old(cur)@, n as int).1,
{
    let block = read_bytes(cur, n);
    if block.len() == n {
        copy_front(v, block, n);
        assert(v@ =~= block@);
    }
}

/// Reads the memory part of a save state.
fn load_memory(bus: &mut Bus, cur: &mut &[u8])
    requires old(bus)@.wf(),
    ensures
        final(bus)@.wf(),
        ({
            let (blocks, sram, rest) = plan_memory(old(cur)@);
            let ob = old(bus)@;
            &&& final(bus)@ == (BusView {
                ewram: or_keep(blocks[0], ob.ewram),
                iwram: or_keep(blocks[1], ob.iwram),
                palette: or_keep(blocks[2], ob.palette),
                vram: or_keep(blocks[3], ob.vram),
                oam: or_keep(blocks[4], ob.oam),
                cart: CartView { sram: match sram { Some(d) => overwrite_front(ob.cart.sram, d), None => ob.cart.sram }, ..ob.cart },
                ..ob
            })
            &&& final(cur)@ == rest
        }),
{
    load_block(&mut bus.ewram, cur, 0x40000);
    load_block(&mut bus.iwram, cur, 0x8000);
    load_block(&mut bus.palette, cur, 0x400);
    load_block(&mut bus.vram, cur, 0x18000);
    load_block(&mut bus.oam, cur, 0x400);

    // Cart SRAM
    let sram_len = read_u32(cur) as usize;
    let sram_data = read_bytes(cur, sram_len);
    if sram_data.len() == sram_len {
        let copy_len = if sram_len < bus.cart.sram.len() { sram_len } else { bus.cart.sram.len() };
        copy_front(&mut bus.cart.sram, sram_data, copy_len);
    }
}

/// Reads the register part of a save state.
fn load_io(io: &mut IoRegisters, cur: &mut &[u8])
    ensures ({
        let r = plan_io(old(cur)@);
        let six = IoRegisters { dispcnt: r[0], dispstat: r[1], vcount: r[2], ie: r[3], irq_flags: r[4], ime: r[5], ..*old(io) };
        *final(io) == io_restore(six, take_words(io_tail(old(cur)@), IO_WORDS as nat).0)
    }),
{
    io.dispcnt = read_u16(cur);
    io.dispstat = read_u16(cur);
    io.vcount = read_u16(cur);
    io.ie = read_u16(cur);
    io.irq_flags = read_u16(cur);
    io.ime = read_u16(cur);
    let mut rest = [0u32; IO_WORDS];
    read_words(cur, &mut rest);
    restore_io(io, &rest);
}

/// `new` is `old` after loading `data`: the CPU registers, CPSR and banks,
/// the present memory blocks, the SRAM front and the I/O registers come
/// from the state; everything else is kept.
pub open spec fn load_post(old: GbaEmulator, new: GbaEmulator, data: Seq<u8>) -> bool {
    let p = load_plan(data);
    let ob = old.bus@;
    &&& new.cpu.regs@ == p.regs && new.cpu.cpsr == p.cpsr
    &&& new.cpu.banked.r13@ == p.r13 && new.cpu.banked.r14@ == p.r14 && new.cpu.banked.spsr@ == p.spsr
    &&& new.cpu.banked.fiq_r8_r12@ == p.fiq_r8_r12 && new.cpu.banked.usr_r8_r12@ == p.usr_r8_r12
    &&& new.bus@ == (BusView {
        ewram: or_keep(p.ewram, ob.ewram),
        iwram: or_keep(p.iwram, ob.iwram),
        palette: or_keep(p.palette, ob.palette),
        vram: or_keep(p.vram, ob.vram),
        oam: or_keep(p.oam, ob.oam),
        cart: CartView { sram: match p.sram { Some(d) => overwrite_front(ob.cart.sram, d), None => ob.cart.sram }, ..ob.cart },
        io: io_restore(IoRegisters { dispcnt: p.io[0], dispstat: p.io[1], vcount: p.io[2], ie: p.io[3],
            irq_flags: p.io[4], ime: p.io[5], ..ob.io }, p.io_rest),
        ..ob
    })
    &&& new.ppu@ == old.ppu@
    &&& new.apu == old.apu
}

/// A 32-bit value from the cursor (0, with nothing consumed, when short).
fn read_u32(cur: &mut &[u8]) -> (r: u32)
    ensures (r, final(cur)@) == take32(old(cur)@),
{
    if cur.len() < 4 {
        return 0;
    }
    let val = cur[0] as u32 + 256 * cur[1] as u32 + 65536 * cur[2] as u32 + 16777216 * cur[3] as u32;
    *cur = &cur[4..cur.len()];
    val
}

/// A 16-bit value from the cursor (0, with nothing consumed, when short).
fn read_u16(cur: &mut &[u8]) -> (r: u16)
    ensures (r, final(cur)@) == take16(old(cur)@),
{
    if cur.len() < 2 {
        return 0;
    }
    let val = cur[0] as u16 + 256 * cur[1] as u16;
    *cur = &cur[2..cur.len()];
    val
}

/// `n` bytes from the cursor, or none (nothing consumed) when short.
fn read_bytes<'a>(cur: &mut &'a [u8], n: usize) -> (r: &'a [u8])
    ensures
        take_bytes(old(cur)@, n as int).0 matches Some(b) ==> r@ == b,
        take_bytes(old(cur)@, n as int).0 is None ==> r@.len() == 0 && n != 0,
        final(cur)@ == take_bytes(old(cur)@, n as int).1,
{
    if cur.len() < n {
        return &cur[0..0];
    }
    let (head, tail) = (&cur[0..n], &cur[n..cur.len()]);
    *cur = tail;
    head
}

/// Fills an array with consecutive 32-bit values from the cursor.
fn read_words<const N: usize>(cur: &mut &[u8], a: &mut [u32; N])
    ensures (final(a)@, final(cur)@) == take_words(old(cur)@, N as nat),
{
    let ghost c0 = cur@;
    let mut i: usize = 0;
    while i < N
        invariant
            i <= N,
            a@.len() == N,
            (a@.subrange(0, i as int), cur@) == take_words(c0, i as nat),
        decreases N - i,
    {
        let ghost before = a@;
        let v = read_u32(cur);
        a[i] = v;
        proof {
            assert(a@.subrange(0, i + 1) =~= before.subrange(0, i as int).push(v));
        }
        i = i + 1;
    }
    proof { assert(a@.subrange(0, N as int) =~= a@); }
}

/// Appends the little-endian bytes of each word.
fn push_words(d: &mut Vec<u8>, a: &[u32])
    ensures final(d)@ == old(d)@ + words(a@),
{
    let ghost d0 = d@;
    let mut i: usize = 0;
    proof { assert(words(a@.subrange(0, 0)) =~= Seq::<u8>::empty()); assert(d0 + Seq::<u8>::empty() =~= d0); }
    while i < a.len()
        invariant
            i <= a@.len(),
            d@ == d0 + words(a@.subrange(0, i as int)),
        decreases a@.len() - i,
    {
        push_u32(d, a[i]);
        proof {
            let t = a@.subrange(0, i + 1);
            assert(t.drop_last() =~= a@.subrange(0, i as int));
            assert(t.last() == a@[i as int]);
            assert(d@ =~= d0 + words(t));
        }
        i = i + 1;
    }
    proof { assert(a@.subrange(0, a@.len() as int) =~= a@); }
}

/// Appends a byte block.
fn push_bytes(d: &mut Vec<u8>, s: &[u8])
    ensures final(d)@ == old(d)@ + s@,
{
    let ghost d0 = d@;
    let mut i: usize = 0;
    while i < s.len()
        invariant
            i <= s@.len(),
            d@ == d0 + s@.subrange(0, i as int),
        decreases s@.len() - i,
    {
        d.push(s[i]);
        i = i + 1;
        assert(d@ =~= d0 + s@.subrange(0, i as int));
    }
    assert(s@.subrange(0, s@.len() as int) =~= s@);
}

/// Copies the first `len` bytes of `data` over the front of `v`.
fn copy_front(v: &mut Vec<u8>, data: &[u8], len: usize)
    requires len <= data@.len(), len <= old(v)@.len(), len == data@.len() || len == old(v)@.len(),
    ensures final(v)@ == overwrite_front(old(v)@, data@),
{
    let ghost v0 = v@;
    let mut i: usize = 0;
    while i < len
        invariant
            i <= len, len <= data@.len(), len <= v0.len(), len == data@.len() || len == v0.len(),
            v@.len() == v0.len(),
            forall|k: int| 0 <= k < v0.len() ==> #[trigger] v@[k] == (if k < i { data@[k] } else { v0[k] }),
        decreases len - i,
    {
        v.set(i, data[i]);
        i = i + 1;
    }
    assert(v@ =~= overwrite_front(v0, data@));
}

/// The title: header bytes 0xA0-0xAB (as many as the ROM has), up to the
/// first zero byte, each byte as a character.
pub open spec fn title_spec(rom: Seq<u8>) -> Seq<char> {
    let end = if rom.len() < 0xAC { rom.len() as int } else { 0xAC };
    let start = if end < 0xA0 { end } else { 0xA0 };
    title_chars(rom.subrange(start, end))
}

/// A value written by `push_u32` reads back by `take32`, leaving what follows.
proof fn lemma_take32_le32(v: u32, rest: Seq<u8>)
    ensures take32(le32(v) + rest) == (v, rest),
{
    lemma_u32_roundtrip(v, rest);
}

/// A value written by `push_u16` reads back by `take16`, leaving what follows.
proof fn lemma_take16_le16(v: u16, rest: Seq<u8>)
    ensures take16(le16(v) + rest) == (v, rest),
{
    lemma_u16_roundtrip(v, rest);
}

/// A block reads back whole when the cursor starts with it.
proof fn lemma_take_bytes_front(b: Seq<u8>, rest: Seq<u8>)
    ensures take_bytes(b + rest, b.len() as int) == (Some(b), rest),
{
    assert((b + rest).subrange(0, b.len() as int) =~= b);
    assert((b + rest).subrange(b.len() as int, (b + rest).len() as int) =~= rest);
}

/// Words written by `push_words` read back by `take_words`, leaving what follows.
pub proof fn lemma_take_words(a: Seq<u32>, rest: Seq<u8>)
    ensures take_words(words(a) + rest, a.len()) == (a, rest),
    decreases a.len(),
{
    if a.len() == 0 {
        assert(words(a) + rest =~= rest);
        assert(a =~= Seq::<u32>::empty());
    } else {
        let init = a.drop_last();
        let tail = le32(a.last()) + rest;
        assert(words(a) + rest =~= words(init) + tail);
        lemma_take_words(init, tail);
        lemma_take32_le32(a.last(), rest);
        assert(init.push(a.last()) =~= a);
    }
}

/// The CPU part of a save state followed by `rest`, grouped from the right.
pub open spec fn cpu_part(
    regs: Seq<u32>, cpsr: u32, r13: Seq<u32>, r14: Seq<u32>, spsr: Seq<u32>, fiq: Seq<u32>, usr: Seq<u32>,
    rest: Seq<u8>,
) -> Seq<u8> {
    words(regs) + (le32(cpsr) + (words(r13) + (words(r14) + (words(spsr) + (words(fiq) + (words(usr) + rest))))))
}

/// The memory part of a save state followed by `rest`, grouped from the right.
pub open spec fn memory_part(
    ewram: Seq<u8>, iwram: Seq<u8>, palette: Seq<u8>, vram: Seq<u8>, oam: Seq<u8>, sram: Seq<u8>,
    rest: Seq<u8>,
) -> Seq<u8> {
    ewram + (iwram + (palette + (vram + (oam + (le32(sram.len() as u32) + (sram + rest))))))
}

/// The register part of a save state, grouped from the right.
pub open spec fn io_part(io: IoRegisters) -> Seq<u8> {
    le16(io.dispcnt) + (le16(io.dispstat) + (le16(io.vcount) + (le16(io.ie) + (le16(io.irq_flags)
        + (le16(io.ime) + words(io_words(io)))))))
}

/// The CPU part of a save state reads back as written.
proof fn lemma_plan_cpu(
    regs: Seq<u32>, cpsr: u32, r13: Seq<u32>, r14: Seq<u32>, spsr: Seq<u32>,
    fiq: Seq<u32>, usr: Seq<u32>, rest: Seq<u8>,
)
    requires
        regs.len() == 16, r13.len() == 6, r14.len() == 6, spsr.len() == 6, fiq.len() == 5, usr.len() == 5,
    ensures
        plan_cpu(cpu_part(regs, cpsr, r13, r14, spsr, fiq, usr, rest)) == (regs, cpsr, r13, r14, spsr, fiq, usr, rest),
{
    let t6 = words(usr) + rest;
    let t5 = words(fiq) + t6;
    let t4 = words(spsr) + t5;
    let t3 = words(r14) + t4;
    let t2 = words(r13) + t3;
    let t1 = le32(cpsr) + t2;
    lemma_take_words(regs, t1);
    lemma_take32_le32(cpsr, t2);
    lemma_take_words(r13, t3);
    lemma_take_words(r14, t4);
    lemma_take_words(spsr, t5);
    lemma_take_words(fiq, t6);
    lemma_take_words(usr, rest);
}

/// The memory part of a save state reads back as written.
proof fn lemma_plan_memory(
    ewram: Seq<u8>, iwram: Seq<u8>, palette: Seq<u8>, vram: Seq<u8>, oam: Seq<u8>, sram: Seq<u8>,
    rest: Seq<u8>,
)
    requires
        ewram.len() == 0x40000, iwram.len() == 0x8000, palette.len() == 0x400, vram.len() == 0x18000,
        oam.len() == 0x400, sram.len() <= u32::MAX,
    ensures
        plan_memory(memory_part(ewram, iwram, palette, vram, oam, sram, rest)) == (seq![Some(ewram), Some(iwram), Some(palette), Some(vram), Some(oam)],
            Some(sram), rest),
{
    let t13 = sram + rest;
    let t12 = le32(sram.len() as u32) + t13;
    let t11 = oam + t12;
    let t10 = vram + t11;
    let t9 = palette + t10;
    let t8 = iwram + t9;
    lemma_take_bytes_front(ewram, t8);
    lemma_take_bytes_front(iwram, t9);
    lemma_take_bytes_front(palette, t10);
    lemma_take_bytes_front(vram, t11);
    lemma_take_bytes_front(oam, t12);
    lemma_take32_le32(sram.len() as u32, t13);
    lemma_take_bytes_front(sram, rest);
}

/// The register part of a save state reads back as written.
proof fn lemma_plan_io(io: IoRegisters)
    ensures
        plan_io(io_part(io)) == seq![io.dispcnt, io.dispstat, io.vcount, io.ie, io.irq_flags, io.ime],
        take_words(io_tail(io_part(io)), IO_WORDS as nat).0 == io_words(io),
{
    let (a, b, c, d, f, g) = (io.dispcnt, io.dispstat, io.vcount, io.ie, io.irq_flags, io.ime);
    let t6 = words(io_words(io));
    assert(t6 + Seq::<u8>::empty() =~= t6);
    lemma_take_words(io_words(io), Seq::<u8>::empty());
    let t5 = le16(g) + t6;
    let t4 = le16(f) + t5;
    let t3 = le16(d) + t4;
    let t2 = le16(c) + t3;
    let t1 = le16(b) + t2;
    lemma_take16_le16(a, t1);
    lemma_take16_le16(b, t2);
    lemma_take16_le16(c, t3);
    lemma_take16_le16(d, t4);
    lemma_take16_le16(f, t5);
    lemma_take16_le16(g, t6);
}

/// A whole save state, grouped from the right, reads back as written.
proof fn lemma_load_plan_parts(
    regs: Seq<u32>, cpsr: u32, r13: Seq<u32>, r14: Seq<u32>, spsr: Seq<u32>, fiq: Seq<u32>, usr: Seq<u32>,
    ewram: Seq<u8>, iwram: Seq<u8>, palette: Seq<u8>, vram: Seq<u8>, oam: Seq<u8>, sram: Seq<u8>,
    io: Seq<u8>, regs16: Seq<u16>, rest: Seq<u32>,
)
    requires
        regs.len() == 16, r13.len() == 6, r14.len() == 6, spsr.len() == 6, fiq.len() == 5, usr.len() == 5,
        ewram.len() == 0x40000, iwram.len() == 0x8000, palette.len() == 0x400, vram.len() == 0x18000,
        oam.len() == 0x400, sram.len() <= u32::MAX,
        plan_io(io) == regs16,
        take_words(io_tail(io), IO_WORDS as nat).0 == rest,
    ensures
        load_plan(cpu_part(regs, cpsr, r13, r14, spsr, fiq, usr,
            memory_part(ewram, iwram, palette, vram, oam, sram, io))) == (LoadPlan {
            regs, cpsr, r13, r14, spsr, fiq_r8_r12: fiq, usr_r8_r12: usr,
            ewram: Some(ewram), iwram: Some(iwram), palette: Some(palette), vram: Some(vram), oam: Some(oam),
            sram: Some(sram), io: regs16, io_rest: rest,
        }),
{
    let mem = memory_part(ewram, iwram, palette, vram, oam, sram, io);
    lemma_plan_cpu(regs, cpsr, r13, r14, spsr, fiq, usr, mem);
    lemma_plan_memory(ewram, iwram, palette, vram, oam, sram, io);
}

/// Reading a saved state gives back everything that was saved: the CPU
/// registers and banks, each memory block, the SRAM and the I/O registers.
pub proof fn lemma_load_plan_saved(e: GbaEmulator)
    requires
        e.wf(),
        e.bus@.cart.sram.len() <= u32::MAX,
    ensures
        load_plan(e.saved()) == (LoadPlan {
            regs: e.cpu.regs@,
            cpsr: e.cpu.cpsr,
            r13: e.cpu.banked.r13@,
            r14: e.cpu.banked.r14@,
            spsr: e.cpu.banked.spsr@,
            fiq_r8_r12: e.cpu.banked.fiq_r8_r12@,
            usr_r8_r12: e.cpu.banked.usr_r8_r12@,
            ewram: Some(e.bus@.ewram),
            iwram: Some(e.bus@.iwram),
            palette: Some(e.bus@.palette),
            vram: Some(e.bus@.vram),
            oam: Some(e.bus@.oam),
            sram: Some(e.bus@.cart.sram),
            io: seq![e.bus@.io.dispcnt, e.bus@.io.dispstat, e.bus@.io.vcount, e.bus@.io.ie,
                e.bus@.io.irq_flags, e.bus@.io.ime],
            io_rest: io_words(e.bus@.io),
        }),
{
    let b = e.cpu.banked;
    let bus = e.bus@;
    let io = io_part(bus.io);
    lemma_saved_assoc(e);
    lemma_plan_io(bus.io);
    lemma_load_plan_parts(e.cpu.regs@, e.cpu.cpsr, b.r13@, b.r14@, b.spsr@, b.fiq_r8_r12@, b.usr_r8_r12@,
        bus.ewram, bus.iwram, bus.palette, bus.vram, bus.oam, bus.cart.sram, io,
        seq![bus.io.dispcnt, bus.io.dispstat, bus.io.vcount, bus.io.ie, bus.io.irq_flags, bus.io.ime],
        io_words(bus.io));
}

/// Regrouping a concatenation: `(p + x) + t` is `p + (x + t)`.
proof fn lemma_regroup(p: Seq<u8>, x: Seq<u8>, t: Seq<u8>)
    ensures (p + x) + t == p + (x + t),
{
    assert((p + x) + t =~= p + (x + t));
}

/// The bytes of a save state, grouped from the right.
proof fn lemma_saved_assoc(e: GbaEmulator)
    ensures ({
        let b = e.cpu.banked;
        let bus = e.bus@;
        e.saved() == cpu_part(e.cpu.regs@, e.cpu.cpsr, b.r13@, b.r14@, b.spsr@, b.fiq_r8_r12@, b.usr_r8_r12@,
            memory_part(bus.ewram, bus.iwram, bus.palette, bus.vram, bus.oam, bus.cart.sram, io_part(bus.io)))
    }),
{
    let b = e.cpu.banked;
    let bus = e.bus@;
    let x0 = words(e.cpu.regs@);
    let x1 = le32(e.cpu.cpsr);
    let x2 = words(b.r13@);
    let x3 = words(b.r14@);
    let x4 = words(b.spsr@);
    let x5 = words(b.fiq_r8_r12@);
    let x6 = words(b.usr_r8_r12@);
    let x7 = bus.ewram;
    let x8 = bus.iwram;
    let x9 = bus.palette;
    let x10 = bus.vram;
    let x11 = bus.oam;
    let x12 = le32(bus.cart.sram.len() as u32);
    let x13 = bus.cart.sram;
    let x14 = le16(bus.io.dispcnt);
    let x15 = le16(bus.io.dispstat);
    let x16 = le16(bus.io.vcount);
    let x17 = le16(bus.io.ie);
    let x18 = le16(bus.io.irq_flags);
    let x19 = le16(bus.io.ime);
    let p1 = x0 + x1;
    let p2 = p1 + x2;
    let p3 = p2 + x3;
    let p4 = p3 + x4;
    let p5 = p4 + x5;
    let p6 = p5 + x6;
    let p7 = p6 + x7;
    let p8 = p7 + x8;
    let p9 = p8 + x9;
    let p10 = p9 + x10;
    let p11 = p10 + x11;
    let p12 = p11 + x12;
    let p13 = p12 + x13;
    let p14 = p13 + x14;
    let p15 = p14 + x15;
    let p16 = p15 + x16;
    let p17 = p16 + x17;
    let p18 = p17 + x18;
    let p19 = p18 + x19;
    let t20 = words(io_words(bus.io));
    let t19 = x19 + t20;
    let t18 = x18 + t19;
    let t17 = x17 + t18;
    let t16 = x16 + t17;
    let t15 = x15 + t16;
    let t14 = x14 + t15;
    let t13 = x13 + t14;
    let t12 = x12 + t13;
    let t11 = x11 + t12;
    let t10 = x10 + t11;
    let t9 = x9 + t10;
    let t8 = x8 + t9;
    let t7 = x7 + t8;
    let t6 = x6 + t7;
    let t5 = x5 + t6;
    let t4 = x4 + t5;
    let t3 = x3 + t4;
    let t2 = x2 + t3;
    let t1 = x1 + t2;
    assert(e.saved() == p19 + t20);
    lemma_regroup(p18, x19, t20);
    lemma_regroup(p17, x18, t19);
    lemma_regroup(p16, x17, t18);
    lemma_regroup(p15, x16, t17);
    lemma_regroup(p14, x15, t16);
    lemma_regroup(p13, x14, t15);
    lemma_regroup(p12, x13, t14);
    lemma_regroup(p11, x12, t13);
    lemma_regroup(p10, x11, t12);
    lemma_regroup(p9, x10, t11);
    lemma_regroup(p8, x9, t10);
    lemma_regroup(p7, x8, t9);
    lemma_regroup(p6, x7, t8);
    lemma_regroup(p5, x6, t7);
    lemma_regroup(p4, x5, t6);
    lemma_regroup(p3, x4, t5);
    lemma_regroup(p2, x3, t4);
    lemma_regroup(p1, x2, t3);
    lemma_regroup(x0, x1, t2);
}

/// Loading the state saved from one system into another whose SRAM has the
/// same size gives the second one the first one's CPU registers and banks,
/// memories, SRAM and every I/O register; its ROM, keypad, the rest of its
/// cartridge state, its PPU and its APU are kept.
pub proof fn lemma_save_load(e: GbaEmulator, t: GbaEmulator, t2: GbaEmulator)
    requires
        e.wf(),
        e.bus@.cart.sram.len() <= u32::MAX,
        t.bus@.cart.sram.len() == e.bus@.cart.sram.len(),
        load_post(t, t2, e.saved()),
    ensures
        t2.cpu.regs@ == e.cpu.regs@,
        t2.cpu.cpsr == e.cpu.cpsr,
        t2.cpu.banked.r13@ == e.cpu.banked.r13@,
        t2.cpu.banked.r14@ == e.cpu.banked.r14@,
        t2.cpu.banked.spsr@ == e.cpu.banked.spsr@,
        t2.cpu.banked.fiq_r8_r12@ == e.cpu.banked.fiq_r8_r12@,
        t2.cpu.banked.usr_r8_r12@ == e.cpu.banked.usr_r8_r12@,
        t2.bus@ == (BusView {
            ewram: e.bus@.ewram,
            iwram: e.bus@.iwram,
            palette: e.bus@.palette,
            vram: e.bus@.vram,
            oam: e.bus@.oam,
            cart: CartView { sram: e.bus@.cart.sram, ..t.bus@.cart },
            io: e.bus@.io,
            ..t.bus@
        }),
        t2.ppu@ == t.ppu@,
        t2.apu == t.apu,
{
    lemma_load_plan_saved(e);
    let eio = e.bus@.io;
    lemma_io_words_roundtrip(eio, IoRegisters { dispcnt: eio.dispcnt, dispstat: eio.dispstat, vcount: eio.vcount,
        ie: eio.ie, irq_flags: eio.irq_flags, ime: eio.ime, ..t.bus@.io });
    assert(overwrite_front(t.bus@.cart.sram, e.bus@.cart.sram) =~= e.bus@.cart.sram);
}

} // verus!
