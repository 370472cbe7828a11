//! The GBA sound unit's integer core: the four PSG channels, the register
//! writes that configure them, the DMA sound FIFOs and the positions of the
//! output ring. Mixing samples into floating-point output is left to the
//! host, which is told where each generated sample goes.
use vstd::prelude::*;
use vstd::array::spec_array_update;

verus! {

broadcast use crate::bits::lemma_and_le8, crate::bits::lemma_and_le16;

/// A 32-byte circular buffer for DMA Sound A / B.
pub struct Fifo {
    pub buffer: [i8; 32],
    pub read_pos: usize,
    pub write_pos: usize,
    pub count: usize,
    pub current_sample: i8,
}

/// Byte `i` (0 = least significant) of a word, as a signed sample.
pub open spec fn sample_byte(data: u32, i: int) -> i8 {
    (data >> (i * 8) as u32) as i8
}

/// Stepping a slot index with `& 31` wraps it modulo 32.
proof fn lemma_next_slot(p: usize)
    requires p < 32,
    ensures ((p + 1) as usize) & 31 == (p + 1) % 32,
{
    assert(((p + 1) as usize) & 31 == (p + 1) % 32) by (bit_vector) requires p < 32;
}

impl Fifo {
    /// Positions in range, and the write position `count` slots after the read position.
    pub open spec fn wf(&self) -> bool {
        &&& self.read_pos < 32
        &&& self.count <= 32
        &&& self.write_pos == (self.read_pos + self.count) % 32
    }

    /// The queued samples, oldest first.
    pub open spec fn queue(&self) -> Seq<i8> {
        Seq::new(self.count as nat, |k: int| self.buffer[(self.read_pos + k) % 32])
    }

    pub fn new() -> (r: Self)
        ensures
            r.wf(), r.queue() == Seq::<i8>::empty(), r.count == 0, r.current_sample == 0,
            r.buffer@ == Seq::new(32, |i: int| 0i8), r.read_pos == 0, r.write_pos == 0,
    {
        let r = Fifo { buffer: [0; 32], read_pos: 0, write_pos: 0, count: 0, current_sample: 0 };
        assert(r.buffer@ =~= Seq::new(32, |i: int| 0i8));
        assert(r.queue() =~= Seq::<i8>::empty());
        r
    }

    /// The FIFO with byte `b` pushed, or unchanged when full.
    pub open spec fn push_spec(self, b: i8) -> Fifo {
        if self.count < 32 {
            Fifo { buffer: spec_array_update(self.buffer, self.write_pos as int, b),
                write_pos: ((self.write_pos + 1) % 32) as usize, count: (self.count + 1) as usize, ..self }
        } else {
            self
        }
    }

    /// The FIFO after pushing the first `n` bytes of `data`, least significant first.
    pub open spec fn push_bytes_spec(self, data: u32, n: nat) -> Fifo
        decreases n,
    {
        if n == 0 { self } else { self.push_bytes_spec(data, (n - 1) as nat).push_spec(sample_byte(data, n - 1)) }
    }

    /// Push 4 bytes (one 32-bit write) into the FIFO, least significant byte
    /// first; bytes that do not fit in the 32 slots are dropped.
    #[verifier::spinoff_prover]
    #[verifier::rlimit(40)]
    pub fn write32(&mut self, data: u32)
        requires old(self).wf(),
        ensures
            final(self).wf(),
            *final(self) == old(self).push_bytes_spec(data, 4),
            final(self).current_sample == old(self).current_sample,
            final(self).count == (if old(self).count + 4 <= 32 { old(self).count + 4 } else { 32 }),
            final(self).queue() == old(self).queue() + Seq::new((final(self).count - old(self).count) as nat,
                |i: int| sample_byte(data, i)),
    {
        let ghost q0 = self.queue();
        let ghost c0 = self.count;
        let mut i: u32 = 0;
        while i < 4
            invariant
                i <= 4, self.wf(), c0 <= 32,
                self.count == (if c0 + i <= 32 { c0 + i } else { 32 }),
                self.current_sample == old(self).current_sample,
                self.queue() == q0 + Seq::new((self.count - c0) as nat, |k: int| sample_byte(data, k)),
                *self == old(self).push_bytes_spec(data, i as nat),
            decreases 4 - i,
        {
            proof { broadcast use vstd::array::group_array_axioms; }
            if self.count < 32 {
                let ghost before = self.queue();
                let b = (data >> (i * 8)) as i8;
                proof { lemma_next_slot(self.write_pos); }
                self.buffer[self.write_pos] = b;
                self.write_pos = (self.write_pos + 1) & 31;
                self.count = self.count + 1;
                proof {
                    assert(self.queue() =~= before.push(b));
                    assert(self.queue() =~= q0 + Seq::new((self.count - c0) as nat, |k: int| sample_byte(data, k)));
                }
            }
            i = i + 1;
        }
    }

    /// The FIFO after a pop: the oldest sample latched and removed (nothing
    /// changes when empty).
    pub open spec fn pop_spec(self) -> Fifo {
        if self.count > 0 {
            Fifo { current_sample: self.buffer[self.read_pos as int], read_pos: ((self.read_pos + 1) % 32) as usize,
                count: (self.count - 1) as usize, ..self }
        } else {
            self
        }
    }

    /// The FIFO after a reset: empty, positions and latched sample cleared.
    pub open spec fn reset_spec(self) -> Fifo {
        Fifo { read_pos: 0, write_pos: 0, count: 0, current_sample: 0, ..self }
    }

    /// Pop one sample from the FIFO and latch it as `current_sample`.
    /// Returns true if FIFO needs refill (<= 16 bytes remaining).
    pub fn pop(&mut self) -> (needs_refill: bool)
        requires old(self).wf(),
        ensures
            final(self).wf(),
            *final(self) == old(self).pop_spec(),
            old(self).count > 0 ==> final(self).current_sample == old(self).queue()[0]
                && final(self).queue() == old(self).queue().drop_first(),
            old(self).count == 0 ==> final(self).current_sample == old(self).current_sample
                && final(self).queue() == old(self).queue(),
            needs_refill == (final(self).count <= 16),
    {
        if self.count > 0 {
            let ghost q0 = self.queue();
            proof { lemma_next_slot(self.read_pos); }
            self.current_sample = self.buffer[self.read_pos];
            self.read_pos = (self.read_pos + 1) & 31;
            self.count = self.count - 1;
            proof {
                assert(self.queue() =~= q0.drop_first());
            }
        }
        self.count <= 16
    }

    /// Empty the FIFO and clear the latched sample (the buffer bytes stay).
    pub fn reset(&mut self)
        ensures
            final(self).wf(), final(self).queue() == Seq::<i8>::empty(), final(self).count == 0,
            final(self).current_sample == 0, final(self).buffer == old(self).buffer,
            *final(self) == old(self).reset_spec(),
    {
        self.read_pos = 0;
        self.write_pos = 0;
        self.count = 0;
        self.current_sample = 0;
        assert(self.queue() =~= Seq::<i8>::empty());
    }
}


/// Frequency of the CPU clock the APU counts in.
pub const CPU_CLOCK: u32 = 16_777_216;
/// Output sample rate.
pub const SAMPLE_RATE: u32 = 32_768;
/// CPU cycles per output sample (512).
pub const CYCLES_PER_SAMPLE: u32 = CPU_CLOCK / SAMPLE_RATE;
/// Slots in the output ring (interleaved left/right values).
pub const RING_BUFFER_CAPACITY: usize = 8192;
/// Mask that wraps a ring position.
pub const RING_BUFFER_MASK: usize = RING_BUFFER_CAPACITY - 1;

/// Whether step `pos` of duty pattern `duty` is high: 12.5%, 25%, 50% and 75%.
pub open spec fn duty_high(duty: int, pos: int) -> bool {
    if duty == 0 { pos == 7 }
    else if duty == 1 { pos == 0 || pos == 7 }
    else if duty == 2 { pos == 0 || pos >= 5 }
    else { 1 <= pos <= 6 }
}

/// The duty table lookup: 1 where the pattern is high.
fn duty_bit(duty: u8, pos: u8) -> (r: u8)
    requires duty < 4, pos < 8,
    ensures r == (if duty_high(duty as int, pos as int) { 1u8 } else { 0u8 }),
{
    let high = if duty == 0 { pos == 7 }
        else if duty == 1 { pos == 0 || pos == 7 }
        else if duty == 2 { pos == 0 || pos >= 5 }
        else { 1 <= pos && pos <= 6 };
    if high { 1 } else { 0 }
}

/// The square-wave PSG channels (1 and 2).
pub struct PsgSquare {
    pub enabled: bool,
    /// 11-bit frequency timer value
    pub frequency: u16,
    /// 4-bit volume (0-15)
    pub volume: u8,
    /// duty cycle pattern index (0-3)
    pub duty: u8,
    /// countdown timer (CPU cycles)
    pub timer: u32,
    /// position in 8-step duty cycle
    pub duty_pos: u8,
    pub length_enabled: bool,
    pub length_counter: u16,
}

/// `2048 - f` floored at 0, times `unit`.
pub open spec fn psg_period(f: u16, unit: int) -> int {
    (if f >= 2048 { 0 } else { 2048 - f }) * unit
}

impl PsgSquare {
    pub open spec fn wf(&self) -> bool {
        self.duty_pos < 8
    }

    /// The channel after `cycles` cycles: a silent or disabled channel does
    /// not move; otherwise the timer counts down and each expiry advances the
    /// duty position and reloads the timer with the period.
    pub open spec fn tick_spec(self, cycles: u32) -> PsgSquare {
        let p = psg_period(self.frequency, 16);
        if !self.enabled || self.volume == 0 || p == 0 {
            self
        } else if self.timer < cycles {
            let rem = cycles - self.timer;
            PsgSquare { duty_pos: ((self.duty_pos + rem / p + 1) % 8) as u8, timer: (p - rem % p) as u32, ..self }
        } else {
            PsgSquare { timer: (self.timer - cycles) as u32, ..self }
        }
    }

    /// The output level: the volume while the duty pattern is high.
    pub open spec fn sample_spec(self) -> i16 {
        if self.enabled && duty_high((self.duty & 3) as int, self.duty_pos as int) { self.volume as i16 } else { 0 }
    }

    pub fn new() -> (r: Self)
        ensures r.wf(), !r.enabled, r.frequency == 0, r.volume == 0, r.duty == 0, r.timer == 0, r.duty_pos == 0,
            !r.length_enabled, r.length_counter == 0,
    {
        PsgSquare { enabled: false, frequency: 0, volume: 0, duty: 0, timer: 0, duty_pos: 0, length_enabled: false, length_counter: 0 }
    }

    /// Returns the period in CPU cycles for this channel's frequency.
    /// GBA square wave period = (2048 - frequency) * 16 cycles.
    pub fn period(&self) -> (r: u32)
        ensures r == psg_period(self.frequency, 16),
    {
        (2048u32.saturating_sub(self.frequency as u32)) * 16
    }

    /// Advance the channel by `cycles` CPU cycles.
    pub fn tick(&mut self, cycles: u32)
        requires old(self).wf(),
        ensures final(self).wf(), *final(self) == old(self).tick_spec(cycles),
    {
        if !self.enabled || self.volume == 0 {
            return;
        }
        let period = self.period();
        if period == 0 {
            return;
        }
        // Add cycles to timer; advance duty position for each full period elapsed.
        if self.timer < cycles {
            let remaining = cycles - self.timer;
            assert(period >= 8);
            assert(remaining / period < 0xFFFF_FFFFu32) by (nonlinear_arith) requires period >= 8;
            let steps = remaining / period + 1;
            assert(remaining % period < period) by (nonlinear_arith) requires period > 0;
            self.duty_pos = ((self.duty_pos as u64 + steps as u64) % 8) as u8;
            self.timer = period - (remaining % period);
        } else {
            self.timer = self.timer - cycles;
        }
    }

    /// The duty/length/envelope register: bits 0-5 length (stored as 64 - n),
    /// bits 6-7 duty, bits 12-15 initial volume.
    pub fn write_cnt(&mut self, val: u16)
        requires old(self).wf(),
        ensures final(self).wf(), *final(self) == square_cnt_spec(*old(self), val),
    {
        self.duty = ((val >> 6) & 0x3) as u8;
        self.volume = ((val >> 12) & 0xF) as u8;
        self.length_counter = 64 - (val & 0x3F);
    }

    /// The frequency/control register: bits 0-10 frequency, bit 14 length
    /// enable, bit 15 restarts the channel.
    pub fn write_freq(&mut self, val: u16)
        requires old(self).wf(),
        ensures final(self).wf(), *final(self) == square_freq_spec(*old(self), val),
    {
        self.frequency = val & 0x7FF;
        self.length_enabled = val & 0x4000 != 0;
        if val & 0x8000 != 0 {
            // Trigger: restart channel
            self.enabled = true;
            self.timer = self.period();
            self.duty_pos = 0;
        }
    }

    /// Current output sample: +volume or 0 based on duty cycle.
    pub fn sample(&self) -> (r: i16)
        requires self.wf(),
        ensures r == self.sample_spec(),
    {
        if !self.enabled {
            return 0;
        }
        if duty_bit(self.duty & 3, self.duty_pos) != 0 { self.volume as i16 } else { 0 }
    }
}

/// The wave PSG channel (3).
pub struct PsgWave {
    pub enabled: bool,
    pub frequency: u16,
    /// 0=mute, 1=100%, 2=50%, 3=25%
    pub volume_shift: u8,
    pub wave_ram: [u8; 16],
    pub timer: u32,
    /// 0-31 (32 4-bit samples)
    pub sample_pos: u8,
}

impl PsgWave {
    pub open spec fn wf(&self) -> bool {
        self.sample_pos < 32
    }

    /// The channel after `cycles` cycles, as for the square channels but
    /// stepping through the 32 wave samples.
    pub open spec fn tick_spec(self, cycles: u32) -> PsgWave {
        let p = psg_period(self.frequency, 8);
        if !self.enabled || self.volume_shift == 0 || p == 0 {
            self
        } else if self.timer < cycles {
            let rem = cycles - self.timer;
            PsgWave { sample_pos: ((self.sample_pos + rem / p + 1) % 32) as u8, timer: (p - rem % p) as u32, ..self }
        } else {
            PsgWave { timer: (self.timer - cycles) as u32, ..self }
        }
    }

    /// The output level: the current 4-bit wave sample (high nibble first)
    /// shifted down by the volume setting (0 when muted or disabled).
    pub open spec fn sample_spec(self) -> i16 {
        if !self.enabled || self.volume_shift == 0 {
            0
        } else {
            let byte = self.wave_ram[(self.sample_pos / 2) as int];
            let nibble = if self.sample_pos % 2 == 0 { byte / 16 } else { byte % 16 };
            (if self.volume_shift == 1 { nibble } else if self.volume_shift == 2 { nibble / 2 }
                else if self.volume_shift == 3 { nibble / 4 } else { 0 }) as i16
        }
    }

    pub fn new() -> (r: Self)
        ensures r.wf(), !r.enabled, r.frequency == 0, r.volume_shift == 0, r.wave_ram@ == Seq::new(16, |i: int| 0u8),
            r.timer == 0, r.sample_pos == 0,
    {
        let r = PsgWave { enabled: false, frequency: 0, volume_shift: 0, wave_ram: [0; 16], timer: 0, sample_pos: 0 };
        assert(r.wave_ram@ =~= Seq::new(16, |i: int| 0u8));
        r
    }

    /// Period in CPU cycles: (2048 - frequency) * 8
    pub fn period(&self) -> (r: u32)
        ensures r == psg_period(self.frequency, 8),
    {
        (2048u32.saturating_sub(self.frequency as u32)) * 8
    }

    pub fn tick(&mut self, cycles: u32)
        requires old(self).wf(),
        ensures final(self).wf(), *final(self) == old(self).tick_spec(cycles),
    {
        if !self.enabled || self.volume_shift == 0 {
            return;
        }
        let period = self.period();
        if period == 0 {
            return;
        }
        if self.timer < cycles {
            let remaining = cycles - self.timer;
            assert(period >= 8);
            assert(remaining / period < 0xFFFF_FFFFu32) by (nonlinear_arith) requires period >= 8;
            let steps = remaining / period + 1;
            assert(remaining % period < period) by (nonlinear_arith) requires period > 0;
            self.sample_pos = ((self.sample_pos as u64 + steps as u64) % 32) as u8;
            self.timer = period - (remaining % period);
        } else {
            self.timer = self.timer - cycles;
        }
    }

    pub fn sample(&self) -> (r: i16)
        requires self.wf(),
        ensures r == self.sample_spec(),
    {
        if !self.enabled || self.volume_shift == 0 {
            return 0;
        }
        let byte = self.wave_ram[(self.sample_pos / 2) as usize];
        let nibble = if self.sample_pos % 2 == 0 { byte / 16 } else { byte % 16 };
        let shifted = if self.volume_shift == 1 {
            nibble // 100%
        } else if self.volume_shift == 2 {
            nibble / 2 // 50%
        } else if self.volume_shift == 3 {
            nibble / 4 // 25%
        } else {
            0 // mute
        };
        shifted as i16
    }
}

/// The noise PSG channel (4).
pub struct PsgNoise {
    pub enabled: bool,
    pub volume: u8,
    pub lfsr: u16,
    /// false=15-bit, true=7-bit
    pub width_mode: bool,
    pub timer: u32,
    pub divisor_code: u8,
    pub clock_shift: u8,
}

/// One clock of the noise LFSR: the XOR of the two low bits shifts in at
/// bit 14 (and also replaces bit 6 in 7-bit mode).
pub open spec fn lfsr_next(l: u16, width7: bool) -> u16 {
    let x = (l ^ (l >> 1u16)) & 1;
    let l1 = (l >> 1u16) | (x << 14u16);
    if width7 { (l1 & !(1u16 << 6u16)) | (x << 6u16) } else { l1 }
}

/// The LFSR and timer after `remaining` cycles: while the timer is shorter
/// than what is left, it runs out, the LFSR clocks and the timer reloads
/// with `period`.
pub open spec fn noise_run(lfsr: u16, width7: bool, timer: u32, period: u32, remaining: u32) -> (u16, u32)
    decreases remaining, if timer > 0 { 0int } else { 1int },
{
    if period == 0 || timer >= remaining {
        (lfsr, (timer - remaining) as u32)
    } else {
        noise_run(lfsr_next(lfsr, width7), width7, period, period, (remaining - timer) as u32)
    }
}

impl PsgNoise {
    pub open spec fn wf(&self) -> bool {
        self.clock_shift < 16 && self.divisor_code < 8
    }

    /// LFSR clock period: divisor 8 for code 0, else code × 16, shifted left
    /// by the clock shift.
    pub open spec fn period_spec(self) -> u32 {
        (if self.divisor_code == 0 { 8u32 } else { (self.divisor_code * 16) as u32 }) << (self.clock_shift as u32)
    }

    pub open spec fn tick_spec(self, cycles: u32) -> PsgNoise {
        if !self.enabled || self.volume == 0 || self.period_spec() == 0 {
            self
        } else {
            let (l, t) = noise_run(self.lfsr, self.width_mode, self.timer, self.period_spec(), cycles);
            PsgNoise { lfsr: l, timer: t, ..self }
        }
    }

    /// The output level: the volume while LFSR bit 0 is clear.
    pub open spec fn sample_spec(self) -> i16 {
        if self.enabled && self.lfsr & 1 == 0 { self.volume as i16 } else { 0 }
    }

    pub fn new() -> (r: Self)
        ensures r.wf(), !r.enabled, r.volume == 0, r.lfsr == 0x7FFF, !r.width_mode, r.timer == 0,
            r.divisor_code == 0, r.clock_shift == 0,
    {
        PsgNoise { enabled: false, volume: 0, lfsr: 0x7FFF, width_mode: false, timer: 0, divisor_code: 0, clock_shift: 0 }
    }

    /// LFSR clock period in CPU cycles.
    pub fn period(&self) -> (r: u32)
        requires self.wf(),
        ensures r == self.period_spec(), r > 0,
    {
        // Base divisors: 0→8, 1→16, 2→32, ... 7→128; then shift left by clock_shift.
        let divisor: u32 = if self.divisor_code == 0 { 8 } else { (self.divisor_code as u32) * 16 };
        let s = self.clock_shift as u32;
        assert(divisor << s > 0) by (bit_vector) requires 8 <= divisor <= 112, s < 16;
        divisor << s
    }

    pub fn tick(&mut self, cycles: u32)
        requires old(self).wf(),
        ensures final(self).wf(), *final(self) == old(self).tick_spec(cycles),
    {
        if !self.enabled || self.volume == 0 {
            return;
        }
        let period = self.period();
        let mut remaining = cycles;
        loop
            invariant_except_break
                noise_run(self.lfsr, self.width_mode, self.timer, period, remaining)
                    == noise_run(old(self).lfsr, old(self).width_mode, old(self).timer, period, cycles),
            invariant
                self.wf(), self.enabled, self.volume != 0, period == old(self).period_spec(), period > 0,
                old(self).enabled, old(self).volume != 0, self.enabled == old(self).enabled,
                self.width_mode == old(self).width_mode, self.volume == old(self).volume,
                self.divisor_code == old(self).divisor_code, self.clock_shift == old(self).clock_shift,
            ensures
                *self == old(self).tick_spec(cycles),
            decreases remaining, if self.timer > 0 { 0int } else { 1int },
        {
            if self.timer >= remaining {
                self.timer = self.timer - remaining;
                assert(self.lfsr == old(self).tick_spec(cycles).lfsr && self.timer == old(self).tick_spec(cycles).timer);
                break;
            }
            remaining = remaining - self.timer;
            // Clock the LFSR
            let ghost l0 = self.lfsr;
            let xor_bit = (self.lfsr ^ (self.lfsr >> 1)) & 1;
            self.lfsr = self.lfsr >> 1;
            self.lfsr = self.lfsr | (xor_bit << 14);
            if self.width_mode {
                // Also feedback into bit 6 for 7-bit mode
                self.lfsr = self.lfsr & !(1 << 6);
                self.lfsr = self.lfsr | (xor_bit << 6);
            }
            assert(self.lfsr == lfsr_next(l0, self.width_mode));
            self.timer = period;
        }
    }

    pub fn sample(&self) -> (r: i16)
        ensures r == self.sample_spec(),
    {
        if !self.enabled {
            return 0;
        }
        // Output is high when LFSR bit 0 is 0
        if self.lfsr & 1 == 0 { self.volume as i16 } else { 0 }
    }
}


/// A ring position stepped with the mask wraps modulo the capacity.
proof fn lemma_ring_mask(x: usize)
    requires x < 0x10000,
    ensures x & 8191 == x % 8192,
{
    vstd::bits::lemma_low_bits_mask_values();
    vstd::arithmetic::power2::lemma2_to64();
    vstd::bits::lemma_usize_low_bits_mask_is_mod(x, 13);
}

/// Slots of the ring holding samples not yet consumed.
pub open spec fn ring_available(w: int, r: int) -> int {
    (w + 8192 - r) % 8192
}

/// How many of `n` generated samples fit when `avail` slots are in use: a
/// sample (two slots) is stored only while fewer than 8190 are in use
/// afterwards... precisely, while `avail + 2 < 8192` before it.
pub open spec fn samples_stored(avail: int, n: int) -> int {
    if avail >= 8190 {
        0
    } else {
        let room = (8190 - avail + 1) / 2;
        if n < room { n } else { room }
    }
}

proof fn lemma_samples_stored_step(avail: int, i: int)
    requires 0 <= avail < 8192, 0 <= i,
    ensures
        avail + 2 * samples_stored(avail, i) < 8192,
        samples_stored(avail, i + 1) == samples_stored(avail, i)
            + (if avail + 2 * samples_stored(avail, i) + 2 < 8192 { 1int } else { 0 }),
{
}

/// The GBA sound unit's integer state.
pub struct Apu {
    /// PSG master enable (SOUNDCNT_X bit 7)
    pub psg_enabled: bool,
    /// PSG channel volumes (derived from SOUNDCNT_L, 3-bit each)
    pub ch1_vol: u8,
    pub ch2_vol: u8,
    pub ch3_vol: u8,
    pub ch4_vol: u8,
    /// PSG channel state
    pub psg_ch1: PsgSquare,
    pub psg_ch2: PsgSquare,
    pub psg_ch3: PsgWave,
    pub psg_ch4: PsgNoise,
    /// PSG panning from SOUNDCNT_L bits 8-15: bits 0-3 right enable for
    /// CH1-4, bits 4-7 left enable for CH1-4
    pub psg_panning: u8,
    /// DMA Sound FIFOs
    pub fifo_a: Fifo,
    pub fifo_b: Fifo,
    /// NR50/NR51 equivalent (PSG volume/panning)
    pub soundcnt_l: u16,
    /// DMA sound control (volume, timer select, enable)
    pub soundcnt_h: u16,
    /// Master enable
    pub soundcnt_x: u16,
    /// SOUNDBIAS (default 0x0200)
    pub soundbias: u16,
    /// Output ring positions (interleaved left/right slots)
    pub write_pos: usize,
    pub read_pos: usize,
    /// Cycles towards the next output sample
    pub sample_clock: u32,
}

/// What one output sample is mixed from: the two FIFO samples, the mixing
/// controls and the four PSG channel outputs.
#[derive(Clone, Copy, PartialEq, Eq, Structural, Debug)]
pub struct MixInput {
    pub fifo_a: i8,
    pub fifo_b: i8,
    pub soundcnt_l: u16,
    pub soundcnt_h: u16,
    pub psg_panning: u8,
    pub ch1: i16,
    pub ch2: i16,
    pub ch3: i16,
    pub ch4: i16,
}

/// The square channel after a write of its duty/length/envelope register.
pub open spec fn square_cnt_spec(c: PsgSquare, val: u16) -> PsgSquare {
    PsgSquare { duty: ((val >> 6u16) & 0x3) as u8, volume: ((val >> 12u16) & 0xF) as u8,
        length_counter: (64 - (val & 0x3F)) as u16, ..c }
}

/// The square channel after a write of its frequency/control register; bit
/// 15 restarts it.
pub open spec fn square_freq_spec(c: PsgSquare, val: u16) -> PsgSquare {
    let c1 = PsgSquare { frequency: val & 0x7FF, length_enabled: val & 0x4000 != 0, ..c };
    if val & 0x8000 != 0 {
        PsgSquare { enabled: true, timer: psg_period(val & 0x7FF, 16) as u32, duty_pos: 0, ..c1 }
    } else {
        c1
    }
}

impl Apu {
    pub open spec fn wf(&self) -> bool {
        &&& self.psg_ch1.wf() && self.psg_ch2.wf() && self.psg_ch3.wf() && self.psg_ch4.wf()
        &&& self.fifo_a.wf() && self.fifo_b.wf()
        &&& self.write_pos < 8192 && self.read_pos < 8192 && self.sample_clock < 512
    }

    /// The APU after a PSG register write at `offset` (relative to the I/O
    /// base): channel 1 (0x062, 0x064), channel 2 (0x068, 0x06C), channel 3
    /// (0x070, 0x072, 0x074, wave RAM 0x090-0x09E), channel 4 (0x078, 0x07C),
    /// SOUNDCNT_L (0x080) and SOUNDCNT_X (0x084); anything else (the sweep
    /// register 0x060 included) is ignored.
    pub open spec fn psg_write_spec(self, offset: u16, val: u16) -> Apu {
        if offset == 0x062 {
            Apu { psg_ch1: square_cnt_spec(self.psg_ch1, val), ..self }
        } else if offset == 0x064 {
            Apu { psg_ch1: square_freq_spec(self.psg_ch1, val), ..self }
        } else if offset == 0x068 {
            Apu { psg_ch2: square_cnt_spec(self.psg_ch2, val), ..self }
        } else if offset == 0x06C {
            Apu { psg_ch2: square_freq_spec(self.psg_ch2, val), ..self }
        } else if offset == 0x070 {
            if val & 0x80 == 0 { Apu { psg_ch3: PsgWave { enabled: false, ..self.psg_ch3 }, ..self } } else { self }
        } else if offset == 0x072 {
            Apu { psg_ch3: PsgWave { volume_shift: ((val >> 13u16) & 0x3) as u8, ..self.psg_ch3 }, ..self }
        } else if offset == 0x074 {
            let c1 = PsgWave { frequency: val & 0x7FF, ..self.psg_ch3 };
            let c2 = if val & 0x8000 != 0 {
                PsgWave { enabled: true, timer: psg_period(val & 0x7FF, 8) as u32, sample_pos: 0, ..c1 }
            } else {
                c1
            };
            Apu { psg_ch3: c2, ..self }
        } else if offset == 0x078 {
            Apu { psg_ch4: PsgNoise { volume: ((val >> 12u16) & 0xF) as u8, ..self.psg_ch4 }, ..self }
        } else if offset == 0x07C {
            let c1 = PsgNoise { divisor_code: (val & 0x7) as u8, width_mode: val & 0x8 != 0,
                clock_shift: ((val >> 4u16) & 0xF) as u8, ..self.psg_ch4 };
            let c2 = if val & 0x8000 != 0 { PsgNoise { enabled: true, lfsr: 0x7FFF, timer: c1.period_spec(), ..c1 } } else { c1 };
            Apu { psg_ch4: c2, ..self }
        } else if offset == 0x080 {
            let r = (val & 0x07) as u8;
            let l = ((val >> 4u16) & 0x07) as u8;
            let v = if r >= l { r } else { l };
            Apu { soundcnt_l: val, psg_panning: ((val >> 8u16) & 0xFF) as u8, ch1_vol: v, ch2_vol: v, ch3_vol: v, ch4_vol: v, ..self }
        } else if offset == 0x084 {
            Apu { soundcnt_x: (self.soundcnt_x & 0x0F) | (val & 0x80), psg_enabled: val & 0x80 != 0, ..self }
        } else if 0x090 <= offset <= 0x09E {
            let i = ((offset - 0x090) / 2) * 2;
            Apu { psg_ch3: PsgWave { wave_ram: spec_array_update(spec_array_update(self.psg_ch3.wave_ram, i, val as u8),
                i + 1, (val >> 8u16) as u8), ..self.psg_ch3 }, ..self }
        } else {
            self
        }
    }
}


/// Ring arithmetic for one stored sample.
proof fn lemma_ring_step(write_pos: int, read_pos: int, wp: int, k: int)
    requires
        0 <= write_pos < 8192, 0 <= read_pos < 8192, 0 <= k,
        wp == (write_pos + 2 * k) % 8192,
        ring_available(write_pos, read_pos) + 2 * k < 8192,
    ensures
        0 <= wp < 8192,
        (wp + 8192 - read_pos) % 8192 == ring_available(write_pos, read_pos) + 2 * k,
        ((wp + 1) % 8192 + 1) % 8192 == (write_pos + 2 * (k + 1)) % 8192,
{
    let a = ring_available(write_pos, read_pos);
    assert((wp + 8192 - read_pos) % 8192 == a + 2 * k) by (nonlinear_arith)
        requires wp == (write_pos + 2 * k) % 8192, a == (write_pos + 8192 - read_pos) % 8192,
            0 <= write_pos < 8192, 0 <= read_pos < 8192, 0 <= k, a + 2 * k < 8192;
    assert(((wp + 1) % 8192 + 1) % 8192 == (write_pos + 2 * (k + 1)) % 8192) by (nonlinear_arith)
        requires wp == (write_pos + 2 * k) % 8192, 0 <= write_pos, 0 <= k;
}

/// Generates the samples due for `clock` accumulated cycles, one per 512:
/// each takes the next two ring slots if fewer than 8190 are in use. Returns
/// the cycles left over, the new write position and how many were stored.
fn run_samples(clock: u32, write_pos: usize, read_pos: usize) -> (r: (u32, usize, usize))
    requires write_pos < 8192, read_pos < 8192,
    ensures
        r.0 == clock % 512,
        r.2 == samples_stored(ring_available(write_pos as int, read_pos as int), (clock / 512) as int),
        r.1 == (write_pos + 2 * r.2) % 8192,
{
    let ghost avail0 = ring_available(write_pos as int, read_pos as int);
    let mut sample_clock = clock;
    let mut wp = write_pos;
    let mut due: u32 = 0;
    let mut stored: usize = 0;
    while sample_clock >= CYCLES_PER_SAMPLE
        invariant
            0 <= avail0 < 8192, avail0 == ring_available(write_pos as int, read_pos as int),
            sample_clock + 512 * due == clock, wp < 8192, read_pos < 8192, write_pos < 8192,
            stored == samples_stored(avail0, due as int),
            wp == (write_pos + 2 * stored) % 8192,
        decreases sample_clock,
    {
        sample_clock = sample_clock - CYCLES_PER_SAMPLE;
        proof {
            lemma_samples_stored_step(avail0, due as int);
            lemma_ring_step(write_pos as int, read_pos as int, wp as int, stored as int);
            lemma_ring_mask((wp + RING_BUFFER_CAPACITY - read_pos) as usize);
        }
        let avail = (wp + RING_BUFFER_CAPACITY - read_pos) & RING_BUFFER_MASK;
        if avail + 2 < RING_BUFFER_CAPACITY {
            proof {
                lemma_ring_mask((wp + 1) as usize);
                lemma_ring_mask(((wp + 1) % 8192 + 1) as usize);
            }
            wp = (wp + 1) & RING_BUFFER_MASK;
            wp = (wp + 1) & RING_BUFFER_MASK;
            stored = stored + 1;
        }
        due = due + 1;
    }
    proof {
        assert(due == clock / 512) by (nonlinear_arith)
            requires sample_clock + 512 * due == clock, sample_clock < 512, due >= 0;
    }
    (sample_clock, wp, stored)
}

impl Apu {
    /// The APU after `cycles` cycles: nothing happens while the master
    /// enable (SOUNDCNT_X bit 7) is clear; otherwise the PSG channels advance,
    /// one output sample is due per 512 cycles accumulated, and each due
    /// sample takes the next two ring slots while fewer than 8190 are in use.
    pub open spec fn tick_spec(self, cycles: u32) -> Apu {
        if self.soundcnt_x & 0x80 == 0 {
            self
        } else {
            let total = self.sample_clock + cycles;
            let k = samples_stored(ring_available(self.write_pos as int, self.read_pos as int), total / 512);
            Apu {
                psg_ch1: self.psg_ch1.tick_spec(cycles), psg_ch2: self.psg_ch2.tick_spec(cycles),
                psg_ch3: self.psg_ch3.tick_spec(cycles), psg_ch4: self.psg_ch4.tick_spec(cycles),
                sample_clock: (total % 512) as u32,
                write_pos: ((self.write_pos + 2 * k) % 8192) as usize,
                ..self
            }
        }
    }

    pub fn new() -> (r: Self)
        ensures
            r.wf(), !r.psg_enabled, r.soundcnt_l == 0, r.soundcnt_h == 0, r.soundcnt_x == 0, r.soundbias == 0x0200,
            r.fifo_a.count == 0, r.fifo_b.count == 0, r.write_pos == 0, r.read_pos == 0, r.sample_clock == 0,
            r.ch1_vol == 0, r.ch2_vol == 0, r.ch3_vol == 0, r.ch4_vol == 0, r.psg_panning == 0,
            !r.psg_ch1.enabled, !r.psg_ch2.enabled, !r.psg_ch3.enabled, !r.psg_ch4.enabled,
    {
        Apu {
            psg_enabled: false,
            ch1_vol: 0,
            ch2_vol: 0,
            ch3_vol: 0,
            ch4_vol: 0,
            psg_ch1: PsgSquare::new(),
            psg_ch2: PsgSquare::new(),
            psg_ch3: PsgWave::new(),
            psg_ch4: PsgNoise::new(),
            psg_panning: 0,
            fifo_a: Fifo::new(),
            fifo_b: Fifo::new(),
            soundcnt_l: 0,
            soundcnt_h: 0,
            soundcnt_x: 0,
            soundbias: 0x0200,
            write_pos: 0,
            read_pos: 0,
            sample_clock: 0,
        }
    }

    // -- Register helpers ---------------------------------------------------

    /// DMA Sound A volume: false = 50%, true = 100%
    pub fn fifo_a_full_vol(&self) -> (r: bool)
        ensures r == (self.soundcnt_h & 0x0004 != 0),
    {
        self.soundcnt_h & 0x0004 != 0
    }

    /// DMA Sound B volume: false = 50%, true = 100%
    pub fn fifo_b_full_vol(&self) -> (r: bool)
        ensures r == (self.soundcnt_h & 0x0008 != 0),
    {
        self.soundcnt_h & 0x0008 != 0
    }

    pub fn fifo_a_enable_right(&self) -> (r: bool)
        ensures r == (self.soundcnt_h & 0x0100 != 0),
    {
        self.soundcnt_h & 0x0100 != 0
    }

    pub fn fifo_a_enable_left(&self) -> (r: bool)
        ensures r == (self.soundcnt_h & 0x0200 != 0),
    {
        self.soundcnt_h & 0x0200 != 0
    }

    /// The timer (0 or 1) whose overflow drains FIFO A.
    pub fn fifo_a_timer(&self) -> (r: usize)
        ensures r == (self.soundcnt_h >> 10u16) & 1,
    {
        ((self.soundcnt_h >> 10) & 1) as usize
    }

    pub fn fifo_b_enable_right(&self) -> (r: bool)
        ensures r == (self.soundcnt_h & 0x1000 != 0),
    {
        self.soundcnt_h & 0x1000 != 0
    }

    pub fn fifo_b_enable_left(&self) -> (r: bool)
        ensures r == (self.soundcnt_h & 0x2000 != 0),
    {
        self.soundcnt_h & 0x2000 != 0
    }

    /// The timer (0 or 1) whose overflow drains FIFO B.
    pub fn fifo_b_timer(&self) -> (r: usize)
        ensures r == (self.soundcnt_h >> 14u16) & 1,
    {
        ((self.soundcnt_h >> 14) & 1) as usize
    }

    pub fn master_enable(&self) -> (r: bool)
        ensures r == (self.soundcnt_x & 0x80 != 0),
    {
        self.soundcnt_x & 0x80 != 0
    }

    /// PSG right master volume (SOUNDCNT_L bits 0-2).
    pub fn psg_vol_right(&self) -> (r: u8)
        ensures r == self.soundcnt_l & 0x07,
    {
        (self.soundcnt_l & 0x07) as u8
    }

    /// PSG left master volume (SOUNDCNT_L bits 4-6).
    pub fn psg_vol_left(&self) -> (r: u8)
        ensures r == (self.soundcnt_l >> 4u16) & 0x07,
    {
        ((self.soundcnt_l >> 4) & 0x07) as u8
    }

    /// The mixing inputs of the current state.
    pub open spec fn mix_input_spec(self) -> MixInput {
        MixInput {
            fifo_a: self.fifo_a.current_sample,
            fifo_b: self.fifo_b.current_sample,
            soundcnt_l: self.soundcnt_l,
            soundcnt_h: self.soundcnt_h,
            psg_panning: self.psg_panning,
            ch1: self.psg_ch1.sample_spec(),
            ch2: self.psg_ch2.sample_spec(),
            ch3: self.psg_ch3.sample_spec(),
            ch4: self.psg_ch4.sample_spec(),
        }
    }

    /// The inputs that the next output sample is mixed from.
    pub fn mix_input(&self) -> (r: MixInput)
        requires self.wf(),
        ensures r == self.mix_input_spec(),
    {
        MixInput {
            fifo_a: self.fifo_a.current_sample,
            fifo_b: self.fifo_b.current_sample,
            soundcnt_l: self.soundcnt_l,
            soundcnt_h: self.soundcnt_h,
            psg_panning: self.psg_panning,
            ch1: self.psg_ch1.sample(),
            ch2: self.psg_ch2.sample(),
            ch3: self.psg_ch3.sample(),
            ch4: self.psg_ch4.sample(),
        }
    }

    // -- PSG register write -------------------------------------------------

    /// Handle a write to a PSG I/O register. `offset` is relative to 0x04000000.
    #[verifier::rlimit(40)]
    pub fn write_psg_register(&mut self, offset: u16, val: u16)
        requires old(self).wf(),
        ensures final(self).wf(), *final(self) == old(self).psg_write_spec(offset, val),
    {
        if offset == 0x062 {
            // SOUND1CNT_H: length, duty, envelope, initial volume
            self.psg_ch1.write_cnt(val);
        } else if offset == 0x064 {
            // SOUND1CNT_X: frequency, length enable, trigger
            self.psg_ch1.write_freq(val);
        } else if offset == 0x068 {
            // SOUND2CNT_L
            self.psg_ch2.write_cnt(val);
        } else if offset == 0x06C {
            // SOUND2CNT_H
            self.psg_ch2.write_freq(val);
        } else if offset == 0x070 {
            // SOUND3CNT_L: bit 7 = DAC enable
            if val & 0x80 == 0 {
                self.psg_ch3.enabled = false;
            }
        } else if offset == 0x072 {
            // SOUND3CNT_H: bits 13-14 = volume (0 mute, 1 100%, 2 50%, 3 25%)
            self.psg_ch3.volume_shift = ((val >> 13) & 0x3) as u8;
        } else if offset == 0x074 {
            // SOUND3CNT_X
            self.psg_ch3.frequency = val & 0x7FF;
            if val & 0x8000 != 0 {
                self.psg_ch3.enabled = true;
                self.psg_ch3.timer = self.psg_ch3.period();
                self.psg_ch3.sample_pos = 0;
            }
        } else if offset == 0x078 {
            // SOUND4CNT_L: initial volume
            self.psg_ch4.volume = ((val >> 12) & 0xF) as u8;
        } else if offset == 0x07C {
            // SOUND4CNT_H: divisor, width, clock shift, trigger
            self.psg_ch4.divisor_code = (val & 0x7) as u8;
            self.psg_ch4.width_mode = val & 0x8 != 0;
            self.psg_ch4.clock_shift = ((val >> 4) & 0xF) as u8;
            if val & 0x8000 != 0 {
                self.psg_ch4.enabled = true;
                self.psg_ch4.lfsr = 0x7FFF;
                self.psg_ch4.timer = self.psg_ch4.period();
            }
        } else if offset == 0x080 {
            // SOUNDCNT_L: PSG master volume + panning
            self.soundcnt_l = val;
            self.psg_panning = ((val >> 8) & 0xFF) as u8;
            let r = self.psg_vol_right();
            let l = self.psg_vol_left();
            self.ch1_vol = if r >= l { r } else { l };
            self.ch2_vol = self.ch1_vol;
            self.ch3_vol = self.ch1_vol;
            self.ch4_vol = self.ch1_vol;
        } else if offset == 0x084 {
            // SOUNDCNT_X: master enable (bit 7); lower bits are read-only channel status
            let master = val & 0x80;
            self.soundcnt_x = (self.soundcnt_x & 0x0F) | master;
            self.psg_enabled = master != 0;
        } else if 0x090 <= offset && offset <= 0x09E {
            // Wave RAM: 16 bytes, written as 8 halfwords
            let idx = ((offset - 0x090) / 2) as usize;
            if idx + 1 < 16 {
                self.psg_ch3.wave_ram[idx * 2] = val as u8;
                self.psg_ch3.wave_ram[idx * 2 + 1] = (val >> 8) as u8;
            }
        }
    }

    // -- PSG tick -----------------------------------------------------------

    /// Advance PSG channel timers by `cycles` CPU cycles.
    pub fn tick_psg(&mut self, cycles: u32)
        requires old(self).wf(),
        ensures
            final(self).wf(),
            *final(self) == (Apu {
                psg_ch1: old(self).psg_ch1.tick_spec(cycles), psg_ch2: old(self).psg_ch2.tick_spec(cycles),
                psg_ch3: old(self).psg_ch3.tick_spec(cycles), psg_ch4: old(self).psg_ch4.tick_spec(cycles),
                ..*old(self)
            }),
    {
        self.psg_ch1.tick(cycles);
        self.psg_ch2.tick(cycles);
        self.psg_ch3.tick(cycles);
        self.psg_ch4.tick(cycles);
    }

    // -- Public API ---------------------------------------------------------

    /// Advance the APU by `cycles` CPU cycles. Returns where the samples due
    /// in this period were placed: the ring position of the first and how
    /// many (left/right slot pairs) were stored. Every sample of one call
    /// mixes the same channel state, which the host turns into output values.
    pub fn tick(&mut self, cycles: u32) -> (r: (usize, usize))
        requires old(self).wf(), old(self).sample_clock + cycles <= u32::MAX,
        ensures
            final(self).wf(), *final(self) == old(self).tick_spec(cycles),
            r.0 == old(self).write_pos,
            r.1 == (if old(self).soundcnt_x & 0x80 == 0 { 0 } else {
                samples_stored(ring_available(old(self).write_pos as int, old(self).read_pos as int),
                    (old(self).sample_clock + cycles) / 512)
            }),
    {
        let start = self.write_pos;
        if !self.master_enable() {
            return (start, 0);
        }

        self.tick_psg(cycles);

        let (clock, wp, stored) = run_samples(self.sample_clock + cycles, self.write_pos, self.read_pos);
        self.sample_clock = clock;
        self.write_pos = wp;
        (start, stored)
    }

    /// Called when timer 0 or timer 1 overflows. Pops the associated FIFO(s).
    /// Returns a bitmask indicating which FIFOs need DMA refill:
    ///   bit 0 = FIFO A, bit 1 = FIFO B.
    /// The APU after timer `timer_id` overflows: each FIFO driven by that
    /// timer pops its next sample.
    pub open spec fn timer_overflow_spec(self, timer_id: int) -> Apu {
        let a = (self.soundcnt_h >> 10u16) & 1 == timer_id;
        let b = (self.soundcnt_h >> 14u16) & 1 == timer_id;
        Apu {
            fifo_a: if a { self.fifo_a.pop_spec() } else { self.fifo_a },
            fifo_b: if b { self.fifo_b.pop_spec() } else { self.fifo_b },
            ..self
        }
    }

    pub fn timer_overflow(&mut self, timer_id: usize) -> (needs_dma: u8)
        requires old(self).wf(),
        ensures
            final(self).wf(),
            *final(self) == old(self).timer_overflow_spec(timer_id as int),
            ({
                let a = (old(self).soundcnt_h >> 10u16) & 1 == timer_id;
                let b = (old(self).soundcnt_h >> 14u16) & 1 == timer_id;
                let fa = if a { old(self).fifo_a.pop_spec() } else { old(self).fifo_a };
                let fb = if b { old(self).fifo_b.pop_spec() } else { old(self).fifo_b };
                &&& *final(self) == (Apu { fifo_a: fa, fifo_b: fb, ..*old(self) })
                &&& needs_dma == (if a && fa.count <= 16 { 1u8 } else { 0u8 }) | (if b && fb.count <= 16 { 2u8 } else { 0u8 })
            }),
    {
        let a = self.fifo_a_timer() == timer_id && self.fifo_a.pop();
        let b = self.fifo_b_timer() == timer_id && self.fifo_b.pop();
        (if a { 1u8 } else { 0u8 }) | (if b { 2u8 } else { 0u8 })
    }

    /// Write 4 bytes to FIFO A (address 0x0400_00A0).
    pub fn write_fifo_a(&mut self, data: u32)
        requires old(self).wf(),
        ensures
            final(self).wf(),
            final(self).fifo_a.queue() == old(self).fifo_a.queue()
                + Seq::new((final(self).fifo_a.count - old(self).fifo_a.count) as nat, |i: int| sample_byte(data, i)),
            final(self).fifo_a.count == (if old(self).fifo_a.count + 4 <= 32 { old(self).fifo_a.count + 4 } else { 32 }),
            final(self).fifo_a.current_sample == old(self).fifo_a.current_sample,
            *final(self) == (Apu { fifo_a: old(self).fifo_a.push_bytes_spec(data, 4), ..*old(self) }),
    {
        self.fifo_a.write32(data);
    }

    /// Write 4 bytes to FIFO B (address 0x0400_00A4).
    pub fn write_fifo_b(&mut self, data: u32)
        requires old(self).wf(),
        ensures
            final(self).wf(),
            final(self).fifo_b.queue() == old(self).fifo_b.queue()
                + Seq::new((final(self).fifo_b.count - old(self).fifo_b.count) as nat, |i: int| sample_byte(data, i)),
            final(self).fifo_b.count == (if old(self).fifo_b.count + 4 <= 32 { old(self).fifo_b.count + 4 } else { 32 }),
            final(self).fifo_b.current_sample == old(self).fifo_b.current_sample,
            *final(self) == (Apu { fifo_b: old(self).fifo_b.push_bytes_spec(data, 4), ..*old(self) }),
    {
        self.fifo_b.write32(data);
    }

    /// Handle writes to SOUNDCNT_H; bit 11 resets FIFO A and bit 15 FIFO B;
    /// the value is stored with those two bits cleared.
    pub fn write_soundcnt_h(&mut self, value: u16)
        requires old(self).wf(),
        ensures
            final(self).wf(),
            *final(self) == (Apu {
                fifo_a: if value & 0x0800 != 0 { old(self).fifo_a.reset_spec() } else { old(self).fifo_a },
                fifo_b: if value & 0x8000 != 0 { old(self).fifo_b.reset_spec() } else { old(self).fifo_b },
                soundcnt_h: value & !0x8800u16,
                ..*old(self)
            }),
    {
        if value & 0x0800 != 0 {
            self.fifo_a.reset();
        }
        if value & 0x8000 != 0 {
            self.fifo_b.reset();
        }
        // Clear reset bits before storing
        self.soundcnt_h = value & !0x8800;
    }

    // -- Ring buffer positions ------------------------------------------------

    /// Slots holding samples not yet consumed.
    pub fn ring_buffer_available(&self) -> (r: usize)
        requires self.write_pos < 8192, self.read_pos < 8192,
        ensures r == ring_available(self.write_pos as int, self.read_pos as int), r < 8192,
    {
        proof { lemma_ring_mask((self.write_pos + RING_BUFFER_CAPACITY - self.read_pos) as usize); }
        (self.write_pos + RING_BUFFER_CAPACITY - self.read_pos) & RING_BUFFER_MASK
    }

    pub fn ring_read_pos(&self) -> (r: usize)
        ensures r == self.read_pos,
    {
        self.read_pos
    }

    pub fn ring_capacity(&self) -> (r: usize)
        ensures r == 8192,
    {
        RING_BUFFER_CAPACITY
    }

    pub fn ring_write_pos(&self) -> (r: usize)
        ensures r == self.write_pos,
    {
        self.write_pos
    }

    /// Drop every unconsumed sample.
    pub fn ring_clear(&mut self)
        requires old(self).wf(),
        ensures final(self).wf(), *final(self) == (Apu { read_pos: old(self).write_pos, ..*old(self) }),
    {
        self.read_pos = self.write_pos;
    }

    /// Mark `count` slots (at most all available) as consumed.
    pub fn ring_consume(&mut self, count: usize)
        requires old(self).wf(),
        ensures
            final(self).wf(),
            ({
                let avail = ring_available(old(self).write_pos as int, old(self).read_pos as int);
                let n = if count < avail { count as int } else { avail };
                *final(self) == (Apu { read_pos: ((old(self).read_pos + n) % 8192) as usize, ..*old(self) })
            }),
    {
        let avail = self.ring_buffer_available();
        let n = if count < avail { count } else { avail };
        proof { lemma_ring_mask((self.read_pos + n) as usize); }
        self.read_pos = (self.read_pos + n) & RING_BUFFER_MASK;
    }
}


/// Consuming `count` slots leaves `count` fewer available (or none when
/// fewer were available).
pub proof fn lemma_ring_consume(a: Apu, count: usize)
    requires a.wf(),
    ensures ({
        let avail = ring_available(a.write_pos as int, a.read_pos as int);
        let n = if count < avail { count as int } else { avail };
        ring_available(a.write_pos as int, (a.read_pos + n) % 8192) == avail - n
    }),
{
    let avail = ring_available(a.write_pos as int, a.read_pos as int);
    let n = if count < avail { count as int } else { avail };
    let w = a.write_pos as int;
    let r = a.read_pos as int;
    assert((w + 8192 - (r + n) % 8192) % 8192 == avail - n) by (nonlinear_arith)
        requires avail == (w + 8192 - r) % 8192, 0 <= n <= avail, 0 <= w < 8192, 0 <= r < 8192;
}

} // verus!
