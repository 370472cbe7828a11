//! Timer subsystem — DIV, TIMA, TMA, TAC registers.
//!
//! DIV is the upper 8 bits of a free-running 16-bit counter. TIMA increments
//! on each falling edge of the counter bit that TAC selects and requests the
//! timer interrupt (bit 2) when it overflows, reloading from TMA.
use vstd::prelude::*;
use crate::savestate::{push_u8, push_u16, pop_u8, pop_u16, take_u8, take_u16, le16, lemma_take_roundtrips};

verus! {

#[derive(Clone, Copy)]
pub struct Timer {
    /// Internal 16-bit counter. DIV register = upper 8 bits.
    pub div_counter: u16,
    /// Timer counter — increments at the TAC-selected rate.
    pub tima: u8,
    /// Timer modulo — TIMA reloads from this on overflow.
    pub tma: u8,
    /// Timer control: bit 2 = enable, bits 1-0 = clock select.
    pub tac: u8,
    /// Counter bit selected by TAC.
    pub bit_mask: u16,
}

/// The counter bit that clocks TIMA for a clock-select value.
pub open spec fn mask_for(tac: u8) -> u16 {
    let sel = tac % 4;
    if sel == 0 { 512 } else if sel == 1 { 8 } else if sel == 2 { 32 } else { 128 }
}

/// TIMA incremented once: an overflow reloads TMA and requests the interrupt.
pub open spec fn tima_inc(t: Timer, iflag: u8) -> (Timer, u8) {
    if t.tima == 255 {
        (Timer { tima: t.tma, ..t }, iflag | 0x04)
    } else {
        (Timer { tima: (t.tima + 1) as u8, ..t }, iflag)
    }
}

/// One T-cycle with the timer enabled.
pub open spec fn step1(t: Timer, iflag: u8) -> (Timer, u8) {
    let old_bit = t.div_counter & t.bit_mask != 0;
    let t1 = Timer { div_counter: ((t.div_counter + 1) % 65536) as u16, ..t };
    let new_bit = t1.div_counter & t1.bit_mask != 0;
    if old_bit && !new_bit { tima_inc(t1, iflag) } else { (t1, iflag) }
}

/// `n` T-cycles with the timer enabled.
pub open spec fn steps(t: Timer, iflag: u8, n: nat) -> (Timer, u8)
    decreases n,
{
    if n == 0 { (t, iflag) } else {
        let p = steps(t, iflag, (n - 1) as nat);
        step1(p.0, p.1)
    }
}

impl Timer {
    pub open spec fn valid(self) -> bool {
        self.bit_mask == mask_for(self.tac)
    }

    /// The effect of `tick(cycles)` on the timer and the interrupt flags.
    pub open spec fn tick_spec(self, cycles: u32, iflag: u8) -> (Timer, u8) {
        if self.tac & 0x04 == 0 {
            (Timer { div_counter: ((self.div_counter + cycles) % 65536) as u16, ..self }, iflag)
        } else {
            steps(self, iflag, cycles as nat)
        }
    }

    pub open spec fn read_spec(self, addr: u16) -> u8 {
        if addr == 0xFF04 { (self.div_counter / 256) as u8 }
        else if addr == 0xFF05 { self.tima }
        else if addr == 0xFF06 { self.tma }
        else if addr == 0xFF07 { self.tac | 0xF8 }
        else { 0xFF }
    }

    /// The effect of `write(addr, val)` on the timer and the interrupt flags.
    pub open spec fn write_spec(self, addr: u16, val: u8, iflag: u8) -> (Timer, u8) {
        if addr == 0xFF04 {
            let bumped = if self.tac & 0x04 != 0 && self.div_counter & self.bit_mask != 0 {
                tima_inc(self, iflag)
            } else {
                (self, iflag)
            };
            (Timer { div_counter: 0, ..bumped.0 }, bumped.1)
        } else if addr == 0xFF05 {
            (Timer { tima: val, ..self }, iflag)
        } else if addr == 0xFF06 {
            (Timer { tma: val, ..self }, iflag)
        } else if addr == 0xFF07 {
            (Timer { tac: val & 0x07, bit_mask: mask_for(val & 0x07), ..self }, iflag)
        } else {
            (self, iflag)
        }
    }

    /// The bytes `save_state` appends.
    pub open spec fn serialized(self) -> Seq<u8> {
        le16(self.div_counter) + seq![self.tima, self.tma, self.tac]
    }

    pub fn new() -> (r: Self)
        ensures
            r.div_counter == 0xAB00 && r.tima == 0 && r.tma == 0 && r.tac == 0,
            r.valid(),
    {
        Timer { div_counter: 0xAB00, tima: 0, tma: 0, tac: 0, bit_mask: 512 }
    }

    fn inc_tima(&mut self, interrupt_flag: &mut u8)
        ensures
            (*final(self), *final(interrupt_flag)) == tima_inc(*old(self), *old(interrupt_flag)),
    {
        self.tima = self.tima.wrapping_add(1);
        if self.tima == 0 {
            self.tima = self.tma;
            *interrupt_flag = *interrupt_flag | 0x04;
        }
    }

    /// Advance the timer by `cycles` T-cycles.
    pub fn tick(&mut self, cycles: u32, interrupt_flag: &mut u8)
        ensures
            (*final(self), *final(interrupt_flag)) == old(self).tick_spec(cycles, *old(interrupt_flag)),
    {
        if self.tac & 0x04 == 0 {
            self.div_counter = self.div_counter.wrapping_add((cycles % 65536) as u16);
            return;
        }
        let ghost t0 = *self;
        let ghost f0 = *interrupt_flag;
        let mask = self.bit_mask;
        let mut i: u32 = 0;
        while i < cycles
            invariant
                i <= cycles,
                mask == self.bit_mask,
                (*self, *interrupt_flag) == steps(t0, f0, i as nat),
            decreases cycles - i,
        {
            let ghost before = (*self, *interrupt_flag);
            let old_bit = self.div_counter & mask != 0;
            self.div_counter = self.div_counter.wrapping_add(1);
            let new_bit = self.div_counter & mask != 0;
            if old_bit && !new_bit {
                self.inc_tima(interrupt_flag);
            }
            assert((*self, *interrupt_flag) == step1(before.0, before.1));
            i = i + 1;
        }
    }

    fn update_bit_mask(&mut self)
        ensures *final(self) == (Timer { bit_mask: mask_for(old(self).tac), ..*old(self) }),
    {
        self.bit_mask = match self.tac % 4 {
            0 => 512,
            1 => 8,
            2 => 32,
            _ => 128,
        };
    }

    pub fn save_state(&self, d: &mut Vec<u8>)
        ensures final(d)@ == old(d)@ + self.serialized(),
    {
        push_u16(d, self.div_counter);
        push_u8(d, self.tima);
        push_u8(d, self.tma);
        push_u8(d, self.tac);
        assert(d@ =~= old(d)@ + self.serialized());
    }

    pub fn load_state(&mut self, d: &mut &[u8])
        ensures
            ({
                let (div, s1) = take_u16(old(d)@);
                let (tima, s2) = take_u8(s1);
                let (tma, s3) = take_u8(s2);
                let (tac, s4) = take_u8(s3);
                &&& *final(self) == (Timer { div_counter: div, tima, tma, tac, bit_mask: mask_for(tac) })
                &&& final(d)@ == s4
            }),
    {
        self.div_counter = pop_u16(d);
        self.tima = pop_u8(d);
        self.tma = pop_u8(d);
        self.tac = pop_u8(d);
        self.update_bit_mask();
    }

    pub fn read(&self, addr: u16) -> (r: u8)
        ensures r == self.read_spec(addr),
    {
        match addr {
            0xFF04 => (self.div_counter / 256) as u8,
            0xFF05 => self.tima,
            0xFF06 => self.tma,
            0xFF07 => self.tac | 0xF8,
            _ => 0xFF,
        }
    }

    pub fn write(&mut self, addr: u16, val: u8, interrupt_flag: &mut u8)
        ensures
            (*final(self), *final(interrupt_flag)) == old(self).write_spec(addr, val, *old(interrupt_flag)),
    {
        match addr {
            0xFF04 => {
                if self.tac & 0x04 != 0 && self.div_counter & self.bit_mask != 0 {
                    self.inc_tima(interrupt_flag);
                }
                self.div_counter = 0;
            }
            0xFF05 => self.tima = val,
            0xFF06 => self.tma = val,
            0xFF07 => {
                self.tac = val & 0x07;
                self.update_bit_mask();
            }
            _ => {}
        }
    }
}

/// The TIMA clock bit reads as set exactly in the upper half of each period.
proof fn lemma_clock_bit(x: u16, m: u16)
    requires
        m == 8 || m == 32 || m == 128 || m == 512,
        x <= 2 * m,
    ensures
        (x & m != 0) == (m <= x < 2 * m),
{
    assert((x & m != 0) == (m <= x < 2 * m)) by (bit_vector)
        requires (m == 8u16 || m == 32u16 || m == 128u16 || m == 512u16) && x <= 2 * m;
}

/// From a reset counter, the first `j` cycles of a period only advance the
/// counter.
proof fn lemma_steps_before_edge(t: Timer, f: u8, j: nat)
    requires
        t.valid(),
        t.div_counter == 0,
        j < 2 * mask_for(t.tac),
    ensures
        steps(t, f, j) == (Timer { div_counter: j as u16, ..t }, f),
    decreases j,
{
    if j > 0 {
        lemma_steps_before_edge(t, f, (j - 1) as nat);
        lemma_clock_bit((j - 1) as u16, t.bit_mask);
        lemma_clock_bit(j as u16, t.bit_mask);
    }
}

/// TIMA counts at the rate TAC selects: with the timer enabled and the
/// counter just reset (as a write to DIV leaves it), TIMA goes up by one
/// after exactly 1024, 16, 64 or 256 cycles for clock select 0, 1, 2 or 3,
/// and not a cycle earlier.
pub proof fn lemma_timer_period(t: Timer, f: u8)
    requires
        t.valid(),
        t.tac & 0x04 != 0,
        t.div_counter == 0,
        t.tima < 255,
    ensures
        ({
            let sel = t.tac % 4;
            let p: u32 = if sel == 0 { 1024 } else if sel == 1 { 16 } else if sel == 2 { 64 } else { 256 };
            &&& t.tick_spec((p - 1) as u32, f).0.tima == t.tima
            &&& t.tick_spec(p, f).0.tima == t.tima + 1
            &&& t.tick_spec(p, f).1 == f
        }),
{
    let m = t.bit_mask;
    let p = 2 * m;
    lemma_steps_before_edge(t, f, (p - 1) as nat);
    lemma_clock_bit((p - 1) as u16, m);
    lemma_clock_bit(p as u16, m);
}

/// Saving a timer and loading the bytes back restores it exactly (the
/// selected counter bit is recomputed from TAC), and the cursor ends right
/// after the timer's bytes.
pub proof fn lemma_timer_roundtrip(t: Timer, tail: Seq<u8>)
    requires
        t.valid(),
    ensures
        ({
            let (div, s1) = take_u16(t.serialized() + tail);
            let (tima, s2) = take_u8(s1);
            let (tma, s3) = take_u8(s2);
            let (tac, s4) = take_u8(s3);
            &&& (Timer { div_counter: div, tima, tma, tac, bit_mask: mask_for(tac) }) == t
            &&& s4 == tail
        }),
{
    lemma_take_roundtrips(tail);
    lemma_take_roundtrips(seq![t.tac] + tail);
    lemma_take_roundtrips(seq![t.tma, t.tac] + tail);
    lemma_take_roundtrips(seq![t.tima, t.tma, t.tac] + tail);
    assert(t.serialized() + tail =~= le16(t.div_counter) + (seq![t.tima, t.tma, t.tac] + tail));
    assert(seq![t.tima, t.tma, t.tac] + tail =~= seq![t.tima] + (seq![t.tma, t.tac] + tail));
    assert(seq![t.tma, t.tac] + tail =~= seq![t.tma] + (seq![t.tac] + tail));
}

/// Every operation keeps the selected counter bit in step with TAC.
pub proof fn lemma_timer_ops_keep_valid(t: Timer, cycles: u32, addr: u16, val: u8, iflag: u8)
    requires
        t.valid(),
    ensures
        t.tick_spec(cycles, iflag).0.valid(),
        t.write_spec(addr, val, iflag).0.valid(),
{
    if t.tac & 0x04 != 0 {
        lemma_steps_keep(t, iflag, cycles as nat);
    }
}

proof fn lemma_steps_keep(t: Timer, iflag: u8, n: nat)
    ensures
        steps(t, iflag, n).0.tac == t.tac,
        steps(t, iflag, n).0.bit_mask == t.bit_mask,
        steps(t, iflag, n).0.tma == t.tma,
    decreases n,
{
    if n > 0 {
        lemma_steps_keep(t, iflag, (n - 1) as nat);
    }
}

} // verus!
