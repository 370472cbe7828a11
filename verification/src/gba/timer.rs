//! GBA timer controller — 4 cascadable 16-bit timers.
//!
//! Each timer has: counter, reload value, control register.
//! Prescaler rates: F/1, F/64, F/256, F/1024 (F = 16.78 MHz).
//! Cascade mode: timer N increments when timer N-1 overflows.
use vstd::prelude::*;

verus! {

#[derive(Clone, Copy)]
pub struct Timer {
    /// Current counter value (16-bit)
    pub counter: u16,
    /// Reload value (written to counter on overflow or start)
    pub reload: u16,
    /// Control register (prescaler, cascade, IRQ, enable)
    pub ctrl: u16,
    /// Internal cycle accumulator for prescaler
    pub cycles: u32,
}

/// Prescaler shift by the two low control bits: F/1, F/64, F/256, F/1024.
pub open spec fn shift_spec(ctrl: u16) -> u32 {
    let sel = ctrl % 4;
    if sel == 0 { 0 } else if sel == 1 { 6 } else if sel == 2 { 8 } else { 10 }
}

pub open spec fn pow2(n: u32) -> int {
    if n == 0 { 1 } else if n == 6 { 64 } else if n == 8 { 256 } else { 1024 }
}

/// One timer's update within a tick of `cycles`, given whether the previous
/// timer overflowed in this tick (`i > 0` allows cascading): the new timer,
/// whether it overflowed, and whether it raises its IRQ.
pub open spec fn timer_step(t: Timer, cycles: u32, prev_overflow: bool, i: int) -> (Timer, bool, bool) {
    if t.ctrl & 0x80 == 0 {
        (t, false, false)
    } else if t.ctrl & 0x04 != 0 && i > 0 {
        if !prev_overflow {
            (t, false, false)
        } else if t.counter == 0xFFFF {
            (Timer { counter: t.reload, ..t }, true, t.ctrl & 0x40 != 0)
        } else {
            (Timer { counter: (t.counter + 1) as u16, ..t }, false, false)
        }
    } else {
        let p = pow2(shift_spec(t.ctrl));
        let total = t.cycles + cycles;
        let ticks = total / p;
        let t1 = Timer { cycles: (total % p) as u32, ..t };
        let remaining = 0x10000 - t.counter;
        if ticks == 0 {
            (t1, false, false)
        } else if ticks >= remaining {
            // overflow: count on from the reload value, modulo the period
            let excess = ticks - remaining;
            let period = 0x10000 - t.reload;
            (Timer { counter: (t.reload + excess % period) as u16, ..t1 }, true, t.ctrl & 0x40 != 0)
        } else {
            (Timer { counter: (t.counter + ticks) as u16, ..t1 }, false, false)
        }
    }
}

/// An enabled timer that is not cascading counts one tick per 1, 64, 256 or
/// 1024 cycles (prescaler select 0-3): as long as it does not overflow,
/// the counter in units of the prescaler plus the cycles left over grows
/// by exactly the cycles given, and it reports no overflow.
pub proof fn lemma_gba_timer_prescaler(t: Timer, cycles: u32, prev_overflow: bool, i: int)
    requires
        t.ctrl & 0x80 != 0,
        t.ctrl & 0x04 == 0 || i == 0,
        ({
            let sel = t.ctrl % 4;
            let p: int = if sel == 0 { 1 } else if sel == 1 { 64 } else if sel == 2 { 256 } else { 1024 };
            (t.cycles + cycles) / p < 0x10000 - t.counter
        }),
    ensures
        ({
            let sel = t.ctrl % 4;
            let p: int = if sel == 0 { 1 } else if sel == 1 { 64 } else if sel == 2 { 256 } else { 1024 };
            let (t2, ov, irq) = timer_step(t, cycles, prev_overflow, i);
            &&& t2.counter * p + t2.cycles == t.counter * p + t.cycles + cycles
            &&& 0 <= t2.cycles < p
            &&& !ov && !irq
            &&& t2.reload == t.reload && t2.ctrl == t.ctrl
        }),
{
    let sel = t.ctrl % 4;
    let total = t.cycles + cycles;
    if sel == 0 {
    } else if sel == 1 {
        vstd::arithmetic::div_mod::lemma_fundamental_div_mod(total, 64);
    } else if sel == 2 {
        vstd::arithmetic::div_mod::lemma_fundamental_div_mod(total, 256);
    } else {
        vstd::arithmetic::div_mod::lemma_fundamental_div_mod(total, 1024);
    }
}

/// Timers `0..n` advanced in order: the timers, whether timer `n-1`
/// overflowed, and the IRQ bits raised so far (bit `3+i` for timer `i`).
pub open spec fn tick_upto(ts: Seq<Timer>, cycles: u32, n: nat) -> (Seq<Timer>, bool, u16)
    decreases n,
{
    if n == 0 {
        (ts, false, 0)
    } else {
        let (s, o, q) = tick_upto(ts, cycles, (n - 1) as nat);
        let (t, ov, irq) = timer_step(s[n - 1], cycles, o, n - 1);
        (s.update(n - 1, t), ov, if irq { q | (1u16 << ((3 + n - 1) as u16)) } else { q })
    }
}

impl Timer {
    pub fn new() -> (r: Self)
        ensures r.counter == 0 && r.reload == 0 && r.ctrl == 0 && r.cycles == 0,
    {
        Timer { counter: 0, reload: 0, ctrl: 0, cycles: 0 }
    }

    pub fn enabled(&self) -> (r: bool)
        ensures r == (self.ctrl & 0x80 != 0),
    {
        self.ctrl & 0x80 != 0
    }

    pub fn cascade(&self) -> (r: bool)
        ensures r == (self.ctrl & 0x04 != 0),
    {
        self.ctrl & 0x04 != 0
    }

    pub fn irq_enabled(&self) -> (r: bool)
        ensures r == (self.ctrl & 0x40 != 0),
    {
        self.ctrl & 0x40 != 0
    }

    pub fn prescaler_shift(&self) -> (r: u32)
        ensures r == shift_spec(self.ctrl),
    {
        match self.ctrl % 4 {
            0 => 0,
            1 => 6,
            2 => 8,
            _ => 10,
        }
    }

    /// Advance this timer by one tick of `cycles` (see `timer_step`).
    fn step(&mut self, cycles: u32, prev_overflow: bool, i: usize) -> (r: (bool, bool))
        requires
            old(self).cycles + cycles <= u32::MAX,
        ensures
            ({
                let (t, ov, irq) = timer_step(*old(self), cycles, prev_overflow, i as int);
                *final(self) == t && r == (ov, irq)
            }),
    {
        if !self.enabled() {
            return (false, false);
        }
        if self.cascade() && i > 0 {
            // Cascade mode: increment when the previous timer overflows
            if prev_overflow {
                let new_val = self.counter.wrapping_add(1);
                if new_val == 0 {
                    self.counter = self.reload;
                    return (true, self.irq_enabled());
                } else {
                    self.counter = new_val;
                }
            }
            return (false, false);
        }
        // Normal mode: count based on prescaler
        let shift = self.prescaler_shift();
        self.cycles += cycles;
        proof {
            vstd::arithmetic::power2::lemma2_to64();
            vstd::bits::lemma_u32_shl_is_mul(1u32, 0u32);
            vstd::bits::lemma_u32_shl_is_mul(1u32, 6u32);
            vstd::bits::lemma_u32_shl_is_mul(1u32, 8u32);
            vstd::bits::lemma_u32_shl_is_mul(1u32, 10u32);
        }
        let mask = (1u32 << shift) - 1;
        proof { lemma_shift_div(self.cycles, shift, mask); }
        let ticks = self.cycles >> shift;
        self.cycles &= mask;
        if ticks > 0 {
            let remaining = 0x10000u32 - self.counter as u32;
            if ticks >= remaining {
                // Overflow occurred
                self.counter = self.reload;
                let irq = self.irq_enabled();
                // Handle multiple overflows in one tick batch
                let excess = ticks - remaining;
                let period = 0x10000u32 - self.reload as u32;
                proof {
                    vstd::arithmetic::div_mod::lemma_mod_pos_bound(excess as int, period as int);
                    if excess < period {
                        vstd::arithmetic::div_mod::lemma_small_mod(excess as nat, period as nat);
                    }
                }
                if period > 0 && excess >= period {
                    self.counter = self.reload.wrapping_add((excess % period) as u16);
                } else {
                    self.counter = self.reload.wrapping_add(excess as u16);
                }
                return (true, irq);
            } else {
                self.counter = self.counter.wrapping_add(ticks as u16);
            }
        }
        (false, false)
    }
}

/// Shifting right by a prescaler shift divides by its power of two, and
/// masking with the power of two minus one takes the remainder.
proof fn lemma_shift_div(x: u32, s: u32, mask: u32)
    requires
        s == 0 || s == 6 || s == 8 || s == 10,
        mask == pow2(s) - 1,
    ensures
        x >> s == x / (pow2(s) as u32),
        x & mask == x % (pow2(s) as u32),
{
    assert(x >> 0u32 == x / 1 && x & 0u32 == x % 1 && x >> 6u32 == x / 64 && x & 63u32 == x % 64
        && x >> 8u32 == x / 256 && x & 255u32 == x % 256 && x >> 10u32 == x / 1024 && x & 1023u32 == x % 1024) by (bit_vector);
}

/// Ticking keeps four timers four, each with its accumulator below the
/// longest prescaler period.
pub proof fn lemma_tick_upto_bounded(ts: Seq<Timer>, cycles: u32, n: nat)
    requires
        ts.len() == 4, n <= 4,
        forall|i: int| 0 <= i < 4 ==> #[trigger] ts[i].cycles < 1024,
    ensures
        tick_upto(ts, cycles, n).0.len() == 4,
        forall|i: int| 0 <= i < 4 ==> #[trigger] tick_upto(ts, cycles, n).0[i].cycles < 1024,
    decreases n,
{
    if n > 0 {
        lemma_tick_upto_bounded(ts, cycles, (n - 1) as nat);
    }
}

pub struct TimerController {
    pub timers: [Timer; 4],
}

impl TimerController {
    pub fn new() -> (r: Self)
        ensures forall|i: int| 0 <= i < 4 ==> r.timers@[i] == Timer::new_spec(),
    {
        TimerController { timers: [Timer::new(), Timer::new(), Timer::new(), Timer::new()] }
    }

    /// Advance all timers by `cycles` CPU cycles. Returns IRQ flags to raise.
    pub fn tick(&mut self, cycles: u32) -> (irqs: u16)
        requires
            forall|i: int| 0 <= i < 4 ==> old(self).timers@[i].cycles + cycles <= u32::MAX,
        ensures
            final(self).timers@ == tick_upto(old(self).timers@, cycles, 4).0,
            irqs == tick_upto(old(self).timers@, cycles, 4).2,
    {
        let mut irqs = 0u16;
        let mut prev_overflow = false;
        let mut i: usize = 0;
        while i < 4
            invariant
                i <= 4,
                self.timers@ == tick_upto(old(self).timers@, cycles, i as nat).0,
                prev_overflow == tick_upto(old(self).timers@, cycles, i as nat).1,
                irqs == tick_upto(old(self).timers@, cycles, i as nat).2,
                forall|j: int| i <= j < 4 ==> self.timers@[j] == old(self).timers@[j],
                forall|j: int| 0 <= j < 4 ==> old(self).timers@[j].cycles + cycles <= u32::MAX,
            decreases 4 - i,
        {
            let mut t = self.timers[i];
            let (ov, irq) = t.step(cycles, prev_overflow, i);
            self.timers[i] = t;
            if irq {
                // Timer IRQs are bits 3-6
                irqs |= 1u16 << (3 + i as u16);
            }
            prev_overflow = ov;
            i += 1;
        }
        irqs
    }
}

impl Timer {
    pub open spec fn new_spec() -> Timer {
        Timer { counter: 0, reload: 0, ctrl: 0, cycles: 0 }
    }
}

} // verus!
