//! Serial link cable subsystem — SB (0xFF01) and SC (0xFF02).
//!
//! Master mode (internal clock, SC bit 0 = 1) completes a transfer after 512
//! T-cycles; slave mode (external clock) waits for the remote peer's byte.
//! A completed transfer requests the serial interrupt (bit 3).
use vstd::prelude::*;
use crate::savestate::{push_u8, push_u32, push_bool, pop_u8, pop_u32, pop_bool, take_u8, take_u32,
    take_bool, le32, enc_bool, lemma_take_roundtrips};

verus! {

pub const TRANSFER_CYCLES: u32 = 512;

#[derive(Clone, Copy)]
pub struct Serial {
    /// 0xFF01 — shift register
    pub sb: u8,
    /// 0xFF02 — control register
    pub sc: u8,
    /// Countdown to transfer completion (0 = idle)
    pub cycles_remaining: u32,
    /// Byte received from the remote peer
    pub pending_remote_byte: Option<u8>,
}

impl Serial {
    pub open spec fn read_spec(self, addr: u16) -> u8 {
        if addr == 0xFF01 { self.sb } else if addr == 0xFF02 { self.sc | 0x7E } else { 0xFF }
    }

    pub open spec fn write_spec(self, addr: u16, val: u8) -> Serial {
        if addr == 0xFF01 {
            Serial { sb: val, ..self }
        } else if addr == 0xFF02 {
            if val & 0x81 == 0x81 {
                Serial { sc: val, cycles_remaining: TRANSFER_CYCLES, ..self }
            } else {
                Serial { sc: val, ..self }
            }
        } else {
            self
        }
    }

    /// The state, interrupt flags and completed byte after `cycles` T-cycles.
    pub open spec fn tick_spec(self, cycles: u32, iflag: u8) -> (Serial, u8, Option<u8>) {
        if self.cycles_remaining == 0 {
            (self, iflag, None)
        } else if cycles >= self.cycles_remaining {
            (Serial {
                cycles_remaining: 0,
                sb: match self.pending_remote_byte { Some(b) => b, None => 0xFF },
                pending_remote_byte: None,
                sc: self.sc & 0x7F,
            }, iflag | 0x08, Some(self.sb))
        } else {
            (Serial { cycles_remaining: (self.cycles_remaining - cycles) as u32, ..self }, iflag, None)
        }
    }

    pub open spec fn receive_spec(self, byte: u8) -> Serial {
        if self.sc & 0x81 == 0x80 && self.cycles_remaining == 0 {
            Serial { pending_remote_byte: Some(byte), cycles_remaining: 4, ..self }
        } else {
            Serial { pending_remote_byte: Some(byte), ..self }
        }
    }

    pub open spec fn serialized(self) -> Seq<u8> {
        seq![self.sb, self.sc] + le32(self.cycles_remaining) + enc_bool(self.pending_remote_byte.is_some())
            + seq![match self.pending_remote_byte { Some(b) => b, None => 0u8 }]
    }

    pub fn new() -> (r: Self)
        ensures
            r.sb == 0 && r.sc == 0x7E && r.cycles_remaining == 0 && r.pending_remote_byte.is_none(),
    {
        Serial { sb: 0, sc: 0x7E, cycles_remaining: 0, pending_remote_byte: None }
    }

    pub fn read(&self, addr: u16) -> (r: u8)
        ensures r == self.read_spec(addr),
    {
        match addr {
            0xFF01 => self.sb,
            0xFF02 => self.sc | 0x7E,
            _ => 0xFF,
        }
    }

    pub fn write(&mut self, addr: u16, val: u8)
        ensures *final(self) == old(self).write_spec(addr, val),
    {
        match addr {
            0xFF01 => self.sb = val,
            0xFF02 => {
                self.sc = val;
                if val & 0x81 == 0x81 {
                    self.cycles_remaining = TRANSFER_CYCLES;
                }
            }
            _ => {}
        }
    }

    /// Advance by `cycles`. Returns the sent byte when a transfer completes.
    pub fn tick(&mut self, cycles: u32, interrupt_flag: &mut u8) -> (r: Option<u8>)
        ensures
            (*final(self), *final(interrupt_flag), r) == old(self).tick_spec(cycles, *old(interrupt_flag)),
    {
        if self.cycles_remaining == 0 {
            return None;
        }
        if cycles >= self.cycles_remaining {
            self.cycles_remaining = 0;
            let sent = self.sb;
            self.sb = match self.pending_remote_byte {
                Some(b) => b,
                None => 0xFF,
            };
            self.pending_remote_byte = None;
            let sc0 = self.sc;
            self.sc = sc0 & !0x80;
            *interrupt_flag = *interrupt_flag | 0x08;
            assert(sc0 & !0x80u8 == sc0 & 0x7F) by (bit_vector);
            Some(sent)
        } else {
            self.cycles_remaining = self.cycles_remaining - cycles;
            None
        }
    }

    /// Inject a byte from the remote peer; an armed slave transfer starts.
    pub fn receive_remote_byte(&mut self, byte: u8)
        ensures *final(self) == old(self).receive_spec(byte),
    {
        self.pending_remote_byte = Some(byte);
        if self.sc & 0x81 == 0x80 && self.cycles_remaining == 0 {
            self.cycles_remaining = 4;
        }
    }

    pub fn save_state(&self, d: &mut Vec<u8>)
        ensures final(d)@ == old(d)@ + self.serialized(),
    {
        push_u8(d, self.sb);
        push_u8(d, self.sc);
        push_u32(d, self.cycles_remaining);
        push_bool(d, self.pending_remote_byte.is_some());
        push_u8(d, match self.pending_remote_byte { Some(b) => b, None => 0 });
        assert(d@ =~= old(d)@ + self.serialized());
    }

    pub fn load_state(&mut self, d: &mut &[u8])
        ensures
            ({
                let (sb, s1) = take_u8(old(d)@);
                let (sc, s2) = take_u8(s1);
                let (cr, s3) = take_u32(s2);
                let (has, s4) = take_bool(s3);
                let (pv, s5) = take_u8(s4);
                &&& *final(self) == (Serial { sb, sc, cycles_remaining: cr,
                        pending_remote_byte: if has { Some(pv) } else { None } })
                &&& final(d)@ == s5
            }),
    {
        self.sb = pop_u8(d);
        self.sc = pop_u8(d);
        self.cycles_remaining = pop_u32(d);
        let has_pending = pop_bool(d);
        let pending_val = pop_u8(d);
        self.pending_remote_byte = if has_pending { Some(pending_val) } else { None };
    }
}

/// Saving a serial port and loading the bytes back restores it exactly.
pub proof fn lemma_serial_roundtrip(s: Serial, tail: Seq<u8>)
    ensures
        ({
            let (sb, s1) = take_u8(s.serialized() + tail);
            let (sc, s2) = take_u8(s1);
            let (cr, s3) = take_u32(s2);
            let (has, s4) = take_bool(s3);
            let (pv, s5) = take_u8(s4);
            &&& (Serial { sb, sc, cycles_remaining: cr, pending_remote_byte: if has { Some(pv) } else { None } }) == s
            &&& s5 == tail
        }),
{
    let pv = match s.pending_remote_byte { Some(b) => b, None => 0u8 };
    let t4 = seq![pv] + tail;
    let t3 = enc_bool(s.pending_remote_byte.is_some()) + t4;
    let t2 = le32(s.cycles_remaining) + t3;
    let t1 = seq![s.sc] + t2;
    lemma_take_roundtrips(tail);
    lemma_take_roundtrips(t4);
    lemma_take_roundtrips(t3);
    lemma_take_roundtrips(t2);
    lemma_take_roundtrips(t1);
    assert(s.serialized() + tail =~= seq![s.sb] + t1);
    assert(t1 =~= seq![s.sc] + t2);
}

/// A transfer that completes hands back the byte that was in SB, loads the
/// peer's byte (or 0xFF), clears the start bit and requests the interrupt.
pub proof fn lemma_transfer_completes(s: Serial, cycles: u32, iflag: u8)
    requires
        s.cycles_remaining > 0,
        cycles >= s.cycles_remaining,
    ensures
        ({
            let (t, f, sent) = s.tick_spec(cycles, iflag);
            &&& sent == Some(s.sb)
            &&& t.sc & 0x80 == 0
            &&& f & 0x08 == 0x08
            &&& t.cycles_remaining == 0
        }),
{
    let sc = s.sc;
    let ifl = iflag;
    assert((sc & 0x7F) & 0x80 == 0 && (ifl | 0x08) & 0x08 == 0x08) by (bit_vector);
}

} // verus!
