//! The I/O register file as a block of 32-bit words, for save states.
use vstd::prelude::*;
use vstd::array::spec_array_update;
use super::dma::{DmaController, DmaChannel};
use super::io::IoRegisters;
use super::timer::{TimerController, Timer};

verus! {

/// Words in the encoding of the I/O registers other than DISPCNT, DISPSTAT,
/// VCOUNT, IE, IF and IME (which a save state holds as halfwords).
pub const IO_WORDS: usize = 93;

/// A PSG register write (offset, value) packed into one word.
pub open spec fn pack_pair(off: u16, val: u16) -> u32 {
    ((off as u32) << 16u32) | (val as u32)
}

/// The (offset, value) pair packed by `pack_pair`.
pub open spec fn unpack_pair(w: u32) -> (u16, u16) {
    ((w >> 16u32) as u16, (w & 0xFFFF) as u16)
}

/// Four values set into an array.
pub open spec fn arr4(a: [u16; 4], x0: u16, x1: u16, x2: u16, x3: u16) -> [u16; 4] {
    spec_array_update(spec_array_update(spec_array_update(spec_array_update(a, 0, x0), 1, x1), 2, x2), 3, x3)
}

/// Four DMA channels set into an array.
pub open spec fn arr4_dma(a: [DmaChannel; 4], x0: DmaChannel, x1: DmaChannel, x2: DmaChannel, x3: DmaChannel) -> [DmaChannel; 4] {
    spec_array_update(spec_array_update(spec_array_update(spec_array_update(a, 0, x0), 1, x1), 2, x2), 3, x3)
}

/// Four timers set into an array.
pub open spec fn arr4_timer(a: [Timer; 4], x0: Timer, x1: Timer, x2: Timer, x3: Timer) -> [Timer; 4] {
    spec_array_update(spec_array_update(spec_array_update(spec_array_update(a, 0, x0), 1, x1), 2, x2), 3, x3)
}

/// The words a save state holds for the I/O registers: every register and
/// internal latch but the six halfword registers, in a fixed order; signed
/// values by their two's-complement bits, flags as 0 or 1, an optional value
/// as a presence word then the value.
pub open spec fn io_words(io: IoRegisters) -> Seq<u32> {
    seq![
        io.green_swap as u32,
        io.bgcnt[0] as u32,
        io.bgcnt[1] as u32,
        io.bgcnt[2] as u32,
        io.bgcnt[3] as u32,
        io.bghofs[0] as u32,
        io.bghofs[1] as u32,
        io.bghofs[2] as u32,
        io.bghofs[3] as u32,
        io.bgvofs[0] as u32,
        io.bgvofs[1] as u32,
        io.bgvofs[2] as u32,
        io.bgvofs[3] as u32,
        (io.bg2pa as u16) as u32,
        (io.bg2pb as u16) as u32,
        (io.bg2pc as u16) as u32,
        (io.bg2pd as u16) as u32,
        io.bg2x as u32,
        io.bg2y as u32,
        (io.bg3pa as u16) as u32,
        (io.bg3pb as u16) as u32,
        (io.bg3pc as u16) as u32,
        (io.bg3pd as u16) as u32,
        io.bg3x as u32,
        io.bg3y as u32,
        io.win0h as u32,
        io.win1h as u32,
        io.win0v as u32,
        io.win1v as u32,
        io.winin as u32,
        io.winout as u32,
        io.bldcnt as u32,
        io.bldalpha as u32,
        io.bldy as u32,
        io.dma.channels[0].src,
        io.dma.channels[0].dst,
        io.dma.channels[0].count as u32,
        io.dma.channels[0].ctrl as u32,
        io.dma.channels[0].internal_src,
        io.dma.channels[0].internal_dst,
        io.dma.channels[0].internal_count,
        io.dma.channels[1].src,
        io.dma.channels[1].dst,
        io.dma.channels[1].count as u32,
        io.dma.channels[1].ctrl as u32,
        io.dma.channels[1].internal_src,
        io.dma.channels[1].internal_dst,
        io.dma.channels[1].internal_count,
        io.dma.channels[2].src,
        io.dma.channels[2].dst,
        io.dma.channels[2].count as u32,
        io.dma.channels[2].ctrl as u32,
        io.dma.channels[2].internal_src,
        io.dma.channels[2].internal_dst,
        io.dma.channels[2].internal_count,
        io.dma.channels[3].src,
        io.dma.channels[3].dst,
        io.dma.channels[3].count as u32,
        io.dma.channels[3].ctrl as u32,
        io.dma.channels[3].internal_src,
        io.dma.channels[3].internal_dst,
        io.dma.channels[3].internal_count,
        io.timers.timers[0].counter as u32,
        io.timers.timers[0].reload as u32,
        io.timers.timers[0].ctrl as u32,
        io.timers.timers[0].cycles,
        io.timers.timers[1].counter as u32,
        io.timers.timers[1].reload as u32,
        io.timers.timers[1].ctrl as u32,
        io.timers.timers[1].cycles,
        io.timers.timers[2].counter as u32,
        io.timers.timers[2].reload as u32,
        io.timers.timers[2].ctrl as u32,
        io.timers.timers[2].cycles,
        io.timers.timers[3].counter as u32,
        io.timers.timers[3].reload as u32,
        io.timers.timers[3].ctrl as u32,
        io.timers.timers[3].cycles,
        io.postflg as u32,
        (if io.halted { 1u32 } else { 0u32 }),
        io.soundcnt_l as u32,
        io.soundcnt_h as u32,
        io.soundcnt_x as u32,
        io.soundbias as u32,
        (if io.soundcnt_h_dirty { 1u32 } else { 0u32 }),
        (if io.psg_pending is Some { 1u32 } else { 0u32 }),
        (match io.psg_pending { Some(p) => pack_pair(p.0, p.1), None => 0u32 }),
        io.fifo_a_lo as u32,
        io.fifo_b_lo as u32,
        (if io.fifo_a_pending is Some { 1u32 } else { 0u32 }),
        (match io.fifo_a_pending { Some(v) => v, None => 0u32 }),
        (if io.fifo_b_pending is Some { 1u32 } else { 0u32 }),
        (match io.fifo_b_pending { Some(v) => v, None => 0u32 })
    ]
}

/// `b` with every register but the six halfword registers taken from the
/// words `w` (see `io_words`); a timer's accumulator is kept below the
/// longest prescaler period.
pub open spec fn io_restore(b: IoRegisters, w: Seq<u32>) -> IoRegisters {
    IoRegisters {
        green_swap: w[0] as u16,
        bgcnt: arr4(b.bgcnt, w[1] as u16, w[2] as u16, w[3] as u16, w[4] as u16),
        bghofs: arr4(b.bghofs, w[5] as u16, w[6] as u16, w[7] as u16, w[8] as u16),
        bgvofs: arr4(b.bgvofs, w[9] as u16, w[10] as u16, w[11] as u16, w[12] as u16),
        bg2pa: (w[13] as u16) as i16,
        bg2pb: (w[14] as u16) as i16,
        bg2pc: (w[15] as u16) as i16,
        bg2pd: (w[16] as u16) as i16,
        bg2x: w[17] as i32,
        bg2y: w[18] as i32,
        bg3pa: (w[19] as u16) as i16,
        bg3pb: (w[20] as u16) as i16,
        bg3pc: (w[21] as u16) as i16,
        bg3pd: (w[22] as u16) as i16,
        bg3x: w[23] as i32,
        bg3y: w[24] as i32,
        win0h: w[25] as u16,
        win1h: w[26] as u16,
        win0v: w[27] as u16,
        win1v: w[28] as u16,
        winin: w[29] as u16,
        winout: w[30] as u16,
        bldcnt: w[31] as u16,
        bldalpha: w[32] as u16,
        bldy: w[33] as u16,
        dma: DmaController { channels: arr4_dma(b.dma.channels, DmaChannel { src: w[34], dst: w[35], count: w[36] as u16, ctrl: w[37] as u16, internal_src: w[38], internal_dst: w[39], internal_count: w[40] }, DmaChannel { src: w[41], dst: w[42], count: w[43] as u16, ctrl: w[44] as u16, internal_src: w[45], internal_dst: w[46], internal_count: w[47] }, DmaChannel { src: w[48], dst: w[49], count: w[50] as u16, ctrl: w[51] as u16, internal_src: w[52], internal_dst: w[53], internal_count: w[54] }, DmaChannel { src: w[55], dst: w[56], count: w[57] as u16, ctrl: w[58] as u16, internal_src: w[59], internal_dst: w[60], internal_count: w[61] }) },
        timers: TimerController { timers: arr4_timer(b.timers.timers, Timer { counter: w[62] as u16, reload: w[63] as u16, ctrl: w[64] as u16, cycles: w[65] % 1024 }, Timer { counter: w[66] as u16, reload: w[67] as u16, ctrl: w[68] as u16, cycles: w[69] % 1024 }, Timer { counter: w[70] as u16, reload: w[71] as u16, ctrl: w[72] as u16, cycles: w[73] % 1024 }, Timer { counter: w[74] as u16, reload: w[75] as u16, ctrl: w[76] as u16, cycles: w[77] % 1024 }) },
        postflg: w[78] as u8,
        halted: w[79] != 0,
        soundcnt_l: w[80] as u16,
        soundcnt_h: w[81] as u16,
        soundcnt_x: w[82] as u16,
        soundbias: w[83] as u16,
        soundcnt_h_dirty: w[84] != 0,
        psg_pending: if w[85] != 0 { Some(unpack_pair(w[86])) } else { None },
        fifo_a_lo: w[87] as u16,
        fifo_b_lo: w[88] as u16,
        fifo_a_pending: if w[89] != 0 { Some(w[90]) } else { None },
        fifo_b_pending: if w[91] != 0 { Some(w[92]) } else { None },
        ..b
    }
}

fn pack_pair_exec(off: u16, val: u16) -> (r: u32)
    ensures r == pack_pair(off, val),
{
    ((off as u32) << 16u32) | (val as u32)
}

fn unpack_pair_exec(w: u32) -> (r: (u16, u16))
    ensures r == unpack_pair(w),
{
    ((w >> 16u32) as u16, (w & 0xFFFF) as u16)
}

/// The words of `io_words`.
pub fn io_word_array(io: &IoRegisters) -> (r: [u32; 93])
    ensures r@ == io_words(*io),
{
    let psg = match io.psg_pending { Some(p) => pack_pair_exec(p.0, p.1), None => 0u32 };
    let fa = match io.fifo_a_pending { Some(v) => v, None => 0u32 };
    let fb = match io.fifo_b_pending { Some(v) => v, None => 0u32 };
    let r = [
        io.green_swap as u32,
        io.bgcnt[0] as u32,
        io.bgcnt[1] as u32,
        io.bgcnt[2] as u32,
        io.bgcnt[3] as u32,
        io.bghofs[0] as u32,
        io.bghofs[1] as u32,
        io.bghofs[2] as u32,
        io.bghofs[3] as u32,
        io.bgvofs[0] as u32,
        io.bgvofs[1] as u32,
        io.bgvofs[2] as u32,
        io.bgvofs[3] as u32,
        (io.bg2pa as u16) as u32,
        (io.bg2pb as u16) as u32,
        (io.bg2pc as u16) as u32,
        (io.bg2pd as u16) as u32,
        io.bg2x as u32,
        io.bg2y as u32,
        (io.bg3pa as u16) as u32,
        (io.bg3pb as u16) as u32,
        (io.bg3pc as u16) as u32,
        (io.bg3pd as u16) as u32,
        io.bg3x as u32,
        io.bg3y as u32,
        io.win0h as u32,
        io.win1h as u32,
        io.win0v as u32,
        io.win1v as u32,
        io.winin as u32,
        io.winout as u32,
        io.bldcnt as u32,
        io.bldalpha as u32,
        io.bldy as u32,
        io.dma.channels[0].src,
        io.dma.channels[0].dst,
        io.dma.channels[0].count as u32,
        io.dma.channels[0].ctrl as u32,
        io.dma.channels[0].internal_src,
        io.dma.channels[0].internal_dst,
        io.dma.channels[0].internal_count,
        io.dma.channels[1].src,
        io.dma.channels[1].dst,
        io.dma.channels[1].count as u32,
        io.dma.channels[1].ctrl as u32,
        io.dma.channels[1].internal_src,
        io.dma.channels[1].internal_dst,
        io.dma.channels[1].internal_count,
        io.dma.channels[2].src,
        io.dma.channels[2].dst,
        io.dma.channels[2].count as u32,
        io.dma.channels[2].ctrl as u32,
        io.dma.channels[2].internal_src,
        io.dma.channels[2].internal_dst,
        io.dma.channels[2].internal_count,
        io.dma.channels[3].src,
        io.dma.channels[3].dst,
        io.dma.channels[3].count as u32,
        io.dma.channels[3].ctrl as u32,
        io.dma.channels[3].internal_src,
        io.dma.channels[3].internal_dst,
        io.dma.channels[3].internal_count,
        io.timers.timers[0].counter as u32,
        io.timers.timers[0].reload as u32,
        io.timers.timers[0].ctrl as u32,
        io.timers.timers[0].cycles,
        io.timers.timers[1].counter as u32,
        io.timers.timers[1].reload as u32,
        io.timers.timers[1].ctrl as u32,
        io.timers.timers[1].cycles,
        io.timers.timers[2].counter as u32,
        io.timers.timers[2].reload as u32,
        io.timers.timers[2].ctrl as u32,
        io.timers.timers[2].cycles,
        io.timers.timers[3].counter as u32,
        io.timers.timers[3].reload as u32,
        io.timers.timers[3].ctrl as u32,
        io.timers.timers[3].cycles,
        io.postflg as u32,
        (if io.halted { 1u32 } else { 0u32 }),
        io.soundcnt_l as u32,
        io.soundcnt_h as u32,
        io.soundcnt_x as u32,
        io.soundbias as u32,
        (if io.soundcnt_h_dirty { 1u32 } else { 0u32 }),
        (if io.psg_pending.is_some() { 1u32 } else { 0u32 }),
        psg,
        io.fifo_a_lo as u32,
        io.fifo_b_lo as u32,
        (if io.fifo_a_pending.is_some() { 1u32 } else { 0u32 }),
        fa,
        (if io.fifo_b_pending.is_some() { 1u32 } else { 0u32 }),
        fb
    ];
    proof { assert(r@ =~= io_words(*io)); }
    r
}

/// Sets every register but the six halfword registers from `w` (see `io_restore`).
pub fn restore_io(io: &mut IoRegisters, w: &[u32; 93])
    ensures *final(io) == io_restore(*old(io), w@),
{
    broadcast use vstd::array::group_array_axioms;
    let ghost b = *io;
    io.green_swap = w[0] as u16;
        io.bgcnt[0] = w[1] as u16;
        io.bgcnt[1] = w[2] as u16;
        io.bgcnt[2] = w[3] as u16;
        io.bgcnt[3] = w[4] as u16;
        io.bghofs[0] = w[5] as u16;
        io.bghofs[1] = w[6] as u16;
        io.bghofs[2] = w[7] as u16;
        io.bghofs[3] = w[8] as u16;
        io.bgvofs[0] = w[9] as u16;
        io.bgvofs[1] = w[10] as u16;
        io.bgvofs[2] = w[11] as u16;
        io.bgvofs[3] = w[12] as u16;
        io.bg2pa = (w[13] as u16) as i16;
        io.bg2pb = (w[14] as u16) as i16;
        io.bg2pc = (w[15] as u16) as i16;
        io.bg2pd = (w[16] as u16) as i16;
        io.bg2x = w[17] as i32;
        io.bg2y = w[18] as i32;
        io.bg3pa = (w[19] as u16) as i16;
        io.bg3pb = (w[20] as u16) as i16;
        io.bg3pc = (w[21] as u16) as i16;
        io.bg3pd = (w[22] as u16) as i16;
        io.bg3x = w[23] as i32;
        io.bg3y = w[24] as i32;
        io.win0h = w[25] as u16;
        io.win1h = w[26] as u16;
        io.win0v = w[27] as u16;
        io.win1v = w[28] as u16;
        io.winin = w[29] as u16;
        io.winout = w[30] as u16;
        io.bldcnt = w[31] as u16;
        io.bldalpha = w[32] as u16;
        io.bldy = w[33] as u16;
        io.dma.channels[0] = DmaChannel { src: w[34], dst: w[35], count: w[36] as u16, ctrl: w[37] as u16, internal_src: w[38], internal_dst: w[39], internal_count: w[40] };
        io.dma.channels[1] = DmaChannel { src: w[41], dst: w[42], count: w[43] as u16, ctrl: w[44] as u16, internal_src: w[45], internal_dst: w[46], internal_count: w[47] };
        io.dma.channels[2] = DmaChannel { src: w[48], dst: w[49], count: w[50] as u16, ctrl: w[51] as u16, internal_src: w[52], internal_dst: w[53], internal_count: w[54] };
        io.dma.channels[3] = DmaChannel { src: w[55], dst: w[56], count: w[57] as u16, ctrl: w[58] as u16, internal_src: w[59], internal_dst: w[60], internal_count: w[61] };
        io.timers.timers[0] = Timer { counter: w[62] as u16, reload: w[63] as u16, ctrl: w[64] as u16, cycles: w[65] % 1024 };
        io.timers.timers[1] = Timer { counter: w[66] as u16, reload: w[67] as u16, ctrl: w[68] as u16, cycles: w[69] % 1024 };
        io.timers.timers[2] = Timer { counter: w[70] as u16, reload: w[71] as u16, ctrl: w[72] as u16, cycles: w[73] % 1024 };
        io.timers.timers[3] = Timer { counter: w[74] as u16, reload: w[75] as u16, ctrl: w[76] as u16, cycles: w[77] % 1024 };
        io.postflg = w[78] as u8;
        io.halted = w[79] != 0;
        io.soundcnt_l = w[80] as u16;
        io.soundcnt_h = w[81] as u16;
        io.soundcnt_x = w[82] as u16;
        io.soundbias = w[83] as u16;
        io.soundcnt_h_dirty = w[84] != 0;
        io.psg_pending = if w[85] != 0 { Some(unpack_pair_exec(w[86])) } else { None };
        io.fifo_a_lo = w[87] as u16;
        io.fifo_b_lo = w[88] as u16;
        io.fifo_a_pending = if w[89] != 0 { Some(w[90]) } else { None };
        io.fifo_b_pending = if w[91] != 0 { Some(w[92]) } else { None };
    proof {
        let r = io_restore(b, w@);
        assert(io.bgcnt =~= r.bgcnt);
        assert(io.bghofs =~= r.bghofs);
        assert(io.bgvofs =~= r.bgvofs);
        assert(io.dma.channels =~= r.dma.channels);
        assert(io.timers.timers =~= r.timers.timers);
    }
}

/// Signed values, and packed register writes, survive their encodings.
proof fn lemma_casts(a: i16, b: i32, p: u16, q: u16)
    ensures
        (((a as u16) as u32) as u16) as i16 == a,
        ((b as u32) as i32) == b,
        unpack_pair(pack_pair(p, q)) == (p, q),
{
    assert((((a as u16) as u32) as u16) as i16 == a && ((b as u32) as i32) == b
        && ((((p as u32) << 16u32) | (q as u32)) >> 16u32) as u16 == p
        && ((((p as u32) << 16u32) | (q as u32)) & 0xFFFF) as u16 == q) by (bit_vector);
}

/// Restoring the words of a register file over one that agrees with it on
/// the six halfword registers gives the register file back.
pub proof fn lemma_io_words_roundtrip(io: IoRegisters, b: IoRegisters)
    requires
        io.timers_wf(),
        b.dispcnt == io.dispcnt, b.dispstat == io.dispstat, b.vcount == io.vcount,
        b.ie == io.ie, b.irq_flags == io.irq_flags, b.ime == io.ime,
    ensures io_restore(b, io_words(io)) == io,
{
    broadcast use vstd::array::group_array_axioms;
    let r = io_restore(b, io_words(io));
    lemma_casts(io.bg2pa, io.bg2x, 0, 0);
    lemma_casts(io.bg2pb, io.bg2y, 0, 0);
    lemma_casts(io.bg2pc, io.bg3x, 0, 0);
    lemma_casts(io.bg2pd, io.bg3y, 0, 0);
    lemma_casts(io.bg3pa, 0, 0, 0);
    lemma_casts(io.bg3pb, 0, 0, 0);
    lemma_casts(io.bg3pc, 0, 0, 0);
    lemma_casts(io.bg3pd, 0, 0, 0);
    match io.psg_pending {
        Some(p) => { lemma_casts(0, 0, p.0, p.1); }
        None => {}
    }
    assert(io.timers.timers[0].cycles < 1024 && io.timers.timers[1].cycles < 1024);
    assert(io.timers.timers[2].cycles < 1024 && io.timers.timers[3].cycles < 1024);
    assert(r.bgcnt =~= io.bgcnt);
    assert(r.bghofs =~= io.bghofs);
    assert(r.bgvofs =~= io.bgvofs);
    assert(r.dma.channels =~= io.dma.channels);
    assert(r.timers.timers =~= io.timers.timers);
}

/// A restored register file keeps every timer's accumulator below the
/// longest prescaler period.
pub proof fn lemma_io_restore_timers_wf(b: IoRegisters, w: Seq<u32>)
    ensures io_restore(b, w).timers_wf(),
{
    broadcast use vstd::array::group_array_axioms;
}

} // verus!
