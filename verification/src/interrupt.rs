//! Interrupt dispatch.
//!
//! Vectors: VBlank 0x0040 (bit 0), STAT 0x0048 (bit 1), Timer 0x0050
//! (bit 2), Serial 0x0058 (bit 3), Joypad 0x0060 (bit 4).
use vstd::prelude::*;
use crate::cpu::{Cpu, wrap16, lemma_wrap16_step};
use crate::cpu::registers::Registers;
use crate::mmu::{Mmu, writes_applied};

verus! {

/// The interrupts both requested (IF) and enabled (IE).
pub open spec fn pending_spec(m: Mmu) -> u8 {
    m.interrupt_flag & m.ie & 0x1F
}

/// The highest-priority pending interrupt: the lowest set bit of `p`.
pub open spec fn first_pending(p: u8) -> u8 {
    if p & 0x01 != 0 { 0 }
    else if p & 0x02 != 0 { 1 }
    else if p & 0x04 != 0 { 2 }
    else if p & 0x08 != 0 { 3 }
    else { 4 }
}

/// `first_pending` is the lowest set bit of a non-empty five-bit set.
pub proof fn lemma_first_pending(p: u8)
    requires
        p & 0x1F != 0,
        p < 0x20,
    ensures
        first_pending(p) < 5,
        p & (1u8 << first_pending(p)) != 0,
        forall|b: u8| b < first_pending(p) ==> #[trigger] (p & (1u8 << b)) == 0,
{
    assert(p < 0x20 && p & 0x1F != 0 ==> (
        (p & 0x01 != 0 ==> p & (1u8 << 0u8) != 0)
        && (p & 0x01 == 0 && p & 0x02 != 0 ==> p & (1u8 << 1u8) != 0 && p & (1u8 << 0u8) == 0)
        && (p & 0x03 == 0 && p & 0x04 != 0 ==> p & (1u8 << 2u8) != 0 && p & (1u8 << 0u8) == 0 && p & (1u8 << 1u8) == 0)
        && (p & 0x07 == 0 && p & 0x08 != 0 ==> p & (1u8 << 3u8) != 0 && p & (1u8 << 0u8) == 0
            && p & (1u8 << 1u8) == 0 && p & (1u8 << 2u8) == 0)
        && (p & 0x0F == 0 ==> p & (1u8 << 4u8) != 0 && p & (1u8 << 0u8) == 0 && p & (1u8 << 1u8) == 0
            && p & (1u8 << 2u8) == 0 && p & (1u8 << 3u8) == 0)
        && (p & 0x01 == 0 && p & 0x02 == 0 ==> p & 0x03 == 0)
        && (p & 0x03 == 0 && p & 0x04 == 0 ==> p & 0x07 == 0)
        && (p & 0x07 == 0 && p & 0x08 == 0 ==> p & 0x0F == 0)
    )) by (bit_vector);
    assert forall|b: u8| b < first_pending(p) implies #[trigger] (p & (1u8 << b)) == 0 by {
        assert(b == 0 || b == 1 || b == 2 || b == 3);
    }
}

/// The effect of `handle_interrupts`: the new CPU, the bus before the
/// pushes (IF acknowledged), the two pushed bytes, and the cycles taken.
///
/// A pending interrupt always wakes a halted CPU. With IME set, the lowest
/// pending bit is acknowledged, IME is cleared, PC is pushed and PC jumps to
/// `0x40 + 8 * bit`, taking 20 cycles; otherwise nothing else changes.
pub open spec fn interrupt_spec(c: Cpu, m: Mmu) -> (Cpu, Mmu, Seq<(u16, u8)>, u32) {
    let p = pending_spec(m);
    let c1 = if p != 0 { Cpu { halted: false, ..c } } else { c };
    if !c.ime || p == 0 {
        (c1, m, Seq::empty(), 0)
    } else {
        let bit = first_pending(p);
        let m1 = Mmu { interrupt_flag: m.interrupt_flag & !(1u8 << bit), ..m };
        let c2 = Cpu {
            ime: false,
            regs: Registers { sp: wrap16(c.regs.sp - 2), pc: (0x40 + 8 * bit) as u16, ..c.regs },
            ..c1
        };
        (c2, m1, c.push_writes(c.regs.pc), 20)
    }
}

/// Service at most one interrupt. Returns the T-cycles spent (0 or 20).
pub fn handle_interrupts(cpu: &mut Cpu, mmu: &mut Mmu) -> (cycles: u32)
    ensures
        ({
            let (c, m1, ws, n) = interrupt_spec(*old(cpu), *old(mmu));
            &&& *final(cpu) == c
            &&& cycles == n
            &&& writes_applied(m1, *final(mmu), ws)
        }),
{
    let requested = mmu.interrupt_flag;
    let enabled = mmu.ie;
    let pending = requested & enabled & 0x1F;
    if pending != 0 {
        // Any pending and enabled interrupt wakes the CPU from HALT
        cpu.halted = false;
    }
    if !cpu.ime || pending == 0 {
        return 0;
    }
    let ghost c0 = *old(cpu);
    assert(pending < 0x20 && pending & 0x1F == pending) by (bit_vector)
        requires pending == requested & enabled & 0x1F;
    proof { lemma_first_pending(pending); }
    let mut bit: u8 = 0;
    while bit < 5
        invariant
            bit <= first_pending(pending),
            pending == pending_spec(*old(mmu)),
            pending & 0x1F != 0,
            pending != 0,
            pending < 0x20,
            first_pending(pending) < 5,
            pending & (1u8 << first_pending(pending)) != 0,
            forall|b: u8| b < first_pending(pending) ==> #[trigger] (pending & (1u8 << b)) == 0,
            *mmu == *old(mmu),
            *cpu == (Cpu { halted: false, ..c0 }),
            c0 == *old(cpu),
            c0.ime,
        decreases 5 - bit,
    {
        if pending & (1 << bit) != 0 {
            assert(bit == first_pending(pending));
            cpu.ime = false;
            // Acknowledge: clear this interrupt's flag
            mmu.interrupt_flag &= !(1 << bit);
            let ghost m1 = *mmu;
            // Push PC and jump to the vector
            let pc = cpu.regs.pc;
            proof {
                let sp = cpu.regs.sp;
                lemma_wrap16_step(sp);
                lemma_wrap16_step(sp.wrapping_sub(1));
                assert(wrap16(wrap16(sp - 1) - 1) == wrap16(sp - 2));
            }
            cpu.regs.sp = cpu.regs.sp.wrapping_sub(1);
            mmu.write(cpu.regs.sp, (pc / 256) as u8);
            let ghost mid = *mmu;
            cpu.regs.sp = cpu.regs.sp.wrapping_sub(1);
            mmu.write(cpu.regs.sp, (pc % 256) as u8);
            cpu.regs.pc = 0x0040 + (bit as u16) * 8;
            let ghost ws = c0.push_writes(c0.regs.pc);
            assert(m1.write_post(&mid, ws[0].0, ws[0].1));
            // Interrupt dispatch costs 5 M-cycles
            return 20;
        }
        bit = bit + 1;
    }
    0
}

} // verus!
