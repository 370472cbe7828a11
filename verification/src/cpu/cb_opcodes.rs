use vstd::prelude::*;
use super::registers::Registers;
use super::{Cpu, cb_shift_spec, bit_spec, res_spec, set_spec, get_r8, set_r8, pow2_u8, lemma_bit_test};
use crate::mmu::{Mmu, writes_applied};

verus! {

/// The register effect and the result byte of CB opcode `cb` applied to the
/// operand `val`: the top two bits pick the group (shifts, BIT, RES, SET) and
/// bits 3-5 the shift kind or the bit number. BIT's result is the operand.
pub open spec fn cb_result(r: Registers, cb: u8, val: u8) -> (Registers, u8) {
    let sel = ((cb / 8) % 8) as int;
    if cb < 0x40 {
        cb_shift_spec(r, sel, val)
    } else if cb < 0x80 {
        (bit_spec(r, sel, val), val)
    } else if cb < 0xC0 {
        (r, res_spec(sel, val))
    } else {
        (r, set_spec(sel, val))
    }
}

/// The effect of the CB-prefixed opcode `cb` on CPU `c` over memory `m`: the
/// new CPU state, the memory writes and the T-cycles taken. The low three bits
/// pick the operand (B, C, D, E, H, L, (HL), A); BIT never writes back.
pub open spec fn cb_spec(c: Cpu, m: Mmu, cb: u8) -> (Cpu, Seq<(u16, u8)>, u32) {
    let r = c.regs;
    let idx = (cb % 8) as int;
    let hl = r.spec_hl();
    let val = if idx == 6 { m.read_spec(hl) } else { get_r8(r, idx) };
    let (r2, res) = cb_result(r, cb, val);
    if 0x40 <= cb < 0x80 {
        (c.with_regs(r2), Seq::empty(), if idx == 6 { 12 } else { 8 })
    } else if idx == 6 {
        (c.with_regs(r2), seq![(hl, res)], 16)
    } else {
        (c.with_regs(set_r8(r2, idx, res)), Seq::empty(), 8)
    }
}

impl Cpu {
    /// Execute a CB-prefixed opcode. Returns T-cycle count.
    pub fn execute_cb(&mut self, opcode: u8, mmu: &mut Mmu) -> (cycles: u32)
        ensures
            ({
                let (c, ws, n) = cb_spec(*old(self), *old(mmu), opcode);
                &&& *final(self) == c
                &&& cycles == n
                &&& writes_applied(*old(mmu), *final(mmu), ws)
            }),
    {
        let reg_idx = opcode % 8;
        let val = self.cb_read_reg(reg_idx, mmu);
        let result = self.cb_apply(opcode, val);
        if 0x40 <= opcode && opcode < 0x80 {
            // BIT never writes back
            return if reg_idx == 6 { 12 } else { 8 };
        }
        self.cb_write_reg(reg_idx, result, mmu);
        if reg_idx == 6 { 16 } else { 8 }
    }

    /// The operation part of a CB opcode on an operand already read.
    pub fn cb_apply(&mut self, opcode: u8, val: u8) -> (r: u8)
        ensures
            r == cb_result(old(self).regs, opcode, val).1,
            *final(self) == old(self).with_regs(cb_result(old(self).regs, opcode, val).0),
            final(self).regs.h == old(self).regs.h,
            final(self).regs.l == old(self).regs.l,
    {
        proof { reveal(cb_shift_spec); reveal(bit_spec); }
        let bit = (opcode / 8) % 8;
        if opcode < 0x08 {
            self.cb_rlc(val)
        } else if opcode < 0x10 {
            self.cb_rrc(val)
        } else if opcode < 0x18 {
            self.cb_rl(val)
        } else if opcode < 0x20 {
            self.cb_rr(val)
        } else if opcode < 0x28 {
            self.cb_sla(val)
        } else if opcode < 0x30 {
            self.cb_sra(val)
        } else if opcode < 0x38 {
            self.cb_swap(val)
        } else if opcode < 0x40 {
            self.cb_srl(val)
        } else if opcode < 0x80 {
            self.cb_bit(bit, val);
            val
        } else if opcode < 0xC0 {
            let mask = pow2_u8(bit);
            proof { lemma_bit_test(val, bit); }
            val & !mask
        } else {
            let mask = pow2_u8(bit);
            proof { lemma_bit_test(val, bit); }
            val | mask
        }
    }

    /// The operand of a CB opcode by its register code; 6 reads (HL).
    pub fn cb_read_reg(&self, idx: u8, mmu: &Mmu) -> (r: u8)
        requires idx < 8,
        ensures r == (if idx == 6 { mmu.read_spec(self.regs.spec_hl()) } else { get_r8(self.regs, idx as int) }),
    {
        match idx {
            0 => self.regs.b,
            1 => self.regs.c,
            2 => self.regs.d,
            3 => self.regs.e,
            4 => self.regs.h,
            5 => self.regs.l,
            6 => mmu.read(self.regs.hl()),
            _ => self.regs.a,
        }
    }

    /// Store a CB result by register code; 6 writes (HL).
    pub fn cb_write_reg(&mut self, idx: u8, val: u8, mmu: &mut Mmu)
        requires idx < 8,
        ensures
            idx == 6 ==> *final(self) == *old(self)
                && writes_applied(*old(mmu), *final(mmu), seq![(old(self).regs.spec_hl(), val)]),
            idx != 6 ==> *final(self) == old(self).with_regs(set_r8(old(self).regs, idx as int, val))
                && *final(mmu) == *old(mmu),
    {
        match idx {
            0 => self.regs.b = val,
            1 => self.regs.c = val,
            2 => self.regs.d = val,
            3 => self.regs.e = val,
            4 => self.regs.h = val,
            5 => self.regs.l = val,
            6 => mmu.write(self.regs.hl(), val),
            _ => self.regs.a = val,
        }
    }
}

/// Bits 3-0 of F stay zero across every CB-prefixed opcode.
pub proof fn lemma_cb_keeps_f_low(c: Cpu, m: Mmu, cb: u8)
    requires c.regs.f & 0x0F == 0,
    ensures cb_spec(c, m, cb).0.regs.f & 0x0F == 0,
{
    broadcast use crate::cpu::registers::group_f_low, crate::cpu::group_ops_f_low;
}

} // verus!
