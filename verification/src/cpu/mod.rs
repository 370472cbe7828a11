//! SM83 CPU: fetch, decode and execute, with the ALU and stack helpers.
use vstd::prelude::*;
use crate::mmu::{Mmu, writes_applied};
use crate::savestate::{lemma_take_u8, lemma_take_u16, lemma_take_bool};
use crate::savestate::{push_u8, push_u16, push_bool, pop_u8, pop_u16, pop_bool, take_u8, take_u16,
    take_bool, le16, enc_bool};

pub mod cb_opcodes;
pub mod opcodes;
pub mod registers;

use registers::{Registers, pair, hi_byte, lo_byte};

verus! {

#[derive(Clone, Copy)]
pub struct Cpu {
    pub regs: Registers,
    pub halted: bool,
    /// Interrupt Master Enable — gates all interrupt handling
    pub ime: bool,
    /// EI sets this; IME becomes true after the *next* instruction
    pub ime_scheduled: bool,
    /// HALT bug: when HALT runs with IME=0 and an interrupt pending, the next
    /// opcode byte is read twice (PC fails to advance)
    pub halt_bug: bool,
}

/// An integer reduced to 16 bits.
pub open spec fn wrap16(x: int) -> u16 {
    (x % 65536) as u16
}

/// An integer reduced to 8 bits.
pub open spec fn wrap8(x: int) -> u8 {
    (x % 256) as u8
}

// ---------------------------------------------------------------------------
// ALU semantics. Flags are written in the order Z, N, H, C, as the hardware
// description lists them; flags an operation leaves alone are not written.
// ---------------------------------------------------------------------------

#[verifier::opaque]
pub open spec fn add_spec(r: Registers, v: u8) -> Registers {
    let res = r.a + v;
    Registers { a: wrap8(res), ..r }.with_z(wrap8(res) == 0).with_n(false).with_h(r.a % 16 + v % 16 > 15).with_c(res > 255)
}

#[verifier::opaque]
pub open spec fn adc_spec(r: Registers, v: u8) -> Registers {
    let carry: int = if r.spec_c() { 1 } else { 0 };
    let res = r.a + v + carry;
    Registers { a: wrap8(res), ..r }.with_z(wrap8(res) == 0).with_n(false)
        .with_h(r.a % 16 + v % 16 + carry > 15).with_c(res > 255)
}

#[verifier::opaque]
pub open spec fn sub_spec(r: Registers, v: u8) -> Registers {
    let res = wrap8(r.a - v);
    Registers { a: res, ..r }.with_z(res == 0).with_n(true).with_h(r.a % 16 < v % 16).with_c(r.a < v)
}

#[verifier::opaque]
pub open spec fn sbc_spec(r: Registers, v: u8) -> Registers {
    let carry: int = if r.spec_c() { 1 } else { 0 };
    let res = r.a - v - carry;
    Registers { a: wrap8(res), ..r }.with_z(wrap8(res) == 0).with_n(true)
        .with_h(r.a % 16 < v % 16 + carry).with_c(res < 0)
}

#[verifier::opaque]
pub open spec fn and_spec(r: Registers, v: u8) -> Registers {
    Registers { a: r.a & v, ..r }.with_z(r.a & v == 0).with_n(false).with_h(true).with_c(false)
}

#[verifier::opaque]
pub open spec fn xor_spec(r: Registers, v: u8) -> Registers {
    Registers { a: r.a ^ v, ..r }.with_z(r.a ^ v == 0).with_n(false).with_h(false).with_c(false)
}

#[verifier::opaque]
pub open spec fn or_spec(r: Registers, v: u8) -> Registers {
    Registers { a: r.a | v, ..r }.with_z(r.a | v == 0).with_n(false).with_h(false).with_c(false)
}

/// CP is a subtraction whose result is thrown away: only the flags change.
#[verifier::opaque]
pub open spec fn cp_spec(r: Registers, v: u8) -> Registers {
    Registers { a: r.a, ..sub_spec(r, v) }
}

/// The eight accumulator operations in opcode order: ADD, ADC, SUB, SBC, AND, XOR, OR, CP.
pub open spec fn alu_spec(r: Registers, op: int, v: u8) -> Registers {
    if op == 0 { add_spec(r, v) }
    else if op == 1 { adc_spec(r, v) }
    else if op == 2 { sub_spec(r, v) }
    else if op == 3 { sbc_spec(r, v) }
    else if op == 4 { and_spec(r, v) }
    else if op == 5 { xor_spec(r, v) }
    else if op == 6 { or_spec(r, v) }
    else { cp_spec(r, v) }
}

/// INC of an 8-bit value; C is not affected.
#[verifier::opaque]
pub open spec fn inc_spec(r: Registers, v: u8) -> (Registers, u8) {
    let res = wrap8(v + 1);
    (r.with_z(res == 0).with_n(false).with_h(v % 16 + 1 > 15), res)
}

/// DEC of an 8-bit value; C is not affected.
#[verifier::opaque]
pub open spec fn dec_spec(r: Registers, v: u8) -> (Registers, u8) {
    let res = wrap8(v - 1);
    (r.with_z(res == 0).with_n(true).with_h(v % 16 == 0), res)
}

/// ADD HL,rr — Z is not affected.
#[verifier::opaque]
pub open spec fn add_hl_spec(r: Registers, v: u16) -> Registers {
    let res = r.spec_hl() + v;
    r.with_hl(wrap16(res)).with_n(false).with_h(r.spec_hl() % 4096 + v % 4096 > 4095).with_c(res > 65535)
}

#[verifier::opaque]
pub open spec fn rlca_spec(r: Registers) -> Registers {
    let carry = r.a / 128;
    Registers { a: wrap8(r.a * 2 + carry), ..r }.with_z(false).with_n(false).with_h(false).with_c(carry != 0)
}

#[verifier::opaque]
pub open spec fn rrca_spec(r: Registers) -> Registers {
    let carry = r.a % 2;
    Registers { a: (r.a / 2 + carry * 128) as u8, ..r }.with_z(false).with_n(false).with_h(false).with_c(carry != 0)
}

#[verifier::opaque]
pub open spec fn rla_spec(r: Registers) -> Registers {
    let old_carry: int = if r.spec_c() { 1 } else { 0 };
    Registers { a: wrap8(r.a * 2 + old_carry), ..r }.with_z(false).with_n(false).with_h(false).with_c(r.a >= 128)
}

#[verifier::opaque]
pub open spec fn rra_spec(r: Registers) -> Registers {
    let old_carry: int = if r.spec_c() { 1 } else { 0 };
    Registers { a: (r.a / 2 + old_carry * 128) as u8, ..r }.with_z(false).with_n(false).with_h(false).with_c(r.a % 2 == 1)
}

/// The flag effect shared by the CB shifts: Z from the result, N and H
/// cleared, C as given.
pub open spec fn shift_flags(r: Registers, res: u8, c: bool) -> Registers {
    r.with_z(res == 0).with_n(false).with_h(false).with_c(c)
}

/// The CB-prefixed rotates and shifts in opcode order: RLC, RRC, RL, RR,
/// SLA, SRA, SWAP, SRL. Returns the new registers and the result byte.
#[verifier::opaque]
pub open spec fn cb_shift_spec(r: Registers, op: int, v: u8) -> (Registers, u8) {
    let old_carry: int = if r.spec_c() { 1 } else { 0 };
    if op == 0 {
        let res = wrap8(v * 2 + v / 128);
        (shift_flags(r, res, v >= 128), res)
    } else if op == 1 {
        let res = (v / 2 + (v % 2) * 128) as u8;
        (shift_flags(r, res, v % 2 == 1), res)
    } else if op == 2 {
        let res = wrap8(v * 2 + old_carry);
        (shift_flags(r, res, v >= 128), res)
    } else if op == 3 {
        let res = (v / 2 + old_carry * 128) as u8;
        (shift_flags(r, res, v % 2 == 1), res)
    } else if op == 4 {
        let res = wrap8(v * 2);
        (shift_flags(r, res, v >= 128), res)
    } else if op == 5 {
        let res = (v / 2 + (v / 128) * 128) as u8;
        (shift_flags(r, res, v % 2 == 1), res)
    } else if op == 6 {
        let res = ((v % 16) * 16 + v / 16) as u8;
        (shift_flags(r, res, false), res)
    } else {
        let res = (v / 2) as u8;
        (shift_flags(r, res, v % 2 == 1), res)
    }
}

/// BIT b — Z is set when the bit is clear; C is not affected.
#[verifier::opaque]
pub open spec fn bit_spec(r: Registers, bit: int, v: u8) -> Registers {
    r.with_z((v as int / pow2_spec(bit)) % 2 == 0).with_n(false).with_h(true)
}

pub open spec fn pow2_spec(b: int) -> int
    decreases b,
{
    if b <= 0 { 1 } else { 2 * pow2_spec(b - 1) }
}

/// RES b — the value with bit `bit` cleared.
pub open spec fn res_spec(bit: int, v: u8) -> u8 {
    if (v as int / pow2_spec(bit)) % 2 == 1 { (v - pow2_spec(bit)) as u8 } else { v }
}

/// SET b — the value with bit `bit` set.
pub open spec fn set_spec(bit: int, v: u8) -> u8 {
    if (v as int / pow2_spec(bit)) % 2 == 0 { (v + pow2_spec(bit)) as u8 } else { v }
}

// ---------------------------------------------------------------------------
// Operand encodings.
// ---------------------------------------------------------------------------

/// 8-bit register by its 3-bit code: 0=B 1=C 2=D 3=E 4=H 5=L 7=A (6 is (HL)).
pub open spec fn get_r8(r: Registers, i: int) -> u8 {
    if i == 0 { r.b } else if i == 1 { r.c } else if i == 2 { r.d } else if i == 3 { r.e }
    else if i == 4 { r.h } else if i == 5 { r.l } else { r.a }
}

pub open spec fn set_r8(r: Registers, i: int, v: u8) -> Registers {
    if i == 0 { Registers { b: v, ..r } } else if i == 1 { Registers { c: v, ..r } }
    else if i == 2 { Registers { d: v, ..r } } else if i == 3 { Registers { e: v, ..r } }
    else if i == 4 { Registers { h: v, ..r } } else if i == 5 { Registers { l: v, ..r } }
    else { Registers { a: v, ..r } }
}

/// 16-bit register by its 2-bit code: 0=BC 1=DE 2=HL 3=SP.
pub open spec fn get_rr(r: Registers, i: int) -> u16 {
    if i == 0 { r.spec_bc() } else if i == 1 { r.spec_de() } else if i == 2 { r.spec_hl() } else { r.sp }
}

pub open spec fn set_rr(r: Registers, i: int, v: u16) -> Registers {
    if i == 0 { r.with_bc(v) } else if i == 1 { r.with_de(v) } else if i == 2 { r.with_hl(v) } else { Registers { sp: v, ..r } }
}

/// 16-bit register for PUSH/POP by its 2-bit code: 0=BC 1=DE 2=HL 3=AF.
pub open spec fn get_qq(r: Registers, i: int) -> u16 {
    if i == 3 { r.spec_af() } else { get_rr(r, i) }
}

pub open spec fn set_qq(r: Registers, i: int, v: u16) -> Registers {
    if i == 3 { r.with_af(v) } else { set_rr(r, i, v) }
}

/// Branch condition by its 2-bit code: 0=NZ 1=Z 2=NC 3=C.
pub open spec fn cond_spec(r: Registers, i: int) -> bool {
    if i == 0 { !r.spec_z() } else if i == 1 { r.spec_z() } else if i == 2 { !r.spec_c() } else { r.spec_c() }
}

/// Sign-extension of a byte offset, as a 16-bit addend.
pub open spec fn sext(b: u8) -> int {
    if b < 128 { b as int } else { b - 256 }
}

impl Cpu {
    pub open spec fn with_regs(self, r: Registers) -> Cpu {
        Cpu { regs: r, ..self }
    }

    /// The two bytes of a push of `v`: high byte at SP-1, low byte at SP-2.
    pub open spec fn push_writes(self, v: u16) -> Seq<(u16, u8)> {
        seq![(wrap16(self.regs.sp - 1), hi_byte(v)), (wrap16(self.regs.sp - 2), lo_byte(v))]
    }

    /// The 16-bit little-endian value at SP.
    pub open spec fn pop_value(self, m: Mmu) -> u16 {
        pair(m.read_spec(wrap16(self.regs.sp + 1)), m.read_spec(self.regs.sp))
    }

    pub open spec fn serialized(self) -> Seq<u8> {
        seq![self.regs.a, self.regs.f, self.regs.b, self.regs.c, self.regs.d, self.regs.e, self.regs.h, self.regs.l]
            + le16(self.regs.sp) + le16(self.regs.pc) + enc_bool(self.halted) + enc_bool(self.ime)
            + enc_bool(self.ime_scheduled) + enc_bool(self.halt_bug)
    }

    /// One fetch-decode-execute step, as `step` performs it: a scheduled
    /// IME takes effect first; a halted CPU idles for 4 cycles; otherwise the
    /// opcode at PC is fetched (PC stays put once if the HALT bug is armed)
    /// and executed.
    pub open spec fn step_spec(self, m: Mmu) -> (Cpu, Seq<(u16, u8)>, u32) {
        let c1 = if self.ime_scheduled { Cpu { ime_scheduled: false, ime: true, ..self } } else { self };
        if c1.halted {
            (c1, Seq::empty(), 4)
        } else {
            let op = m.read_spec(c1.regs.pc);
            let pc = if c1.halt_bug { c1.regs.pc } else { wrap16(c1.regs.pc + 1) };
            let c2 = Cpu { halt_bug: false, regs: Registers { pc, ..c1.regs }, ..c1 };
            opcodes::exec_spec(c2, m, op)
        }
    }

    pub fn new() -> (r: Self)
        ensures
            r.regs == Registers::new_spec(),
            !r.halted && !r.ime && !r.ime_scheduled && !r.halt_bug,
    {
        Cpu { regs: Registers::new(), halted: false, ime: false, ime_scheduled: false, halt_bug: false }
    }

    /// Execute one instruction. Returns T-cycle count.
    pub fn step(&mut self, mmu: &mut Mmu) -> (cycles: u32)
        ensures
            ({
                let (c, ws, n) = old(self).step_spec(*old(mmu));
                &&& *final(self) == c
                &&& cycles == n
                &&& writes_applied(*old(mmu), *final(mmu), ws)
            }),
    {
        // EI takes effect after the following instruction
        if self.ime_scheduled {
            self.ime_scheduled = false;
            self.ime = true;
        }
        if self.halted {
            return 4;
        }
        let opcode = self.fetch_byte(mmu);
        // HALT bug: the byte just fetched is read again
        if self.halt_bug {
            self.halt_bug = false;
            proof { lemma_wrap16_step(self.regs.pc); lemma_wrap16_step((self.regs.pc - 1) as u16); }
            self.regs.pc = self.regs.pc.wrapping_sub(1);
        }
        self.execute(opcode, mmu)
    }

    /// Read the byte at PC and advance PC.
    pub fn fetch_byte(&mut self, mmu: &Mmu) -> (r: u8)
        ensures
            r == mmu.read_spec(old(self).regs.pc),
            *final(self) == old(self).with_regs(Registers { pc: wrap16(old(self).regs.pc + 1), ..old(self).regs }),
    {
        let val = mmu.read(self.regs.pc);
        self.regs.pc = self.regs.pc.wrapping_add(1);
        val
    }

    /// Read the little-endian 16-bit value at PC and advance PC by 2.
    pub fn fetch_word(&mut self, mmu: &Mmu) -> (r: u16)
        ensures
            r == pair(mmu.read_spec(wrap16(old(self).regs.pc + 1)), mmu.read_spec(old(self).regs.pc)),
            *final(self) == old(self).with_regs(Registers { pc: wrap16(old(self).regs.pc + 2), ..old(self).regs }),
    {
        let lo = self.fetch_byte(mmu) as u16;
        let hi = self.fetch_byte(mmu) as u16;
        hi * 256 + lo
    }

    /// Push a 16-bit value: SP is decremented before each byte, high byte first.
    pub fn push(&mut self, mmu: &mut Mmu, val: u16)
        ensures
            *final(self) == old(self).with_regs(Registers { sp: wrap16(old(self).regs.sp - 2), ..old(self).regs }),
            writes_applied(*old(mmu), *final(mmu), old(self).push_writes(val)),
    {
        self.regs.sp = self.regs.sp.wrapping_sub(1);
        mmu.write(self.regs.sp, (val / 256) as u8);
        let ghost mid = *mmu;
        self.regs.sp = self.regs.sp.wrapping_sub(1);
        mmu.write(self.regs.sp, (val % 256) as u8);
        assert(old(mmu).write_post(&mid, old(self).push_writes(val)[0].0, old(self).push_writes(val)[0].1));
    }

    /// Pop a 16-bit value.
    pub fn pop(&mut self, mmu: &Mmu) -> (r: u16)
        ensures
            r == old(self).pop_value(*mmu),
            *final(self) == old(self).with_regs(Registers { sp: wrap16(old(self).regs.sp + 2), ..old(self).regs }),
    {
        let lo = mmu.read(self.regs.sp) as u16;
        self.regs.sp = self.regs.sp.wrapping_add(1);
        let hi = mmu.read(self.regs.sp) as u16;
        self.regs.sp = self.regs.sp.wrapping_add(1);
        hi * 256 + lo
    }

    pub fn alu_add(&mut self, val: u8)
        ensures *final(self) == old(self).with_regs(add_spec(old(self).regs, val)),
    {
        proof { reveal(add_spec); }
        proof { lemma_low_nibble(self.regs.a); lemma_low_nibble(val); }
        let a = self.regs.a;
        let result = a as u16 + val as u16;
        self.regs.a = (result % 256) as u8;
        self.regs.set_flag_z(self.regs.a == 0);
        self.regs.set_flag_n(false);
        self.regs.set_flag_h((a & 0x0F) + (val & 0x0F) > 0x0F);
        self.regs.set_flag_c(result > 0xFF);
    }

    pub fn alu_adc(&mut self, val: u8)
        ensures *final(self) == old(self).with_regs(adc_spec(old(self).regs, val)),
    {
        proof { reveal(adc_spec); }
        proof { lemma_low_nibble(self.regs.a); lemma_low_nibble(val); }
        let carry: u8 = if self.regs.flag_c() { 1 } else { 0 };
        let a = self.regs.a;
        let result = a as u16 + val as u16 + carry as u16;
        self.regs.a = (result % 256) as u8;
        self.regs.set_flag_z(self.regs.a == 0);
        self.regs.set_flag_n(false);
        self.regs.set_flag_h((a & 0x0F) + (val & 0x0F) + carry > 0x0F);
        self.regs.set_flag_c(result > 0xFF);
    }

    pub fn alu_sub(&mut self, val: u8)
        ensures *final(self) == old(self).with_regs(sub_spec(old(self).regs, val)),
    {
        proof { reveal(sub_spec); }
        proof { lemma_low_nibble(self.regs.a); lemma_low_nibble(val); }
        let a = self.regs.a;
        let result = a.wrapping_sub(val);
        self.regs.a = result;
        self.regs.set_flag_z(result == 0);
        self.regs.set_flag_n(true);
        self.regs.set_flag_h((a & 0x0F) < (val & 0x0F));
        self.regs.set_flag_c(a < val);
    }

    pub fn alu_sbc(&mut self, val: u8)
        ensures *final(self) == old(self).with_regs(sbc_spec(old(self).regs, val)),
    {
        proof { reveal(sbc_spec); }
        proof { lemma_low_nibble(self.regs.a); lemma_low_nibble(val); }
        let carry: u8 = if self.regs.flag_c() { 1 } else { 0 };
        let a = self.regs.a;
        let result = (a as u16).wrapping_sub(val as u16).wrapping_sub(carry as u16);
        self.regs.a = (result % 256) as u8;
        self.regs.set_flag_z(result % 256 == 0);
        self.regs.set_flag_n(true);
        self.regs.set_flag_h((a & 0x0F) < (val & 0x0F) + carry);
        self.regs.set_flag_c(result > 0xFF);
    }

    pub fn alu_and(&mut self, val: u8)
        ensures *final(self) == old(self).with_regs(and_spec(old(self).regs, val)),
    {
        proof { reveal(and_spec); }
        self.regs.a = self.regs.a & val;
        self.regs.set_flag_z(self.regs.a == 0);
        self.regs.set_flag_n(false);
        self.regs.set_flag_h(true);
        self.regs.set_flag_c(false);
    }

    pub fn alu_xor(&mut self, val: u8)
        ensures *final(self) == old(self).with_regs(xor_spec(old(self).regs, val)),
    {
        proof { reveal(xor_spec); }
        self.regs.a = self.regs.a ^ val;
        self.regs.set_flag_z(self.regs.a == 0);
        self.regs.set_flag_n(false);
        self.regs.set_flag_h(false);
        self.regs.set_flag_c(false);
    }

    pub fn alu_or(&mut self, val: u8)
        ensures *final(self) == old(self).with_regs(or_spec(old(self).regs, val)),
    {
        proof { reveal(or_spec); }
        self.regs.a = self.regs.a | val;
        self.regs.set_flag_z(self.regs.a == 0);
        self.regs.set_flag_n(false);
        self.regs.set_flag_h(false);
        self.regs.set_flag_c(false);
    }

    /// CP is subtraction with the result thrown away — only flags change.
    pub fn alu_cp(&mut self, val: u8)
        ensures *final(self) == old(self).with_regs(cp_spec(old(self).regs, val)),
    {
        proof { reveal(cp_spec); reveal(sub_spec); }
        let a = self.regs.a;
        self.alu_sub(val);
        self.regs.a = a;
    }

    pub fn alu_inc(&mut self, val: u8) -> (r: u8)
        ensures
            r == inc_spec(old(self).regs, val).1,
            *final(self) == old(self).with_regs(inc_spec(old(self).regs, val).0),
    {
        proof { reveal(inc_spec); }
        proof { lemma_low_nibble(val); }
        let result = val.wrapping_add(1);
        self.regs.set_flag_z(result == 0);
        self.regs.set_flag_n(false);
        self.regs.set_flag_h((val & 0x0F) + 1 > 0x0F);
        result
    }

    pub fn alu_dec(&mut self, val: u8) -> (r: u8)
        ensures
            r == dec_spec(old(self).regs, val).1,
            *final(self) == old(self).with_regs(dec_spec(old(self).regs, val).0),
    {
        proof { reveal(dec_spec); }
        proof { lemma_low_nibble(val); }
        let result = val.wrapping_sub(1);
        self.regs.set_flag_z(result == 0);
        self.regs.set_flag_n(true);
        self.regs.set_flag_h((val & 0x0F) == 0);
        result
    }

    /// 16-bit ADD HL,rr — only sets N, H, C (Z untouched).
    pub fn alu_add_hl(&mut self, val: u16)
        ensures *final(self) == old(self).with_regs(add_hl_spec(old(self).regs, val)),
    {
        proof { reveal(add_hl_spec); }
        let hl = self.regs.hl();
        proof { lemma_low_12(hl); lemma_low_12(val); }
        let result = hl as u32 + val as u32;
        self.regs.set_hl((result % 65536) as u16);
        self.regs.set_flag_n(false);
        self.regs.set_flag_h((hl & 0x0FFF) + (val & 0x0FFF) > 0x0FFF);
        self.regs.set_flag_c(result > 0xFFFF);
    }

    pub fn rlca(&mut self)
        ensures *final(self) == old(self).with_regs(rlca_spec(old(self).regs)),
    {
        proof { reveal(rlca_spec); }
        let a = self.regs.a;
        let carry = a / 128;
        self.regs.a = ((a as u16 * 2 + carry as u16) % 256) as u8;
        self.regs.set_flag_z(false);
        self.regs.set_flag_n(false);
        self.regs.set_flag_h(false);
        self.regs.set_flag_c(carry != 0);
    }

    pub fn rrca(&mut self)
        ensures *final(self) == old(self).with_regs(rrca_spec(old(self).regs)),
    {
        proof { reveal(rrca_spec); }
        let a = self.regs.a;
        let carry = a % 2;
        self.regs.a = a / 2 + carry * 128;
        self.regs.set_flag_z(false);
        self.regs.set_flag_n(false);
        self.regs.set_flag_h(false);
        self.regs.set_flag_c(carry != 0);
    }

    pub fn rla(&mut self)
        ensures *final(self) == old(self).with_regs(rla_spec(old(self).regs)),
    {
        proof { reveal(rla_spec); }
        let a = self.regs.a;
        let old_carry: u8 = if self.regs.flag_c() { 1 } else { 0 };
        self.regs.a = ((a as u16 * 2 + old_carry as u16) % 256) as u8;
        self.regs.set_flag_z(false);
        self.regs.set_flag_n(false);
        self.regs.set_flag_h(false);
        self.regs.set_flag_c(a >= 128);
    }

    pub fn rra(&mut self)
        ensures *final(self) == old(self).with_regs(rra_spec(old(self).regs)),
    {
        proof { reveal(rra_spec); }
        let a = self.regs.a;
        let old_carry: u8 = if self.regs.flag_c() { 1 } else { 0 };
        self.regs.a = a / 2 + old_carry * 128;
        self.regs.set_flag_z(false);
        self.regs.set_flag_n(false);
        self.regs.set_flag_h(false);
        self.regs.set_flag_c(a % 2 == 1);
    }

    pub fn cb_rlc(&mut self, val: u8) -> (r: u8)
        ensures
            r == cb_shift_spec(old(self).regs, 0, val).1,
            *final(self) == old(self).with_regs(cb_shift_spec(old(self).regs, 0, val).0),
    {
        proof { reveal(cb_shift_spec); }
        let carry = val / 128;
        let result = ((val as u16 * 2 + carry as u16) % 256) as u8;
        self.regs.set_flag_z(result == 0);
        self.regs.set_flag_n(false);
        self.regs.set_flag_h(false);
        self.regs.set_flag_c(carry != 0);
        result
    }

    pub fn cb_rrc(&mut self, val: u8) -> (r: u8)
        ensures
            r == cb_shift_spec(old(self).regs, 1, val).1,
            *final(self) == old(self).with_regs(cb_shift_spec(old(self).regs, 1, val).0),
    {
        proof { reveal(cb_shift_spec); }
        let carry = val % 2;
        let result = val / 2 + carry * 128;
        self.regs.set_flag_z(result == 0);
        self.regs.set_flag_n(false);
        self.regs.set_flag_h(false);
        self.regs.set_flag_c(carry != 0);
        result
    }

    pub fn cb_rl(&mut self, val: u8) -> (r: u8)
        ensures
            r == cb_shift_spec(old(self).regs, 2, val).1,
            *final(self) == old(self).with_regs(cb_shift_spec(old(self).regs, 2, val).0),
    {
        proof { reveal(cb_shift_spec); }
        let old_carry: u8 = if self.regs.flag_c() { 1 } else { 0 };
        let result = ((val as u16 * 2 + old_carry as u16) % 256) as u8;
        self.regs.set_flag_z(result == 0);
        self.regs.set_flag_n(false);
        self.regs.set_flag_h(false);
        self.regs.set_flag_c(val >= 128);
        result
    }

    pub fn cb_rr(&mut self, val: u8) -> (r: u8)
        ensures
            r == cb_shift_spec(old(self).regs, 3, val).1,
            *final(self) == old(self).with_regs(cb_shift_spec(old(self).regs, 3, val).0),
    {
        proof { reveal(cb_shift_spec); }
        let old_carry: u8 = if self.regs.flag_c() { 1 } else { 0 };
        let result = val / 2 + old_carry * 128;
        self.regs.set_flag_z(result == 0);
        self.regs.set_flag_n(false);
        self.regs.set_flag_h(false);
        self.regs.set_flag_c(val % 2 == 1);
        result
    }

    pub fn cb_sla(&mut self, val: u8) -> (r: u8)
        ensures
            r == cb_shift_spec(old(self).regs, 4, val).1,
            *final(self) == old(self).with_regs(cb_shift_spec(old(self).regs, 4, val).0),
    {
        proof { reveal(cb_shift_spec); }
        let result = ((val as u16 * 2) % 256) as u8;
        self.regs.set_flag_z(result == 0);
        self.regs.set_flag_n(false);
        self.regs.set_flag_h(false);
        self.regs.set_flag_c(val >= 128);
        result
    }

    /// Arithmetic right shift — bit 7 stays the same (sign-preserving).
    pub fn cb_sra(&mut self, val: u8) -> (r: u8)
        ensures
            r == cb_shift_spec(old(self).regs, 5, val).1,
            *final(self) == old(self).with_regs(cb_shift_spec(old(self).regs, 5, val).0),
    {
        proof { reveal(cb_shift_spec); }
        let result = val / 2 + (val / 128) * 128;
        self.regs.set_flag_z(result == 0);
        self.regs.set_flag_n(false);
        self.regs.set_flag_h(false);
        self.regs.set_flag_c(val % 2 == 1);
        result
    }

    /// Exchange the two nibbles.
    pub fn cb_swap(&mut self, val: u8) -> (r: u8)
        ensures
            r == cb_shift_spec(old(self).regs, 6, val).1,
            *final(self) == old(self).with_regs(cb_shift_spec(old(self).regs, 6, val).0),
    {
        proof { reveal(cb_shift_spec); }
        let result = (val % 16) * 16 + val / 16;
        self.regs.set_flag_z(result == 0);
        self.regs.set_flag_n(false);
        self.regs.set_flag_h(false);
        self.regs.set_flag_c(false);
        result
    }

    /// Logical right shift — bit 7 becomes 0.
    pub fn cb_srl(&mut self, val: u8) -> (r: u8)
        ensures
            r == cb_shift_spec(old(self).regs, 7, val).1,
            *final(self) == old(self).with_regs(cb_shift_spec(old(self).regs, 7, val).0),
    {
        proof { reveal(cb_shift_spec); }
        let result = val / 2;
        self.regs.set_flag_z(result == 0);
        self.regs.set_flag_n(false);
        self.regs.set_flag_h(false);
        self.regs.set_flag_c(val % 2 == 1);
        result
    }

    pub fn cb_bit(&mut self, bit: u8, val: u8)
        requires bit < 8,
        ensures *final(self) == old(self).with_regs(bit_spec(old(self).regs, bit as int, val)),
    {
        proof { reveal(bit_spec); }
        let mask = pow2_u8(bit);
        proof { lemma_bit_test(val, bit); }
        self.regs.set_flag_z(val & mask == 0);
        self.regs.set_flag_n(false);
        self.regs.set_flag_h(true);
    }

    /// What `load_state` reads from the front of `s`: the CPU and the rest.
    pub open spec fn loaded(s: Seq<u8>) -> (Cpu, Seq<u8>) {
        let (a, s1) = take_u8(s);
        let (f, s2) = take_u8(s1);
        let (b, s3) = take_u8(s2);
        let (c, s4) = take_u8(s3);
        let (dd, s5) = take_u8(s4);
        let (e, s6) = take_u8(s5);
        let (h, s7) = take_u8(s6);
        let (l, s8) = take_u8(s7);
        let (sp, s9) = take_u16(s8);
        let (pc, s10) = take_u16(s9);
        let (halted, s11) = take_bool(s10);
        let (ime, s12) = take_bool(s11);
        let (sched, s13) = take_bool(s12);
        let (bug, s14) = take_bool(s13);
        (Cpu { regs: Registers { a, f, b, c, d: dd, e, h, l, sp, pc }, halted, ime, ime_scheduled: sched, halt_bug: bug }, s14)
    }

    pub fn save_state(&self, d: &mut Vec<u8>)
        ensures final(d)@ == old(d)@ + self.serialized(),
    {
        push_u8(d, self.regs.a);
        push_u8(d, self.regs.f);
        push_u8(d, self.regs.b);
        push_u8(d, self.regs.c);
        push_u8(d, self.regs.d);
        push_u8(d, self.regs.e);
        push_u8(d, self.regs.h);
        push_u8(d, self.regs.l);
        push_u16(d, self.regs.sp);
        push_u16(d, self.regs.pc);
        push_bool(d, self.halted);
        push_bool(d, self.ime);
        push_bool(d, self.ime_scheduled);
        push_bool(d, self.halt_bug);
        assert(d@ =~= old(d)@ + self.serialized());
    }

    pub fn load_state(&mut self, d: &mut &[u8])
        ensures (*final(self), final(d)@) == Cpu::loaded(old(d)@),
    {
        self.regs.a = pop_u8(d);
        self.regs.f = pop_u8(d);
        self.regs.b = pop_u8(d);
        self.regs.c = pop_u8(d);
        self.regs.d = pop_u8(d);
        self.regs.e = pop_u8(d);
        self.regs.h = pop_u8(d);
        self.regs.l = pop_u8(d);
        self.regs.sp = pop_u16(d);
        self.regs.pc = pop_u16(d);
        self.halted = pop_bool(d);
        self.ime = pop_bool(d);
        self.ime_scheduled = pop_bool(d);
        self.halt_bug = pop_bool(d);
    }
}

/// The eight one-bit masks of a byte.
proof fn lemma_u8_bit_masks()
    ensures
        1u8 << 0u8 == 1 && 1u8 << 1u8 == 2 && 1u8 << 2u8 == 4 && 1u8 << 3u8 == 8 && 1u8 << 4u8 == 16
            && 1u8 << 5u8 == 32 && 1u8 << 6u8 == 64 && 1u8 << 7u8 == 128,
{
    vstd::arithmetic::power2::lemma2_to64();
    vstd::bits::lemma_u8_shl_is_mul(1u8, 0u8);
    vstd::bits::lemma_u8_shl_is_mul(1u8, 1u8);
    vstd::bits::lemma_u8_shl_is_mul(1u8, 2u8);
    vstd::bits::lemma_u8_shl_is_mul(1u8, 3u8);
    vstd::bits::lemma_u8_shl_is_mul(1u8, 4u8);
    vstd::bits::lemma_u8_shl_is_mul(1u8, 5u8);
    vstd::bits::lemma_u8_shl_is_mul(1u8, 6u8);
    vstd::bits::lemma_u8_shl_is_mul(1u8, 7u8);
}

/// `2^b` as a byte mask.
pub fn pow2_u8(b: u8) -> (r: u8)
    requires b < 8,
    ensures r == pow2_spec(b as int), r == (1u8 << b),
{
    proof { reveal_with_fuel(pow2_spec, 9); }
    proof { lemma_u8_bit_masks(); }
    if b == 0 { 1 } else if b == 1 { 2 } else if b == 2 { 4 } else if b == 3 { 8 }
    else if b == 4 { 16 } else if b == 5 { 32 } else if b == 6 { 64 } else { 128 }
}

/// Wrapping one step up or down is the 16-bit reduction of the true result.
pub proof fn lemma_wrap16_step(x: u16)
    ensures
        x.wrapping_add(1) == wrap16(x + 1),
        x.wrapping_sub(1) == wrap16(x - 1),
{
    assert(wrap16(x + 1) == if x == 0xFFFF { 0 } else { x + 1 });
    assert(wrap16(x - 1) == if x == 0 { 0xFFFF } else { x - 1 });
}

/// Adding a sign-extended offset with wrap-around is the 16-bit reduction
/// of the true sum.
pub proof fn lemma_wrap16_offset(a: u16, b: u16, s: int)
    requires
        b == wrap16(s),
        -128 <= s < 128,
    ensures
        a.wrapping_add(b) == wrap16(a + s),
{
    if s >= 0 {
        assert(b == s);
    } else {
        assert(b == s + 65536);
    }
}

pub proof fn lemma_low_nibble(x: u8)
    ensures x & 0x0F == x % 16,
{
    vstd::bits::lemma_low_bits_mask_values();
    vstd::arithmetic::power2::lemma2_to64();
    vstd::bits::lemma_u8_low_bits_mask_is_mod(x, 4);
}

pub proof fn lemma_low_12(x: u16)
    ensures x & 0x0FFF == x % 4096,
{
    vstd::bits::lemma_low_bits_mask_values();
    vstd::arithmetic::power2::lemma2_to64();
    vstd::bits::lemma_u16_low_bits_mask_is_mod(x, 12);
}

/// Testing bit `b` with a mask agrees with the arithmetic reading of the bit,
/// and clearing or setting it with the mask agrees with the arithmetic result.
pub proof fn lemma_bit_test(v: u8, b: u8)
    requires b < 8,
    ensures
        (v & (1u8 << b) == 0) == ((v as int / pow2_spec(b as int)) % 2 == 0),
        v & !(1u8 << b) == res_spec(b as int, v),
        v | (1u8 << b) == set_spec(b as int, v),
{
    reveal_with_fuel(pow2_spec, 9);
    assert(
        (v & (1u8 << 0u8) == 0) == ((v / 1) % 2 == 0) && (v & (1u8 << 1u8) == 0) == ((v / 2) % 2 == 0)
        && (v & (1u8 << 2u8) == 0) == ((v / 4) % 2 == 0) && (v & (1u8 << 3u8) == 0) == ((v / 8) % 2 == 0)
        && (v & (1u8 << 4u8) == 0) == ((v / 16) % 2 == 0) && (v & (1u8 << 5u8) == 0) == ((v / 32) % 2 == 0)
        && (v & (1u8 << 6u8) == 0) == ((v / 64) % 2 == 0) && (v & (1u8 << 7u8) == 0) == ((v / 128) % 2 == 0)
    ) by (bit_vector);
    assert(
        (v & (1u8 << b) == 0 ==> (v & !(1u8 << b) == v && v | (1u8 << b) == v + (1u8 << b)))
        && (v & (1u8 << b) != 0 ==> (v & !(1u8 << b) == v - (1u8 << b) && v | (1u8 << b) == v))
    ) by (bit_vector) requires b < 8;
    lemma_u8_bit_masks();
}

/// Saving a CPU and loading the bytes back restores it exactly, and the
/// cursor moves past exactly the saved bytes.
pub proof fn lemma_cpu_roundtrip(c: Cpu, tail: Seq<u8>)
    ensures Cpu::loaded(c.serialized() + tail) == (c, tail),
{
    let r = c.regs;
    let t13 = enc_bool(c.halt_bug) + tail;
    let t12 = enc_bool(c.ime_scheduled) + t13;
    let t11 = enc_bool(c.ime) + t12;
    let t10 = enc_bool(c.halted) + t11;
    let t9 = le16(r.pc) + t10;
    let t8 = le16(r.sp) + t9;
    let t7 = seq![r.l] + t8;
    let t6 = seq![r.h] + t7;
    let t5 = seq![r.e] + t6;
    let t4 = seq![r.d] + t5;
    let t3 = seq![r.c] + t4;
    let t2 = seq![r.b] + t3;
    let t1 = seq![r.f] + t2;
    let t0 = seq![r.a] + t1;
    assert(c.serialized() + tail =~= t0);
    lemma_take_bool(c.halt_bug, tail);
    lemma_take_bool(c.ime_scheduled, t13);
    lemma_take_bool(c.ime, t12);
    lemma_take_bool(c.halted, t11);
    lemma_take_u16(r.pc, t10);
    lemma_take_u16(r.sp, t9);
    lemma_take_u8(r.l, t8);
    lemma_take_u8(r.h, t7);
    lemma_take_u8(r.e, t6);
    lemma_take_u8(r.d, t5);
    lemma_take_u8(r.c, t4);
    lemma_take_u8(r.b, t3);
    lemma_take_u8(r.f, t2);
    lemma_take_u8(r.a, t1);
}

/// `add_spec` keeps F's low nibble zero.
pub broadcast proof fn lemma_add_f_low(r: Registers, v: u8)
    requires r.f & 0x0F == 0,
    ensures (#[trigger] add_spec(r, v)).f & 0x0F == 0,
{
    reveal(add_spec);
    broadcast use crate::cpu::registers::group_f_low;
}

/// `adc_spec` keeps F's low nibble zero.
pub broadcast proof fn lemma_adc_f_low(r: Registers, v: u8)
    requires r.f & 0x0F == 0,
    ensures (#[trigger] adc_spec(r, v)).f & 0x0F == 0,
{
    reveal(adc_spec);
    broadcast use crate::cpu::registers::group_f_low;
}

/// `sub_spec` keeps F's low nibble zero.
pub broadcast proof fn lemma_sub_f_low(r: Registers, v: u8)
    requires r.f & 0x0F == 0,
    ensures (#[trigger] sub_spec(r, v)).f & 0x0F == 0,
{
    reveal(sub_spec);
    broadcast use crate::cpu::registers::group_f_low;
}

/// `sbc_spec` keeps F's low nibble zero.
pub broadcast proof fn lemma_sbc_f_low(r: Registers, v: u8)
    requires r.f & 0x0F == 0,
    ensures (#[trigger] sbc_spec(r, v)).f & 0x0F == 0,
{
    reveal(sbc_spec);
    broadcast use crate::cpu::registers::group_f_low;
}

/// `and_spec` keeps F's low nibble zero.
pub broadcast proof fn lemma_and_f_low(r: Registers, v: u8)
    requires r.f & 0x0F == 0,
    ensures (#[trigger] and_spec(r, v)).f & 0x0F == 0,
{
    reveal(and_spec);
    broadcast use crate::cpu::registers::group_f_low;
}

/// `xor_spec` keeps F's low nibble zero.
pub broadcast proof fn lemma_xor_f_low(r: Registers, v: u8)
    requires r.f & 0x0F == 0,
    ensures (#[trigger] xor_spec(r, v)).f & 0x0F == 0,
{
    reveal(xor_spec);
    broadcast use crate::cpu::registers::group_f_low;
}

/// `or_spec` keeps F's low nibble zero.
pub broadcast proof fn lemma_or_f_low(r: Registers, v: u8)
    requires r.f & 0x0F == 0,
    ensures (#[trigger] or_spec(r, v)).f & 0x0F == 0,
{
    reveal(or_spec);
    broadcast use crate::cpu::registers::group_f_low;
}

/// `cp_spec` keeps F's low nibble zero.
pub broadcast proof fn lemma_cp_f_low(r: Registers, v: u8)
    requires r.f & 0x0F == 0,
    ensures (#[trigger] cp_spec(r, v)).f & 0x0F == 0,
{
    reveal(cp_spec);
    lemma_sub_f_low(r, v);
}

/// `inc_spec` keeps F's low nibble zero.
pub broadcast proof fn lemma_inc_f_low(r: Registers, v: u8)
    requires r.f & 0x0F == 0,
    ensures (#[trigger] inc_spec(r, v)).0.f & 0x0F == 0,
{
    reveal(inc_spec);
    broadcast use crate::cpu::registers::group_f_low;
}

/// `dec_spec` keeps F's low nibble zero.
pub broadcast proof fn lemma_dec_f_low(r: Registers, v: u8)
    requires r.f & 0x0F == 0,
    ensures (#[trigger] dec_spec(r, v)).0.f & 0x0F == 0,
{
    reveal(dec_spec);
    broadcast use crate::cpu::registers::group_f_low;
}

/// `add_hl_spec` keeps F's low nibble zero.
pub broadcast proof fn lemma_add_hl_f_low(r: Registers, v: u16)
    requires r.f & 0x0F == 0,
    ensures (#[trigger] add_hl_spec(r, v)).f & 0x0F == 0,
{
    reveal(add_hl_spec);
    broadcast use crate::cpu::registers::group_f_low;
}

/// `rlca_spec` keeps F's low nibble zero.
pub broadcast proof fn lemma_rlca_f_low(r: Registers)
    requires r.f & 0x0F == 0,
    ensures (#[trigger] rlca_spec(r)).f & 0x0F == 0,
{
    reveal(rlca_spec);
    broadcast use crate::cpu::registers::group_f_low;
}

/// `rrca_spec` keeps F's low nibble zero.
pub broadcast proof fn lemma_rrca_f_low(r: Registers)
    requires r.f & 0x0F == 0,
    ensures (#[trigger] rrca_spec(r)).f & 0x0F == 0,
{
    reveal(rrca_spec);
    broadcast use crate::cpu::registers::group_f_low;
}

/// `rla_spec` keeps F's low nibble zero.
pub broadcast proof fn lemma_rla_f_low(r: Registers)
    requires r.f & 0x0F == 0,
    ensures (#[trigger] rla_spec(r)).f & 0x0F == 0,
{
    reveal(rla_spec);
    broadcast use crate::cpu::registers::group_f_low;
}

/// `rra_spec` keeps F's low nibble zero.
pub broadcast proof fn lemma_rra_f_low(r: Registers)
    requires r.f & 0x0F == 0,
    ensures (#[trigger] rra_spec(r)).f & 0x0F == 0,
{
    reveal(rra_spec);
    broadcast use crate::cpu::registers::group_f_low;
}

/// `cb_shift_spec` keeps F's low nibble zero.
pub broadcast proof fn lemma_cb_shift_f_low(r: Registers, op: int, v: u8)
    requires r.f & 0x0F == 0,
    ensures (#[trigger] cb_shift_spec(r, op, v)).0.f & 0x0F == 0,
{
    reveal(cb_shift_spec);
    broadcast use crate::cpu::registers::group_f_low;
}

/// `bit_spec` keeps F's low nibble zero.
pub broadcast proof fn lemma_bit_f_low(r: Registers, bit: int, v: u8)
    requires r.f & 0x0F == 0,
    ensures (#[trigger] bit_spec(r, bit, v)).f & 0x0F == 0,
{
    reveal(bit_spec);
    broadcast use crate::cpu::registers::group_f_low;
}

/// Writing Z, N, H and C in turn leaves each reading as written.
pub proof fn lemma_znhc_read(r: Registers, z: bool, n: bool, h: bool, c: bool)
    ensures
        ({
            let q = r.with_z(z).with_n(n).with_h(h).with_c(c);
            q.spec_z() == z && q.spec_n() == n && q.spec_h() == h && q.spec_c() == c
        }),
{
    registers::lemma_flag_setters(r.f, z);
    registers::lemma_flag_setters(r.with_z(z).f, n);
    registers::lemma_flag_setters(r.with_z(z).with_n(n).f, h);
    registers::lemma_flag_setters(r.with_z(z).with_n(n).with_h(h).f, c);
}

/// What the eight accumulator operations leave in A and in the flags, for
/// A = `x`, operand `v` and carry-in `cy`: ADD and ADC add modulo 256 with C
/// on a carry out of bit 7 and H on a carry out of bit 3; SUB, SBC and CP
/// subtract with C and H on the corresponding borrows and N set (CP keeps
/// A); AND, XOR and OR combine bitwise with C clear and H set only by AND.
/// Z is set exactly when the (possibly discarded) result is 0.
pub proof fn lemma_sm83_alu_results(r: Registers, v: u8)
    ensures
        ({
            let x = r.a as int;
            let cy: int = if r.spec_c() { 1 } else { 0 };
            let add = add_spec(r, v);
            let adc = adc_spec(r, v);
            let sub = sub_spec(r, v);
            let sbc = sbc_spec(r, v);
            let and = and_spec(r, v);
            let xor = xor_spec(r, v);
            let or = or_spec(r, v);
            let cp = cp_spec(r, v);
            &&& add.a == (x + v) % 256 && add.spec_c() == (x + v >= 256) && add.spec_h() == (x % 16 + v % 16 >= 16)
                && !add.spec_n() && add.spec_z() == ((x + v) % 256 == 0)
            &&& adc.a == (x + v + cy) % 256 && adc.spec_c() == (x + v + cy >= 256)
                && adc.spec_h() == (x % 16 + v % 16 + cy >= 16) && !adc.spec_n() && adc.spec_z() == ((x + v + cy) % 256 == 0)
            &&& sub.a == (x - v) % 256 && sub.spec_c() == (x < v) && sub.spec_h() == (x % 16 < v % 16)
                && sub.spec_n() && sub.spec_z() == (x == v)
            &&& sbc.a == (x - v - cy) % 256 && sbc.spec_c() == (x < v + cy) && sbc.spec_h() == (x % 16 < v % 16 + cy)
                && sbc.spec_n() && sbc.spec_z() == ((x - v - cy) % 256 == 0)
            &&& and.a == r.a & v && and.spec_h() && !and.spec_c() && !and.spec_n() && and.spec_z() == (r.a & v == 0)
            &&& xor.a == r.a ^ v && !xor.spec_h() && !xor.spec_c() && !xor.spec_n() && xor.spec_z() == (r.a ^ v == 0)
            &&& or.a == r.a | v && !or.spec_h() && !or.spec_c() && !or.spec_n() && or.spec_z() == (r.a | v == 0)
            &&& cp.a == r.a && cp.spec_c() == (x < v) && cp.spec_h() == (x % 16 < v % 16) && cp.spec_n() && cp.spec_z() == (x == v)
        }),
{
    reveal(add_spec);
    reveal(adc_spec);
    reveal(sub_spec);
    reveal(sbc_spec);
    reveal(and_spec);
    reveal(xor_spec);
    reveal(or_spec);
    reveal(cp_spec);
    let x = r.a as int;
    let cy: int = if r.spec_c() { 1 } else { 0 };
    let ra = Registers { a: wrap8(x + v), ..r };
    lemma_znhc_read(ra, wrap8(x + v) == 0, false, x % 16 + v % 16 > 15, x + v > 255);
    let rc = Registers { a: wrap8(x + v + cy), ..r };
    lemma_znhc_read(rc, wrap8(x + v + cy) == 0, false, x % 16 + v % 16 + cy > 15, x + v + cy > 255);
    let rs = Registers { a: wrap8(x - v), ..r };
    lemma_znhc_read(rs, wrap8(x - v) == 0, true, x % 16 < v % 16, x < v);
    let rb = Registers { a: wrap8(x - v - cy), ..r };
    lemma_znhc_read(rb, wrap8(x - v - cy) == 0, true, x % 16 < v % 16 + cy, x - v - cy < 0);
    let r_and = Registers { a: r.a & v, ..r };
    lemma_znhc_read(r_and, r.a & v == 0, false, true, false);
    let r_xor = Registers { a: r.a ^ v, ..r };
    lemma_znhc_read(r_xor, r.a ^ v == 0, false, false, false);
    let r_or = Registers { a: r.a | v, ..r };
    lemma_znhc_read(r_or, r.a | v == 0, false, false, false);
    assert(wrap8(x - v) == 0 <==> x == v);
}

/// INC and DEC of an 8-bit value count modulo 256; H reports a carry out of
/// (INC) or a borrow into (DEC) the low nibble, N tells DEC from INC, Z is
/// set for a zero result, and C keeps its old value.
pub proof fn lemma_sm83_inc_dec(r: Registers, v: u8)
    ensures
        ({
            let (ri, i) = inc_spec(r, v);
            let (rd, d) = dec_spec(r, v);
            &&& i == (v + 1) % 256 && ri.spec_z() == (v == 255) && !ri.spec_n() && ri.spec_h() == (v % 16 == 15)
                && ri.spec_c() == r.spec_c() && ri.a == r.a
            &&& d == (v + 255) % 256 && rd.spec_z() == (v == 1) && rd.spec_n() && rd.spec_h() == (v % 16 == 0)
                && rd.spec_c() == r.spec_c() && rd.a == r.a
        }),
{
    reveal(inc_spec);
    reveal(dec_spec);
    let zi = wrap8(v + 1) == 0;
    registers::lemma_flag_setters(r.f, zi);
    registers::lemma_flag_setters(r.with_z(zi).f, false);
    registers::lemma_flag_setters(r.with_z(zi).with_n(false).f, v % 16 + 1 > 15);
    let zd = wrap8(v - 1) == 0;
    registers::lemma_flag_setters(r.f, zd);
    registers::lemma_flag_setters(r.with_z(zd).f, true);
    registers::lemma_flag_setters(r.with_z(zd).with_n(true).f, v % 16 == 0);
}

/// RLC moves bit 7 into C and RRC undoes it: RRC after RLC gives the value
/// back.
pub proof fn lemma_cb_rlc_rrc(r: Registers, v: u8)
    ensures
        ({
            let (r1, x) = cb_shift_spec(r, 0, v);
            let (r2, y) = cb_shift_spec(r1, 1, x);
            y == v && r1.spec_c() == (v >= 128)
        }),
{
    reveal(cb_shift_spec);
    let x = wrap8(v * 2 + v / 128);
    lemma_znhc_read(r, x == 0, false, false, v >= 128);
    if v >= 128 {
        assert(x == 2 * v - 255);
    } else {
        assert(x == 2 * v);
    }
}

/// RL moves bit 7 into C and the old C into bit 0, and RR moves them back:
/// RR after RL restores both the value and the carry flag.
pub proof fn lemma_cb_rl_rr(r: Registers, v: u8)
    ensures
        ({
            let (r1, x) = cb_shift_spec(r, 2, v);
            let (r2, y) = cb_shift_spec(r1, 3, x);
            y == v && r2.spec_c() == r.spec_c() && r1.spec_c() == (v >= 128)
        }),
{
    reveal(cb_shift_spec);
    let cy: int = if r.spec_c() { 1 } else { 0 };
    let x = wrap8(v * 2 + cy);
    lemma_znhc_read(r, x == 0, false, false, v >= 128);
    let r1 = shift_flags(r, x, v >= 128);
    let y = (x / 2 + (if v >= 128 { 1int } else { 0int }) * 128) as u8;
    lemma_znhc_read(r1, y == 0, false, false, x % 2 == 1);
    if v >= 128 {
        assert(x == 2 * v + cy - 256);
    } else {
        assert(x == 2 * v + cy);
    }
}

/// SWAP exchanges the nibbles, so SWAP applied twice is the identity; SLA
/// doubles modulo 256 with bit 7 going to C, SRL halves with bit 0 going to
/// C, and SRA halves keeping bit 7.
pub proof fn lemma_cb_swap_shifts(r: Registers, v: u8)
    ensures
        ({
            let (r1, x) = cb_shift_spec(r, 6, v);
            let (r2, y) = cb_shift_spec(r1, 6, x);
            let (rs, sla) = cb_shift_spec(r, 4, v);
            let (rt, sra) = cb_shift_spec(r, 5, v);
            let (ru, srl) = cb_shift_spec(r, 7, v);
            &&& x == (v % 16) * 16 + v / 16 && y == v
            &&& sla == (2 * v) % 256 && rs.spec_c() == (v >= 128)
            &&& srl == v / 2 && ru.spec_c() == (v % 2 == 1)
            &&& sra == v / 2 + (if v >= 128 { 128int } else { 0 }) && rt.spec_c() == (v % 2 == 1)
        }),
{
    reveal(cb_shift_spec);
    let x = ((v % 16) * 16 + v / 16) as u8;
    assert(x == (v % 16) * 16 + v / 16);
    assert(x / 16 == v % 16 && x % 16 == v / 16);
    assert(v == 16 * (v / 16) + v % 16);
    lemma_znhc_read(r, wrap8(v * 2) == 0, false, false, v >= 128);
    lemma_znhc_read(r, ((v / 2 + (v / 128) * 128) as u8) == 0, false, false, v % 2 == 1);
    lemma_znhc_read(r, ((v / 2) as u8) == 0, false, false, v % 2 == 1);
}

/// PUSH then POP through work RAM or high RAM gives the pushed value back:
/// PUSH stores the high byte at SP-1 and the low byte at SP-2, and POP with
/// SP two lower reads the low byte at SP and the high byte at SP+1.
pub proof fn lemma_push_pop(c: Cpu, m: Mmu, m2: Mmu, v: u16)
    requires
        0xC002 <= c.regs.sp <= 0xDFFF || 0xFF82 <= c.regs.sp <= 0xFFFF,
        writes_applied(m, m2, c.push_writes(v)),
    ensures
        c.with_regs(Registers { sp: wrap16(c.regs.sp - 2), ..c.regs }).pop_value(m2) == v,
{
    reveal(Mmu::write_post);
    reveal(Mmu::read_spec);
    let ws = c.push_writes(v);
    let mid = choose|mid: Mmu| #[trigger] m.write_post(&mid, ws[0].0, ws[0].1) && mid.write_post(&m2, ws[1].0, ws[1].1);
    let s = c.regs.sp;
    assert(wrap16(s - 1) == s - 1 && wrap16(s - 2) == s - 2);
    assert(wrap16(wrap16(s - 2) + 1) == s - 1);
    assert(mid.wram_bank == m.wram_bank && m2.wram_bank == m.wram_bank);
    assert(m2.read_spec((s - 1) as u16) == hi_byte(v));
    assert(m2.read_spec((s - 2) as u16) == lo_byte(v));
}

/// The register operations that keep F's low nibble zero.
pub broadcast group group_ops_f_low {
    lemma_add_f_low,
    lemma_adc_f_low,
    lemma_sub_f_low,
    lemma_sbc_f_low,
    lemma_and_f_low,
    lemma_xor_f_low,
    lemma_or_f_low,
    lemma_cp_f_low,
    lemma_inc_f_low,
    lemma_dec_f_low,
    lemma_add_hl_f_low,
    lemma_rlca_f_low,
    lemma_rrca_f_low,
    lemma_rla_f_low,
    lemma_rra_f_low,
    lemma_cb_shift_f_low,
    lemma_bit_f_low,
}

} // verus!
