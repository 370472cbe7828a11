use vstd::prelude::*;
use vstd::arithmetic::div_mod::lemma_fundamental_div_mod_converse;
use super::{Cpu, add_spec, sub_spec, lemma_wrap16_step, lemma_wrap16_offset, wrap16, wrap8, sext, add_hl_spec, inc_spec, dec_spec, rlca_spec, rrca_spec, rla_spec, rra_spec,
    alu_spec, get_r8, set_r8, get_rr, set_rr, get_qq, set_qq, cond_spec};
use super::cb_opcodes::cb_spec;
use super::registers::{Registers, pair, hi_byte, lo_byte, lemma_flag_setters};
use crate::mmu::{Mmu, writes_applied};

verus! {

/// DAA: decimal-adjust A after a BCD addition or subtraction. H is cleared,
/// C is only ever set, Z follows the result.
#[verifier::opaque]
pub open spec fn daa_spec(r: Registers) -> Registers {
    let a = r.a as int;
    let adj = if !r.spec_n() {
        let a1 = a + (if r.spec_h() || a % 16 > 9 { 6int } else { 0int });
        a1 + (if r.spec_c() || a1 > 0x9F { 0x60int } else { 0int })
    } else {
        let a1 = if r.spec_h() { (a - 6) % 256 } else { a };
        a1 - (if r.spec_c() { 0x60int } else { 0int })
    };
    let res = wrap8(adj);
    let r1 = r.with_h(false);
    let r2 = if adj >= 256 || adj < 0 { r1.with_c(true) } else { r1 };
    Registers { a: res, ..r2 }.with_z(res == 0)
}

/// A byte holding two decimal digits, one per nibble.
pub open spec fn is_bcd(x: u8) -> bool {
    x / 16 <= 9 && x % 16 <= 9
}

/// The number 0..=99 that a BCD byte stands for.
pub open spec fn bcd_value(x: u8) -> int {
    (x / 16) * 10 + x % 16
}

/// The BCD byte of a number 0..=99.
pub open spec fn bcd_byte(n: int) -> int {
    (n / 10) * 16 + n % 10
}

/// The immediate byte at PC.
pub open spec fn imm8(c: Cpu, m: Mmu) -> u8 {
    m.read_spec(c.regs.pc)
}

/// The little-endian immediate word at PC.
pub open spec fn imm16(c: Cpu, m: Mmu) -> u16 {
    pair(m.read_spec(wrap16(c.regs.pc + 1)), m.read_spec(c.regs.pc))
}

/// The registers with PC advanced by `k` bytes.
pub open spec fn skip(r: Registers, k: int) -> Registers {
    Registers { pc: wrap16(r.pc + k), ..r }
}

/// The effect of executing base opcode `op` on CPU `c` over memory `m`, PC
/// already past the opcode: the new CPU state, the memory writes in order,
/// and the T-cycles taken. All reads precede all writes, so reads see `m`.
pub open spec fn exec_spec(c: Cpu, m: Mmu, op: u8) -> (Cpu, Seq<(u16, u8)>, u32) {
    if is_ld16_op(op) {
        ld16_spec(c, m, op)
    } else if is_arith16_op(op) {
        arith16_spec(c, op)
    } else if is_inc_dec8_op(op) {
        inc_dec8_spec(c, m, op)
    } else if op < 0x40 {
        misc_spec(c, m, op)
    } else if op < 0x80 {
        ld_r8_spec(c, m, op)
    } else if op < 0xC0 {
        alu_r8_spec(c, m, op)
    } else if is_control_op(op) {
        control_spec(c, m, op)
    } else {
        misc_high_spec(c, m, op)
    }
}

/// LD rr,nn, the loads through BC, DE and HL+/-, and LD (nn),SP.
#[verifier::opaque]
pub open spec fn ld16_spec(c: Cpu, m: Mmu, op: u8) -> (Cpu, Seq<(u16, u8)>, u32) {
    let r = c.regs;
    let n16 = imm16(c, m);
    let hl = r.spec_hl();
    let p = ((op / 16) % 4) as int;
    let no = Seq::<(u16, u8)>::empty();
    if op % 16 == 1 {
        (c.with_regs(set_rr(skip(r, 2), p, n16)), no, 12)
    } else if op == 0x02 {
        (c, seq![(r.spec_bc(), r.a)], 8)
    } else if op == 0x12 {
        (c, seq![(r.spec_de(), r.a)], 8)
    } else if op == 0x0A {
        (c.with_regs(Registers { a: m.read_spec(r.spec_bc()), ..r }), no, 8)
    } else if op == 0x1A {
        (c.with_regs(Registers { a: m.read_spec(r.spec_de()), ..r }), no, 8)
    } else if op == 0x22 {
        (c.with_regs(r.with_hl(wrap16(hl + 1))), seq![(hl, r.a)], 8)
    } else if op == 0x32 {
        (c.with_regs(r.with_hl(wrap16(hl - 1))), seq![(hl, r.a)], 8)
    } else if op == 0x2A {
        (c.with_regs(Registers { a: m.read_spec(hl), ..r }.with_hl(wrap16(hl + 1))), no, 8)
    } else if op == 0x3A {
        (c.with_regs(Registers { a: m.read_spec(hl), ..r }.with_hl(wrap16(hl - 1))), no, 8)
    } else {
        // LD (nn), SP
        (c.with_regs(skip(r, 2)), seq![(n16, lo_byte(r.sp)), (wrap16(n16 + 1), hi_byte(r.sp))], 20)
    }
}

/// INC rr, DEC rr and ADD HL,rr; flags as `add_hl_spec` says, none for INC and DEC.
#[verifier::opaque]
pub open spec fn arith16_spec(c: Cpu, op: u8) -> (Cpu, Seq<(u16, u8)>, u32) {
    let r = c.regs;
    let p = ((op / 16) % 4) as int;
    if op % 16 == 3 {
        (c.with_regs(set_rr(r, p, wrap16(get_rr(r, p) + 1))), Seq::empty(), 8)
    } else if op % 16 == 11 {
        (c.with_regs(set_rr(r, p, wrap16(get_rr(r, p) - 1))), Seq::empty(), 8)
    } else {
        (c.with_regs(add_hl_spec(r, get_rr(r, p))), Seq::empty(), 8)
    }
}

/// INC r and DEC r; the (HL) forms write memory and take 12 cycles.
#[verifier::opaque]
pub open spec fn inc_dec8_spec(c: Cpu, m: Mmu, op: u8) -> (Cpu, Seq<(u16, u8)>, u32) {
    let r = c.regs;
    let y = ((op / 8) % 8) as int;
    let hl = r.spec_hl();
    let v = if y == 6 { m.read_spec(hl) } else { get_r8(r, y) };
    let (r2, res) = if op % 8 == 4 { inc_spec(r, v) } else { dec_spec(r, v) };
    if y == 6 {
        (c.with_regs(r2), seq![(hl, res)], 12)
    } else {
        (c.with_regs(set_r8(r2, y, res)), Seq::empty(), 4)
    }
}

/// NOP, STOP, LD r,n, the rotates of A, DAA, CPL, SCF, CCF and JR.
#[verifier::opaque]
pub open spec fn misc_spec(c: Cpu, m: Mmu, op: u8) -> (Cpu, Seq<(u16, u8)>, u32) {
    let r = c.regs;
    let n8 = imm8(c, m);
    let y = ((op / 8) % 8) as int;
    let no = Seq::<(u16, u8)>::empty();
    let jr_target = wrap16(r.pc + 1 + sext(n8));
    if op == 0x00 {
        (c, no, 4)
    } else if op % 8 == 6 {
        if y == 6 {
            (c.with_regs(skip(r, 1)), seq![(r.spec_hl(), n8)], 12)
        } else {
            (c.with_regs(set_r8(skip(r, 1), y, n8)), no, 8)
        }
    } else if op == 0x07 {
        (c.with_regs(rlca_spec(r)), no, 4)
    } else if op == 0x0F {
        (c.with_regs(rrca_spec(r)), no, 4)
    } else if op == 0x17 {
        (c.with_regs(rla_spec(r)), no, 4)
    } else if op == 0x1F {
        (c.with_regs(rra_spec(r)), no, 4)
    } else if op == 0x27 {
        (c.with_regs(daa_spec(r)), no, 4)
    } else if op == 0x2F {
        (c.with_regs(Registers { a: !r.a, ..r }.with_n(true).with_h(true)), no, 4)
    } else if op == 0x37 {
        (c.with_regs(r.with_n(false).with_h(false).with_c(true)), no, 4)
    } else if op == 0x3F {
        (c.with_regs(r.with_n(false).with_h(false).with_c(!r.spec_c())), no, 4)
    } else if op == 0x10 {
        // STOP skips its operand byte
        (c.with_regs(skip(r, 1)), no, 4)
    } else if op == 0x18 {
        (c.with_regs(Registers { pc: jr_target, ..r }), no, 12)
    } else {
        // JR cc, n (0x20, 0x28, 0x30, 0x38)
        if cond_spec(r, y - 4) {
            (c.with_regs(Registers { pc: jr_target, ..r }), no, 12)
        } else {
            (c.with_regs(skip(r, 1)), no, 8)
        }
    }
}

/// LD r,r' (0x40-0x7F) and HALT (0x76). HALT with IME clear and an
/// interrupt already pending does not halt but arms the HALT bug.
#[verifier::opaque]
pub open spec fn ld_r8_spec(c: Cpu, m: Mmu, op: u8) -> (Cpu, Seq<(u16, u8)>, u32) {
    let r = c.regs;
    let y = ((op / 8) % 8) as int;
    let z = (op % 8) as int;
    let hl = r.spec_hl();
    if op == 0x76 {
        let pending = m.read_spec(0xFF0F) & m.read_spec(0xFFFF) & 0x1F != 0;
        if !c.ime && pending {
            (Cpu { halted: false, halt_bug: true, ..c }, Seq::empty(), 4)
        } else {
            (Cpu { halted: true, ..c }, Seq::empty(), 4)
        }
    } else if z == 6 {
        (c.with_regs(set_r8(r, y, m.read_spec(hl))), Seq::empty(), 8)
    } else if y == 6 {
        (c, seq![(hl, get_r8(r, z))], 8)
    } else {
        (c.with_regs(set_r8(r, y, get_r8(r, z))), Seq::empty(), 4)
    }
}

/// ADD, ADC, SUB, SBC, AND, XOR, OR and CP on A with a register or (HL).
#[verifier::opaque]
pub open spec fn alu_r8_spec(c: Cpu, m: Mmu, op: u8) -> (Cpu, Seq<(u16, u8)>, u32) {
    let r = c.regs;
    let y = ((op / 8) % 8) as int;
    let z = (op % 8) as int;
    if z == 6 {
        (c.with_regs(alu_spec(r, y, m.read_spec(r.spec_hl()))), Seq::empty(), 8)
    } else {
        (c.with_regs(alu_spec(r, y, get_r8(r, z))), Seq::empty(), 4)
    }
}

/// JP, CALL, RET, RETI and RST; a taken conditional branch costs more.
#[verifier::opaque]
pub open spec fn control_spec(c: Cpu, m: Mmu, op: u8) -> (Cpu, Seq<(u16, u8)>, u32) {
    let r = c.regs;
    let n16 = imm16(c, m);
    let y = ((op / 8) % 8) as int;
    let z = (op % 8) as int;
    let no = Seq::<(u16, u8)>::empty();
    let sp2 = wrap16(r.sp - 2);
    let popped = c.pop_value(m);
    let rpop = Registers { sp: wrap16(r.sp + 2), ..r };
    if z == 7 {
        (c.with_regs(Registers { sp: sp2, pc: (op - 0xC7) as u16, ..r }), c.push_writes(r.pc), 16)
    } else if op == 0xC3 {
        (c.with_regs(Registers { pc: n16, ..r }), no, 16)
    } else if op == 0xE9 {
        (c.with_regs(Registers { pc: r.spec_hl(), ..r }), no, 4)
    } else if op == 0xC9 {
        (c.with_regs(Registers { pc: popped, ..rpop }), no, 16)
    } else if op == 0xD9 {
        (Cpu { regs: Registers { pc: popped, ..rpop }, ime: true, ..c }, no, 16)
    } else if op == 0xCD {
        (c.with_regs(Registers { sp: sp2, pc: n16, ..r }), c.push_writes(wrap16(r.pc + 2)), 24)
    } else if z == 0 {
        // RET cc
        if cond_spec(r, y) { (c.with_regs(Registers { pc: popped, ..rpop }), no, 20) } else { (c, no, 8) }
    } else if z == 2 {
        // JP cc, nn
        if cond_spec(r, y) { (c.with_regs(Registers { pc: n16, ..r }), no, 16) } else { (c.with_regs(skip(r, 2)), no, 12) }
    } else {
        // CALL cc, nn
        if cond_spec(r, y) {
            (c.with_regs(Registers { sp: sp2, pc: n16, ..r }), c.push_writes(wrap16(r.pc + 2)), 24)
        } else {
            (c.with_regs(skip(r, 2)), no, 12)
        }
    }
}

/// ALU A,n, PUSH, POP, the high-page and absolute loads of A, the SP
/// arithmetic, DI, EI, the CB prefix and the unused opcodes (which do nothing).
#[verifier::opaque]
pub open spec fn misc_high_spec(c: Cpu, m: Mmu, op: u8) -> (Cpu, Seq<(u16, u8)>, u32) {
    let r = c.regs;
    let n8 = imm8(c, m);
    let n16 = imm16(c, m);
    let y = ((op / 8) % 8) as int;
    let z = (op % 8) as int;
    let p = ((op / 16) % 4) as int;
    let no = Seq::<(u16, u8)>::empty();
    let r1 = skip(r, 1);
    if z == 6 {
        (c.with_regs(alu_spec(r1, y, n8)), no, 8)
    } else if op % 16 == 5 {
        (c.with_regs(Registers { sp: wrap16(r.sp - 2), ..r }), c.push_writes(get_qq(r, p)), 16)
    } else if op % 16 == 1 {
        (c.with_regs(set_qq(Registers { sp: wrap16(r.sp + 2), ..r }, p, c.pop_value(m))), no, 12)
    } else if op == 0xCB {
        cb_spec(c.with_regs(r1), m, n8)
    } else if op == 0xE0 {
        (c.with_regs(r1), seq![((0xFF00 + n8) as u16, r.a)], 12)
    } else if op == 0xF0 {
        (c.with_regs(Registers { a: m.read_spec((0xFF00 + n8) as u16), ..r1 }), no, 12)
    } else if op == 0xE2 {
        (c, seq![((0xFF00 + r.c) as u16, r.a)], 8)
    } else if op == 0xF2 {
        (c.with_regs(Registers { a: m.read_spec((0xFF00 + r.c) as u16), ..r }), no, 8)
    } else if op == 0xEA {
        (c.with_regs(skip(r, 2)), seq![(n16, r.a)], 16)
    } else if op == 0xFA {
        (c.with_regs(Registers { a: m.read_spec(n16), ..skip(r, 2) }), no, 16)
    } else if op == 0xF9 {
        (c.with_regs(Registers { sp: r.spec_hl(), ..r }), no, 8)
    } else if op == 0xF8 {
        (c.with_regs(r1.with_hl(wrap16(r.sp + sext(n8))).with_z(false).with_n(false)
            .with_h(r.sp % 16 + n8 % 16 > 15).with_c(r.sp % 256 + n8 > 255)), no, 12)
    } else if op == 0xE8 {
        (c.with_regs(Registers { sp: wrap16(r.sp + sext(n8)), ..r1.with_z(false).with_n(false)
            .with_h(r.sp % 16 + n8 % 16 > 15).with_c(r.sp % 256 + n8 > 255) }), no, 16)
    } else if op == 0xF3 {
        (Cpu { ime: false, ..c }, no, 4)
    } else if op == 0xFB {
        (Cpu { ime_scheduled: true, ..c }, no, 4)
    } else {
        (c, no, 4)
    }
}

/// LD rr,nn, LD (rr),A, LD A,(rr), the HL+/- loads and LD (nn),SP.
pub open spec fn is_ld16_op(op: u8) -> bool {
    op < 0x40 && (op % 16 == 1 || op % 16 == 2 || op % 16 == 10 || op == 0x08)
}

/// INC rr, DEC rr and ADD HL,rr.
pub open spec fn is_arith16_op(op: u8) -> bool {
    op < 0x40 && (op % 16 == 3 || op % 16 == 11 || op % 16 == 9)
}

/// INC r and DEC r.
pub open spec fn is_inc_dec8_op(op: u8) -> bool {
    op < 0x40 && (op % 8 == 4 || op % 8 == 5)
}

/// The rest of the first quarter of the opcode table.
pub open spec fn is_misc_op(op: u8) -> bool {
    op < 0x40 && !is_ld16_op(op) && !is_arith16_op(op) && !is_inc_dec8_op(op)
}

/// JP, CALL, RET, RETI and RST.
pub open spec fn is_control_op(op: u8) -> bool {
    op >= 0xC0 && ((op % 8 == 0 && op <= 0xD8) || (op % 8 == 2 && op <= 0xDA) || (op % 8 == 4 && op <= 0xDC)
        || op == 0xC3 || op == 0xE9 || op == 0xCD || op == 0xC9 || op == 0xD9 || op % 8 == 7)
}

fn is_ld16_op_exec(op: u8) -> (r: bool)
    ensures r == is_ld16_op(op),
{
    op < 0x40 && (op % 16 == 1 || op % 16 == 2 || op % 16 == 10 || op == 0x08)
}

fn is_arith16_op_exec(op: u8) -> (r: bool)
    ensures r == is_arith16_op(op),
{
    op < 0x40 && (op % 16 == 3 || op % 16 == 11 || op % 16 == 9)
}

fn is_control_op_exec(op: u8) -> (r: bool)
    ensures r == is_control_op(op),
{
    op >= 0xC0 && ((op % 8 == 0 && op <= 0xD8) || (op % 8 == 2 && op <= 0xDA) || (op % 8 == 4 && op <= 0xDC)
        || op == 0xC3 || op == 0xE9 || op == 0xCD || op == 0xC9 || op == 0xD9 || op % 8 == 7)
}

impl Cpu {
    /// Fetch a signed byte offset, sign-extended to 16 bits.
    pub fn fetch_offset(&mut self, mmu: &Mmu) -> (r: u16)
        ensures
            r == wrap16(sext(mmu.read_spec(old(self).regs.pc))),
            r % 16 == mmu.read_spec(old(self).regs.pc) % 16,
            r % 256 == mmu.read_spec(old(self).regs.pc),
            *final(self) == old(self).with_regs(Registers { pc: wrap16(old(self).regs.pc + 1), ..old(self).regs }),
    {
        let b = self.fetch_byte(mmu);
        if b < 128 { b as u16 } else { b as u16 + 0xFF00 }
    }

    pub fn daa(&mut self)
        ensures *final(self) == old(self).with_regs(daa_spec(old(self).regs)),
    {
        proof { reveal(daa_spec); }
        let mut a = self.regs.a as i16;
        proof { lemma_daa_bits(a); }
        if !self.regs.flag_n() {
            if self.regs.flag_h() || (a & 0x0F) > 9 {
                a += 0x06;
            }
            if self.regs.flag_c() || a > 0x9F {
                a += 0x60;
            }
        } else {
            if self.regs.flag_h() {
                let t = a.wrapping_sub(6);
                proof { lemma_daa_bits(t); }
                a = t & 0xFF;
            }
            if self.regs.flag_c() {
                a = a.wrapping_sub(0x60);
            }
        }
        proof { lemma_daa_bits(a); }
        self.regs.set_flag_h(false);
        if a & 0x100 != 0 {
            self.regs.set_flag_c(true);
        }
        self.regs.a = if a >= 0 { (a % 256) as u8 } else { (a + 256) as u8 };
        self.regs.set_flag_z(self.regs.a == 0);
    }

    /// Decode and execute one base opcode. Returns T-cycle count.
    pub fn execute(&mut self, opcode: u8, mmu: &mut Mmu) -> (cycles: u32)
        ensures
            ({
                let (c, ws, n) = exec_spec(*old(self), *old(mmu), opcode);
                &&& *final(self) == c
                &&& cycles == n
                &&& writes_applied(*old(mmu), *final(mmu), ws)
            }),
    {
        if opcode < 0x40 {
            if is_ld16_op_exec(opcode) {
                self.execute_ld16(opcode, mmu)
            } else if is_arith16_op_exec(opcode) {
                self.execute_arith16(opcode, mmu)
            } else if opcode % 8 == 4 || opcode % 8 == 5 {
                self.execute_inc_dec8(opcode, mmu)
            } else {
                self.execute_misc(opcode, mmu)
            }
        } else if opcode < 0x60 {
            self.execute_ld_r8_bcde(opcode, mmu)
        } else if opcode < 0x80 {
            self.execute_ld_r8_hla(opcode, mmu)
        } else if opcode < 0xA0 {
            self.execute_alu_arith(opcode, mmu)
        } else if opcode < 0xC0 {
            self.execute_alu_logic(opcode, mmu)
        } else if is_control_op_exec(opcode) {
            self.execute_control(opcode, mmu)
        } else {
            self.execute_misc_high(opcode, mmu)
        }
    }

    /// NOP, STOP, LD r,n, the rotates of A, DAA, CPL, SCF, CCF and JR.
    #[verifier::spinoff_prover]
    #[verifier::rlimit(100)]
    fn execute_misc(&mut self, opcode: u8, mmu: &mut Mmu) -> (cycles: u32)
        requires is_misc_op(opcode),
        ensures
            ({
                let (c, ws, n) = misc_spec(*old(self), *old(mmu), opcode);
                &&& *final(self) == c
                &&& cycles == n
                &&& writes_applied(*old(mmu), *final(mmu), ws)
            }),
    {
        proof { reveal(misc_spec); }
        match opcode {
            // --- NOP ---
            0x00 => return 4,

            // --- LD r, n (8-bit immediate) ---
            0x06 => {
                self.regs.b = self.fetch_byte(mmu);
                return 8;
            }
            0x0E => {
                self.regs.c = self.fetch_byte(mmu);
                return 8;
            }
            0x16 => {
                self.regs.d = self.fetch_byte(mmu);
                return 8;
            }
            0x1E => {
                self.regs.e = self.fetch_byte(mmu);
                return 8;
            }
            0x26 => {
                self.regs.h = self.fetch_byte(mmu);
                return 8;
            }
            0x2E => {
                self.regs.l = self.fetch_byte(mmu);
                return 8;
            }
            0x36 => {
                let v = self.fetch_byte(mmu);
                mmu.write(self.regs.hl(), v);
                return 12;
            }
            0x3E => {
                self.regs.a = self.fetch_byte(mmu);
                return 8;
            }

            // --- Rotate A instructions ---
            0x07 => {
                self.rlca();
                return 4;
            }
            0x0F => {
                self.rrca();
                return 4;
            }
            0x17 => {
                self.rla();
                return 4;
            }
            0x1F => {
                self.rra();
                return 4;
            }

            // --- DAA ---
            0x27 => {
                self.daa();
                return 4;
            }

            // --- CPL (complement A) ---
            0x2F => {
                self.regs.a = !self.regs.a;
                self.regs.set_flag_n(true);
                self.regs.set_flag_h(true);
                return 4;
            }

            // --- SCF (set carry flag) ---
            0x37 => {
                self.regs.set_flag_n(false);
                self.regs.set_flag_h(false);
                self.regs.set_flag_c(true);
                return 4;
            }

            // --- CCF (complement carry flag) ---
            0x3F => {
                self.regs.set_flag_n(false);
                self.regs.set_flag_h(false);
                proof { lemma_nh_keep_c(old(self).regs); }
                self.regs.set_flag_c(!self.regs.flag_c());
                return 4;
            }

            // --- JR n ---
            0x18 => {
                let offset = self.fetch_offset(mmu);
                self.regs.pc = self.regs.pc.wrapping_add(offset);
                return 12;
            }

            // --- JR cc, n ---
            0x20 => {
                let o = self.fetch_offset(mmu);
                if !self.regs.flag_z() {
                    self.regs.pc = self.regs.pc.wrapping_add(o);
                    return 12;
                } else {
                    return 8;
                }
            }
            0x28 => {
                let o = self.fetch_offset(mmu);
                if self.regs.flag_z() {
                    self.regs.pc = self.regs.pc.wrapping_add(o);
                    return 12;
                } else {
                    return 8;
                }
            }
            0x30 => {
                let o = self.fetch_offset(mmu);
                if !self.regs.flag_c() {
                    self.regs.pc = self.regs.pc.wrapping_add(o);
                    return 12;
                } else {
                    return 8;
                }
            }
            0x38 => {
                let o = self.fetch_offset(mmu);
                if self.regs.flag_c() {
                    self.regs.pc = self.regs.pc.wrapping_add(o);
                    return 12;
                } else {
                    return 8;
                }
            }

            // --- STOP ---
            0x10 => {
                let _ = self.fetch_byte(mmu);
                return 4;
            }

            // not in this group (excluded by the precondition)
            _ => return 4,
        }
    }

    /// LD rr,nn, the loads through BC, DE and HL+/-, and LD (nn),SP.
    #[verifier::rlimit(40)]
    fn execute_ld16(&mut self, opcode: u8, mmu: &mut Mmu) -> (cycles: u32)
        requires is_ld16_op(opcode),
        ensures
            ({
                let (c, ws, n) = ld16_spec(*old(self), *old(mmu), opcode);
                &&& *final(self) == c
                &&& cycles == n
                &&& writes_applied(*old(mmu), *final(mmu), ws)
            }),
    {
        proof { reveal(ld16_spec); }
        match opcode {

            // --- LD rr, nn ---
            0x01 => {
                let v = self.fetch_word(mmu);
                self.regs.set_bc(v);
                return 12;
            }
            0x11 => {
                let v = self.fetch_word(mmu);
                self.regs.set_de(v);
                return 12;
            }
            0x21 => {
                let v = self.fetch_word(mmu);
                self.regs.set_hl(v);
                return 12;
            }
            0x31 => {
                self.regs.sp = self.fetch_word(mmu);
                return 12;
            }

            // --- LD (rr), A / LD A, (rr) ---
            0x02 => {
                mmu.write(self.regs.bc(), self.regs.a);
                return 8;
            }
            0x12 => {
                mmu.write(self.regs.de(), self.regs.a);
                return 8;
            }
            0x0A => {
                self.regs.a = mmu.read(self.regs.bc());
                return 8;
            }
            0x1A => {
                self.regs.a = mmu.read(self.regs.de());
                return 8;
            }

            // --- LD (HL+/-), A / LD A, (HL+/-) ---
            0x22 => {
                let hl = self.regs.hl();
                mmu.write(hl, self.regs.a);
                self.regs.set_hl(hl.wrapping_add(1));
                return 8;
            }
            0x32 => {
                let hl = self.regs.hl();
                mmu.write(hl, self.regs.a);
                self.regs.set_hl(hl.wrapping_sub(1));
                return 8;
            }
            0x2A => {
                let hl = self.regs.hl();
                self.regs.a = mmu.read(hl);
                self.regs.set_hl(hl.wrapping_add(1));
                return 8;
            }
            0x3A => {
                let hl = self.regs.hl();
                self.regs.a = mmu.read(hl);
                self.regs.set_hl(hl.wrapping_sub(1));
                return 8;
            }

            // --- LD (nn), SP ---
            0x08 => {
                let addr = self.fetch_word(mmu);
                mmu.write(addr, (self.regs.sp % 256) as u8);
                let ghost mid = *mmu;
                mmu.write(addr.wrapping_add(1), (self.regs.sp / 256) as u8);
                let ghost ws = ld16_spec(*old(self), *old(mmu), opcode).1;
                assert(old(mmu).write_post(&mid, ws[0].0, ws[0].1));
                return 20;
            }

            // not in this group (excluded by the precondition)
            _ => return 4,
        }
    }

    /// INC rr, DEC rr and ADD HL,rr.
    #[verifier::rlimit(40)]
    fn execute_arith16(&mut self, opcode: u8, mmu: &mut Mmu) -> (cycles: u32)
        requires is_arith16_op(opcode),
        ensures
            ({
                let (c, ws, n) = arith16_spec(*old(self), opcode);
                &&& *final(self) == c
                &&& cycles == n
                &&& writes_applied(*old(mmu), *final(mmu), ws)
            }),
    {
        proof { reveal(arith16_spec); lemma_arith16_ops(opcode); }
        match opcode {

            // --- INC rr ---
            0x03 => {
                proof { lemma_wrap16_step(self.regs.spec_bc()); }
                let v = self.regs.bc().wrapping_add(1);
                self.regs.set_bc(v);
                return 8;
            }
            0x13 => {
                proof { lemma_wrap16_step(self.regs.spec_de()); }
                let v = self.regs.de().wrapping_add(1);
                self.regs.set_de(v);
                return 8;
            }
            0x23 => {
                proof { lemma_wrap16_step(self.regs.spec_hl()); }
                let v = self.regs.hl().wrapping_add(1);
                self.regs.set_hl(v);
                return 8;
            }
            0x33 => {
                proof { lemma_wrap16_step(self.regs.sp); }
                self.regs.sp = self.regs.sp.wrapping_add(1);
                return 8;
            }

            // --- DEC rr ---
            0x0B => {
                proof { lemma_wrap16_step(self.regs.spec_bc()); }
                let v = self.regs.bc().wrapping_sub(1);
                self.regs.set_bc(v);
                return 8;
            }
            0x1B => {
                proof { lemma_wrap16_step(self.regs.spec_de()); }
                let v = self.regs.de().wrapping_sub(1);
                self.regs.set_de(v);
                return 8;
            }
            0x2B => {
                proof { lemma_wrap16_step(self.regs.spec_hl()); }
                let v = self.regs.hl().wrapping_sub(1);
                self.regs.set_hl(v);
                return 8;
            }
            0x3B => {
                proof { lemma_wrap16_step(self.regs.sp); }
                self.regs.sp = self.regs.sp.wrapping_sub(1);
                return 8;
            }

            // --- ADD HL, rr ---
            0x09 => {
                let v = self.regs.bc();
                self.alu_add_hl(v);
                return 8;
            }
            0x19 => {
                let v = self.regs.de();
                self.alu_add_hl(v);
                return 8;
            }
            0x29 => {
                let v = self.regs.hl();
                self.alu_add_hl(v);
                return 8;
            }
            0x39 => {
                let v = self.regs.sp;
                self.alu_add_hl(v);
                return 8;
            }

            // not in this group (excluded by the precondition)
            _ => return 4,
        }
    }

    /// INC r and DEC r.
    #[verifier::rlimit(40)]
    fn execute_inc_dec8(&mut self, opcode: u8, mmu: &mut Mmu) -> (cycles: u32)
        requires is_inc_dec8_op(opcode),
        ensures
            ({
                let (c, ws, n) = inc_dec8_spec(*old(self), *old(mmu), opcode);
                &&& *final(self) == c
                &&& cycles == n
                &&& writes_applied(*old(mmu), *final(mmu), ws)
            }),
    {
        proof { reveal(inc_dec8_spec); }
        match opcode {

            // --- INC r ---
            0x04 => {
                self.regs.b = self.alu_inc(self.regs.b);
                return 4;
            }
            0x0C => {
                self.regs.c = self.alu_inc(self.regs.c);
                return 4;
            }
            0x14 => {
                self.regs.d = self.alu_inc(self.regs.d);
                return 4;
            }
            0x1C => {
                self.regs.e = self.alu_inc(self.regs.e);
                return 4;
            }
            0x24 => {
                self.regs.h = self.alu_inc(self.regs.h);
                return 4;
            }
            0x2C => {
                self.regs.l = self.alu_inc(self.regs.l);
                return 4;
            }
            0x34 => {
                let hl = self.regs.hl();
                let v = self.alu_inc(mmu.read(hl));
                mmu.write(hl, v);
                return 12;
            }
            0x3C => {
                self.regs.a = self.alu_inc(self.regs.a);
                return 4;
            }

            // --- DEC r ---
            0x05 => {
                self.regs.b = self.alu_dec(self.regs.b);
                return 4;
            }
            0x0D => {
                self.regs.c = self.alu_dec(self.regs.c);
                return 4;
            }
            0x15 => {
                self.regs.d = self.alu_dec(self.regs.d);
                return 4;
            }
            0x1D => {
                self.regs.e = self.alu_dec(self.regs.e);
                return 4;
            }
            0x25 => {
                self.regs.h = self.alu_dec(self.regs.h);
                return 4;
            }
            0x2D => {
                self.regs.l = self.alu_dec(self.regs.l);
                return 4;
            }
            0x35 => {
                let hl = self.regs.hl();
                let v = self.alu_dec(mmu.read(hl));
                mmu.write(hl, v);
                return 12;
            }
            0x3D => {
                self.regs.a = self.alu_dec(self.regs.a);
                return 4;
            }

            // not in this group (excluded by the precondition)
            _ => return 4,
        }
    }

    /// LD r,r' with B, C, D or E as destination.
    #[verifier::rlimit(40)]
    fn execute_ld_r8_bcde(&mut self, opcode: u8, mmu: &mut Mmu) -> (cycles: u32)
        requires 0x40 <= opcode < 0x60,
        ensures
            ({
                let (c, ws, n) = ld_r8_spec(*old(self), *old(mmu), opcode);
                &&& *final(self) == c
                &&& cycles == n
                &&& writes_applied(*old(mmu), *final(mmu), ws)
            }),
    {
        proof { reveal(ld_r8_spec); }
        match opcode {

            // --- LD r, r' (0x40-0x7F except 0x76) ---
            // B is destination
            0x40 => return 4, // LD B, B
            0x41 => {
                self.regs.b = self.regs.c;
                return 4;
            }
            0x42 => {
                self.regs.b = self.regs.d;
                return 4;
            }
            0x43 => {
                self.regs.b = self.regs.e;
                return 4;
            }
            0x44 => {
                self.regs.b = self.regs.h;
                return 4;
            }
            0x45 => {
                self.regs.b = self.regs.l;
                return 4;
            }
            0x46 => {
                self.regs.b = mmu.read(self.regs.hl());
                return 8;
            }
            0x47 => {
                self.regs.b = self.regs.a;
                return 4;
            }
            // C is destination
            0x48 => {
                self.regs.c = self.regs.b;
                return 4;
            }
            0x49 => return 4, // LD C, C
            0x4A => {
                self.regs.c = self.regs.d;
                return 4;
            }
            0x4B => {
                self.regs.c = self.regs.e;
                return 4;
            }
            0x4C => {
                self.regs.c = self.regs.h;
                return 4;
            }
            0x4D => {
                self.regs.c = self.regs.l;
                return 4;
            }
            0x4E => {
                self.regs.c = mmu.read(self.regs.hl());
                return 8;
            }
            0x4F => {
                self.regs.c = self.regs.a;
                return 4;
            }
            // D is destination
            0x50 => {
                self.regs.d = self.regs.b;
                return 4;
            }
            0x51 => {
                self.regs.d = self.regs.c;
                return 4;
            }
            0x52 => return 4, // LD D, D
            0x53 => {
                self.regs.d = self.regs.e;
                return 4;
            }
            0x54 => {
                self.regs.d = self.regs.h;
                return 4;
            }
            0x55 => {
                self.regs.d = self.regs.l;
                return 4;
            }
            0x56 => {
                self.regs.d = mmu.read(self.regs.hl());
                return 8;
            }
            0x57 => {
                self.regs.d = self.regs.a;
                return 4;
            }
            // E is destination
            0x58 => {
                self.regs.e = self.regs.b;
                return 4;
            }
            0x59 => {
                self.regs.e = self.regs.c;
                return 4;
            }
            0x5A => {
                self.regs.e = self.regs.d;
                return 4;
            }
            0x5B => return 4, // LD E, E
            0x5C => {
                self.regs.e = self.regs.h;
                return 4;
            }
            0x5D => {
                self.regs.e = self.regs.l;
                return 4;
            }
            0x5E => {
                self.regs.e = mmu.read(self.regs.hl());
                return 8;
            }
            0x5F => {
                self.regs.e = self.regs.a;
                return 4;
            }

            // not in this group (excluded by the precondition)
            _ => return 4,
        }
    }

    /// LD r,r' with H, L, (HL) or A as destination, and HALT.
    #[verifier::rlimit(40)]
    fn execute_ld_r8_hla(&mut self, opcode: u8, mmu: &mut Mmu) -> (cycles: u32)
        requires 0x60 <= opcode < 0x80,
        ensures
            ({
                let (c, ws, n) = ld_r8_spec(*old(self), *old(mmu), opcode);
                &&& *final(self) == c
                &&& cycles == n
                &&& writes_applied(*old(mmu), *final(mmu), ws)
            }),
    {
        proof { reveal(ld_r8_spec); }
        match opcode {
            // H is destination
            0x60 => {
                self.regs.h = self.regs.b;
                return 4;
            }
            0x61 => {
                self.regs.h = self.regs.c;
                return 4;
            }
            0x62 => {
                self.regs.h = self.regs.d;
                return 4;
            }
            0x63 => {
                self.regs.h = self.regs.e;
                return 4;
            }
            0x64 => return 4, // LD H, H
            0x65 => {
                self.regs.h = self.regs.l;
                return 4;
            }
            0x66 => {
                self.regs.h = mmu.read(self.regs.hl());
                return 8;
            }
            0x67 => {
                self.regs.h = self.regs.a;
                return 4;
            }
            // L is destination
            0x68 => {
                self.regs.l = self.regs.b;
                return 4;
            }
            0x69 => {
                self.regs.l = self.regs.c;
                return 4;
            }
            0x6A => {
                self.regs.l = self.regs.d;
                return 4;
            }
            0x6B => {
                self.regs.l = self.regs.e;
                return 4;
            }
            0x6C => {
                self.regs.l = self.regs.h;
                return 4;
            }
            0x6D => return 4, // LD L, L
            0x6E => {
                self.regs.l = mmu.read(self.regs.hl());
                return 8;
            }
            0x6F => {
                self.regs.l = self.regs.a;
                return 4;
            }
            // (HL) is destination
            0x70 => {
                mmu.write(self.regs.hl(), self.regs.b);
                return 8;
            }
            0x71 => {
                mmu.write(self.regs.hl(), self.regs.c);
                return 8;
            }
            0x72 => {
                mmu.write(self.regs.hl(), self.regs.d);
                return 8;
            }
            0x73 => {
                mmu.write(self.regs.hl(), self.regs.e);
                return 8;
            }
            0x74 => {
                mmu.write(self.regs.hl(), self.regs.h);
                return 8;
            }
            0x75 => {
                mmu.write(self.regs.hl(), self.regs.l);
                return 8;
            }
            // 0x76 = HALT (handled below)
            0x77 => {
                mmu.write(self.regs.hl(), self.regs.a);
                return 8;
            }
            // A is destination
            0x78 => {
                self.regs.a = self.regs.b;
                return 4;
            }
            0x79 => {
                self.regs.a = self.regs.c;
                return 4;
            }
            0x7A => {
                self.regs.a = self.regs.d;
                return 4;
            }
            0x7B => {
                self.regs.a = self.regs.e;
                return 4;
            }
            0x7C => {
                self.regs.a = self.regs.h;
                return 4;
            }
            0x7D => {
                self.regs.a = self.regs.l;
                return 4;
            }
            0x7E => {
                self.regs.a = mmu.read(self.regs.hl());
                return 8;
            }
            0x7F => return 4, // LD A, A

            // --- HALT ---
            0x76 => {
                self.halted = true;
                // HALT bug: IME=0 but an interrupt is pending
                if !self.ime && (mmu.read(0xFF0F) & mmu.read(0xFFFF) & 0x1F) != 0 {
                    self.halted = false;
                    self.halt_bug = true;
                }
                return 4;
            }

            // not in this group (excluded by the precondition)
            _ => return 4,
        }
    }

    /// ADD, ADC, SUB and SBC on A with a register or (HL).
    #[verifier::rlimit(40)]
    fn execute_alu_arith(&mut self, opcode: u8, mmu: &mut Mmu) -> (cycles: u32)
        requires 0x80 <= opcode < 0xA0,
        ensures
            ({
                let (c, ws, n) = alu_r8_spec(*old(self), *old(mmu), opcode);
                &&& *final(self) == c
                &&& cycles == n
                &&& writes_applied(*old(mmu), *final(mmu), ws)
            }),
    {
        proof { reveal(alu_r8_spec); }
        match opcode {

            // --- ALU A, r ---
            // ADD A, r
            0x80 => {
                let v = self.regs.b;
                self.alu_add(v);
                return 4;
            }
            0x81 => {
                let v = self.regs.c;
                self.alu_add(v);
                return 4;
            }
            0x82 => {
                let v = self.regs.d;
                self.alu_add(v);
                return 4;
            }
            0x83 => {
                let v = self.regs.e;
                self.alu_add(v);
                return 4;
            }
            0x84 => {
                let v = self.regs.h;
                self.alu_add(v);
                return 4;
            }
            0x85 => {
                let v = self.regs.l;
                self.alu_add(v);
                return 4;
            }
            0x86 => {
                let v = mmu.read(self.regs.hl());
                self.alu_add(v);
                return 8;
            }
            0x87 => {
                let v = self.regs.a;
                self.alu_add(v);
                return 4;
            }
            // ADC A, r
            0x88 => {
                let v = self.regs.b;
                self.alu_adc(v);
                return 4;
            }
            0x89 => {
                let v = self.regs.c;
                self.alu_adc(v);
                return 4;
            }
            0x8A => {
                let v = self.regs.d;
                self.alu_adc(v);
                return 4;
            }
            0x8B => {
                let v = self.regs.e;
                self.alu_adc(v);
                return 4;
            }
            0x8C => {
                let v = self.regs.h;
                self.alu_adc(v);
                return 4;
            }
            0x8D => {
                let v = self.regs.l;
                self.alu_adc(v);
                return 4;
            }
            0x8E => {
                let v = mmu.read(self.regs.hl());
                self.alu_adc(v);
                return 8;
            }
            0x8F => {
                let v = self.regs.a;
                self.alu_adc(v);
                return 4;
            }
            // SUB A, r
            0x90 => {
                let v = self.regs.b;
                self.alu_sub(v);
                return 4;
            }
            0x91 => {
                let v = self.regs.c;
                self.alu_sub(v);
                return 4;
            }
            0x92 => {
                let v = self.regs.d;
                self.alu_sub(v);
                return 4;
            }
            0x93 => {
                let v = self.regs.e;
                self.alu_sub(v);
                return 4;
            }
            0x94 => {
                let v = self.regs.h;
                self.alu_sub(v);
                return 4;
            }
            0x95 => {
                let v = self.regs.l;
                self.alu_sub(v);
                return 4;
            }
            0x96 => {
                let v = mmu.read(self.regs.hl());
                self.alu_sub(v);
                return 8;
            }
            0x97 => {
                let v = self.regs.a;
                self.alu_sub(v);
                return 4;
            }
            // SBC A, r
            0x98 => {
                let v = self.regs.b;
                self.alu_sbc(v);
                return 4;
            }
            0x99 => {
                let v = self.regs.c;
                self.alu_sbc(v);
                return 4;
            }
            0x9A => {
                let v = self.regs.d;
                self.alu_sbc(v);
                return 4;
            }
            0x9B => {
                let v = self.regs.e;
                self.alu_sbc(v);
                return 4;
            }
            0x9C => {
                let v = self.regs.h;
                self.alu_sbc(v);
                return 4;
            }
            0x9D => {
                let v = self.regs.l;
                self.alu_sbc(v);
                return 4;
            }
            0x9E => {
                let v = mmu.read(self.regs.hl());
                self.alu_sbc(v);
                return 8;
            }
            0x9F => {
                let v = self.regs.a;
                self.alu_sbc(v);
                return 4;
            }

            // not in this group (excluded by the precondition)
            _ => return 4,
        }
    }

    /// AND, XOR, OR and CP on A with a register or (HL).
    #[verifier::rlimit(40)]
    fn execute_alu_logic(&mut self, opcode: u8, mmu: &mut Mmu) -> (cycles: u32)
        requires 0xA0 <= opcode < 0xC0,
        ensures
            ({
                let (c, ws, n) = alu_r8_spec(*old(self), *old(mmu), opcode);
                &&& *final(self) == c
                &&& cycles == n
                &&& writes_applied(*old(mmu), *final(mmu), ws)
            }),
    {
        proof { reveal(alu_r8_spec); }
        match opcode {
            // AND A, r
            0xA0 => {
                let v = self.regs.b;
                self.alu_and(v);
                return 4;
            }
            0xA1 => {
                let v = self.regs.c;
                self.alu_and(v);
                return 4;
            }
            0xA2 => {
                let v = self.regs.d;
                self.alu_and(v);
                return 4;
            }
            0xA3 => {
                let v = self.regs.e;
                self.alu_and(v);
                return 4;
            }
            0xA4 => {
                let v = self.regs.h;
                self.alu_and(v);
                return 4;
            }
            0xA5 => {
                let v = self.regs.l;
                self.alu_and(v);
                return 4;
            }
            0xA6 => {
                let v = mmu.read(self.regs.hl());
                self.alu_and(v);
                return 8;
            }
            0xA7 => {
                let v = self.regs.a;
                self.alu_and(v);
                return 4;
            }
            // XOR A, r
            0xA8 => {
                let v = self.regs.b;
                self.alu_xor(v);
                return 4;
            }
            0xA9 => {
                let v = self.regs.c;
                self.alu_xor(v);
                return 4;
            }
            0xAA => {
                let v = self.regs.d;
                self.alu_xor(v);
                return 4;
            }
            0xAB => {
                let v = self.regs.e;
                self.alu_xor(v);
                return 4;
            }
            0xAC => {
                let v = self.regs.h;
                self.alu_xor(v);
                return 4;
            }
            0xAD => {
                let v = self.regs.l;
                self.alu_xor(v);
                return 4;
            }
            0xAE => {
                let v = mmu.read(self.regs.hl());
                self.alu_xor(v);
                return 8;
            }
            0xAF => {
                let v = self.regs.a;
                self.alu_xor(v);
                return 4;
            }
            // OR A, r
            0xB0 => {
                let v = self.regs.b;
                self.alu_or(v);
                return 4;
            }
            0xB1 => {
                let v = self.regs.c;
                self.alu_or(v);
                return 4;
            }
            0xB2 => {
                let v = self.regs.d;
                self.alu_or(v);
                return 4;
            }
            0xB3 => {
                let v = self.regs.e;
                self.alu_or(v);
                return 4;
            }
            0xB4 => {
                let v = self.regs.h;
                self.alu_or(v);
                return 4;
            }
            0xB5 => {
                let v = self.regs.l;
                self.alu_or(v);
                return 4;
            }
            0xB6 => {
                let v = mmu.read(self.regs.hl());
                self.alu_or(v);
                return 8;
            }
            0xB7 => {
                let v = self.regs.a;
                self.alu_or(v);
                return 4;
            }
            // CP A, r
            0xB8 => {
                let v = self.regs.b;
                self.alu_cp(v);
                return 4;
            }
            0xB9 => {
                let v = self.regs.c;
                self.alu_cp(v);
                return 4;
            }
            0xBA => {
                let v = self.regs.d;
                self.alu_cp(v);
                return 4;
            }
            0xBB => {
                let v = self.regs.e;
                self.alu_cp(v);
                return 4;
            }
            0xBC => {
                let v = self.regs.h;
                self.alu_cp(v);
                return 4;
            }
            0xBD => {
                let v = self.regs.l;
                self.alu_cp(v);
                return 4;
            }
            0xBE => {
                let v = mmu.read(self.regs.hl());
                self.alu_cp(v);
                return 8;
            }
            0xBF => {
                let v = self.regs.a;
                self.alu_cp(v);
                return 4;
            }

            // not in this group (excluded by the precondition)
            _ => return 4,
        }
    }

    /// JP, CALL, RET, RETI and RST.
    #[verifier::rlimit(40)]
    fn execute_control(&mut self, opcode: u8, mmu: &mut Mmu) -> (cycles: u32)
        requires is_control_op(opcode),
        ensures
            ({
                let (c, ws, n) = control_spec(*old(self), *old(mmu), opcode);
                &&& *final(self) == c
                &&& cycles == n
                &&& writes_applied(*old(mmu), *final(mmu), ws)
            }),
    {
        proof { reveal(control_spec); }
        match opcode {

            // --- JP nn ---
            0xC3 => {
                self.regs.pc = self.fetch_word(mmu);
                return 16;
            }

            // --- JP cc, nn ---
            0xC2 => {
                let addr = self.fetch_word(mmu);
                if !self.regs.flag_z() {
                    self.regs.pc = addr;
                    return 16;
                } else {
                    return 12;
                }
            }
            0xCA => {
                let addr = self.fetch_word(mmu);
                if self.regs.flag_z() {
                    self.regs.pc = addr;
                    return 16;
                } else {
                    return 12;
                }
            }
            0xD2 => {
                let addr = self.fetch_word(mmu);
                if !self.regs.flag_c() {
                    self.regs.pc = addr;
                    return 16;
                } else {
                    return 12;
                }
            }
            0xDA => {
                let addr = self.fetch_word(mmu);
                if self.regs.flag_c() {
                    self.regs.pc = addr;
                    return 16;
                } else {
                    return 12;
                }
            }

            // --- JP (HL) ---
            0xE9 => {
                self.regs.pc = self.regs.hl();
                return 4;
            }

            // --- CALL nn ---
            0xCD => {
                let addr = self.fetch_word(mmu);
                let pc = self.regs.pc;
                    self.push(mmu, pc);
                self.regs.pc = addr;
                return 24;
            }

            // --- CALL cc, nn ---
            0xC4 => {
                let addr = self.fetch_word(mmu);
                if !self.regs.flag_z() {
                    let pc = self.regs.pc;
                    self.push(mmu, pc);
                    self.regs.pc = addr;
                    return 24;
                } else {
                    return 12;
                }
            }
            0xCC => {
                let addr = self.fetch_word(mmu);
                if self.regs.flag_z() {
                    let pc = self.regs.pc;
                    self.push(mmu, pc);
                    self.regs.pc = addr;
                    return 24;
                } else {
                    return 12;
                }
            }
            0xD4 => {
                let addr = self.fetch_word(mmu);
                if !self.regs.flag_c() {
                    let pc = self.regs.pc;
                    self.push(mmu, pc);
                    self.regs.pc = addr;
                    return 24;
                } else {
                    return 12;
                }
            }
            0xDC => {
                let addr = self.fetch_word(mmu);
                if self.regs.flag_c() {
                    let pc = self.regs.pc;
                    self.push(mmu, pc);
                    self.regs.pc = addr;
                    return 24;
                } else {
                    return 12;
                }
            }

            // --- RET ---
            0xC9 => {
                self.regs.pc = self.pop(mmu);
                return 16;
            }

            // --- RET cc ---
            0xC0 => {
                if !self.regs.flag_z() {
                    self.regs.pc = self.pop(mmu);
                    return 20;
                } else {
                    return 8;
                }
            }
            0xC8 => {
                if self.regs.flag_z() {
                    self.regs.pc = self.pop(mmu);
                    return 20;
                } else {
                    return 8;
                }
            }
            0xD0 => {
                if !self.regs.flag_c() {
                    self.regs.pc = self.pop(mmu);
                    return 20;
                } else {
                    return 8;
                }
            }
            0xD8 => {
                if self.regs.flag_c() {
                    self.regs.pc = self.pop(mmu);
                    return 20;
                } else {
                    return 8;
                }
            }

            // --- RETI ---
            0xD9 => {
                self.regs.pc = self.pop(mmu);
                self.ime = true;
                return 16;
            }

            // --- RST vec ---
            0xC7 => {
                let pc = self.regs.pc;
                    self.push(mmu, pc);
                self.regs.pc = 0x00;
                return 16;
            }
            0xCF => {
                let pc = self.regs.pc;
                    self.push(mmu, pc);
                self.regs.pc = 0x08;
                return 16;
            }
            0xD7 => {
                let pc = self.regs.pc;
                    self.push(mmu, pc);
                self.regs.pc = 0x10;
                return 16;
            }
            0xDF => {
                let pc = self.regs.pc;
                    self.push(mmu, pc);
                self.regs.pc = 0x18;
                return 16;
            }
            0xE7 => {
                let pc = self.regs.pc;
                    self.push(mmu, pc);
                self.regs.pc = 0x20;
                return 16;
            }
            0xEF => {
                let pc = self.regs.pc;
                    self.push(mmu, pc);
                self.regs.pc = 0x28;
                return 16;
            }
            0xF7 => {
                let pc = self.regs.pc;
                    self.push(mmu, pc);
                self.regs.pc = 0x30;
                return 16;
            }
            0xFF => {
                let pc = self.regs.pc;
                    self.push(mmu, pc);
                self.regs.pc = 0x38;
                return 16;
            }

            // not in this group (excluded by the precondition)
            _ => return 4,
        }
    }

    /// ALU A,n, PUSH, POP, the high-page and absolute loads of A, the SP arithmetic, DI, EI, the CB prefix and the unused opcodes.
    #[verifier::rlimit(40)]
    fn execute_misc_high(&mut self, opcode: u8, mmu: &mut Mmu) -> (cycles: u32)
        requires 0xC0 <= opcode && !is_control_op(opcode),
        ensures
            ({
                let (c, ws, n) = misc_high_spec(*old(self), *old(mmu), opcode);
                &&& *final(self) == c
                &&& cycles == n
                &&& writes_applied(*old(mmu), *final(mmu), ws)
            }),
    {
        proof { reveal(misc_high_spec); }
        match opcode {

            // --- ALU A, n (immediate) ---
            0xC6 => {
                let v = self.fetch_byte(mmu);
                self.alu_add(v);
                return 8;
            }
            0xCE => {
                let v = self.fetch_byte(mmu);
                self.alu_adc(v);
                return 8;
            }
            0xD6 => {
                let v = self.fetch_byte(mmu);
                self.alu_sub(v);
                return 8;
            }
            0xDE => {
                let v = self.fetch_byte(mmu);
                self.alu_sbc(v);
                return 8;
            }
            0xE6 => {
                let v = self.fetch_byte(mmu);
                self.alu_and(v);
                return 8;
            }
            0xEE => {
                let v = self.fetch_byte(mmu);
                self.alu_xor(v);
                return 8;
            }
            0xF6 => {
                let v = self.fetch_byte(mmu);
                self.alu_or(v);
                return 8;
            }
            0xFE => {
                let v = self.fetch_byte(mmu);
                self.alu_cp(v);
                return 8;
            }

            // --- PUSH rr ---
            0xC5 => {
                let v = self.regs.bc();
                self.push(mmu, v);
                return 16;
            }
            0xD5 => {
                let v = self.regs.de();
                self.push(mmu, v);
                return 16;
            }
            0xE5 => {
                let v = self.regs.hl();
                self.push(mmu, v);
                return 16;
            }
            0xF5 => {
                let v = self.regs.af();
                self.push(mmu, v);
                return 16;
            }

            // --- POP rr ---
            0xC1 => {
                let v = self.pop(mmu);
                self.regs.set_bc(v);
                return 12;
            }
            0xD1 => {
                let v = self.pop(mmu);
                self.regs.set_de(v);
                return 12;
            }
            0xE1 => {
                let v = self.pop(mmu);
                self.regs.set_hl(v);
                return 12;
            }
            0xF1 => {
                let v = self.pop(mmu);
                self.regs.set_af(v); // set_af masks F bits 0-3
                return 12;
            }

            // --- LDH (n), A / LDH A, (n) ---
            0xE0 => {
                let n = self.fetch_byte(mmu) as u16;
                mmu.write(0xFF00 + n, self.regs.a);
                return 12;
            }
            0xF0 => {
                let n = self.fetch_byte(mmu) as u16;
                self.regs.a = mmu.read(0xFF00 + n);
                return 12;
            }

            // --- LD (C), A / LD A, (C) ---
            0xE2 => {
                mmu.write(0xFF00 + self.regs.c as u16, self.regs.a);
                return 8;
            }
            0xF2 => {
                self.regs.a = mmu.read(0xFF00 + self.regs.c as u16);
                return 8;
            }

            // --- LD (nn), A / LD A, (nn) ---
            0xEA => {
                let addr = self.fetch_word(mmu);
                mmu.write(addr, self.regs.a);
                return 16;
            }
            0xFA => {
                let addr = self.fetch_word(mmu);
                self.regs.a = mmu.read(addr);
                return 16;
            }

            // --- LD SP, HL ---
            0xF9 => {
                self.regs.sp = self.regs.hl();
                return 8;
            }

            // --- LD HL, SP+n ---
            0xF8 => {
                let offset = self.fetch_offset(mmu);
                let sp = self.regs.sp;
                proof {
                    lemma_low_bits16(sp);
                    lemma_low_bits16(offset);
                    lemma_wrap16_offset(sp, offset, sext(mmu.read_spec(old(self).regs.pc)));
                }
                let result = sp.wrapping_add(offset);
                self.regs.set_hl(result);
                self.regs.set_flag_z(false);
                self.regs.set_flag_n(false);
                // H and C are computed on the unsigned low-byte addition
                self.regs.set_flag_h((sp & 0x0F) + (offset & 0x0F) > 0x0F);
                self.regs.set_flag_c((sp & 0xFF) + (offset & 0xFF) > 0xFF);
                return 12;
            }
            // --- ADD SP, n ---
            0xE8 => {
                let offset = self.fetch_offset(mmu);
                let sp = self.regs.sp;
                proof {
                    lemma_low_bits16(sp);
                    lemma_low_bits16(offset);
                    lemma_wrap16_offset(sp, offset, sext(mmu.read_spec(old(self).regs.pc)));
                }
                let result = sp.wrapping_add(offset);
                self.regs.set_flag_z(false);
                self.regs.set_flag_n(false);
                self.regs.set_flag_h((sp & 0x0F) + (offset & 0x0F) > 0x0F);
                self.regs.set_flag_c((sp & 0xFF) + (offset & 0xFF) > 0xFF);
                self.regs.sp = result;
                return 16;
            }
            // --- DI / EI ---
            0xF3 => {
                self.ime = false;
                return 4;
            }
            0xFB => {
                self.ime_scheduled = true;
                return 4;
            }

            // --- CB prefix ---
            0xCB => {
                let cb_op = self.fetch_byte(mmu);
                return self.execute_cb(cb_op, mmu);
            }

            // Unused opcodes on DMG lock up the CPU; they are treated as NOP to
            // keep the emulator running.
            0xD3 | 0xDB | 0xDD | 0xE3 | 0xE4 | 0xEB | 0xEC | 0xED | 0xF4 | 0xFC | 0xFD => return 4,

            // not in this group (excluded by the precondition)
            _ => return 4,
        }
    }
}

/// The opcodes of the 16-bit arithmetic group, listed.
proof fn lemma_arith16_ops(op: u8)
    requires is_arith16_op(op),
    ensures
        op == 0x03 || op == 0x13 || op == 0x23 || op == 0x33 || op == 0x0B || op == 0x1B || op == 0x2B
            || op == 0x3B || op == 0x09 || op == 0x19 || op == 0x29 || op == 0x39,
{
    assert(op < 0x40 && (op % 16 == 3 || op % 16 == 11 || op % 16 == 9) ==>
        (op == 0x03 || op == 0x13 || op == 0x23 || op == 0x33 || op == 0x0B || op == 0x1B || op == 0x2B
            || op == 0x3B || op == 0x09 || op == 0x19 || op == 0x29 || op == 0x39)) by (bit_vector);
}

/// Clearing N and H leaves C as it was.
proof fn lemma_nh_keep_c(r: Registers)
    ensures r.with_n(false).with_h(false).spec_c() == r.spec_c(),
{
    lemma_flag_setters(r.f, false);
    lemma_flag_setters(r.with_n(false).f, false);
}

/// Masking a 16-bit value to its low 4 or 8 bits is a remainder.
proof fn lemma_low_bits16(x: u16)
    ensures
        x & 0x0F == x % 16,
        x & 0xFF == x % 256,
{
    vstd::bits::lemma_low_bits_mask_values();
    vstd::arithmetic::power2::lemma2_to64();
    vstd::bits::lemma_u16_low_bits_mask_is_mod(x, 4);
    vstd::bits::lemma_u16_low_bits_mask_is_mod(x, 8);
}

/// The bit facts DAA relies on, for the values it works with.
proof fn lemma_daa_bits(a: i16)
    ensures
        0 <= a <= 255 ==> a & 0x0F == a % 16,
        -6 <= a <= 255 ==> a & 0xFF == a % 256,
        -256 <= a <= 511 ==> ((a & 0x100 != 0) <==> (a >= 256 || a < 0)),
{
    assert((0 <= a <= 255 ==> a & 0x0F == a % 16) && (-6 <= a <= -1 ==> a & 0xFF == a + 256)
        && (0 <= a <= 255 ==> a & 0xFF == a) && (-256 <= a <= 511 ==> ((a & 0x100 != 0) <==> (a >= 256 || a < 0)))) by (bit_vector);
}

/// The digit arithmetic behind decimal subtraction: with x and y written as
/// two BCD digits each, the adjustment DAA applies after SUB yields the BCD
/// difference modulo 100 and leaves the byte range only on a borrow.
proof fn lemma_bcd_sub_digits(xh: int, xl: int, yh: int, yl: int)
    requires
        0 <= xh <= 9, 0 <= xl <= 9, 0 <= yh <= 9, 0 <= yl <= 9,
    ensures
        ({
            let x = 16 * xh + xl;
            let y = 16 * yh + yl;
            let diff = (10 * xh + xl) - (10 * yh + yl);
            let a = (x - y) % 256;
            let a1 = if xl < yl { (a - 6) % 256 } else { a };
            let adj = a1 - (if x < y { 0x60int } else { 0int });
            &&& adj % 256 == bcd_byte(diff % 100)
            &&& (adj >= 256 || adj < 0) ==> x < y
            &&& (x < y) == (diff < 0)
            &&& (adj % 256 == 0) == (diff == 0)
        }),
{
    let x = 16 * xh + xl;
    let y = 16 * yh + yl;
    let diff = (10 * xh + xl) - (10 * yh + yl);
    let (oh, ol, m) = if xl >= yl && x >= y {
        (xh - yh, xl - yl, diff)
    } else if x >= y {
        (xh - yh - 1, 10 + xl - yl, diff)
    } else if xl >= yl {
        (10 + xh - yh, xl - yl, diff + 100)
    } else {
        (9 + xh - yh, 10 + xl - yl, diff + 100)
    };
    assert(0 <= oh <= 9 && 0 <= ol <= 9 && m == 10 * oh + ol);
    lemma_fundamental_div_mod_converse(m, 10, oh, ol);
    lemma_fundamental_div_mod_converse(diff, 100, if x >= y { 0 } else { -1 }, m);
    let a = (x - y) % 256;
    lemma_fundamental_div_mod_converse(x - y, 256, if x >= y { 0 } else { -1 }, if x >= y { x - y } else { x - y + 256 });
    let a1 = if xl < yl { (a - 6) % 256 } else { a };
    if xl < yl {
        if a >= 6 {
            lemma_fundamental_div_mod_converse(a - 6, 256, 0, a - 6);
        } else {
            lemma_fundamental_div_mod_converse(a - 6, 256, -1, a + 250);
        }
    }
    let adj = a1 - (if x < y { 0x60int } else { 0int });
    let out = 16 * oh + ol;
    assert(adj == out || adj == out - 256);
    if adj == out {
        lemma_fundamental_div_mod_converse(adj, 256, 0, out);
    } else {
        lemma_fundamental_div_mod_converse(adj, 256, -1, out);
    }
}

/// Decimal subtraction: for two BCD bytes, SUB followed by DAA leaves in A
/// the BCD form of their difference modulo 100, with C set exactly when the
/// difference borrowed, N still set, H clear and Z set for a zero result.
pub proof fn lemma_daa_after_sub(r: Registers, x: u8, y: u8)
    requires
        is_bcd(x),
        is_bcd(y),
    ensures
        ({
            let d = daa_spec(sub_spec(Registers { a: x, ..r }, y));
            let diff = bcd_value(x) - bcd_value(y);
            &&& d.a == bcd_byte(diff % 100)
            &&& d.spec_c() == (diff < 0)
            &&& d.spec_n()
            &&& !d.spec_h()
            &&& d.spec_z() == (diff == 0)
        }),
{
    reveal(daa_spec);
    reveal(sub_spec);
    let r0 = Registers { a: x, ..r };
    let res = wrap8(x - y);
    let hb = x % 16 < y % 16;
    let s1 = Registers { a: res, ..r0 };
    let s2 = s1.with_z(res == 0);
    let s3 = s2.with_n(true);
    let s4 = s3.with_h(hb);
    let s5 = s4.with_c(x < y);
    assert(sub_spec(r0, y) == s5);
    lemma_flag_setters(s1.f, res == 0);
    lemma_flag_setters(s2.f, true);
    lemma_flag_setters(s3.f, hb);
    lemma_flag_setters(s4.f, x < y);
    lemma_bcd_sub_digits((x / 16) as int, (x % 16) as int, (y / 16) as int, (y % 16) as int);
    assert(x == 16 * (x / 16) + x % 16 && y == 16 * (y / 16) + y % 16);
    let a = res as int;
    let a1 = if hb { (a - 6) % 256 } else { a };
    let adj = a1 - (if x < y { 0x60int } else { 0int });
    let out = wrap8(adj);
    let t1 = s5.with_h(false);
    let t2 = if adj >= 256 || adj < 0 { t1.with_c(true) } else { t1 };
    lemma_flag_setters(s5.f, false);
    lemma_flag_setters(t1.f, true);
    lemma_flag_setters(Registers { a: out, ..t2 }.f, out == 0);
}

/// The digit arithmetic behind decimal addition: with x and y written as two
/// BCD digits each, the adjustment DAA applies after ADD yields the BCD sum
/// modulo 100, and the sum reaches 100 exactly when ADD carried or the
/// adjustment leaves the byte range.
proof fn lemma_bcd_add_digits(xh: int, xl: int, yh: int, yl: int)
    requires
        0 <= xh <= 9, 0 <= xl <= 9, 0 <= yh <= 9, 0 <= yl <= 9,
    ensures
        ({
            let x = 16 * xh + xl;
            let y = 16 * yh + yl;
            let sum = (10 * xh + xl) + (10 * yh + yl);
            let a = (x + y) % 256;
            let a1 = a + (if xl + yl > 15 || a % 16 > 9 { 6int } else { 0int });
            let adj = a1 + (if x + y > 255 || a1 > 0x9F { 0x60int } else { 0int });
            &&& adj % 256 == bcd_byte(sum % 100)
            &&& (x + y > 255 || adj >= 256 || adj < 0) == (sum >= 100)
            &&& (adj % 256 == 0) == (sum % 100 == 0)
        }),
{
    let x = 16 * xh + xl;
    let y = 16 * yh + yl;
    let sum = (10 * xh + xl) + (10 * yh + yl);
    let sl = xl + yl;
    let sh = xh + yh;
    let c1: int = if sl >= 10 { 1 } else { 0 };
    let low = sl - 10 * c1;
    let t = sh + c1;
    let c2: int = if t >= 10 { 1 } else { 0 };
    let high = t - 10 * c2;
    assert(sum == 100 * c2 + 10 * high + low);
    lemma_fundamental_div_mod_converse(sum, 100, c2, 10 * high + low);
    lemma_fundamental_div_mod_converse(10 * high + low, 10, high, low);
    let c0: int = if x + y > 255 { 1 } else { 0 };
    lemma_fundamental_div_mod_converse(x + y, 256, c0, x + y - 256 * c0);
    let a = (x + y) % 256;
    if sl >= 16 {
        lemma_fundamental_div_mod_converse(a, 16, sh + 1 - 16 * c0, sl - 16);
    } else {
        lemma_fundamental_div_mod_converse(a, 16, sh - 16 * c0, sl);
    }
    let a1 = a + (if sl > 15 || a % 16 > 9 { 6int } else { 0int });
    assert(a1 == 16 * t + low - 256 * c0);
    let adj = a1 + (if x + y > 255 || a1 > 0x9F { 0x60int } else { 0int });
    assert(adj == 16 * high + low + 256 * (c2 - c0));
    lemma_fundamental_div_mod_converse(adj, 256, c2 - c0, 16 * high + low);
}

/// Decimal addition: for two BCD bytes, ADD followed by DAA leaves in A the
/// BCD form of their sum modulo 100, with C set exactly when the sum reached
/// 100, N and H clear and Z set when the result is 00.
pub proof fn lemma_daa_after_add(r: Registers, x: u8, y: u8)
    requires
        is_bcd(x),
        is_bcd(y),
    ensures
        ({
            let d = daa_spec(add_spec(Registers { a: x, ..r }, y));
            let sum = bcd_value(x) + bcd_value(y);
            &&& d.a == bcd_byte(sum % 100)
            &&& d.spec_c() == (sum >= 100)
            &&& !d.spec_n()
            &&& !d.spec_h()
            &&& d.spec_z() == (sum % 100 == 0)
        }),
{
    reveal(daa_spec);
    reveal(add_spec);
    let r0 = Registers { a: x, ..r };
    let res = wrap8(x + y);
    let hb = x % 16 + y % 16 > 15;
    let s1 = Registers { a: res, ..r0 };
    let s2 = s1.with_z(res == 0);
    let s3 = s2.with_n(false);
    let s4 = s3.with_h(hb);
    let s5 = s4.with_c(x + y > 255);
    assert(add_spec(r0, y) == s5);
    lemma_flag_setters(s1.f, res == 0);
    lemma_flag_setters(s2.f, false);
    lemma_flag_setters(s3.f, hb);
    lemma_flag_setters(s4.f, x + y > 255);
    lemma_bcd_add_digits((x / 16) as int, (x % 16) as int, (y / 16) as int, (y % 16) as int);
    assert(x == 16 * (x / 16) + x % 16 && y == 16 * (y / 16) + y % 16);
    let a = res as int;
    let a1 = a + (if hb || a % 16 > 9 { 6int } else { 0int });
    let adj = a1 + (if x + y > 255 || a1 > 0x9F { 0x60int } else { 0int });
    let out = wrap8(adj);
    let t1 = s5.with_h(false);
    let t2 = if adj >= 256 || adj < 0 { t1.with_c(true) } else { t1 };
    lemma_flag_setters(s5.f, false);
    lemma_flag_setters(t1.f, true);
    lemma_flag_setters(Registers { a: out, ..t2 }.f, out == 0);
}

/// JR e adds the signed offset e to the address of the next instruction
/// (PC past the opcode and the offset byte), modulo 2^16; JR NZ, Z, NC and
/// C do so exactly when Z is clear, Z is set, C is clear or C is set, and
/// otherwise just step over the offset byte.
pub proof fn lemma_jr(c: Cpu, m: Mmu)
    ensures
        ({
            let e = imm8(c, m);
            let target = (c.regs.pc + 1 + (if e < 128 { e as int } else { e - 256 })) % 65536;
            let next = (c.regs.pc + 1) % 65536;
            &&& exec_spec(c, m, 0x18).0.regs.pc == target
            &&& exec_spec(c, m, 0x20).0.regs.pc == (if !c.regs.spec_z() { target } else { next })
            &&& exec_spec(c, m, 0x28).0.regs.pc == (if c.regs.spec_z() { target } else { next })
            &&& exec_spec(c, m, 0x30).0.regs.pc == (if !c.regs.spec_c() { target } else { next })
            &&& exec_spec(c, m, 0x38).0.regs.pc == (if c.regs.spec_c() { target } else { next })
        }),
{
    reveal(misc_spec);
    assert(!is_ld16_op(0x18) && !is_arith16_op(0x18) && !is_inc_dec8_op(0x18));
    assert(!is_ld16_op(0x20) && !is_arith16_op(0x20) && !is_inc_dec8_op(0x20));
    assert(!is_ld16_op(0x28) && !is_arith16_op(0x28) && !is_inc_dec8_op(0x28));
    assert(!is_ld16_op(0x30) && !is_arith16_op(0x30) && !is_inc_dec8_op(0x30));
    assert(!is_ld16_op(0x38) && !is_arith16_op(0x38) && !is_inc_dec8_op(0x38));
}

/// CALL nn jumps to nn with the address of the next instruction (past the
/// two immediate bytes) pushed; a later RET, with the stack pointer where
/// CALL left it and the stack untouched, returns there and restores SP.
pub proof fn lemma_call_ret(c: Cpu, m: Mmu, m2: Mmu, later: Cpu)
    requires
        0xC002 <= c.regs.sp <= 0xDFFF || 0xFF82 <= c.regs.sp <= 0xFFFF,
        writes_applied(m, m2, exec_spec(c, m, 0xCD).1),
        later.regs.sp == wrap16(c.regs.sp - 2),
    ensures
        exec_spec(c, m, 0xCD).0.regs.pc == imm16(c, m),
        exec_spec(c, m, 0xCD).0.regs.sp == wrap16(c.regs.sp - 2),
        exec_spec(c, m, 0xCD).2 == 24,
        exec_spec(later, m2, 0xC9).0.regs.pc == wrap16(c.regs.pc + 2),
        exec_spec(later, m2, 0xC9).0.regs.sp == c.regs.sp,
{
    lemma_call_ret_dispatch(c, m, later, m2);
    lemma_call_spec(c, m);
    lemma_ret_spec(later, m2);
    crate::cpu::lemma_push_pop(c, m, m2, wrap16(c.regs.pc + 2));
    assert(later.pop_value(m2) == c.with_regs(Registers { sp: wrap16(c.regs.sp - 2), ..c.regs }).pop_value(m2));
}

/// CALL nn and RET go to the control-flow group.
proof fn lemma_call_ret_dispatch(c: Cpu, m: Mmu, later: Cpu, m2: Mmu)
    ensures
        exec_spec(c, m, 0xCD) == control_spec(c, m, 0xCD),
        exec_spec(later, m2, 0xC9) == control_spec(later, m2, 0xC9),
{
    assert(!is_ld16_op(0xCD) && !is_arith16_op(0xCD) && !is_inc_dec8_op(0xCD) && is_control_op(0xCD));
    assert(!is_ld16_op(0xC9) && !is_arith16_op(0xC9) && !is_inc_dec8_op(0xC9) && is_control_op(0xC9));
}

/// CALL nn: SP two lower, PC at nn, the address past the immediate pushed.
proof fn lemma_call_spec(c: Cpu, m: Mmu)
    ensures
        control_spec(c, m, 0xCD).0.regs.pc == imm16(c, m),
        control_spec(c, m, 0xCD).0.regs.sp == wrap16(c.regs.sp - 2),
        control_spec(c, m, 0xCD).1 == c.push_writes(wrap16(c.regs.pc + 2)),
        control_spec(c, m, 0xCD).2 == 24,
{
    reveal(control_spec);
}

/// RET: PC from the stack, SP two higher.
proof fn lemma_ret_spec(c: Cpu, m: Mmu)
    ensures
        control_spec(c, m, 0xC9).0.regs.pc == c.pop_value(m),
        control_spec(c, m, 0xC9).0.regs.sp == wrap16(c.regs.sp + 2),
{
    reveal(control_spec);
}

/// DAA keeps F's low nibble zero.
pub broadcast proof fn lemma_daa_f_low(r: Registers)
    requires r.f & 0x0F == 0,
    ensures (#[trigger] daa_spec(r)).f & 0x0F == 0,
{
    reveal(daa_spec);
    broadcast use crate::cpu::registers::group_f_low;
}

/// `ld16_spec` keeps F's low nibble zero.
proof fn lemma_ld16_f_low(c: Cpu, m: Mmu, op: u8)
    requires c.regs.f & 0x0F == 0,
    ensures ld16_spec(c, m, op).0.regs.f & 0x0F == 0,
{
    reveal(ld16_spec);
    broadcast use crate::cpu::registers::group_f_low, crate::cpu::group_ops_f_low, lemma_daa_f_low;
}

/// `arith16_spec` keeps F's low nibble zero.
proof fn lemma_arith16_f_low(c: Cpu, op: u8)
    requires c.regs.f & 0x0F == 0,
    ensures arith16_spec(c, op).0.regs.f & 0x0F == 0,
{
    reveal(arith16_spec);
    broadcast use crate::cpu::registers::group_f_low, crate::cpu::group_ops_f_low, lemma_daa_f_low;
}

/// `inc_dec8_spec` keeps F's low nibble zero.
proof fn lemma_inc_dec8_f_low(c: Cpu, m: Mmu, op: u8)
    requires c.regs.f & 0x0F == 0,
    ensures inc_dec8_spec(c, m, op).0.regs.f & 0x0F == 0,
{
    reveal(inc_dec8_spec);
    broadcast use crate::cpu::registers::group_f_low, crate::cpu::group_ops_f_low, lemma_daa_f_low;
}

/// `misc_spec` keeps F's low nibble zero.
proof fn lemma_misc_f_low(c: Cpu, m: Mmu, op: u8)
    requires c.regs.f & 0x0F == 0,
    ensures misc_spec(c, m, op).0.regs.f & 0x0F == 0,
{
    reveal(misc_spec);
    broadcast use crate::cpu::registers::group_f_low, crate::cpu::group_ops_f_low, lemma_daa_f_low;
}

/// `ld_r8_spec` keeps F's low nibble zero.
proof fn lemma_ld_r8_f_low(c: Cpu, m: Mmu, op: u8)
    requires c.regs.f & 0x0F == 0,
    ensures ld_r8_spec(c, m, op).0.regs.f & 0x0F == 0,
{
    reveal(ld_r8_spec);
    broadcast use crate::cpu::registers::group_f_low, crate::cpu::group_ops_f_low, lemma_daa_f_low;
}

/// `alu_r8_spec` keeps F's low nibble zero.
proof fn lemma_alu_r8_f_low(c: Cpu, m: Mmu, op: u8)
    requires c.regs.f & 0x0F == 0,
    ensures alu_r8_spec(c, m, op).0.regs.f & 0x0F == 0,
{
    reveal(alu_r8_spec);
    broadcast use crate::cpu::registers::group_f_low, crate::cpu::group_ops_f_low, lemma_daa_f_low;
}

/// `control_spec` keeps F's low nibble zero.
proof fn lemma_control_f_low(c: Cpu, m: Mmu, op: u8)
    requires c.regs.f & 0x0F == 0,
    ensures control_spec(c, m, op).0.regs.f & 0x0F == 0,
{
    reveal(control_spec);
    broadcast use crate::cpu::registers::group_f_low, crate::cpu::group_ops_f_low, lemma_daa_f_low;
}

/// `misc_high_spec` keeps F's low nibble zero.
proof fn lemma_misc_high_f_low(c: Cpu, m: Mmu, op: u8)
    requires c.regs.f & 0x0F == 0,
    ensures misc_high_spec(c, m, op).0.regs.f & 0x0F == 0,
{
    reveal(misc_high_spec);
    broadcast use crate::cpu::registers::group_f_low, crate::cpu::group_ops_f_low;
    if op == 0xCB {
        super::cb_opcodes::lemma_cb_keeps_f_low(c.with_regs(skip(c.regs, 1)), m, imm8(c, m));
    }
}

/// Bits 3-0 of F stay zero across every base opcode, the CB-prefixed ones
/// included (flag updates touch bits 7-4 only, and POP AF masks the low
/// nibble off).
pub proof fn lemma_execute_keeps_f_low(c: Cpu, m: Mmu, op: u8)
    requires c.regs.f & 0x0F == 0,
    ensures exec_spec(c, m, op).0.regs.f & 0x0F == 0,
{
    lemma_ld16_f_low(c, m, op);
    lemma_arith16_f_low(c, op);
    lemma_inc_dec8_f_low(c, m, op);
    lemma_misc_f_low(c, m, op);
    lemma_ld_r8_f_low(c, m, op);
    lemma_alu_r8_f_low(c, m, op);
    lemma_control_f_low(c, m, op);
    lemma_misc_high_f_low(c, m, op);
}
} // verus!
