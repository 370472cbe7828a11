//! THUMB (16-bit) instruction set.
use vstd::prelude::*;
use super::{Arm7Tdmi, CpuMode, C_FLAG, T_FLAG, V_FLAG, flag_set, with_flag, with_nz, cond_holds};
use super::arm::{wrap32, rotr, bit31, popcount, load_word};
use crate::gba::bus::{Bus, BusView};

verus! {

broadcast use crate::bits::lemma_and_le, crate::bits::lemma_shr31, crate::bits::lemma_and_le16;

/// A 3-bit register field of a THUMB instruction.
pub open spec fn r3(instr: u16, lo: u16) -> int {
    if lo == 0 { (instr & 7) as int } else { ((instr >> lo) & 7) as int }
}

/// Flags of `a - b` as THUMB computes them: C when no borrow, V from the
/// sign bits of the operands and the result.
pub open spec fn thumb_sub_flags(psr: u32, a: u32, b: u32) -> u32 {
    let r = wrap32(a - b);
    with_nz(with_flag(with_flag(psr, C_FLAG, a >= b), V_FLAG, ((a ^ b) & (a ^ r)) >> 31u32 != 0), r)
}

/// Flags of `a + b`: C on unsigned overflow.
pub open spec fn thumb_add_flags(psr: u32, a: u32, b: u32) -> u32 {
    let r = wrap32(a + b);
    with_nz(with_flag(with_flag(psr, C_FLAG, a + b > 0xFFFF_FFFF), V_FLAG, (!(a ^ b) & (a ^ r)) >> 31u32 != 0), r)
}

/// Format 1: LSL/LSR/ASR by a 5-bit immediate; an encoded LSR/ASR by 0
/// means by 32. N and Z from the result; C from the last bit out.
pub open spec fn shift_imm_spec(c: Arm7Tdmi, instr: u16) -> Arm7Tdmi {
    let op = (instr >> 11u16) & 3;
    let n = ((instr >> 6u16) & 0x1F) as u32;
    let src = c.regs[r3(instr, 3)];
    let rd = r3(instr, 0);
    let (r, psr) = if op == 0 {
        if n == 0 { (src, c.cpsr) } else { (src << n, with_flag(c.cpsr, C_FLAG, (src >> ((32 - n) as u32)) & 1 != 0)) }
    } else if op == 1 {
        if n == 0 { (0u32, with_flag(c.cpsr, C_FLAG, bit31(src))) }
        else { (src >> n, with_flag(c.cpsr, C_FLAG, (src >> ((n - 1) as u32)) & 1 != 0)) }
    } else {
        if n == 0 { (if bit31(src) { 0xFFFF_FFFFu32 } else { 0 }, with_flag(c.cpsr, C_FLAG, bit31(src))) }
        else { (((src as i32) >> (n as i32)) as u32, with_flag(c.cpsr, C_FLAG, (src >> ((n - 1) as u32)) & 1 != 0)) }
    };
    let c2 = c.with_cpsr(psr).with_reg(rd, r);
    c2.with_cpsr(with_nz(c2.cpsr, r))
}

/// Format 2: ADD/SUB with a register or a 3-bit immediate.
pub open spec fn add_sub_spec(c: Arm7Tdmi, instr: u16) -> Arm7Tdmi {
    let operand = if (instr >> 10u16) & 1 != 0 { ((instr >> 6u16) & 7) as u32 } else { c.regs[r3(instr, 6)] };
    let src = c.regs[r3(instr, 3)];
    let rd = r3(instr, 0);
    if (instr >> 9u16) & 1 != 0 {
        let r = wrap32(src - operand);
        c.with_cpsr(thumb_sub_flags(c.cpsr, src, operand)).with_reg(rd, r)
    } else {
        let r = wrap32(src + operand);
        c.with_cpsr(thumb_add_flags(c.cpsr, src, operand)).with_reg(rd, r)
    }
}

/// Format 3: MOV/CMP/ADD/SUB with an 8-bit immediate.
pub open spec fn imm8_spec(c: Arm7Tdmi, instr: u16) -> Arm7Tdmi {
    let op = (instr >> 11u16) & 3;
    let rd = r3(instr, 8);
    let imm = (instr & 0xFF) as u32;
    let src = c.regs[rd];
    if op == 0 {
        c.with_reg(rd, imm).with_cpsr(with_nz(c.cpsr, imm))
    } else if op == 1 {
        c.with_cpsr(thumb_sub_flags(c.cpsr, src, imm))
    } else if op == 2 {
        c.with_cpsr(thumb_add_flags(c.cpsr, src, imm)).with_reg(rd, wrap32(src + imm))
    } else {
        c.with_cpsr(thumb_sub_flags(c.cpsr, src, imm)).with_reg(rd, wrap32(src - imm))
    }
}

/// Format 4: the sixteen register ALU operations; MUL takes 4 cycles.
#[verifier::opaque]
pub open spec fn alu_spec(c: Arm7Tdmi, instr: u16) -> (Arm7Tdmi, u32) {
    let op = (instr >> 6u16) & 0xF;
    let rd = r3(instr, 0);
    let a = c.regs[rd];
    let b = c.regs[r3(instr, 3)];
    let sh = b & 0xFF;
    let carry: u32 = if flag_set(c.cpsr, C_FLAG) { 1 } else { 0 };
    let set = |r: u32, psr: u32| c.with_cpsr(psr).with_reg(rd, r).with_cpsr(with_nz(psr, r));
    let c2 = if op == 0x0 { set(a & b, c.cpsr) }
        else if op == 0x1 { set(a ^ b, c.cpsr) }
        else if op == 0x2 {
            if sh == 0 { set(a, c.cpsr) }
            else if sh < 32 { set(a << sh, with_flag(c.cpsr, C_FLAG, (a >> ((32 - sh) as u32)) & 1 != 0)) }
            else if sh == 32 { set(0, with_flag(c.cpsr, C_FLAG, a & 1 != 0)) }
            else { set(0, with_flag(c.cpsr, C_FLAG, false)) }
        }
        else if op == 0x3 {
            if sh == 0 { set(a, c.cpsr) }
            else if sh < 32 { set(a >> sh, with_flag(c.cpsr, C_FLAG, (a >> ((sh - 1) as u32)) & 1 != 0)) }
            else if sh == 32 { set(0, with_flag(c.cpsr, C_FLAG, bit31(a))) }
            else { set(0, with_flag(c.cpsr, C_FLAG, false)) }
        }
        else if op == 0x4 {
            if sh == 0 { set(a, c.cpsr) }
            else if sh < 32 { set(((a as i32) >> (sh as i32)) as u32, with_flag(c.cpsr, C_FLAG, (a >> ((sh - 1) as u32)) & 1 != 0)) }
            else { set(if bit31(a) { 0xFFFF_FFFFu32 } else { 0 }, with_flag(c.cpsr, C_FLAG, bit31(a))) }
        }
        else if op == 0x5 {
            let r = wrap32(a + b + carry);
            set(r, with_flag(with_flag(c.cpsr, C_FLAG, a + b + carry > 0xFFFF_FFFF), V_FLAG, (!(a ^ b) & (a ^ r)) >> 31u32 != 0))
        }
        else if op == 0x6 {
            let r = wrap32(a - b - (1 - carry));
            set(r, with_flag(with_flag(c.cpsr, C_FLAG, a >= b + (1 - carry)), V_FLAG, ((a ^ b) & (a ^ r)) >> 31u32 != 0))
        }
        else if op == 0x7 {
            if sh == 0 { set(a, c.cpsr) }
            else if sh & 31 == 0 { set(a, with_flag(c.cpsr, C_FLAG, bit31(a))) }
            else { set(rotr(a, sh & 31), with_flag(c.cpsr, C_FLAG, (a >> (((sh & 31) - 1) as u32)) & 1 != 0)) }
        }
        else if op == 0x8 { c.with_cpsr(with_nz(c.cpsr, a & b)) }
        else if op == 0x9 {
            let r = wrap32(0 - b);
            set(r, with_flag(with_flag(c.cpsr, C_FLAG, b == 0), V_FLAG, (b & r) >> 31u32 != 0))
        }
        else if op == 0xA { c.with_cpsr(thumb_sub_flags(c.cpsr, a, b)) }
        else if op == 0xB { c.with_cpsr(thumb_add_flags(c.cpsr, a, b)) }
        else if op == 0xC { set(a | b, c.cpsr) }
        else if op == 0xD { set(wrap32(a * b), c.cpsr) }
        else if op == 0xE { set(a & !b, c.cpsr) }
        else { set(!b, c.cpsr) };
    (c2, if op == 0xD { 4 } else { 1 })
}

/// Format 5: ADD/CMP/MOV on the full register file and BX. R15 reads 2
/// bytes ahead; writing R15 halfword-aligns it and costs 3 cycles; BX to an
/// even address returns to ARM state.
pub open spec fn hi_reg_spec(c: Arm7Tdmi, instr: u16) -> (Arm7Tdmi, u32) {
    let op = (instr >> 8u16) & 3;
    let rs = r3(instr, 3) + 8 * ((instr >> 6u16) & 1);
    let rd = r3(instr, 0) + 8 * ((instr >> 7u16) & 1);
    let rs_val = if rs == 15 { wrap32(c.regs[15] + 2) } else { c.regs[rs] };
    let rd_val = if rd == 15 { wrap32(c.regs[15] + 2) } else { c.regs[rd] };
    if op == 0 {
        let r = wrap32(rd_val + rs_val);
        if rd == 15 { (c.with_reg(15, r & !1u32), 3) } else { (c.with_reg(rd, r), 1) }
    } else if op == 1 {
        (c.with_cpsr(thumb_sub_flags(c.cpsr, rd_val, rs_val)), 1)
    } else if op == 2 {
        if rd == 15 { (c.with_reg(15, rs_val & !1u32), 3) } else { (c.with_reg(rd, rs_val), 1) }
    } else if rs_val & 1 == 0 {
        (c.with_cpsr(with_flag(c.cpsr, T_FLAG, false)).with_reg(15, rs_val & !3u32), 3)
    } else {
        (c.with_reg(15, rs_val & !1u32), 3)
    }
}

/// Formats 6 to 11: PC-relative loads, register- and immediate-offset
/// loads and stores (word, byte, halfword, sign-extended) and SP-relative
/// loads and stores.
pub open spec fn load_store_spec(c: Arm7Tdmi, b: BusView, instr: u16) -> (Arm7Tdmi, BusView, u32) {
    let op = instr >> 8u16;
    let rd3 = r3(instr, 0);
    if op <= 0x4F {
        // Format 6
        let rd = r3(instr, 8);
        let addr = wrap32((c.regs[15] & !2u32) + ((instr & 0xFF) as u32) * 4);
        (c.with_reg(rd, b.read32_spec(addr & !3u32)), b, 3)
    } else if op <= 0x5F {
        let addr = wrap32(c.regs[r3(instr, 3)] + c.regs[r3(instr, 6)]);
        let v = c.regs[rd3];
        if (instr >> 9u16) & 1 == 0 {
            let l = (instr >> 11u16) & 1 != 0;
            let byte = (instr >> 10u16) & 1 != 0;
            if !l && !byte { (c, b.write32_spec(addr & !3u32, v), 2) }
            else if !l { (c, b.write8_spec(addr, v as u8), 2) }
            else if !byte { (c.with_reg(rd3, load_word(b, addr)), b, 3) }
            else { (c.with_reg(rd3, b.read8_spec(addr) as u32), b, 3) }
        } else {
            let sop = (instr >> 10u16) & 3;
            if sop == 0 { (c, b.write16_spec(addr & !1u32, v as u16), 2) }
            else if sop == 1 { (c.with_reg(rd3, b.read8_spec(addr) as i8 as i32 as u32), b, 3) }
            else if sop == 2 { (c.with_reg(rd3, b.read16_spec(addr & !1u32) as u32), b, 3) }
            else { (c.with_reg(rd3, b.read16_spec(addr & !1u32) as i16 as i32 as u32), b, 3) }
        }
    } else if op <= 0x7F {
        let base = c.regs[r3(instr, 3)];
        let off = ((instr >> 6u16) & 0x1F) as u32;
        let l = (instr >> 11u16) & 1 != 0;
        let v = c.regs[rd3];
        if (instr >> 12u16) & 1 != 0 {
            let addr = wrap32(base + off);
            if l { (c.with_reg(rd3, b.read8_spec(addr) as u32), b, 3) } else { (c, b.write8_spec(addr, v as u8), 2) }
        } else {
            let addr = wrap32(base + off * 4);
            if l { (c.with_reg(rd3, load_word(b, addr)), b, 3) } else { (c, b.write32_spec(addr & !3u32, v), 2) }
        }
    } else if op <= 0x8F {
        let addr = wrap32(c.regs[r3(instr, 3)] + ((instr >> 6u16) & 0x1F) * 2);
        if (instr >> 11u16) & 1 != 0 {
            (c.with_reg(rd3, b.read16_spec(addr & !1u32) as u32), b, 3)
        } else {
            (c, b.write16_spec(addr & !1u32, c.regs[rd3] as u16), 2)
        }
    } else {
        let rd = r3(instr, 8);
        let addr = wrap32(c.regs[13] + ((instr & 0xFF) as u32) * 4);
        if (instr >> 11u16) & 1 != 0 {
            (c.with_reg(rd, load_word(b, addr)), b, 3)
        } else {
            (c, b.write32_spec(addr & !3u32, c.regs[rd]), 2)
        }
    }
}

/// Formats 12 and 13: ADD Rd, PC/SP, #imm*4 and ADD SP, #+-imm*4.
pub open spec fn address_spec(c: Arm7Tdmi, instr: u16) -> Arm7Tdmi {
    let op = instr >> 8u16;
    if op <= 0xAF {
        let rd = r3(instr, 8);
        let imm = ((instr & 0xFF) as u32) * 4;
        if (instr >> 11u16) & 1 != 0 { c.with_reg(rd, wrap32(c.regs[13] + imm)) }
        else { c.with_reg(rd, wrap32((c.regs[15] & !2u32) + imm)) }
    } else {
        let off = ((instr & 0x7F) as u32) * 4;
        if (instr >> 7u16) & 1 != 0 { c.with_reg(13, wrap32(c.regs[13] - off)) } else { c.with_reg(13, wrap32(c.regs[13] + off)) }
    }
}

/// Registers `0..i` of a low-register list stored upward from `addr`.
pub open spec fn store_list(c: Arm7Tdmi, b: BusView, list: u32, addr: u32, i: nat) -> (BusView, u32)
    decreases i,
{
    if i == 0 {
        (b, addr)
    } else {
        let (b1, a1) = store_list(c, b, list, addr, (i - 1) as nat);
        if (list >> ((i - 1) as u32)) & 1 != 0 {
            (b1.write32_spec(a1, c.regs[i - 1]), wrap32(a1 + 4))
        } else {
            (b1, a1)
        }
    }
}

/// Registers `0..i` of a low-register list loaded upward from `addr`.
pub open spec fn load_list(c: Arm7Tdmi, b: BusView, list: u32, addr: u32, i: nat) -> (Arm7Tdmi, u32)
    decreases i,
{
    if i == 0 {
        (c, addr)
    } else {
        let (c1, a1) = load_list(c, b, list, addr, (i - 1) as nat);
        if (list >> ((i - 1) as u32)) & 1 != 0 {
            (c1.with_reg(i - 1, b.read32_spec(a1)), wrap32(a1 + 4))
        } else {
            (c1, a1)
        }
    }
}

/// Format 14: PUSH (optionally LR) below SP and POP (optionally PC).
pub open spec fn push_pop_spec(c: Arm7Tdmi, b: BusView, instr: u16) -> (Arm7Tdmi, BusView, u32) {
    let op = instr >> 8u16;
    let list = (instr & 0xFF) as u32;
    let n = popcount(list, 8);
    let extra = (instr >> 8u16) & 1 != 0;
    if op <= 0xB5 {
        let count = n + if extra { 1nat } else { 0nat };
        let addr = wrap32(c.regs[13] - count * 4);
        let c1 = c.with_reg(13, addr);
        let (b1, a1) = store_list(c1, b, list, addr, 8);
        (c1, if extra { b1.write32_spec(a1, c1.regs[14]) } else { b1 }, (2 + count) as u32)
    } else {
        let (c1, a1) = load_list(c, b, list, c.regs[13], 8);
        if extra {
            (c1.with_reg(15, b.read32_spec(a1) & !1u32).with_reg(13, wrap32(a1 + 4)), b, (4 + n) as u32)
        } else {
            (c1.with_reg(13, a1), b, (3 + n) as u32)
        }
    }
}

/// Format 15: LDMIA/STMIA on a low base register. A load writes back only
/// when the base is not in the list; a store always writes back.
pub open spec fn multiple_spec(c: Arm7Tdmi, b: BusView, instr: u16) -> (Arm7Tdmi, BusView, u32) {
    let rb = r3(instr, 8);
    let list = (instr & 0xFF) as u32;
    let n = popcount(list, 8);
    if (instr >> 11u16) & 1 != 0 {
        let (c1, a1) = load_list(c, b, list, c.regs[rb], 8);
        (if (list >> (rb as u32)) & 1 == 0 { c1.with_reg(rb, a1) } else { c1 }, b, (3 + n) as u32)
    } else {
        let (b1, a1) = store_list(c, b, list, c.regs[rb], 8);
        (c.with_reg(rb, a1), b1, (2 + n) as u32)
    }
}

/// An 11-bit two's-complement field sign-extended.
pub open spec fn sext11(x: u16) -> i32 {
    let o = (x & 0x7FF) as u32;
    if o & 0x400 != 0 { (o | 0xFFFF_F800u32) as i32 } else { o as i32 }
}

/// Formats 16 to 19: conditional branch, SWI, unconditional branch and
/// the two halves of BL.
pub open spec fn branch_spec(c: Arm7Tdmi, instr: u16) -> (Arm7Tdmi, u32) {
    let op = instr >> 8u16;
    if op <= 0xDE {
        let cond = ((instr >> 8u16) & 0xF) as u32;
        if cond != 0xF && cond_holds(c.cpsr, cond) {
            (c.with_reg(15, wrap32(c.regs[15] + ((((instr & 0xFF) as u8 as i8 as i32) << 1i32) as int))), 3)
        } else {
            (c, 1)
        }
    } else if op == 0xDF {
        (c.exception_spec(CpuMode::Supervisor, 0x08), 3)
    } else if op <= 0xE7 {
        (c.with_reg(15, wrap32(c.regs[15] + ((sext11(instr) << 1i32) as int))), 3)
    } else if op <= 0xEF {
        (c, 1)
    } else if op <= 0xF7 {
        (c.with_reg(14, wrap32(c.regs[15] + ((sext11(instr) << 12i32) as int))), 1)
    } else {
        let target = wrap32(c.regs[14] + ((instr & 0x7FF) as u32) * 2);
        (c.with_reg(15, target & !1u32).with_reg(14, wrap32(c.regs[15] - 2) | 1), 4)
    }
}

/// One THUMB instruction (PC already past it): the CPU, the bus and the cycles.
#[verifier::opaque]
pub open spec fn thumb_spec(c: Arm7Tdmi, b: BusView, instr: u16) -> (Arm7Tdmi, BusView, u32) {
    let op = instr >> 8u16;
    if op <= 0x07 { (shift_imm_spec(c, instr), b, 1) }
    else if op <= 0x17 { (c, b, 1) }
    else if op <= 0x1F { (add_sub_spec(c, instr), b, 1) }
    else if op <= 0x3F { (imm8_spec(c, instr), b, 1) }
    else if op <= 0x43 { let (c2, n) = alu_spec(c, instr); (c2, b, n) }
    else if op <= 0x47 { let (c2, n) = hi_reg_spec(c, instr); (c2, b, n) }
    else if op <= 0x9F { load_store_spec(c, b, instr) }
    else if op <= 0xAF || op == 0xB0 { (address_spec(c, instr), b, 1) }
    else if op == 0xB4 || op == 0xB5 || op == 0xBC || op == 0xBD { push_pop_spec(c, b, instr) }
    else if op <= 0xBF { (c, b, 1) }
    else if op <= 0xCF { multiple_spec(c, b, instr) }
    else { let (c2, n) = branch_spec(c, instr); (c2, b, n) }
}

/// Execute a single THUMB (16-bit) instruction and return cycles consumed.
pub fn execute_thumb(cpu: &mut Arm7Tdmi, bus: &mut Bus, instruction: u16) -> (cycles: u32)
    requires old(bus)@.wf(),
    ensures
        (*final(cpu), final(bus)@, cycles) == thumb_spec(*old(cpu), old(bus)@, instruction),
        final(bus)@.wf(),
        1 <= cycles <= 64,
{
    proof { reveal(thumb_spec); }
    let op = instruction >> 8;
    if op <= 0x07 {
        // Format 1: move shifted register
        thumb_shift_imm(cpu, instruction);
        1
    } else if op <= 0x17 {
        // Undefined here
        1
    } else if op <= 0x1F {
        // Format 2: add/subtract
        thumb_add_sub(cpu, instruction);
        1
    } else if op <= 0x3F {
        // Format 3: move/compare/add/subtract immediate
        thumb_imm8(cpu, instruction);
        1
    } else if op <= 0x43 {
        // Format 4: ALU operations
        thumb_alu(cpu, instruction)
    } else if op <= 0x47 {
        // Format 5: hi register operations / BX
        thumb_hi_reg(cpu, instruction)
    } else if op <= 0x9F {
        // Formats 6-11: loads and stores
        thumb_load_store(cpu, bus, instruction)
    } else if op <= 0xAF || op == 0xB0 {
        // Formats 12-13: load address, add offset to SP
        thumb_address(cpu, instruction);
        1
    } else if op == 0xB4 || op == 0xB5 || op == 0xBC || op == 0xBD {
        // Format 14: push/pop
        thumb_push_pop(cpu, bus, instruction)
    } else if op <= 0xBF {
        // Undefined instruction
        1
    } else if op <= 0xCF {
        // Format 15: multiple load/store
        thumb_multiple(cpu, bus, instruction)
    } else {
        // Formats 16-19: branches and SWI
        thumb_branch(cpu, instruction)
    }
}

fn thumb_shift_imm(cpu: &mut Arm7Tdmi, instruction: u16)
    ensures *final(cpu) == shift_imm_spec(*old(cpu), instruction),
{
    let shift_op = (instruction >> 11) & 0x03;
    let offset5 = ((instruction >> 6) & 0x1F) as u32;
    let rs = ((instruction >> 3) & 0x07) as usize;
    let rd = (instruction & 0x07) as usize;
    let source = cpu.regs[rs];
    proof { crate::gba::arm7tdmi::arm::lemma_sign_spread(source); }
    let result = if shift_op == 0 {
        // LSL
        if offset5 == 0 {
            source
        } else {
            cpu.set_flag(C_FLAG, (source >> (32 - offset5)) & 1 != 0);
            source << offset5
        }
    } else if shift_op == 1 {
        // LSR (0 encodes 32)
        if offset5 == 0 {
            cpu.set_flag(C_FLAG, source >> 31 != 0);
            0
        } else {
            cpu.set_flag(C_FLAG, (source >> (offset5 - 1)) & 1 != 0);
            source >> offset5
        }
    } else {
        // ASR (0 encodes 32)
        if offset5 == 0 {
            let bit31 = (source as i32) >> 31i32;
            cpu.set_flag(C_FLAG, bit31 != 0);
            bit31 as u32
        } else {
            cpu.set_flag(C_FLAG, (source >> (offset5 - 1)) & 1 != 0);
            ((source as i32) >> (offset5 as i32)) as u32
        }
    };
    cpu.regs[rd] = result;
    cpu.set_nz(result);
}

fn thumb_add_sub(cpu: &mut Arm7Tdmi, instruction: u16)
    ensures *final(cpu) == add_sub_spec(*old(cpu), instruction),
{
    let i_flag = (instruction >> 10) & 1 != 0;
    let sub = (instruction >> 9) & 1 != 0;
    let rn_or_imm = ((instruction >> 6) & 0x07) as u32;
    let rs = ((instruction >> 3) & 0x07) as usize;
    let rd = (instruction & 0x07) as usize;
    let operand = if i_flag { rn_or_imm } else { cpu.regs[rn_or_imm as usize] };
    let source = cpu.regs[rs];
    let result = if sub {
        sub_flags_thumb(cpu, source, operand)
    } else {
        add_flags_thumb(cpu, source, operand)
    };
    cpu.regs[rd] = result;
}

/// `a - b` with the THUMB flags (see `thumb_sub_flags`).
fn sub_flags_thumb(cpu: &mut Arm7Tdmi, a: u32, b: u32) -> (r: u32)
    ensures r == wrap32(a - b), *final(cpu) == old(cpu).with_cpsr(thumb_sub_flags(old(cpu).cpsr, a, b)),
{
    let res = a.wrapping_sub(b);
    let borrow = a < b;
    cpu.set_flag(C_FLAG, !borrow);
    let v = ((a ^ b) & (a ^ res)) >> 31 != 0;
    cpu.set_flag(V_FLAG, v);
    cpu.set_nz(res);
    res
}

/// `a + b` with the THUMB flags (see `thumb_add_flags`).
fn add_flags_thumb(cpu: &mut Arm7Tdmi, a: u32, b: u32) -> (r: u32)
    ensures r == wrap32(a + b), *final(cpu) == old(cpu).with_cpsr(thumb_add_flags(old(cpu).cpsr, a, b)),
{
    let res = a.wrapping_add(b);
    let carry = (a as u64) + (b as u64) > 0xFFFF_FFFF;
    cpu.set_flag(C_FLAG, carry);
    let v = (!(a ^ b) & (a ^ res)) >> 31 != 0;
    cpu.set_flag(V_FLAG, v);
    cpu.set_nz(res);
    res
}

fn thumb_imm8(cpu: &mut Arm7Tdmi, instruction: u16)
    ensures *final(cpu) == imm8_spec(*old(cpu), instruction),
{
    let op_code = (instruction >> 11) & 0x03;
    let rd = ((instruction >> 8) & 0x07) as usize;
    let imm8 = (instruction & 0xFF) as u32;
    if op_code == 0 {
        // MOV
        cpu.regs[rd] = imm8;
        cpu.set_nz(imm8);
    } else if op_code == 1 {
        // CMP
        let source = cpu.regs[rd];
        sub_flags_thumb(cpu, source, imm8);
    } else if op_code == 2 {
        // ADD
        let source = cpu.regs[rd];
        let res = add_flags_thumb(cpu, source, imm8);
        cpu.regs[rd] = res;
    } else {
        // SUB
        let source = cpu.regs[rd];
        let res = sub_flags_thumb(cpu, source, imm8);
        cpu.regs[rd] = res;
    }
}

fn thumb_alu(cpu: &mut Arm7Tdmi, instruction: u16) -> (cycles: u32)
    ensures (*final(cpu), cycles) == alu_spec(*old(cpu), instruction),
        1 <= cycles <= 64,
{
    let alu_op = (instruction >> 6) & 0x0F;
    let rs = ((instruction >> 3) & 0x07) as usize;
    let rd = (instruction & 0x07) as usize;
    let a = cpu.regs[rd];
    let b = cpu.regs[rs];
    proof { crate::gba::arm7tdmi::arm::lemma_sign_spread(a); reveal(alu_spec); }
    if alu_op <= 0x7 {
        thumb_alu_low(cpu, alu_op, rd, a, b);
    } else {
        thumb_alu_high(cpu, alu_op, rd, a, b);
    }
    // MUL takes extra cycles
    if alu_op == 0xD { 4 } else { 1 }
}

/// Format 4 operations 0-7: AND, EOR, LSL, LSR, ASR, ADC, SBC, ROR.
#[verifier::rlimit(40)]
fn thumb_alu_low(cpu: &mut Arm7Tdmi, alu_op: u16, rd: usize, a: u32, b: u32)
    requires
        rd < 8,
        alu_op <= 7,
        a == old(cpu).regs[rd as int],
        ((a as i32) >> 31i32) as u32 == (if a >> 31u32 != 0 { 0xFFFF_FFFFu32 } else { 0u32 }),
    ensures
        forall|instr: u16| (instr >> 6u16) & 0xF == alu_op && r3(instr, 0) == rd && old(cpu).regs[r3(instr, 3)] == b
            ==> #[trigger] alu_spec(*old(cpu), instr).0 == *final(cpu),
{
    proof { reveal(alu_spec); }
    let shift = b & 0xFF;
    let r = if alu_op == 0x0 {
        a & b
    } else if alu_op == 0x1 {
        a ^ b
    } else if alu_op == 0x2 {
        // LSL
        if shift == 0 {
            a
        } else if shift < 32 {
            cpu.set_flag(C_FLAG, (a >> (32 - shift)) & 1 != 0);
            a << shift
        } else if shift == 32 {
            cpu.set_flag(C_FLAG, a & 1 != 0);
            0
        } else {
            cpu.set_flag(C_FLAG, false);
            0
        }
    } else if alu_op == 0x3 {
        // LSR
        if shift == 0 {
            a
        } else if shift < 32 {
            cpu.set_flag(C_FLAG, (a >> (shift - 1)) & 1 != 0);
            a >> shift
        } else if shift == 32 {
            cpu.set_flag(C_FLAG, a >> 31 != 0);
            0
        } else {
            cpu.set_flag(C_FLAG, false);
            0
        }
    } else if alu_op == 0x4 {
        // ASR
        if shift == 0 {
            a
        } else if shift < 32 {
            cpu.set_flag(C_FLAG, (a >> (shift - 1)) & 1 != 0);
            ((a as i32) >> (shift as i32)) as u32
        } else {
            let bit31 = (a as i32) >> 31i32;
            cpu.set_flag(C_FLAG, a >> 31 != 0);
            bit31 as u32
        }
    } else if alu_op == 0x5 {
        // ADC
        let c: u32 = if cpu.get_flag(C_FLAG) { 1 } else { 0 };
        let r2 = (((a as u64) + (b as u64) + (c as u64)) % 0x1_0000_0000) as u32;
        cpu.set_flag(C_FLAG, (a as u64) + (b as u64) + (c as u64) > 0xFFFF_FFFF);
        let v = (!(a ^ b) & (a ^ r2)) >> 31 != 0;
        cpu.set_flag(V_FLAG, v);
        r2
    } else if alu_op == 0x6 {
        // SBC
        let c: u32 = if cpu.get_flag(C_FLAG) { 0 } else { 1 };
        let r2 = (((a as i64) - (b as i64) - (c as i64) + 0x2_0000_0000) % 0x1_0000_0000) as u32;
        cpu.set_flag(C_FLAG, (a as u64) >= (b as u64) + (c as u64));
        let v = ((a ^ b) & (a ^ r2)) >> 31 != 0;
        cpu.set_flag(V_FLAG, v);
        r2
    } else {
        // ROR
        if shift == 0 {
            a
        } else {
            let rot = shift & 31;
            if rot == 0 {
                cpu.set_flag(C_FLAG, a >> 31 != 0);
                a
            } else {
                cpu.set_flag(C_FLAG, (a >> (rot - 1)) & 1 != 0);
                (a >> rot) | (a << (32 - rot))
            }
        }
    };
    cpu.regs[rd] = r;
    cpu.set_nz(r);
}

/// Format 4 operations 8-15: TST, NEG, CMP, CMN, ORR, MUL, BIC, MVN.
fn thumb_alu_high(cpu: &mut Arm7Tdmi, alu_op: u16, rd: usize, a: u32, b: u32)
    requires
        rd < 8,
        8 <= alu_op <= 15,
        a == old(cpu).regs[rd as int],
    ensures
        forall|instr: u16| (instr >> 6u16) & 0xF == alu_op && r3(instr, 0) == rd && old(cpu).regs[r3(instr, 3)] == b
            ==> #[trigger] alu_spec(*old(cpu), instr).0 == *final(cpu),
{
    proof { reveal(alu_spec); }
    if alu_op == 0x8 {
        // TST
        cpu.set_nz(a & b);
    } else if alu_op == 0x9 {
        // NEG
        let r = 0u32.wrapping_sub(b);
        cpu.set_flag(C_FLAG, b == 0);
        let v = (b & r) >> 31 != 0;
        cpu.set_flag(V_FLAG, v);
        cpu.regs[rd] = r;
        cpu.set_nz(r);
    } else if alu_op == 0xA {
        // CMP
        sub_flags_thumb(cpu, a, b);
    } else if alu_op == 0xB {
        // CMN
        add_flags_thumb(cpu, a, b);
    } else {
        let r = if alu_op == 0xC {
            a | b
        } else if alu_op == 0xD {
            a.wrapping_mul(b)
        } else if alu_op == 0xE {
            a & !b
        } else {
            !b
        };
        cpu.regs[rd] = r;
        cpu.set_nz(r);
    }
}

#[verifier::spinoff_prover]
#[verifier::rlimit(40)]
fn thumb_hi_reg(cpu: &mut Arm7Tdmi, instruction: u16) -> (cycles: u32)
    ensures (*final(cpu), cycles) == hi_reg_spec(*old(cpu), instruction),
        1 <= cycles <= 64,
{
    let hi_op = (instruction >> 8) & 0x03;
    let h2 = ((instruction >> 6) & 1) as usize;
    let h1 = ((instruction >> 7) & 1) as usize;
    let rs = (((instruction >> 3) & 0x07) as usize) + 8 * h2;
    let rd = ((instruction & 0x07) as usize) + 8 * h1;
    let rs_val = if rs == 15 { cpu.regs[15].wrapping_add(2) } else { cpu.regs[rs] };
    let rd_val = if rd == 15 { cpu.regs[15].wrapping_add(2) } else { cpu.regs[rd] };
    if hi_op == 0 {
        // ADD
        let result = rd_val.wrapping_add(rs_val);
        if rd == 15 {
            cpu.regs[15] = result & !1;
            return 3;
        }
        cpu.regs[rd] = result;
    } else if hi_op == 1 {
        // CMP
        sub_flags_thumb(cpu, rd_val, rs_val);
    } else if hi_op == 2 {
        // MOV
        if rd == 15 {
            cpu.regs[15] = rs_val & !1;
            return 3;
        }
        cpu.regs[rd] = rs_val;
    } else {
        // BX
        let addr = rs_val;
        if addr & 1 == 0 {
            // Switch to ARM mode
            cpu.set_flag(T_FLAG, false);
            cpu.regs[15] = addr & !3;
        } else {
            cpu.regs[15] = addr & !1;
        }
        return 3;
    }
    1
}

/// A word load at a possibly misaligned address (the aligned word rotated).
fn load_rotated(bus: &Bus, addr: u32) -> (r: u32)
    requires bus@.wf(),
    ensures r == load_word(bus@, addr),
{
    let val = bus.read32(addr & !3);
    let rot = (addr & 3) * 8;
    if rot == 0 { val } else { (val >> rot) | (val << (32 - rot)) }
}

#[verifier::rlimit(60)]
fn thumb_load_store(cpu: &mut Arm7Tdmi, bus: &mut Bus, instruction: u16) -> (cycles: u32)
    requires old(bus)@.wf(), 0x48 <= instruction >> 8u16 <= 0x9F,
    ensures
        (*final(cpu), final(bus)@, cycles) == load_store_spec(*old(cpu), old(bus)@, instruction),
        final(bus)@.wf(),
        1 <= cycles <= 64,
{
    let op = instruction >> 8;
    let rd3 = (instruction & 0x07) as usize;
    if op <= 0x4F {
        // Format 6: PC-relative load
        let rd = ((instruction >> 8) & 0x07) as usize;
        let imm8 = (instruction & 0xFF) as u32;
        let addr = (cpu.regs[15] & !2).wrapping_add(imm8 * 4);
        cpu.regs[rd] = bus.read32(addr & !3);
        3
    } else if op <= 0x5F {
        // Formats 7 and 8: register offset
        let ro = ((instruction >> 6) & 0x07) as usize;
        let rb = ((instruction >> 3) & 0x07) as usize;
        let addr = cpu.regs[rb].wrapping_add(cpu.regs[ro]);
        let bit9 = (instruction >> 9) & 1 != 0;
        if !bit9 {
            let l_flag = (instruction >> 11) & 1 != 0;
            let b_flag = (instruction >> 10) & 1 != 0;
            if !l_flag && !b_flag {
                bus.write32(addr & !3, cpu.regs[rd3]);
                2
            } else if !l_flag {
                bus.write8(addr, cpu.regs[rd3] as u8);
                2
            } else if !b_flag {
                cpu.regs[rd3] = load_rotated(bus, addr);
                3
            } else {
                cpu.regs[rd3] = bus.read8(addr) as u32;
                3
            }
        } else {
            // Sign-extended and halfword
            let sop = (instruction >> 10) & 0x03;
            if sop == 0 {
                // STRH
                bus.write16(addr & !1, cpu.regs[rd3] as u16);
                2
            } else if sop == 1 {
                // LDSB
                cpu.regs[rd3] = bus.read8(addr) as i8 as i32 as u32;
                3
            } else if sop == 2 {
                // LDRH
                cpu.regs[rd3] = bus.read16(addr & !1) as u32;
                3
            } else {
                // LDSH
                cpu.regs[rd3] = bus.read16(addr & !1) as i16 as i32 as u32;
                3
            }
        }
    } else if op <= 0x7F {
        // Format 9: immediate offset
        let b_flag = (instruction >> 12) & 1 != 0;
        let l_flag = (instruction >> 11) & 1 != 0;
        let offset5 = ((instruction >> 6) & 0x1F) as u32;
        let rb = ((instruction >> 3) & 0x07) as usize;
        let base = cpu.regs[rb];
        if b_flag {
            let addr = base.wrapping_add(offset5);
            if l_flag {
                cpu.regs[rd3] = bus.read8(addr) as u32;
                3
            } else {
                bus.write8(addr, cpu.regs[rd3] as u8);
                2
            }
        } else {
            let addr = base.wrapping_add(offset5 * 4);
            if l_flag {
                cpu.regs[rd3] = load_rotated(bus, addr);
                3
            } else {
                bus.write32(addr & !3, cpu.regs[rd3]);
                2
            }
        }
    } else if op <= 0x8F {
        // Format 10: halfword immediate offset
        let l_flag = (instruction >> 11) & 1 != 0;
        let offset5 = ((instruction >> 6) & 0x1F) as u32;
        let rb = ((instruction >> 3) & 0x07) as usize;
        let addr = cpu.regs[rb].wrapping_add(offset5 * 2);
        if l_flag {
            cpu.regs[rd3] = bus.read16(addr & !1) as u32;
            3
        } else {
            bus.write16(addr & !1, cpu.regs[rd3] as u16);
            2
        }
    } else {
        // Format 11: SP-relative
        let l_flag = (instruction >> 11) & 1 != 0;
        let rd = ((instruction >> 8) & 0x07) as usize;
        let imm8 = (instruction & 0xFF) as u32;
        let addr = cpu.regs[13].wrapping_add(imm8 * 4);
        if l_flag {
            cpu.regs[rd] = load_rotated(bus, addr);
            3
        } else {
            bus.write32(addr & !3, cpu.regs[rd]);
            2
        }
    }
}

fn thumb_address(cpu: &mut Arm7Tdmi, instruction: u16)
    requires 0xA0 <= instruction >> 8u16 <= 0xB0,
    ensures *final(cpu) == address_spec(*old(cpu), instruction),
{
    let op = instruction >> 8;
    if op <= 0xAF {
        // Format 12: load address
        let sp_flag = (instruction >> 11) & 1 != 0;
        let rd = ((instruction >> 8) & 0x07) as usize;
        let imm8 = (instruction & 0xFF) as u32;
        if sp_flag {
            cpu.regs[rd] = cpu.regs[13].wrapping_add(imm8 * 4);
        } else {
            cpu.regs[rd] = (cpu.regs[15] & !2).wrapping_add(imm8 * 4);
        }
    } else {
        // Format 13: add offset to SP
        let sign = (instruction >> 7) & 1 != 0;
        let imm7 = (instruction & 0x7F) as u32;
        let offset = imm7 * 4;
        if sign {
            cpu.regs[13] = cpu.regs[13].wrapping_sub(offset);
        } else {
            cpu.regs[13] = cpu.regs[13].wrapping_add(offset);
        }
    }
}

/// The number of registers in an 8-register list.
fn count_low(list: u32) -> (r: u32)
    ensures r == popcount(list, 8), r <= 8,
{
    let mut n: u32 = 0;
    let mut i: u32 = 0;
    while i < 8
        invariant i <= 8, n == popcount(list, i as nat), n <= i,
        decreases 8 - i,
    {
        if (list >> i) & 1 != 0 {
            n += 1;
        }
        i += 1;
    }
    n
}

/// Store the listed low registers upward from `addr`; returns the next address.
fn store_registers(cpu: &Arm7Tdmi, bus: &mut Bus, list: u32, addr: u32) -> (r: u32)
    requires old(bus)@.wf(),
    ensures (final(bus)@, r) == store_list(*cpu, old(bus)@, list, addr, 8), final(bus)@.wf(),
{
    let mut a = addr;
    let mut i: usize = 0;
    while i < 8
        invariant
            i <= 8,
            (bus@, a) == store_list(*cpu, old(bus)@, list, addr, i as nat),
            bus@.wf(),
        decreases 8 - i,
    {
        if (list >> i as u32) & 1 != 0 {
            bus.write32(a, cpu.regs[i]);
            a = a.wrapping_add(4);
        }
        i += 1;
    }
    a
}

/// Load the listed low registers upward from `addr`; returns the next address.
fn load_registers(cpu: &mut Arm7Tdmi, bus: &Bus, list: u32, addr: u32) -> (r: u32)
    requires bus@.wf(),
    ensures (*final(cpu), r) == load_list(*old(cpu), bus@, list, addr, 8),
{
    let mut a = addr;
    let mut i: usize = 0;
    while i < 8
        invariant
            i <= 8,
            (*cpu, a) == load_list(*old(cpu), bus@, list, addr, i as nat),
            bus@.wf(),
        decreases 8 - i,
    {
        if (list >> i as u32) & 1 != 0 {
            cpu.regs[i] = bus.read32(a);
            a = a.wrapping_add(4);
        }
        i += 1;
    }
    a
}

fn thumb_push_pop(cpu: &mut Arm7Tdmi, bus: &mut Bus, instruction: u16) -> (cycles: u32)
    requires
        old(bus)@.wf(),
        (instruction >> 8u16) == 0xB4 || (instruction >> 8u16) == 0xB5 || (instruction >> 8u16) == 0xBC || (instruction >> 8u16) == 0xBD,
    ensures
        (*final(cpu), final(bus)@, cycles) == push_pop_spec(*old(cpu), old(bus)@, instruction),
        final(bus)@.wf(),
        1 <= cycles <= 64,
{
    let op = instruction >> 8;
    let rlist = (instruction & 0xFF) as u32;
    let n = count_low(rlist);
    if op <= 0xB5 {
        // PUSH
        let store_lr = (instruction >> 8) & 1 != 0;
        let count = n + if store_lr { 1 } else { 0 };
        let addr = cpu.regs[13].wrapping_sub(count * 4);
        cpu.regs[13] = addr;
        let next = store_registers(cpu, bus, rlist, addr);
        if store_lr {
            bus.write32(next, cpu.regs[14]);
        }
        2 + count
    } else {
        // POP
        let load_pc = (instruction >> 8) & 1 != 0;
        let start = cpu.regs[13];
        let addr = load_registers(cpu, bus, rlist, start);
        if load_pc {
            let val = bus.read32(addr);
            cpu.regs[15] = val & !1;
            cpu.regs[13] = addr.wrapping_add(4);
            return 4 + n;
        }
        cpu.regs[13] = addr;
        3 + n
    }
}

fn thumb_multiple(cpu: &mut Arm7Tdmi, bus: &mut Bus, instruction: u16) -> (cycles: u32)
    requires old(bus)@.wf(),
    ensures
        (*final(cpu), final(bus)@, cycles) == multiple_spec(*old(cpu), old(bus)@, instruction),
        final(bus)@.wf(),
        1 <= cycles <= 64,
{
    let l_flag = (instruction >> 11) & 1 != 0;
    let rb = ((instruction >> 8) & 0x07) as usize;
    let rlist = (instruction & 0xFF) as u32;
    let start = cpu.regs[rb];
    let count = count_low(rlist);
    if l_flag {
        let addr = load_registers(cpu, bus, rlist, start);
        // Write-back only if Rb not in register list
        if (rlist >> rb as u32) & 1 == 0 {
            cpu.regs[rb] = addr;
        }
        3 + count
    } else {
        let addr = store_registers(cpu, bus, rlist, start);
        cpu.regs[rb] = addr;
        2 + count
    }
}

fn thumb_branch(cpu: &mut Arm7Tdmi, instruction: u16) -> (cycles: u32)
    requires instruction >> 8u16 >= 0xD0,
    ensures (*final(cpu), cycles) == branch_spec(*old(cpu), instruction),
        1 <= cycles <= 64,
{
    let op = instruction >> 8;
    if op <= 0xDE {
        // Format 16: conditional branch
        let cond = ((instruction >> 8) & 0x0F) as u32;
        if cond == 0x0F {
            return 1;
        }
        if cpu.check_condition(cond) {
            let offset = ((instruction & 0xFF) as u8 as i8 as i32) << 1i32;
            cpu.regs[15] = crate::gba::arm7tdmi::arm::add_offset(cpu.regs[15], offset);
            return 3;
        }
        1
    } else if op == 0xDF {
        // Format 17: software interrupt
        cpu.enter_exception(CpuMode::Supervisor, 0x08);
        3
    } else if op <= 0xE7 {
        // Format 18: unconditional branch
        let offset = sext11_exec(instruction);
        cpu.regs[15] = crate::gba::arm7tdmi::arm::add_offset(cpu.regs[15], offset << 1i32);
        3
    } else if op <= 0xEF {
        // Undefined instruction
        1
    } else if op <= 0xF7 {
        // Format 19, first half: LR = PC + (offset11 << 12)
        let signed = sext11_exec(instruction);
        cpu.regs[14] = crate::gba::arm7tdmi::arm::add_offset(cpu.regs[15], signed << 12i32);
        1
    } else {
        // Second half: PC = LR + (offset11 << 1), LR = (old PC - 2) | 1
        let offset = (instruction & 0x7FF) as u32;
        let old_pc = cpu.regs[15].wrapping_sub(2);
        let target = cpu.regs[14].wrapping_add(offset * 2);
        cpu.regs[15] = target & !1;
        cpu.regs[14] = old_pc | 1;
        4
    }
}

/// THUMB BIC (format 4, ALU operation 0xE) clears in Rd exactly the bits
/// that are set in Rs: the new Rd has no bit of Rs, and together with the
/// bits that Rd and Rs shared it gives back the old Rd. The other registers
/// keep their values and the instruction takes one cycle.
pub proof fn lemma_thumb_bic(c: Arm7Tdmi, b: BusView, instr: u16)
    requires
        instr >> 10u16 == 0x10,
        (instr >> 6u16) & 0xF == 0xE,
    ensures
        ({
            let rd = (instr & 7) as int;
            let rs = ((instr >> 3u16) & 7) as int;
            let (c2, b2, n) = thumb_spec(c, b, instr);
            &&& c2.regs[rd] & c.regs[rs] == 0
            &&& c2.regs[rd] | (c.regs[rd] & c.regs[rs]) == c.regs[rd]
            &&& forall|j: int| 0 <= j < 16 && j != rd ==> c2.regs[j] == c.regs[j]
            &&& b2 == b
            &&& n == 1
        }),
{
    reveal(thumb_spec);
    reveal(alu_spec);
    let rd = (instr & 7) as int;
    let rs = ((instr >> 3u16) & 7) as int;
    let x = c.regs[rd];
    let y = c.regs[rs];
    lemma_format4_decode(instr);
    crate::bits::lemma_bit_clear(x, y);
    assert(r3(instr, 0) == rd && r3(instr, 3) == rs);
}

/// A format-4 instruction (top six bits 010000) is decoded as a register ALU
/// operation: its high byte lies in 0x40..=0x43.
proof fn lemma_format4_decode(instr: u16)
    requires instr >> 10u16 == 0x10,
    ensures 0x40 <= instr >> 8u16 <= 0x43,
{
    vstd::bits::lemma_u16_shr_is_div(instr, 10u16);
    vstd::bits::lemma_u16_shr_is_div(instr, 8u16);
    vstd::arithmetic::power2::lemma2_to64();
}

/// What the format-4 register ALU operations leave in Rd, for operand values
/// `a` (old Rd) and `b` (old Rs) and the old carry: AND, EOR and ORR combine
/// the operands bitwise, MVN complements Rs, ADC, SBC, NEG and MUL compute
/// modulo 2^32, and TST, CMP and CMN write no register. Every other register
/// keeps its value, the bus is not touched, and only MUL takes more than one
/// cycle (four).
pub proof fn lemma_thumb_alu_results(c: Arm7Tdmi, b: BusView, instr: u16)
    requires
        instr >> 10u16 == 0x10,
    ensures
        ({
            let op = (instr >> 6u16) & 0xF;
            let rd = (instr & 7) as int;
            let x = c.regs[rd];
            let y = c.regs[((instr >> 3u16) & 7) as int];
            let carry: int = if flag_set(c.cpsr, C_FLAG) { 1 } else { 0 };
            let (c2, b2, n) = thumb_spec(c, b, instr);
            let r = c2.regs[rd];
            &&& op == 0x0 ==> r == x & y
            &&& op == 0x1 ==> r == x ^ y
            &&& op == 0x5 ==> r == (x + y + carry) % 0x1_0000_0000
            &&& op == 0x6 ==> r == (x - y - 1 + carry) % 0x1_0000_0000
            &&& op == 0x9 ==> r == (0x1_0000_0000 - y) % 0x1_0000_0000
            &&& op == 0xC ==> r == x | y
            &&& op == 0xD ==> r == (x * y) % 0x1_0000_0000
            &&& op == 0xF ==> r == !y
            &&& (op == 0x8 || op == 0xA || op == 0xB) ==> c2.regs == c.regs
            &&& forall|j: int| 0 <= j < 16 && j != rd ==> c2.regs[j] == c.regs[j]
            &&& b2 == b
            &&& n == (if op == 0xD { 4u32 } else { 1u32 })
        }),
{
    reveal(thumb_spec);
    reveal(alu_spec);
    lemma_format4_decode(instr);
    let rd = (instr & 7) as int;
    let rs = ((instr >> 3u16) & 7) as int;
    assert(r3(instr, 0) == rd && r3(instr, 3) == rs);
}

/// A word-aligned word is its own aligned address and sits at byte offset 0.
proof fn lemma_word_aligned(addr: u32)
    requires addr % 4 == 0,
    ensures addr & !3u32 == addr, addr & 3 == 0,
{
    assert(addr % 4 == 0 ==> addr & !3u32 == addr && addr & 3u32 == 0) by (bit_vector);
}

/// THUMB STR/LDR with an immediate offset (format 9, word): the address is
/// Rb plus four times the 5-bit offset. For an aligned address in RAM, STR
/// stores Rd there (it reads back as Rd) and changes no register, and LDR
/// loads the word stored there into Rd without touching memory.
pub proof fn lemma_thumb_word_imm_transfer(c: Arm7Tdmi, b: BusView, instr: u16)
    requires
        instr >> 12u16 == 6,
        b.wf(),
        (c.regs[((instr >> 3u16) & 7) as int] + 4 * ((instr >> 6u16) & 0x1F)) % 0x1_0000_0000 % 4 == 0,
        ({
            let addr = ((c.regs[((instr >> 3u16) & 7) as int] + 4 * ((instr >> 6u16) & 0x1F)) % 0x1_0000_0000) as u32;
            2 <= crate::gba::bus::region(addr) <= 7 && crate::gba::bus::region(addr) != 4
        }),
    ensures
        ({
            let addr = ((c.regs[((instr >> 3u16) & 7) as int] + 4 * ((instr >> 6u16) & 0x1F)) % 0x1_0000_0000) as u32;
            let rd = (instr & 7) as int;
            let (c2, b2, n) = thumb_spec(c, b, instr);
            &&& (instr >> 11u16) & 1 == 0 ==> c2 == c && b2.read32_spec(addr) == c.regs[rd]
            &&& (instr >> 11u16) & 1 == 1 ==> c2.regs[rd] == b.read32_spec(addr) && b2 == b
        }),
{
    reveal(thumb_spec);
    let addr = ((c.regs[((instr >> 3u16) & 7) as int] + 4 * ((instr >> 6u16) & 0x1F)) % 0x1_0000_0000) as u32;
    vstd::bits::lemma_u16_shr_is_div(instr, 12u16);
    vstd::bits::lemma_u16_shr_is_div(instr, 8u16);
    vstd::arithmetic::power2::lemma2_to64();
    vstd::bits::lemma_low_bits_mask_values();
    vstd::bits::lemma_u16_low_bits_mask_is_mod(instr >> 12u16, 1);
    vstd::bits::lemma_u16_low_bits_mask_is_mod(instr >> 11u16, 1);
    lemma_word_aligned(addr);
    assert(r3(instr, 0) == (instr & 7) as int && r3(instr, 3) == ((instr >> 3u16) & 7) as int);
    if (instr >> 11u16) & 1 == 0 {
        crate::gba::bus::lemma_write32_read32(b, addr, c.regs[(instr & 7) as int]);
    }
}

fn sext11_exec(instruction: u16) -> (r: i32)
    ensures r == sext11(instruction),
{
    let offset = (instruction & 0x7FF) as u32;
    if offset & 0x400 != 0 { (offset | 0xFFFF_F800) as i32 } else { offset as i32 }
}

} // verus!
