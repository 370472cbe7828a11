//! ARM (32-bit) instruction set.
use vstd::prelude::*;
use vstd::arithmetic::power2::pow2;
use super::{Arm7Tdmi, CpuMode, C_FLAG, N_FLAG, T_FLAG, V_FLAG, Z_FLAG, flag_set, with_flag, with_nz, cond_holds, lemma_flag_roundtrip};
use crate::gba::bus::{Bus, BusView};

verus! {

broadcast use crate::bits::lemma_and_le, crate::bits::lemma_shr31;

/// `x` reduced modulo 2^32.
pub open spec fn wrap32(x: int) -> u32 {
    (x % 0x1_0000_0000) as u32
}

/// Rotate right by `n` (taken modulo 32).
pub open spec fn rotr(x: u32, n: u32) -> u32 {
    let k = n % 32;
    if k == 0 { x } else { (x >> k) | (x << ((32 - k) as u32)) }
}

/// Bit 31 of `x`.
pub open spec fn bit31(x: u32) -> bool {
    x >> 31u32 != 0
}

/// The barrel shifter: `(result, carry out)` of shifting `operand` by
/// `amount` with shift type LSL, LSR, ASR, ROR (0-3), given the incoming
/// carry. An encoded amount of 0 means LSL #0 (no change), LSR #32,
/// ASR #32 and RRX respectively.
#[verifier::opaque]
pub open spec fn shift_spec(operand: u32, shift_type: u32, amount: u32, carry: bool) -> (u32, bool) {
    if amount == 0 {
        if shift_type == 0 {
            (operand, carry)
        } else if shift_type == 1 {
            (0, bit31(operand))
        } else if shift_type == 2 {
            (if bit31(operand) { 0xFFFF_FFFF } else { 0 }, bit31(operand))
        } else if shift_type == 3 {
            ((if carry { 0x8000_0000u32 } else { 0 }) | (operand >> 1u32), operand & 1 != 0)
        } else {
            (operand, carry)
        }
    } else if shift_type == 0 {
        if amount >= 32 {
            (0, amount == 32 && operand & 1 != 0)
        } else {
            (operand << amount, (operand >> ((32 - amount) as u32)) & 1 != 0)
        }
    } else if shift_type == 1 {
        if amount >= 32 {
            (0, amount == 32 && bit31(operand))
        } else {
            (operand >> amount, (operand >> ((amount - 1) as u32)) & 1 != 0)
        }
    } else if shift_type == 2 {
        if amount >= 32 {
            (if bit31(operand) { 0xFFFF_FFFF } else { 0 }, bit31(operand))
        } else {
            (((operand as i32) >> (amount as i32)) as u32, (((operand as i32) >> ((amount - 1) as i32)) & 1) != 0)
        }
    } else if shift_type == 3 {
        if amount % 32 == 0 {
            (operand, bit31(operand))
        } else {
            (rotr(operand, amount), bit31(rotr(operand, amount)))
        }
    } else {
        (operand, carry)
    }
}

/// The 4-bit register field at bit `lo` of an instruction.
pub open spec fn reg_field(instr: u32, lo: u32) -> int {
    if lo == 0 { (instr & 0xF) as int } else { ((instr >> lo) & 0xF) as int }
}

/// A register read as an operand: R15 reads `pc_extra` bytes ahead.
pub open spec fn reg_operand(c: Arm7Tdmi, r: int, pc_extra: int) -> u32 {
    if r == 15 { wrap32(c.regs[15] + pc_extra) } else { c.regs[r] }
}

/// Operand 2 of a data-processing instruction and the shifter carry:
/// a rotated 8-bit immediate, a register shifted by an immediate, or a
/// register shifted by the bottom byte of a register (an amount of 0
/// leaves operand and carry alone).
#[verifier::opaque]
pub open spec fn operand2_spec(c: Arm7Tdmi, instr: u32, carry: bool) -> (u32, bool) {
    if (instr >> 25u32) & 1 != 0 {
        let imm = instr & 0xFF;
        let rot = ((instr >> 8u32) & 0xF) * 2;
        if rot == 0 { (imm, carry) } else { (rotr(imm, rot as u32), bit31(rotr(imm, rot as u32))) }
    } else if (instr >> 4u32) & 1 != 0 {
        let operand = reg_operand(c, reg_field(instr, 0), 12);
        let amount = c.regs[reg_field(instr, 8)] & 0xFF;
        if amount == 0 { (operand, carry) } else { shift_spec(operand, (instr >> 5u32) & 3, amount, carry) }
    } else {
        shift_spec(reg_operand(c, reg_field(instr, 0), 8), (instr >> 5u32) & 3, (instr >> 7u32) & 0x1F, carry)
    }
}

/// Flags of `a + b`: N and Z from the result, C on unsigned overflow, V on
/// signed overflow.
pub open spec fn add_flags(psr: u32, a: u32, b: u32) -> u32 {
    let r = wrap32(a + b);
    with_flag(with_flag(with_nz(psr, r), C_FLAG, r < a), V_FLAG, bit31(a) == bit31(b) && bit31(a) != bit31(r))
}

/// Flags of `a - b`: C when no borrow occurs.
pub open spec fn sub_flags(psr: u32, a: u32, b: u32) -> u32 {
    let r = wrap32(a - b);
    with_flag(with_flag(with_nz(psr, r), C_FLAG, a >= b), V_FLAG, bit31(a) != bit31(b) && bit31(a) != bit31(r))
}

/// Flags of a logical result: N, Z, and C from the shifter.
pub open spec fn logic_flags(psr: u32, r: u32, carry: bool) -> u32 {
    with_flag(with_nz(psr, r), C_FLAG, carry)
}

/// The sixteen data-processing operations: `(result, new CPSR, whether the
/// result is written)`. TST, TEQ, CMP and CMN always set flags and write
/// nothing; the others set flags only when `s` is set.
#[verifier::opaque]
pub open spec fn alu_spec(opcode: u32, op1: u32, op2: u32, s: bool, shifter_carry: bool, psr: u32) -> (u32, u32, bool) {
    let c: int = if flag_set(psr, C_FLAG) { 1 } else { 0 };
    if opcode == 0x0 { let r = op1 & op2; (r, if s { logic_flags(psr, r, shifter_carry) } else { psr }, true) }
    else if opcode == 0x1 { let r = op1 ^ op2; (r, if s { logic_flags(psr, r, shifter_carry) } else { psr }, true) }
    else if opcode == 0x2 { (wrap32(op1 - op2), if s { sub_flags(psr, op1, op2) } else { psr }, true) }
    else if opcode == 0x3 { (wrap32(op2 - op1), if s { sub_flags(psr, op2, op1) } else { psr }, true) }
    else if opcode == 0x4 { (wrap32(op1 + op2), if s { add_flags(psr, op1, op2) } else { psr }, true) }
    else if opcode == 0x5 {
        let r = wrap32(op1 + op2 + c);
        (r, if s { with_flag(with_flag(with_nz(psr, r), C_FLAG, op1 + op2 + c > 0xFFFF_FFFF), V_FLAG,
            bit31(op1) == bit31(op2) && bit31(op1) != bit31(r)) } else { psr }, true)
    }
    else if opcode == 0x6 {
        let r = wrap32(op1 - op2 - (1 - c));
        (r, if s { with_flag(with_flag(with_nz(psr, r), C_FLAG, !(op1 < op2 + (1 - c))), V_FLAG,
            bit31(op1) != bit31(op2) && bit31(op1) != bit31(r)) } else { psr }, true)
    }
    else if opcode == 0x7 {
        let r = wrap32(op2 - op1 - (1 - c));
        (r, if s { with_flag(with_flag(with_nz(psr, r), C_FLAG, !(op2 < op1 + (1 - c))), V_FLAG,
            bit31(op2) != bit31(op1) && bit31(op2) != bit31(r)) } else { psr }, true)
    }
    else if opcode == 0x8 { let r = op1 & op2; (r, logic_flags(psr, r, shifter_carry), false) }
    else if opcode == 0x9 { let r = op1 ^ op2; (r, logic_flags(psr, r, shifter_carry), false) }
    else if opcode == 0xA { (wrap32(op1 - op2), sub_flags(psr, op1, op2), false) }
    else if opcode == 0xB { (wrap32(op1 + op2), add_flags(psr, op1, op2), false) }
    else if opcode == 0xC { let r = op1 | op2; (r, if s { logic_flags(psr, r, shifter_carry) } else { psr }, true) }
    else if opcode == 0xD { (op2, if s { logic_flags(psr, op2, shifter_carry) } else { psr }, true) }
    else if opcode == 0xE { let r = op1 & !op2; (r, if s { logic_flags(psr, r, shifter_carry) } else { psr }, true) }
    else { let r = !op2; (r, if s { logic_flags(psr, r, shifter_carry) } else { psr }, true) }
}

/// A data-processing instruction: the CPU and the cycles. A result written
/// to R15 is word-aligned, with S also restores CPSR from SPSR, and costs a
/// pipeline flush; a register-specified shift costs one more cycle.
pub open spec fn dp_spec(c: Arm7Tdmi, instr: u32, opcode: u32, s: bool) -> (Arm7Tdmi, u32) {
    let rd = reg_field(instr, 12);
    let rn = reg_field(instr, 16);
    let reg_shift = (instr >> 25u32) & 1 == 0 && (instr >> 4u32) & 1 != 0;
    let op1 = reg_operand(c, rn, if reg_shift { 12 } else { 8 });
    let (op2, carry) = operand2_spec(c, instr, flag_set(c.cpsr, C_FLAG));
    let (r, psr, write) = alu_spec(opcode, op1, op2, s, carry, c.cpsr);
    let c2 = c.with_cpsr(psr);
    let (c3, cycles) = if !write {
        (c2, 1u32)
    } else if rd == 15 {
        let c4 = c2.with_reg(15, r & !3u32);
        (if s { c4.with_cpsr(c4.spsr_spec()) } else { c4 }, 3u32)
    } else {
        (c2.with_reg(rd, r), 1u32)
    };
    (c3, if reg_shift { (cycles + 1) as u32 } else { cycles })
}

/// Cycles of a multiply by the early-termination rule on the multiplier.
pub open spec fn mul_cycles_spec(rs: u32) -> u32 {
    if rs & 0xFFFF_FF00 == 0 || rs & 0xFFFF_FF00 == 0xFFFF_FF00 { 2 }
    else if rs & 0xFFFF_0000 == 0 || rs & 0xFFFF_0000 == 0xFFFF_0000 { 3 }
    else if rs & 0xFF00_0000 == 0 || rs & 0xFF00_0000 == 0xFF00_0000 { 4 }
    else { 5 }
}

/// MUL / MLA: Rd = Rm * Rs (+ Rn), modulo 2^32; S sets N and Z.
pub open spec fn mul_spec(c: Arm7Tdmi, instr: u32) -> (Arm7Tdmi, u32) {
    let rd = reg_field(instr, 16);
    let rn = reg_field(instr, 12);
    let rs = reg_field(instr, 8);
    let rm = reg_field(instr, 0);
    let acc = (instr >> 21u32) & 1 != 0;
    let prod = wrap32(c.regs[rm] * c.regs[rs]);
    let r = if acc { wrap32(prod + c.regs[rn]) } else { prod };
    let cyc = mul_cycles_spec(c.regs[rs]);
    let c2 = c.with_reg(rd, r);
    (if (instr >> 20u32) & 1 != 0 { c2.with_cpsr(with_nz(c2.cpsr, r)) } else { c2 }, if acc { (cyc + 1) as u32 } else { cyc })
}

/// A 64-bit value reduced modulo 2^64.
pub open spec fn wrap64(x: int) -> u64 {
    (x % 0x1_0000_0000_0000_0000) as u64
}

/// UMULL / UMLAL / SMULL / SMLAL: RdHi:RdLo = Rm * Rs (+ RdHi:RdLo),
/// signed or unsigned, modulo 2^64; S sets N from bit 63 and Z from the
/// whole result.
pub open spec fn mull_spec(c: Arm7Tdmi, instr: u32) -> (Arm7Tdmi, u32) {
    let rd_hi = reg_field(instr, 16);
    let rd_lo = reg_field(instr, 12);
    let rs = reg_field(instr, 8);
    let rm = reg_field(instr, 0);
    let signed = (instr >> 22u32) & 1 != 0;
    let acc = (instr >> 21u32) & 1 != 0;
    let prod = if signed { wrap64((c.regs[rm] as i32) * (c.regs[rs] as i32)) } else { wrap64(c.regs[rm] * c.regs[rs]) };
    let r = if acc { wrap64(prod + (c.regs[rd_hi] * 0x1_0000_0000 + c.regs[rd_lo])) } else { prod };
    let cyc = (mul_cycles_spec(c.regs[rs]) + 1) as u32;
    let c2 = c.with_reg(rd_lo, (r % 0x1_0000_0000) as u32);
    let c3 = c2.with_reg(rd_hi, (r / 0x1_0000_0000) as u32);
    let c4 = if (instr >> 20u32) & 1 != 0 {
        c3.with_cpsr(with_flag(with_flag(with_nz(c3.cpsr, c3.regs[rd_hi]), Z_FLAG, r == 0), N_FLAG, r >> 63u64 != 0))
    } else {
        c3
    };
    (c4, if acc { (cyc + 1) as u32 } else { cyc })
}

/// A word load: the aligned word rotated so the addressed byte comes first.
pub open spec fn load_word(b: BusView, addr: u32) -> u32 {
    rotr(b.read32_spec(addr & !3u32), ((addr & 3) * 8) as u32)
}

/// Base register write-back after a transfer: post-indexed transfers always
/// write back, pre-indexed ones when W is set; a load into the base wins.
pub open spec fn writeback(c: Arm7Tdmi, pre: bool, w: bool, load: bool, rd: int, rn: int, final_addr: u32) -> Arm7Tdmi {
    if (!pre || w) && !(load && rd == rn) { c.with_reg(rn, final_addr) } else { c }
}

/// LDR / STR (word or byte): the CPU, the bus and the cycles. Stores of R15
/// store PC + 12; loads into R15 are word-aligned and flush the pipeline.
pub open spec fn single_spec(c: Arm7Tdmi, b: BusView, instr: u32) -> (Arm7Tdmi, BusView, u32) {
    let is_reg = (instr >> 25u32) & 1 != 0;
    let pre = (instr >> 24u32) & 1 != 0;
    let up = (instr >> 23u32) & 1 != 0;
    let byte = (instr >> 22u32) & 1 != 0;
    let w = (instr >> 21u32) & 1 != 0;
    let load = (instr >> 20u32) & 1 != 0;
    let rn = reg_field(instr, 16);
    let rd = reg_field(instr, 12);
    let offset = if is_reg {
        shift_spec(c.regs[reg_field(instr, 0)], (instr >> 5u32) & 3, (instr >> 7u32) & 0x1F, flag_set(c.cpsr, C_FLAG)).0
    } else {
        instr & 0xFFF
    };
    let base = reg_operand(c, rn, 8);
    let moved = if up { wrap32(base + offset) } else { wrap32(base - offset) };
    let addr = if pre { moved } else { base };
    let (c2, b2, cyc) = if load {
        let v = if byte { b.read8_spec(addr) as u32 } else { load_word(b, addr) };
        if rd == 15 { (c.with_reg(15, v & !3u32), b, 5u32) } else { (c.with_reg(rd, v), b, 3u32) }
    } else {
        let v = if rd == 15 { wrap32(c.regs[15] + 12) } else { c.regs[rd] };
        (c, if byte { b.write8_spec(addr, v as u8) } else { b.write32_spec(addr & !3u32, v) }, 2u32)
    };
    (writeback(c2, pre, w, load, rd, rn, moved), b2, cyc)
}

/// LDRH / LDRSB / LDRSH / STRH: like `single_spec` with an 8-bit split
/// immediate or register offset; signed loads sign-extend.
pub open spec fn halfword_spec(c: Arm7Tdmi, b: BusView, instr: u32) -> (Arm7Tdmi, BusView, u32) {
    let pre = (instr >> 24u32) & 1 != 0;
    let up = (instr >> 23u32) & 1 != 0;
    let imm = (instr >> 22u32) & 1 != 0;
    let w = (instr >> 21u32) & 1 != 0;
    let load = (instr >> 20u32) & 1 != 0;
    let rn = reg_field(instr, 16);
    let rd = reg_field(instr, 12);
    let sh = (instr >> 5u32) & 3;
    let offset = if imm { ((instr >> 4u32) & 0xF0) | (instr & 0xF) } else { c.regs[reg_field(instr, 0)] };
    let base = reg_operand(c, rn, 8);
    let moved = if up { wrap32(base + offset) } else { wrap32(base - offset) };
    let addr = if pre { moved } else { base };
    let (c2, b2, cyc) = if load {
        let v: u32 = if sh == 1 { b.read16_spec(addr & !1u32) as u32 }
            else if sh == 2 { b.read8_spec(addr) as i8 as i32 as u32 }
            else if sh == 3 { b.read16_spec(addr & !1u32) as i16 as i32 as u32 }
            else { 0 };
        if rd == 15 { (c.with_reg(15, v & !3u32), b, 5u32) } else { (c.with_reg(rd, v), b, 3u32) }
    } else {
        let v = if rd == 15 { wrap32(c.regs[15] + 12) } else { c.regs[rd] };
        (c, b.write16_spec(addr & !1u32, v as u16), 2u32)
    };
    (writeback(c2, pre, w, load, rd, rn, moved), b2, cyc)
}

/// Number of set bits among the low `n` bits of `x`.
pub open spec fn popcount(x: u32, n: nat) -> nat
    decreases n,
{
    if n == 0 { 0 } else { popcount(x, (n - 1) as nat) + if (x >> ((n - 1) as u32)) & 1 != 0 { 1nat } else { 0nat } }
}

/// Registers `0..i` of an LDM/STM processed in order from `start`: the CPU,
/// the bus, the next address, the cycles, and whether no register was
/// transferred yet. With S and R15 in a load list, loading R15 restores
/// CPSR from SPSR and word-aligns PC.
pub open spec fn block_steps(c: Arm7Tdmi, b: BusView, instr: u32, start: u32, i: nat) -> (Arm7Tdmi, BusView, u32, u32, bool)
    decreases i,
{
    let load = (instr >> 20u32) & 1 != 0;
    if i == 0 {
        (c, b, start, if load { 2 } else { 1 }, true)
    } else {
        let (c1, b1, addr, cyc, first) = block_steps(c, b, instr, start, (i - 1) as nat);
        let r = (i - 1) as int;
        let list = instr & 0xFFFF;
        if (list >> (r as u32)) & 1 == 0 {
            (c1, b1, addr, cyc, first)
        } else {
            let s_pc = (instr >> 22u32) & 1 != 0 && (list >> 15u32) & 1 != 0;
            let (c2, b2, cyc2) = if load {
                let v = b1.read32_spec(addr & !3u32);
                let c3 = c1.with_reg(r, v);
                let c4 = if s_pc && r == 15 { c3.with_cpsr(c3.spsr_spec()).with_reg(15, v & !3u32) } else { c3 };
                (c4, b1, if r == 15 { (cyc + 2) as u32 } else { cyc })
            } else {
                let v = if r == 15 { wrap32(c1.regs[15] + 12) } else { c1.regs[r] };
                (c1, b1.write32_spec(addr & !3u32, v), cyc)
            };
            (c2, b2, wrap32(addr + 4), if first { cyc2 } else { (cyc2 + 1) as u32 }, false)
        }
    }
}

/// LDM / STM. An empty list transfers R15 and moves the base by 0x40.
pub open spec fn block_spec(c: Arm7Tdmi, b: BusView, instr: u32) -> (Arm7Tdmi, BusView, u32) {
    let pre = (instr >> 24u32) & 1 != 0;
    let up = (instr >> 23u32) & 1 != 0;
    let w = (instr >> 21u32) & 1 != 0;
    let load = (instr >> 20u32) & 1 != 0;
    let rn = reg_field(instr, 16);
    let base = c.regs[rn];
    let n = popcount(instr & 0xFFFF, 16);
    if n == 0 {
        let c2 = if load { c.with_reg(15, b.read32_spec(base)) } else { c };
        let b2 = if load { b } else { b.write32_spec(base, wrap32(c.regs[15] + 8)) };
        (c2.with_reg(rn, if up { wrap32(base + 0x40) } else { wrap32(base - 0x40) }), b2, 3)
    } else {
        let start = if up { if pre { wrap32(base + 4) } else { base } }
            else if pre { wrap32(base - n * 4) } else { wrap32(base - n * 4 + 4) };
        let (c2, b2, _a, cyc, _f) = block_steps(c, b, instr, start, 16);
        (if w { c2.with_reg(rn, if up { wrap32(base + n * 4) } else { wrap32(base - n * 4) }) } else { c2 }, b2, cyc)
    }
}

/// SWP / SWPB: read then write at Rn; Rd gets the old value.
pub open spec fn swp_spec(c: Arm7Tdmi, b: BusView, instr: u32) -> (Arm7Tdmi, BusView, u32) {
    let rn = reg_field(instr, 16);
    let rd = reg_field(instr, 12);
    let rm = reg_field(instr, 0);
    let addr = c.regs[rn];
    if (instr >> 22u32) & 1 != 0 {
        (c.with_reg(rd, b.read8_spec(addr) as u32), b.write8_spec(addr, c.regs[rm] as u8), 4)
    } else {
        (c.with_reg(rd, load_word(b, addr)), b.write32_spec(addr & !3u32, c.regs[rm]), 4)
    }
}

/// MSR field mask from the four field bits (control, extension, status, flags).
pub open spec fn msr_mask(fields: u32) -> u32 {
    (if fields & 1 != 0 { 0x0000_00FFu32 } else { 0 }) | (if fields & 2 != 0 { 0x0000_FF00u32 } else { 0 })
        | (if fields & 4 != 0 { 0x00FF_0000u32 } else { 0 }) | (if fields & 8 != 0 { 0xFF00_0000u32 } else { 0 })
}

/// MSR: the masked fields of CPSR or SPSR take the operand.
pub open spec fn msr_spec(c: Arm7Tdmi, instr: u32) -> Arm7Tdmi {
    let value = if (instr >> 25u32) & 1 != 0 { rotr(instr & 0xFF, (((instr >> 8u32) & 0xF) * 2) as u32) } else { c.regs[reg_field(instr, 0)] };
    let mask = msr_mask((instr >> 16u32) & 0xF);
    if (instr >> 22u32) & 1 != 0 {
        c.with_spsr((c.spsr_spec() & !mask) | (value & mask))
    } else {
        c.with_cpsr((c.cpsr & !mask) | (value & mask))
    }
}

/// B / BL: PC + 8 plus the sign-extended 24-bit offset times 4; BL puts PC + 4 in LR.
pub open spec fn branch_spec(c: Arm7Tdmi, instr: u32) -> Arm7Tdmi {
    let offset = (((instr & 0x00FF_FFFF) as i32) << 8i32) >> 6i32;
    let pc = wrap32(c.regs[15] + 8);
    let c2 = if (instr >> 24u32) & 1 != 0 { c.with_reg(14, wrap32(pc - 4)) } else { c };
    c2.with_reg(15, wrap32(pc + offset))
}

/// BX: jump to Rn, entering THUMB when bit 0 is set.
pub open spec fn bx_spec(c: Arm7Tdmi, instr: u32) -> Arm7Tdmi {
    let addr = c.regs[reg_field(instr, 0)];
    if addr & 1 != 0 {
        c.with_cpsr(with_flag(c.cpsr, T_FLAG, true)).with_reg(15, addr & !1u32)
    } else {
        c.with_reg(15, addr & !3u32)
    }
}

/// One ARM instruction (PC already past it): the CPU, the bus and the
/// cycles. A failed condition costs one cycle and changes nothing.
#[verifier::opaque]
pub open spec fn arm_spec(c: Arm7Tdmi, b: BusView, instr: u32) -> (Arm7Tdmi, BusView, u32) {
    let top = (instr >> 25u32) & 0x7;
    let b27_20 = (instr >> 20u32) & 0xFF;
    let b7_4 = (instr >> 4u32) & 0xF;
    if !cond_holds(c.cpsr, instr >> 28u32) {
        (c, b, 1)
    } else if instr & 0x0FFF_FFF0 == 0x012F_FF10 {
        (bx_spec(c, instr), b, 3)
    } else if (b27_20 & 0xFB) == 0x10 && b7_4 == 0x9 {
        swp_spec(c, b, instr)
    } else if (b27_20 & 0xFC) == 0x00 && b7_4 == 0x9 {
        let (c2, n) = mul_spec(c, instr); (c2, b, n)
    } else if (b27_20 & 0xF8) == 0x08 && b7_4 == 0x9 {
        let (c2, n) = mull_spec(c, instr); (c2, b, n)
    } else if top == 0 && (b7_4 & 0x9) == 0x9 && ((instr >> 5u32) & 3) != 0 {
        halfword_spec(c, b, instr)
    } else if top == 0 || top == 1 {
        if (b27_20 & 0xFB) == 0x10 && (instr & 0xFFF) == 0 {
            (c.with_reg(reg_field(instr, 12), if (instr >> 22u32) & 1 != 0 { c.spsr_spec() } else { c.cpsr }), b, 1)
        } else if (b27_20 & 0xFB) == 0x12 || (b27_20 & 0xFB) == 0x32 {
            (msr_spec(c, instr), b, 1)
        } else {
            let (c2, n) = dp_spec(c, instr, (instr >> 21u32) & 0xF, (instr >> 20u32) & 1 != 0); (c2, b, n)
        }
    } else if top == 2 || top == 3 {
        single_spec(c, b, instr)
    } else if top == 4 {
        block_spec(c, b, instr)
    } else if top == 5 {
        (branch_spec(c, instr), b, 3)
    } else if top == 7 && (instr >> 24u32) & 0xF == 0xF {
        (c.exception_spec(CpuMode::Supervisor, 0x08), b, 1)
    } else {
        (c, b, 1)
    }
}

/// Bit facts of the barrel shifter for a shift by 1..=31: a left shift only
/// keeps the bits that stay inside the word, and the two halves that RRX
/// and ROR join never overlap.
proof fn lemma_shifter_bits(x: u32, n: u32)
    requires 1 <= n < 32,
    ensures
        x << n == (x & (((1u32 << ((32 - n) as u32)) - 1) as u32)) << n,
        0x8000_0000u32 | (x >> 1u32) == (x >> 1u32) + 0x8000_0000u32,
        0u32 | (x >> 1u32) == x >> 1u32,
        (x >> n) | (x << ((32 - n) as u32)) == (x >> n) + (x << ((32 - n) as u32)),
{
    assert(x << n == (x & (((1u32 << ((32 - n) as u32)) - 1) as u32)) << n
        && 0x8000_0000u32 | (x >> 1u32) == (x >> 1u32) + 0x8000_0000u32
        && 0u32 | (x >> 1u32) == x >> 1u32
        && (x >> n) | (x << ((32 - n) as u32)) == (x >> n) + (x << ((32 - n) as u32))) by (bit_vector)
        requires 1 <= n < 32;
}

/// A left shift by 1..=31 as arithmetic: the low `32 - n` bits of `x`
/// multiplied by 2^n.
proof fn lemma_shl_arith(x: u32, n: u32)
    requires 1 <= n < 32,
    ensures x << n == (x as int % pow2((32 - n) as nat) as int) * pow2(n as nat),
{
    let k = (32 - n) as u32;
    lemma_shifter_bits(x, n);
    vstd::bits::lemma_u32_pow2_no_overflow(k as nat);
    vstd::bits::lemma_u32_pow2_no_overflow(n as nat);
    vstd::bits::lemma_u32_shl_is_mul(1u32, k);
    vstd::bits::lemma_u32_low_bits_mask_is_mod(x, k as nat);
    let p = pow2(k as nat) as int;
    let q = pow2(n as nat) as int;
    let mask = ((1u32 << k) - 1) as u32;
    assert(mask == vstd::bits::low_bits_mask(k as nat) as u32);
    let y = (x & mask) as int;
    assert(y == x as int % p && 0 <= y < p);
    vstd::arithmetic::power2::lemma_pow2_adds(k as nat, n as nat);
    vstd::arithmetic::power2::lemma2_to64();
    assert(p * q == 0x1_0000_0000);
    vstd::arithmetic::mul::lemma_mul_inequality(y, p - 1, q);
    vstd::arithmetic::mul::lemma_mul_is_distributive_sub_other_way(q, p, 1);
    assert(y * q <= u32::MAX);
    vstd::bits::lemma_u32_shl_is_mul(x & mask, n);
}

/// The barrel shifter as arithmetic on the operand `x` and an amount `n` of
/// 1..=31: LSL keeps the low `32 - n` bits times 2^n with the last bit shifted
/// out as carry; LSR divides by 2^n with bit `n - 1` as carry; ROR moves the
/// low `n` bits to the top with the new bit 31 as carry. An encoded amount
/// of 0 means LSL #0 (no change), LSR #32 (0, carry from bit 31) and RRX
/// (the carry shifted in at the top, bit 0 out as carry).
pub proof fn lemma_barrel_shifter(x: u32, n: u32, c: bool)
    ensures
        1 <= n < 32 ==> shift_spec(x, 0, n, c).0 == (x as int % pow2((32 - n) as nat) as int) * pow2(n as nat)
            && shift_spec(x, 0, n, c).1 == ((x as int / pow2((32 - n) as nat) as int) % 2 == 1),
        1 <= n < 32 ==> shift_spec(x, 1, n, c).0 == x as int / pow2(n as nat) as int
            && shift_spec(x, 1, n, c).1 == ((x as int / pow2((n - 1) as nat) as int) % 2 == 1),
        1 <= n < 32 ==> shift_spec(x, 3, n, c).0 == x as int / pow2(n as nat) as int + (x as int % pow2(n as nat) as int) * pow2((32 - n) as nat)
            && shift_spec(x, 3, n, c).1 == (shift_spec(x, 3, n, c).0 >= 0x8000_0000),
        shift_spec(x, 0, 0, c) == (x, c),
        shift_spec(x, 1, 0, c) == (0u32, x >= 0x8000_0000),
        shift_spec(x, 3, 0, c).0 == x / 2 + (if c { 0x8000_0000int } else { 0 })
            && shift_spec(x, 3, 0, c).1 == (x % 2 == 1),
{
    reveal(shift_spec);
    vstd::bits::lemma_low_bits_mask_values();
    vstd::arithmetic::power2::lemma2_to64();
    vstd::bits::lemma_u32_shr_is_div(x, 1u32);
    vstd::bits::lemma_u32_low_bits_mask_is_mod(x, 1);
    assert(x & 1u32 == x % 2);
    lemma_shifter_bits(x, 1);
    assert(x >> 1u32 == x / 2);
    assert(bit31(x) == (x >= 0x8000_0000)) by {
        vstd::bits::lemma_u32_shr_is_div(x, 31u32);
    }
    if 1 <= n < 32 {
        let k = (32 - n) as u32;
        let m = (n - 1) as u32;
        vstd::bits::lemma_u32_shr_is_div(x, n);
        vstd::bits::lemma_u32_shr_is_div(x, k);
        vstd::bits::lemma_u32_shr_is_div(x, m);
        vstd::bits::lemma_u32_low_bits_mask_is_mod(x >> k, 1);
        vstd::bits::lemma_u32_low_bits_mask_is_mod(x >> m, 1);
        lemma_shl_arith(x, n);
        lemma_shl_arith(x, k);
        lemma_shifter_bits(x, n);
        assert(n % 32 == n);
        let r = rotr(x, n);
        assert(bit31(r) == (r >= 0x8000_0000)) by {
            vstd::bits::lemma_u32_shr_is_div(r, 31u32);
        }
    }
}

/// The 24-bit branch field as a signed word offset: shifted left by 2 and
/// sign-extended from bit 25.
proof fn lemma_branch_offset(imm: u32)
    requires imm < 0x100_0000,
    ensures
        ((((imm as i32) << 8i32) >> 6i32) as int)
            == (if imm < 0x80_0000 { 4 * imm as int } else { 4 * imm as int - 0x400_0000 }),
{
    assert(((((imm as i32) << 8i32) >> 6i32) as i64)
        == (if imm < 0x80_0000u32 { (imm as i64) * 4 } else { (imm as i64) * 4 - 0x400_0000i64 })) by (bit_vector)
        requires imm < 0x100_0000u32;
}

/// B and BL jump to the instruction address plus 8 plus four times the
/// signed 24-bit offset, modulo 2^32; BL also puts the address of the next
/// instruction in LR. MUL and MLA leave in Rd the product of Rm and Rs
/// (plus Rn for MLA) modulo 2^32.
pub proof fn lemma_arm_branch_mul(c: Arm7Tdmi, instr: u32)
    ensures
        ({
            let imm = instr & 0x00FF_FFFF;
            let off = if imm < 0x80_0000 { 4 * imm as int } else { 4 * imm as int - 0x400_0000 };
            let b = branch_spec(c, instr);
            &&& b.regs[15] == (c.regs[15] + 8 + off) % 0x1_0000_0000
            &&& (instr >> 24u32) & 1 != 0 ==> b.regs[14] == (c.regs[15] + 4) % 0x1_0000_0000
            &&& (instr >> 24u32) & 1 == 0 ==> b.regs[14] == c.regs[14]
        }),
        ({
            let rd = ((instr >> 16u32) & 0xF) as int;
            let acc: int = if (instr >> 21u32) & 1 != 0 { c.regs[((instr >> 12u32) & 0xF) as int] as int } else { 0 };
            mul_spec(c, instr).0.regs[rd]
                == (c.regs[(instr & 0xF) as int] * c.regs[((instr >> 8u32) & 0xF) as int] + acc) % 0x1_0000_0000
        }),
{
    let imm = instr & 0x00FF_FFFF;
    lemma_branch_offset(imm);
    let pc = wrap32(c.regs[15] + 8);
    let off = if imm < 0x80_0000 { 4 * imm as int } else { 4 * imm as int - 0x400_0000 };
    vstd::arithmetic::div_mod::lemma_add_mod_noop_right(off, c.regs[15] + 8, 0x1_0000_0000);
    vstd::arithmetic::div_mod::lemma_add_mod_noop_right(-4, c.regs[15] + 8, 0x1_0000_0000);
    let p = c.regs[(instr & 0xF) as int] * c.regs[((instr >> 8u32) & 0xF) as int];
    vstd::arithmetic::div_mod::lemma_add_mod_noop_right(c.regs[((instr >> 12u32) & 0xF) as int] as int, p, 0x1_0000_0000);
    assert(reg_field(instr, 16) == ((instr >> 16u32) & 0xF) as int);
}

/// Reading back the flags that an ALU operation writes: Z tells whether the
/// result is zero, and C (and then V) are the values set last.
proof fn lemma_nzcv_read(psr: u32, r: u32, cv: bool, vv: bool)
    ensures
        flag_set(with_flag(with_nz(psr, r), C_FLAG, cv), Z_FLAG) == (r == 0),
        flag_set(with_flag(with_nz(psr, r), C_FLAG, cv), C_FLAG) == cv,
        flag_set(with_flag(with_flag(with_nz(psr, r), C_FLAG, cv), V_FLAG, vv), Z_FLAG) == (r == 0),
        flag_set(with_flag(with_flag(with_nz(psr, r), C_FLAG, cv), V_FLAG, vv), C_FLAG) == cv,
{
    let p0 = with_flag(psr, N_FLAG, r & 0x8000_0000 != 0);
    let p1 = with_nz(psr, r);
    let p2 = with_flag(p1, C_FLAG, cv);
    lemma_flag_roundtrip(p0, Z_FLAG, C_FLAG, r == 0);
    lemma_flag_roundtrip(p1, C_FLAG, Z_FLAG, cv);
    lemma_flag_roundtrip(p2, V_FLAG, Z_FLAG, vv);
    lemma_flag_roundtrip(p2, V_FLAG, C_FLAG, vv);
}

/// What the sixteen data-processing operations compute from their operands:
/// the logical ones combine them bitwise (BIC clears the bits of operand 2,
/// MOV and MVN take operand 2 alone), the arithmetic ones work modulo 2^32
/// with the incoming carry for ADC, SBC and RSC, and TST, TEQ, CMP and CMN
/// write no register. Without S a written result leaves the status register
/// alone. Where flags are set, Z tells whether the result is zero; C is the
/// shifter carry for the logical operations, "no borrow" (op1 >= op2) for
/// SUB and CMP, and the carry out of the 32-bit sum for ADD and CMN.
pub proof fn lemma_arm_alu_results(opcode: u32, op1: u32, op2: u32, s: bool, sc: bool, psr: u32)
    requires
        opcode < 16,
    ensures
        ({
            let (r, p2, w) = alu_spec(opcode, op1, op2, s, sc, psr);
            let cin: int = if flag_set(psr, C_FLAG) { 1 } else { 0 };
            let logical = opcode == 0x0 || opcode == 0x1 || opcode == 0x8 || opcode == 0x9 || opcode >= 0xC;
            let flags = s || (0x8 <= opcode <= 0xB);
            &&& w == !(0x8 <= opcode <= 0xB)
            &&& !s && w ==> p2 == psr
            &&& (opcode == 0x0 || opcode == 0x8) ==> r == op1 & op2
            &&& (opcode == 0x1 || opcode == 0x9) ==> r == op1 ^ op2
            &&& (opcode == 0x2 || opcode == 0xA) ==> r == (op1 - op2) % 0x1_0000_0000
            &&& opcode == 0x3 ==> r == (op2 - op1) % 0x1_0000_0000
            &&& (opcode == 0x4 || opcode == 0xB) ==> r == (op1 + op2) % 0x1_0000_0000
            &&& opcode == 0x5 ==> r == (op1 + op2 + cin) % 0x1_0000_0000
            &&& opcode == 0x6 ==> r == (op1 - op2 - 1 + cin) % 0x1_0000_0000
            &&& opcode == 0x7 ==> r == (op2 - op1 - 1 + cin) % 0x1_0000_0000
            &&& opcode == 0xC ==> r == op1 | op2
            &&& opcode == 0xD ==> r == op2
            &&& opcode == 0xE ==> r & op2 == 0 && r | (op1 & op2) == op1
            &&& opcode == 0xF ==> r == !op2
            &&& logical && flags ==> flag_set(p2, C_FLAG) == sc && flag_set(p2, Z_FLAG) == (r == 0)
            &&& (opcode == 0x2 || opcode == 0xA) && flags ==>
                flag_set(p2, C_FLAG) == (op1 >= op2) && flag_set(p2, Z_FLAG) == (op1 == op2)
            &&& (opcode == 0x4 || opcode == 0xB) && flags ==>
                flag_set(p2, C_FLAG) == (op1 + op2 > 0xFFFF_FFFF) && flag_set(p2, Z_FLAG) == ((op1 + op2) % 0x1_0000_0000 == 0)
        }),
{
    reveal(alu_spec);
    let (r, p2, w) = alu_spec(opcode, op1, op2, s, sc, psr);
    if opcode == 0xE {
        crate::bits::lemma_bit_clear(op1, op2);
    }
    let r_sub = wrap32(op1 - op2);
    let r_add = wrap32(op1 + op2);
    lemma_nzcv_read(psr, r, sc, false);
    lemma_nzcv_read(psr, r_sub, op1 >= op2, bit31(op1) != bit31(op2) && bit31(op1) != bit31(r_sub));
    lemma_nzcv_read(psr, r_add, r_add < op1, bit31(op1) == bit31(op2) && bit31(op1) != bit31(r_add));
    assert(r_add < op1 <==> op1 + op2 > 0xFFFF_FFFF);
}

/// The flags that a subtraction sets, read back: N is bit 31 of the result,
/// Z whether it is zero, C "no borrow" and V signed overflow.
proof fn lemma_sub_flags_read(psr: u32, a: u32, b: u32)
    ensures
        ({
            let r = wrap32(a - b);
            let p = sub_flags(psr, a, b);
            &&& flag_set(p, N_FLAG) == (r >= 0x8000_0000)
            &&& flag_set(p, Z_FLAG) == (r == 0)
            &&& flag_set(p, C_FLAG) == (a >= b)
            &&& flag_set(p, V_FLAG) == (bit31(a) != bit31(b) && bit31(a) != bit31(r))
        }),
{
    let r = wrap32(a - b);
    let p0 = with_flag(psr, N_FLAG, r & 0x8000_0000 != 0);
    let p1 = with_nz(psr, r);
    let p2 = with_flag(p1, C_FLAG, a >= b);
    let vv = bit31(a) != bit31(b) && bit31(a) != bit31(r);
    lemma_flag_roundtrip(psr, N_FLAG, Z_FLAG, r & 0x8000_0000 != 0);
    lemma_flag_roundtrip(p0, Z_FLAG, N_FLAG, r == 0);
    lemma_flag_roundtrip(p1, C_FLAG, N_FLAG, a >= b);
    lemma_flag_roundtrip(p1, C_FLAG, Z_FLAG, a >= b);
    lemma_flag_roundtrip(p2, V_FLAG, N_FLAG, vv);
    lemma_flag_roundtrip(p2, V_FLAG, Z_FLAG, vv);
    lemma_flag_roundtrip(p2, V_FLAG, C_FLAG, vv);
    crate::bits::lemma_bit31_mask(r);
}

/// Bit 31 of a word is set exactly for the words of 2^31 and above.
proof fn lemma_bit31_value(x: u32)
    ensures bit31(x) == (x >= 0x8000_0000),
{
    vstd::bits::lemma_u32_shr_is_div(x, 31u32);
    vstd::arithmetic::power2::lemma2_to64();
    assert(x >> 31u32 == x / 0x8000_0000);
}

/// The value of a word read as a signed 32-bit integer.
pub open spec fn signed32(x: u32) -> int {
    if x >= 0x8000_0000 { x - 0x1_0000_0000 } else { x as int }
}

/// After CMP a, b the condition codes compare the operands: EQ/NE test
/// equality, CS/CC, HI and LS compare them as unsigned numbers, and GE, LT,
/// GT and LE compare them as signed numbers.
pub proof fn lemma_cmp_conditions(psr: u32, a: u32, b: u32)
    ensures
        ({
            let p = sub_flags(psr, a, b);
            &&& cond_holds(p, 0x0) == (a == b)
            &&& cond_holds(p, 0x1) == (a != b)
            &&& cond_holds(p, 0x2) == (a >= b)
            &&& cond_holds(p, 0x3) == (a < b)
            &&& cond_holds(p, 0x8) == (a > b)
            &&& cond_holds(p, 0x9) == (a <= b)
            &&& cond_holds(p, 0xA) == (signed32(a) >= signed32(b))
            &&& cond_holds(p, 0xB) == (signed32(a) < signed32(b))
            &&& cond_holds(p, 0xC) == (signed32(a) > signed32(b))
            &&& cond_holds(p, 0xD) == (signed32(a) <= signed32(b))
        }),
{
    lemma_sub_flags_read(psr, a, b);
    let r = wrap32(a - b);
    lemma_bit31_value(a);
    lemma_bit31_value(b);
    lemma_bit31_value(r);
    assert(r == (if a >= b { a - b } else { a - b + 0x1_0000_0000 }));
}

/// The sign of a word spread over all 32 bits.
pub proof fn lemma_sign_spread(x: u32)
    ensures
        ((x as i32) >> 31i32) as u32 == (if x >> 31u32 != 0 { 0xFFFF_FFFFu32 } else { 0u32 }),
        (((x as i32) >> 31i32) != 0) == (x >> 31u32 != 0),
{
    assert(((x as i32) >> 31i32) as u32 == (if x >> 31u32 != 0 { 0xFFFF_FFFFu32 } else { 0u32 })
        && (((x as i32) >> 31i32) != 0) == (x >> 31u32 != 0)) by (bit_vector);
}

/// Barrel shifter: applies the shift and updates the carry flag.
pub fn barrel_shift(_cpu: &Arm7Tdmi, operand: u32, shift_type: u32, amount: u32, carry: &mut bool) -> (r: u32)
    ensures (r, *final(carry)) == shift_spec(operand, shift_type, amount, *old(carry)),
{
    proof { reveal(shift_spec); }
    proof { lemma_sign_spread(operand); }
    if amount == 0 {
        // Special cases for zero shift amount (encoded shifts)
        match shift_type {
            0 => operand, // LSL #0 = no shift
            1 => {
                // LSR #0 means LSR #32
                *carry = (operand >> 31) != 0;
                0
            }
            2 => {
                // ASR #0 means ASR #32
                *carry = (operand >> 31) != 0;
                if *carry { 0xFFFF_FFFF } else { 0 }
            }
            3 => {
                // ROR #0 means RRX (rotate right extended by 1)
                let old_carry: u32 = if *carry { 0x8000_0000 } else { 0 };
                *carry = (operand & 1) != 0;
                old_carry | (operand >> 1)
            }
            _ => operand,
        }
    } else {
        match shift_type {
            0 => {
                // LSL
                if amount >= 32 {
                    *carry = amount == 32 && (operand & 1) != 0;
                    0
                } else {
                    *carry = ((operand >> (32 - amount)) & 1) != 0;
                    operand << amount
                }
            }
            1 => {
                // LSR
                if amount >= 32 {
                    *carry = amount == 32 && (operand >> 31) != 0;
                    0
                } else {
                    *carry = ((operand >> (amount - 1)) & 1) != 0;
                    operand >> amount
                }
            }
            2 => {
                // ASR
                if amount >= 32 {
                    let sign = (operand as i32) >> 31i32;
                    *carry = sign != 0;
                    sign as u32
                } else {
                    *carry = (((operand as i32) >> ((amount - 1) as i32)) & 1) != 0;
                    ((operand as i32) >> (amount as i32)) as u32
                }
            }
            3 => {
                // ROR
                let amount = amount % 32;
                if amount == 0 {
                    *carry = (operand >> 31) != 0;
                    operand
                } else {
                    let result = (operand >> amount) | (operand << (32 - amount));
                    *carry = (result >> 31) != 0;
                    result
                }
            }
            _ => operand,
        }
    }
}

/// Decode operand 2 for data processing with immediate shift.
fn decode_operand2_imm_shift(cpu: &Arm7Tdmi, instruction: u32, carry: &mut bool) -> (r: u32)
    requires (instruction >> 25u32) & 1 == 0, (instruction >> 4u32) & 1 == 0,
    ensures (r, *final(carry)) == operand2_spec(*cpu, instruction, *old(carry)),
{
    proof { reveal(operand2_spec); }
    let rm = instruction & 0xF;
    let shift_type = (instruction >> 5) & 3;
    let shift_amount = (instruction >> 7) & 0x1F;
    let mut operand = cpu.regs[rm as usize];
    if rm == 15 {
        operand = operand.wrapping_add(8);
    }
    barrel_shift(cpu, operand, shift_type, shift_amount, carry)
}

/// Decode operand 2 for data processing with register shift.
fn decode_operand2_reg_shift(cpu: &Arm7Tdmi, instruction: u32, carry: &mut bool) -> (r: u32)
    requires (instruction >> 25u32) & 1 == 0, (instruction >> 4u32) & 1 != 0,
    ensures (r, *final(carry)) == operand2_spec(*cpu, instruction, *old(carry)),
{
    proof { reveal(operand2_spec); }
    let rm = instruction & 0xF;
    let shift_type = (instruction >> 5) & 3;
    let rs = (instruction >> 8) & 0xF;
    let mut operand = cpu.regs[rm as usize];
    if rm == 15 {
        // extra +4 due to prefetch with reg shift
        operand = operand.wrapping_add(12);
    }
    let shift_amount = cpu.regs[rs as usize] & 0xFF;
    if shift_amount == 0 {
        return operand;
    }
    barrel_shift(cpu, operand, shift_type, shift_amount, carry)
}

/// Decode immediate operand (rotated 8-bit value).
fn decode_rotated_imm(_cpu: &Arm7Tdmi, instruction: u32, carry: &mut bool) -> (r: u32)
    requires (instruction >> 25u32) & 1 != 0,
    ensures (r, *final(carry)) == operand2_spec(*_cpu, instruction, *old(carry)),
{
    proof { reveal(operand2_spec); }
    let imm = instruction & 0xFF;
    let rotate = ((instruction >> 8) & 0xF) * 2;
    if rotate == 0 {
        imm
    } else {
        let result = (imm >> rotate) | (imm << (32 - rotate));
        *carry = (result >> 31) != 0;
        result
    }
}

/// Add with flags (a + b).
fn add_with_flags(a: u32, b: u32, set_flags: bool, cpu: &mut Arm7Tdmi) -> (r: u32)
    ensures
        r == wrap32(a + b),
        *final(cpu) == (if set_flags { old(cpu).with_cpsr(add_flags(old(cpu).cpsr, a, b)) } else { *old(cpu) }),
{
    let result = a.wrapping_add(b);
    if set_flags {
        cpu.set_nz(result);
        // unsigned overflow
        cpu.set_flag(C_FLAG, result < a);
        let va = a >> 31;
        let vb = b >> 31;
        let vr = result >> 31;
        cpu.set_flag(V_FLAG, (va == vb) && (va != vr));
    }
    result
}

/// Subtract with flags (a - b).
fn sub_with_flags(a: u32, b: u32, set_flags: bool, cpu: &mut Arm7Tdmi) -> (r: u32)
    ensures
        r == wrap32(a - b),
        *final(cpu) == (if set_flags { old(cpu).with_cpsr(sub_flags(old(cpu).cpsr, a, b)) } else { *old(cpu) }),
{
    let result = a.wrapping_sub(b);
    if set_flags {
        cpu.set_nz(result);
        // no borrow
        cpu.set_flag(C_FLAG, a >= b);
        let va = a >> 31;
        let vb = b >> 31;
        let vr = result >> 31;
        cpu.set_flag(V_FLAG, (va != vb) && (va != vr));
    }
    result
}

/// Execute a single 32-bit ARM instruction. Returns cycles consumed.
pub fn execute_arm(cpu: &mut Arm7Tdmi, bus: &mut Bus, instruction: u32) -> (cycles: u32)
    requires old(bus)@.wf(),
    ensures
        (*final(cpu), final(bus)@, cycles) == arm_spec(*old(cpu), old(bus)@, instruction),
        final(bus)@.wf(),
        1 <= cycles <= 64,
{
    proof { reveal(arm_spec); }
    // Check condition (bits 31-28)
    let cond = instruction >> 28;
    if !cpu.check_condition(cond) {
        return 1; // 1S cycle for failed condition
    }

    // Decode by bits 27-25
    let bits_27_25 = (instruction >> 25) & 0x7;
    let bits_27_20 = (instruction >> 20) & 0xFF;
    let bits_7_4 = (instruction >> 4) & 0xF;

    // Branch Exchange (BX): 0001_0010_1111_1111_1111_0001
    if instruction & 0x0FFF_FFF0 == 0x012F_FF10 {
        return exec_bx(cpu, instruction);
    }

    // SWP/SWPB: bits 27-23 = 00010, bits 11-4 = 0000_1001
    if (bits_27_20 & 0xFB) == 0x10 && bits_7_4 == 0x9 {
        return exec_swp(cpu, bus, instruction);
    }

    // Multiply: bits 27-22 = 000000, bits 7-4 = 1001
    if (bits_27_20 & 0xFC) == 0x00 && bits_7_4 == 0x9 {
        return exec_multiply(cpu, instruction);
    }

    // Multiply Long: bits 27-23 = 00001, bits 7-4 = 1001
    if (bits_27_20 & 0xF8) == 0x08 && bits_7_4 == 0x9 {
        return exec_multiply_long(cpu, instruction);
    }

    // Halfword Transfer: bits 27-25 = 000, bit 7=1, bit 4=1, bits 6-5 != 00
    if bits_27_25 == 0 && (bits_7_4 & 0x9) == 0x9 && ((instruction >> 5) & 3) != 0 {
        return exec_halfword_transfer(cpu, bus, instruction);
    }

    match bits_27_25 {
        0 | 1 => {
            // Data processing or PSR transfer
            let opcode = (instruction >> 21) & 0xF;
            let s_bit = (instruction >> 20) & 1;

            // MRS: bits 27-23 = 00010, bit 21=0, bits 11-0 = 0
            if (bits_27_20 & 0xFB) == 0x10 && (instruction & 0xFFF) == 0 {
                return exec_mrs(cpu, instruction);
            }

            // MSR: bits 27-23 = 00x10, bit 21=1
            if (bits_27_20 & 0xFB) == 0x12 || (bits_27_20 & 0xFB) == 0x32 {
                return exec_msr(cpu, instruction);
            }

            exec_data_processing(cpu, bus, instruction, opcode, s_bit != 0)
        }
        // Single data transfer (LDR/STR)
        2 | 3 => exec_single_transfer(cpu, bus, instruction),
        // Block data transfer (LDM/STM)
        4 => exec_block_transfer(cpu, bus, instruction),
        // Branch (B/BL)
        5 => exec_branch(cpu, instruction),
        7 => {
            // SWI (bits 27-24 = 1111)
            if (instruction >> 24) & 0xF == 0xF {
                exec_swi(cpu);
            }
            1
        }
        // Coprocessor or undefined
        _ => 1,
    }
}

fn exec_bx(cpu: &mut Arm7Tdmi, instruction: u32) -> (cycles: u32)
    ensures *final(cpu) == bx_spec(*old(cpu), instruction), cycles == 3,
        1 <= cycles <= 64,
{
    let rn = instruction & 0xF;
    let addr = cpu.regs[rn as usize];
    if addr & 1 != 0 {
        // Switch to THUMB
        cpu.set_flag(T_FLAG, true);
        cpu.regs[15] = addr & !1;
    } else {
        cpu.regs[15] = addr & !3;
    }
    3 // 2S + 1N (pipeline flush)
}

fn exec_branch(cpu: &mut Arm7Tdmi, instruction: u32) -> (cycles: u32)
    ensures *final(cpu) == branch_spec(*old(cpu), instruction), cycles == 3,
        1 <= cycles <= 64,
{
    let link = (instruction >> 24) & 1;
    // 24-bit signed offset, shifted left 2
    let offset = ((instruction & 0x00FF_FFFF) as i32) << 8i32 >> 6i32; // sign extend and *4
    let pc = cpu.regs[15].wrapping_add(8);
    if link != 0 {
        // return address = next instruction
        cpu.regs[14] = pc.wrapping_sub(4);
    }
    cpu.regs[15] = add_offset(pc, offset);
    3 // 2S + 1N
}

/// `pc` plus a signed offset, wrapping around.
pub fn add_offset(pc: u32, offset: i32) -> (r: u32)
    ensures r == wrap32(pc + offset),
{
    if offset >= 0 { pc.wrapping_add(offset as u32) } else { pc.wrapping_sub((0i64 - offset as i64) as u32) }
}

fn exec_data_processing(cpu: &mut Arm7Tdmi, _bus: &mut Bus, instruction: u32, opcode: u32, s_bit: bool) -> (cycles: u32)
    requires opcode == (instruction >> 21u32) & 0xF,
    ensures
        (*final(cpu), cycles) == dp_spec(*old(cpu), instruction, opcode, s_bit),
        *final(_bus) == *old(_bus),
        1 <= cycles <= 64,
{
    let rd = ((instruction >> 12) & 0xF) as usize;
    let rn_idx = ((instruction >> 16) & 0xF) as usize;
    let is_imm = (instruction >> 25) & 1 != 0;
    let mut carry = cpu.get_flag(C_FLAG);

    // Get operand 1 (Rn)
    let mut op1 = cpu.regs[rn_idx];
    if rn_idx == 15 {
        op1 = op1.wrapping_add(8);
        if !is_imm && (instruction >> 4) & 1 != 0 {
            op1 = op1.wrapping_add(4); // register shift adds extra +4
        }
    }

    // Get operand 2
    let op2 = if is_imm {
        decode_rotated_imm(cpu, instruction, &mut carry)
    } else if (instruction >> 4) & 1 != 0 {
        // Register shift
        decode_operand2_reg_shift(cpu, instruction, &mut carry)
    } else {
        // Immediate shift
        decode_operand2_imm_shift(cpu, instruction, &mut carry)
    };

    let (result, write_result) = alu_op(cpu, opcode, op1, op2, s_bit, carry);
    let mut cycles = 1u32;
    if write_result {
        if rd == 15 {
            cpu.regs[15] = result & !3;
            if s_bit {
                // Restore CPSR from SPSR
                cpu.cpsr = cpu.spsr();
            }
            cycles = 3; // pipeline flush
        } else {
            cpu.regs[rd] = result;
        }
    }

    // Extra cycle for register-specified shift
    if !is_imm && (instruction >> 4) & 1 != 0 {
        cycles += 1;
    }
    cycles
}

/// The ALU part of a data-processing instruction (see `alu_spec`).
fn alu_op(cpu: &mut Arm7Tdmi, opcode: u32, op1: u32, op2: u32, s_bit: bool, carry: bool) -> (r: (u32, bool))
    requires opcode < 16,
    ensures
        ({
            let (res, psr, write) = alu_spec(opcode, op1, op2, s_bit, carry, old(cpu).cpsr);
            &&& r == (res, write)
            &&& *final(cpu) == old(cpu).with_cpsr(psr)
        }),
{
    if opcode == 0x5 || opcode == 0x6 || opcode == 0x7 {
        alu_with_carry(cpu, opcode, op1, op2, s_bit, carry)
    } else if opcode == 0x2 || opcode == 0x3 || opcode == 0x4 || opcode == 0xA || opcode == 0xB {
        alu_add_sub(cpu, opcode, op1, op2, s_bit, carry)
    } else {
        alu_logic(cpu, opcode, op1, op2, s_bit, carry)
    }
}

/// Two wrapping steps are one wrapping of the combined sum or difference.
proof fn lemma_wrap32_chain(a: u32, b: u32, c: int)
    requires 0 <= c <= 1,
    ensures
        a.wrapping_add(b).wrapping_add(c as u32) == wrap32(a + b + c),
        a.wrapping_sub(b).wrapping_sub((1 - c) as u32) == wrap32(a - b - (1 - c)),
{
    let s = a + b;
    if s >= 0x1_0000_0000 {
        assert(a.wrapping_add(b) == s - 0x1_0000_0000);
    } else {
        assert(a.wrapping_add(b) == s);
    }
    let d = a - b;
    if d < 0 {
        assert(a.wrapping_sub(b) == d + 0x1_0000_0000);
    } else {
        assert(a.wrapping_sub(b) == d);
    }
}

/// AND, EOR, TST, TEQ, ORR, MOV, BIC and MVN.
fn alu_logic(cpu: &mut Arm7Tdmi, opcode: u32, op1: u32, op2: u32, s_bit: bool, carry: bool) -> (r: (u32, bool))
    requires opcode == 0x0 || opcode == 0x1 || opcode == 0x8 || opcode == 0x9 || opcode == 0xC || opcode == 0xD || opcode == 0xE || opcode == 0xF,
    ensures
        ({
            let (res, psr, write) = alu_spec(opcode, op1, op2, s_bit, carry, old(cpu).cpsr);
            &&& r == (res, write)
            &&& *final(cpu) == old(cpu).with_cpsr(psr)
        }),
{
    proof { reveal(alu_spec); }
    match opcode {
        0x0 => {
            // AND
            let r = op1 & op2;
            if s_bit {
                cpu.set_nz(r);
                cpu.set_flag(C_FLAG, carry);
            }
            return (r, true);
        }
        0x1 => {
            // EOR
            let r = op1 ^ op2;
            if s_bit {
                cpu.set_nz(r);
                cpu.set_flag(C_FLAG, carry);
            }
            return (r, true);
        }
        // SUB
        0x8 => {
            // TST
            let r = op1 & op2;
            cpu.set_nz(r);
            cpu.set_flag(C_FLAG, carry);
            return (r, false);
        }
        0x9 => {
            // TEQ
            let r = op1 ^ op2;
            cpu.set_nz(r);
            cpu.set_flag(C_FLAG, carry);
            return (r, false);
        }
        // CMP
        0xC => {
            // ORR
            let r = op1 | op2;
            if s_bit {
                cpu.set_nz(r);
                cpu.set_flag(C_FLAG, carry);
            }
            return (r, true);
        }
        0xD => {
            // MOV
            if s_bit {
                cpu.set_nz(op2);
                cpu.set_flag(C_FLAG, carry);
            }
            return (op2, true);
        }
        0xE => {
            // BIC
            let r = op1 & !op2;
            if s_bit {
                cpu.set_nz(r);
                cpu.set_flag(C_FLAG, carry);
            }
            return (r, true);
        }
        _ => {
            // MVN
            let r = !op2;
            if s_bit {
                cpu.set_nz(r);
                cpu.set_flag(C_FLAG, carry);
            }
            return (r, true);
        }
    }
}

/// SUB, RSB, ADD, CMP and CMN.
fn alu_add_sub(cpu: &mut Arm7Tdmi, opcode: u32, op1: u32, op2: u32, s_bit: bool, carry: bool) -> (r: (u32, bool))
    requires opcode == 0x2 || opcode == 0x3 || opcode == 0x4 || opcode == 0xA || opcode == 0xB,
    ensures
        ({
            let (res, psr, write) = alu_spec(opcode, op1, op2, s_bit, carry, old(cpu).cpsr);
            &&& r == (res, write)
            &&& *final(cpu) == old(cpu).with_cpsr(psr)
        }),
{
    proof { reveal(alu_spec); }
    match opcode {
        0x2 => { let r = sub_with_flags(op1, op2, s_bit, cpu); return (r, true); }
        // RSB
        0x3 => { let r = sub_with_flags(op2, op1, s_bit, cpu); return (r, true); }
        // ADD
        0x4 => { let r = add_with_flags(op1, op2, s_bit, cpu); return (r, true); }
        0xA => { let r = sub_with_flags(op1, op2, true, cpu); return (r, false); }
        // CMN
        _ => { let r = add_with_flags(op1, op2, true, cpu); return (r, false); }
    }
}

/// ADC, SBC and RSC.
#[verifier::rlimit(40)]
fn alu_with_carry(cpu: &mut Arm7Tdmi, opcode: u32, op1: u32, op2: u32, s_bit: bool, carry: bool) -> (r: (u32, bool))
    requires opcode == 0x5 || opcode == 0x6 || opcode == 0x7,
    ensures
        ({
            let (res, psr, write) = alu_spec(opcode, op1, op2, s_bit, carry, old(cpu).cpsr);
            &&& r == (res, write)
            &&& *final(cpu) == old(cpu).with_cpsr(psr)
        }),
{
    proof { reveal(alu_spec); }
    match opcode {
        0x5 => {
            // ADC
            let c: u32 = if cpu.get_flag(C_FLAG) { 1 } else { 0 };
            proof { lemma_wrap32_chain(op1, op2, c as int); }
            let tmp = op1.wrapping_add(op2).wrapping_add(c);
            if s_bit {
                cpu.set_nz(tmp);
                let carry_out = (op1 as u64) + (op2 as u64) + (c as u64) > 0xFFFF_FFFF;
                cpu.set_flag(C_FLAG, carry_out);
                let va = op1 >> 31;
                let vb = op2 >> 31;
                let vr = tmp >> 31;
                cpu.set_flag(V_FLAG, (va == vb) && (va != vr));
            }
            return (tmp, true);
        }
        0x6 => {
            // SBC (op1 - op2 - !carry)
            let c: u32 = if cpu.get_flag(C_FLAG) { 1 } else { 0 };
            proof { lemma_wrap32_chain(op1, op2, c as int); }
            let tmp = op1.wrapping_sub(op2).wrapping_sub(1 - c);
            if s_bit {
                cpu.set_nz(tmp);
                let borrow = (op1 as u64) < (op2 as u64) + (1 - c as u64);
                cpu.set_flag(C_FLAG, !borrow);
                let va = op1 >> 31;
                let vb = op2 >> 31;
                let vr = tmp >> 31;
                cpu.set_flag(V_FLAG, (va != vb) && (va != vr));
            }
            return (tmp, true);
        }
        _ => {
            // RSC (op2 - op1 - !carry)
            let c: u32 = if cpu.get_flag(C_FLAG) { 1 } else { 0 };
            proof { lemma_wrap32_chain(op2, op1, c as int); }
            let tmp = op2.wrapping_sub(op1).wrapping_sub(1 - c);
            if s_bit {
                cpu.set_nz(tmp);
                let borrow = (op2 as u64) < (op1 as u64) + (1 - c as u64);
                cpu.set_flag(C_FLAG, !borrow);
                let va = op2 >> 31;
                let vb = op1 >> 31;
                let vr = tmp >> 31;
                cpu.set_flag(V_FLAG, (va != vb) && (va != vr));
            }
            return (tmp, true);
        }
    }
}

fn exec_multiply(cpu: &mut Arm7Tdmi, instruction: u32) -> (cycles: u32)
    ensures (*final(cpu), cycles) == mul_spec(*old(cpu), instruction),
        1 <= cycles <= 64,
{
    let rd = ((instruction >> 16) & 0xF) as usize;
    let rn = ((instruction >> 12) & 0xF) as usize;
    let rs = ((instruction >> 8) & 0xF) as usize;
    let rm = (instruction & 0xF) as usize;
    let accumulate = (instruction >> 21) & 1 != 0;
    let s_bit = (instruction >> 20) & 1 != 0;

    let mut result = cpu.regs[rm].wrapping_mul(cpu.regs[rs]);
    let mut cycles = multiply_cycles(cpu.regs[rs]);
    if accumulate {
        result = result.wrapping_add(cpu.regs[rn]);
        cycles += 1;
    }
    cpu.regs[rd] = result;
    if s_bit {
        // C flag is destroyed (unpredictable)
        cpu.set_nz(result);
    }
    cycles
}

#[verifier::spinoff_prover]
#[verifier::rlimit(40)]
fn exec_multiply_long(cpu: &mut Arm7Tdmi, instruction: u32) -> (cycles: u32)
    ensures (*final(cpu), cycles) == mull_spec(*old(cpu), instruction),
        1 <= cycles <= 64,
{
    let rd_hi = ((instruction >> 16) & 0xF) as usize;
    let rd_lo = ((instruction >> 12) & 0xF) as usize;
    let rs = ((instruction >> 8) & 0xF) as usize;
    let rm = (instruction & 0xF) as usize;
    let signed = (instruction >> 22) & 1 != 0;
    let accumulate = (instruction >> 21) & 1 != 0;
    let s_bit = (instruction >> 20) & 1 != 0;

    let mut result: u64 = long_product(cpu.regs[rm], cpu.regs[rs], signed);
    let mut cycles = multiply_cycles(cpu.regs[rs]) + 1;
    if accumulate {
        let acc = (cpu.regs[rd_hi] as u64) * 0x1_0000_0000 + (cpu.regs[rd_lo] as u64);
        result = result.wrapping_add(acc);
        cycles += 1;
    }
    cpu.regs[rd_lo] = (result % 0x1_0000_0000) as u32;
    cpu.regs[rd_hi] = (result / 0x1_0000_0000) as u32;
    if s_bit {
        // N from bit 63, Z from the full 64-bit result
        cpu.set_nz(cpu.regs[rd_hi]);
        let z = result == 0;
        cpu.set_flag(Z_FLAG, z);
        cpu.set_flag(N_FLAG, (result >> 63) != 0);
    }
    cycles
}

/// The 64-bit product of two words, signed or unsigned, as an unsigned value.
fn long_product(a: u32, b: u32, signed: bool) -> (r: u64)
    ensures r == (if signed { wrap64((a as i32) * (b as i32)) } else { wrap64(a * b) }),
{
    if signed {
        let x = a as i32 as i64;
        let y = b as i32 as i64;
        assert(-0x8000_0000 <= x < 0x8000_0000 && -0x8000_0000 <= y < 0x8000_0000 ==>
            -0x4000_0000_0000_0000 <= x * y <= 0x4000_0000_0000_0000) by (nonlinear_arith);
        wrap_i64(x * y)
    } else {
        let x = a as u64;
        let y = b as u64;
        assert(x <= 0xFFFF_FFFF && y <= 0xFFFF_FFFF ==> x * y <= 0xFFFF_FFFE_0000_0001) by (nonlinear_arith);
        assert(0 <= x * y <= 0xFFFF_FFFE_0000_0001 ==> wrap64(x * y) == x * y);
        x * y
    }
}

/// A signed 64-bit product reinterpreted as unsigned.
fn wrap_i64(p: i64) -> (r: u64)
    ensures r == wrap64(p as int),
{
    if p >= 0 { p as u64 } else { (p + 0x7FFF_FFFF_FFFF_FFFF + 1) as u64 + 0x8000_0000_0000_0000 }
}

/// Determine multiply cycle count based on Rs value.
fn multiply_cycles(rs: u32) -> (r: u32)
    ensures r == mul_cycles_spec(rs),
{
    if rs & 0xFFFF_FF00 == 0 || rs & 0xFFFF_FF00 == 0xFFFF_FF00 {
        2
    } else if rs & 0xFFFF_0000 == 0 || rs & 0xFFFF_0000 == 0xFFFF_0000 {
        3
    } else if rs & 0xFF00_0000 == 0 || rs & 0xFF00_0000 == 0xFF00_0000 {
        4
    } else {
        5
    }
}

/// The address moved up or down by `offset`.
fn offset_addr(base: u32, offset: u32, up: bool) -> (r: u32)
    ensures r == (if up { wrap32(base + offset) } else { wrap32(base - offset) }),
{
    if up { base.wrapping_add(offset) } else { base.wrapping_sub(offset) }
}

/// A word load with misaligned addresses rotating the aligned word.
fn load_word_exec(bus: &Bus, addr: u32) -> (r: u32)
    requires bus@.wf(),
    ensures r == load_word(bus@, addr),
{
    let aligned = addr & !3;
    let val = bus.read32(aligned);
    let rot = (addr & 3) * 8;
    if rot == 0 { val } else { (val >> rot) | (val << (32 - rot)) }
}

#[verifier::rlimit(60)]
fn exec_single_transfer(cpu: &mut Arm7Tdmi, bus: &mut Bus, instruction: u32) -> (cycles: u32)
    requires old(bus)@.wf(),
    ensures
        (*final(cpu), final(bus)@, cycles) == single_spec(*old(cpu), old(bus)@, instruction),
        final(bus)@.wf(),
        1 <= cycles <= 64,
{
    let is_reg = (instruction >> 25) & 1 != 0;
    let pre = (instruction >> 24) & 1 != 0;
    let up = (instruction >> 23) & 1 != 0;
    let byte = (instruction >> 22) & 1 != 0;
    let writeback = (instruction >> 21) & 1 != 0;
    let load = (instruction >> 20) & 1 != 0;
    let rn = ((instruction >> 16) & 0xF) as usize;
    let rd = ((instruction >> 12) & 0xF) as usize;

    // Calculate offset
    let offset = if is_reg {
        let rm = (instruction & 0xF) as usize;
        let shift_type = (instruction >> 5) & 3;
        let shift_amount = (instruction >> 7) & 0x1F;
        let mut carry = cpu.get_flag(C_FLAG);
        barrel_shift(cpu, cpu.regs[rm], shift_type, shift_amount, &mut carry)
    } else {
        instruction & 0xFFF
    };

    let mut base = cpu.regs[rn];
    if rn == 15 {
        base = base.wrapping_add(8);
    }
    let moved = offset_addr(base, offset, up);
    let addr = if pre { moved } else { base };

    let cycles;
    if load {
        let val = if byte {
            bus.read8(addr) as u32
        } else {
            // Word load: rotate misaligned reads
            load_word_exec(bus, addr)
        };
        if rd == 15 {
            cpu.regs[15] = val & !3;
            cycles = 5; // 1N + 1S + 1I + pipeline flush
        } else {
            cpu.regs[rd] = val;
            cycles = 3; // 1S + 1N + 1I
        }
    } else {
        // Store
        let val = if rd == 15 {
            cpu.regs[15].wrapping_add(12) // PC + 12 for stores
        } else {
            cpu.regs[rd]
        };
        if byte {
            bus.write8(addr, val as u8);
        } else {
            bus.write32(addr & !3, val);
        }
        cycles = 2; // 2N
    }

    // Post-index: always writeback; Pre-index: writeback only if W bit set
    if (!pre || writeback) && !(load && rd == rn) {
        cpu.regs[rn] = moved;
    }
    cycles
}

#[verifier::spinoff_prover]
#[verifier::rlimit(100)]
fn exec_halfword_transfer(cpu: &mut Arm7Tdmi, bus: &mut Bus, instruction: u32) -> (cycles: u32)
    requires old(bus)@.wf(),
    ensures
        (*final(cpu), final(bus)@, cycles) == halfword_spec(*old(cpu), old(bus)@, instruction),
        final(bus)@.wf(),
        1 <= cycles <= 64,
{
    let pre = (instruction >> 24) & 1 != 0;
    let up = (instruction >> 23) & 1 != 0;
    let imm_offset = (instruction >> 22) & 1 != 0;
    let writeback = (instruction >> 21) & 1 != 0;
    let load = (instruction >> 20) & 1 != 0;
    let rn = ((instruction >> 16) & 0xF) as usize;
    let rd = ((instruction >> 12) & 0xF) as usize;
    let sh = (instruction >> 5) & 3;

    let offset = if imm_offset {
        ((instruction >> 4) & 0xF0) | (instruction & 0xF)
    } else {
        cpu.regs[(instruction & 0xF) as usize]
    };
    let mut base = cpu.regs[rn];
    if rn == 15 {
        base = base.wrapping_add(8);
    }
    let moved = offset_addr(base, offset, up);
    let addr = if pre { moved } else { base };

    let cycles;
    if load {
        let val: u32 = match sh {
            // LDRH - unsigned halfword
            1 => bus.read16(addr & !1) as u32,
            // LDRSB - signed byte
            2 => bus.read8(addr) as i8 as i32 as u32,
            // LDRSH - signed halfword
            3 => bus.read16(addr & !1) as i16 as i32 as u32,
            _ => 0,
        };
        if rd == 15 {
            cpu.regs[15] = val & !3;
            cycles = 5;
        } else {
            cpu.regs[rd] = val;
            cycles = 3; // 1S + 1N + 1I
        }
    } else {
        // STRH
        let val = if rd == 15 { cpu.regs[15].wrapping_add(12) } else { cpu.regs[rd] };
        bus.write16(addr & !1, val as u16);
        cycles = 2; // 2N
    }
    // Writeback
    if (!pre || writeback) && !(load && rd == rn) {
        cpu.regs[rn] = moved;
    }
    cycles
}

fn exec_swp(cpu: &mut Arm7Tdmi, bus: &mut Bus, instruction: u32) -> (cycles: u32)
    requires old(bus)@.wf(),
    ensures
        (*final(cpu), final(bus)@, cycles) == swp_spec(*old(cpu), old(bus)@, instruction),
        final(bus)@.wf(),
        1 <= cycles <= 64,
{
    let byte = (instruction >> 22) & 1 != 0;
    let rn = ((instruction >> 16) & 0xF) as usize;
    let rd = ((instruction >> 12) & 0xF) as usize;
    let rm = (instruction & 0xF) as usize;
    let addr = cpu.regs[rn];
    if byte {
        let tmp = bus.read8(addr) as u32;
        bus.write8(addr, cpu.regs[rm] as u8);
        cpu.regs[rd] = tmp;
    } else {
        let tmp = load_word_exec(bus, addr);
        bus.write32(addr & !3, cpu.regs[rm]);
        cpu.regs[rd] = tmp;
    }
    4 // 1S + 2N + 1I
}

fn exec_mrs(cpu: &mut Arm7Tdmi, instruction: u32) -> (cycles: u32)
    ensures
        *final(cpu) == old(cpu).with_reg(reg_field(instruction, 12),
            if (instruction >> 22u32) & 1 != 0 { old(cpu).spsr_spec() } else { old(cpu).cpsr }),
        cycles == 1,
        1 <= cycles <= 64,
{
    let rd = ((instruction >> 12) & 0xF) as usize;
    let use_spsr = (instruction >> 22) & 1 != 0;
    cpu.regs[rd] = if use_spsr { cpu.spsr() } else { cpu.cpsr };
    1
}

fn exec_msr(cpu: &mut Arm7Tdmi, instruction: u32) -> (cycles: u32)
    ensures *final(cpu) == msr_spec(*old(cpu), instruction), cycles == 1,
        1 <= cycles <= 64,
{
    let use_spsr = (instruction >> 22) & 1 != 0;
    let is_imm = (instruction >> 25) & 1 != 0;
    let value = if is_imm {
        let imm = instruction & 0xFF;
        let rotate = ((instruction >> 8) & 0xF) * 2;
        if rotate == 0 { imm } else { (imm >> rotate) | (imm << (32 - rotate)) }
    } else {
        cpu.regs[(instruction & 0xF) as usize]
    };
    // Field mask bits (bits 19-16)
    let field_mask = (instruction >> 16) & 0xF;
    let mut mask = 0u32;
    if field_mask & 1 != 0 {
        mask |= 0x0000_00FF; // control
    }
    if field_mask & 2 != 0 {
        mask |= 0x0000_FF00; // extension
    }
    if field_mask & 4 != 0 {
        mask |= 0x00FF_0000; // status
    }
    if field_mask & 8 != 0 {
        mask |= 0xFF00_0000; // flags
    }
    proof { lemma_msr_mask(field_mask); }
    if use_spsr {
        let spsr = cpu.spsr();
        let new_val = (spsr & !mask) | (value & mask);
        cpu.set_spsr(new_val);
    } else {
        cpu.cpsr = (cpu.cpsr & !mask) | (value & mask);
    }
    1
}

/// Building the MSR mask one field at a time gives `msr_mask`.
proof fn lemma_msr_mask(f: u32)
    ensures
        ({
            let m0 = 0u32;
            let m1 = if f & 1 != 0 { m0 | 0x0000_00FFu32 } else { m0 };
            let m2 = if f & 2 != 0 { m1 | 0x0000_FF00u32 } else { m1 };
            let m3 = if f & 4 != 0 { m2 | 0x00FF_0000u32 } else { m2 };
            let m4 = if f & 8 != 0 { m3 | 0xFF00_0000u32 } else { m3 };
            m4 == msr_mask(f)
        }),
{
    assert(({
            let m0 = 0u32;
            let m1 = if f & 1 != 0 { m0 | 0x0000_00FFu32 } else { m0 };
            let m2 = if f & 2 != 0 { m1 | 0x0000_FF00u32 } else { m1 };
            let m3 = if f & 4 != 0 { m2 | 0x00FF_0000u32 } else { m2 };
            let m4 = if f & 8 != 0 { m3 | 0xFF00_0000u32 } else { m3 };
            m4 == (if f & 1 != 0 { 0x0000_00FFu32 } else { 0 }) | (if f & 2 != 0 { 0x0000_FF00u32 } else { 0 })
                | (if f & 4 != 0 { 0x00FF_0000u32 } else { 0 }) | (if f & 8 != 0 { 0xFF00_0000u32 } else { 0 })
        })) by (bit_vector);
}

fn exec_swi(cpu: &mut Arm7Tdmi)
    ensures *final(cpu) == old(cpu).exception_spec(CpuMode::Supervisor, 0x08),
{
    cpu.enter_exception(CpuMode::Supervisor, 0x08);
}

/// Bit `i` of `x` tested with a mask agrees with shifting it down.
proof fn lemma_bit_i(x: u32, i: u32)
    requires i < 32,
    ensures (x & (1u32 << i) == 0) == ((x >> i) & 1 == 0),
{
    assert((x & (1u32 << i) == 0) == ((x >> i) & 1 == 0)) by (bit_vector) requires i < 32;
}

/// The number of registers in a 16-bit register list.
fn count_registers(list: u32) -> (r: u32)
    ensures r == popcount(list, 16), r <= 16,
{
    let mut n: u32 = 0;
    let mut i: u32 = 0;
    while i < 16
        invariant i <= 16, n == popcount(list, i as nat), n <= i,
        decreases 16 - i,
    {
        if (list >> i) & 1 != 0 {
            n += 1;
        }
        i += 1;
    }
    n
}

/// The first address an LDM/STM of `n` registers touches.
fn block_start(base: u32, n: u32, up: bool, pre: bool) -> (r: u32)
    requires n <= 16,
    ensures
        r == (if up { if pre { wrap32(base + 4) } else { base } }
            else if pre { wrap32(base - n * 4) } else { wrap32(base - n * 4 + 4) }),
{
    if up {
        if pre { base.wrapping_add(4) } else { base }
    } else if pre {
        base.wrapping_sub(n * 4)
    } else {
        let d = base.wrapping_sub(n * 4);
        proof {
            if base >= n * 4 { assert(d == base - n * 4); } else { assert(d == base - n * 4 + 0x1_0000_0000); }
        }
        d.wrapping_add(4)
    }
}

#[verifier::spinoff_prover]
#[verifier::rlimit(100)]
fn exec_block_transfer(cpu: &mut Arm7Tdmi, bus: &mut Bus, instruction: u32) -> (cycles: u32)
    requires old(bus)@.wf(),
    ensures
        (*final(cpu), final(bus)@, cycles) == block_spec(*old(cpu), old(bus)@, instruction),
        final(bus)@.wf(),
        1 <= cycles <= 64,
{
    let pre = (instruction >> 24) & 1 != 0;
    let up = (instruction >> 23) & 1 != 0;
    let s_bit = (instruction >> 22) & 1 != 0;
    let writeback = (instruction >> 21) & 1 != 0;
    let load = (instruction >> 20) & 1 != 0;
    let rn = ((instruction >> 16) & 0xF) as usize;
    let reg_list = instruction & 0xFFFF;

    let base = cpu.regs[rn];
    let reg_count = count_registers(reg_list);

    // Empty register list: transfer PC only, offset 0x40
    if reg_count == 0 {
        if load {
            cpu.regs[15] = bus.read32(base);
        } else {
            bus.write32(base, cpu.regs[15].wrapping_add(8));
        }
        cpu.regs[rn] = offset_addr(base, 0x40, up);
        return 3;
    }

    // Start address for the addressing mode
    let mut current_addr = block_start(base, reg_count, up, pre);

    let mut cycles = if load { 2u32 } else { 1u32 };
    let mut first = true;
    let ghost c0 = *cpu;
    let ghost b0 = bus@;
    let ghost start = current_addr;
    let mut i: u32 = 0;
    while i < 16
        invariant
            i <= 16,
            (*cpu, bus@, current_addr, cycles, first) == block_steps(c0, b0, instruction, start, i as nat),
            bus@.wf(),
            1 <= cycles <= 2 + 3 * i,
            c0 == *old(cpu),
            b0 == old(bus)@,
            reg_list == instruction & 0xFFFF,
            load == ((instruction >> 20u32) & 1 != 0),
            s_bit == ((instruction >> 22u32) & 1 != 0),
        decreases 16 - i,
    {
        proof { lemma_bit_i(reg_list, i); lemma_bit_i(reg_list, 15); }
        if reg_list & (1 << i) == 0 {
            i += 1;
            continue;
        }
        if load {
            let val = bus.read32(current_addr & !3);
            if s_bit && (reg_list & (1 << 15)) != 0 {
                // S bit with R15 in list: restore CPSR from SPSR
                cpu.regs[i as usize] = val;
                if i == 15 {
                    cpu.cpsr = cpu.spsr();
                    cpu.regs[15] = val & !3;
                }
            } else {
                // S bit without R15 would access the user bank; written normally here
                cpu.regs[i as usize] = val;
            }
            if i == 15 {
                cycles += 2; // pipeline flush extra
            }
        } else {
            // Store
            let val = if i == 15 { cpu.regs[15].wrapping_add(12) } else { cpu.regs[i as usize] };
            bus.write32(current_addr & !3, val);
        }
        current_addr = current_addr.wrapping_add(4);
        if !first {
            cycles += 1; // 1S per additional register
        }
        first = false;
        i += 1;
    }

    // Writeback
    if writeback {
        cpu.regs[rn] = offset_addr(base, reg_count * 4, up);
    }
    cycles
}

} // verus!
