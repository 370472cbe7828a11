//! ARM7TDMI CPU core: register file, status flags, modes and exceptions.
use vstd::prelude::*;
use vstd::array::spec_array_update;

pub mod arm;
pub mod registers;
pub mod thumb;

use crate::gba::bus::{Bus, BusView};
use crate::gba::io::IoRegisters;
use arm::{arm_spec, execute_arm, wrap32};
use thumb::{thumb_spec, execute_thumb};

pub use registers::{CpuMode, BankedRegisters, mode_of, N_FLAG, Z_FLAG, C_FLAG, V_FLAG, I_FLAG, F_FLAG, T_FLAG};

verus! {

/// ARM7TDMI CPU core.
#[derive(Clone, Copy)]
pub struct Arm7Tdmi {
    /// General-purpose registers R0-R15 (current mode view)
    pub regs: [u32; 16],
    /// Current Program Status Register
    pub cpsr: u32,
    /// Banked registers for mode switching
    pub banked: BankedRegisters,
}

/// Whether `flag` is set in a status register.
pub open spec fn flag_set(psr: u32, flag: u32) -> bool {
    psr & flag != 0
}

/// A status register with `flag` set or cleared.
pub open spec fn with_flag(psr: u32, flag: u32, val: bool) -> u32 {
    if val { psr | flag } else { psr & !flag }
}

/// N from bit 31 of `result`, Z from `result == 0`.
pub open spec fn with_nz(psr: u32, result: u32) -> u32 {
    with_flag(with_flag(psr, N_FLAG, result & 0x8000_0000 != 0), Z_FLAG, result == 0)
}

/// The ARM condition codes over the N, Z, C, V flags; 0xF (NV) counts as always.
pub open spec fn cond_holds(psr: u32, cond: u32) -> bool {
    let n = flag_set(psr, N_FLAG);
    let z = flag_set(psr, Z_FLAG);
    let c = flag_set(psr, C_FLAG);
    let v = flag_set(psr, V_FLAG);
    if cond == 0x0 { z }
    else if cond == 0x1 { !z }
    else if cond == 0x2 { c }
    else if cond == 0x3 { !c }
    else if cond == 0x4 { n }
    else if cond == 0x5 { !n }
    else if cond == 0x6 { v }
    else if cond == 0x7 { !v }
    else if cond == 0x8 { c && !z }
    else if cond == 0x9 { !c || z }
    else if cond == 0xA { n == v }
    else if cond == 0xB { n != v }
    else if cond == 0xC { !z && n == v }
    else if cond == 0xD { z || n != v }
    else { true }
}

/// R8-R12 of `regs` written over a five-register bank.
pub open spec fn bank_from_regs(bank: [u32; 5], regs: [u32; 16]) -> [u32; 5] {
    spec_array_update(spec_array_update(spec_array_update(spec_array_update(spec_array_update(
        bank, 0, regs[8]), 1, regs[9]), 2, regs[10]), 3, regs[11]), 4, regs[12])
}

/// `regs` with R8-R12 taken from a five-register bank.
pub open spec fn regs_from_bank(regs: [u32; 16], bank: [u32; 5]) -> [u32; 16] {
    spec_array_update(spec_array_update(spec_array_update(spec_array_update(spec_array_update(
        regs, 8, bank[0]), 9, bank[1]), 10, bank[2]), 11, bank[3]), 12, bank[4])
}

impl Arm7Tdmi {
    pub open spec fn with_reg(self, i: int, v: u32) -> Arm7Tdmi {
        Arm7Tdmi { regs: spec_array_update(self.regs, i, v), ..self }
    }

    pub open spec fn with_cpsr(self, psr: u32) -> Arm7Tdmi {
        Arm7Tdmi { cpsr: psr, ..self }
    }

    pub open spec fn mode_spec(self) -> CpuMode {
        mode_of(self.cpsr)
    }

    /// The SPSR of the current mode; System and User have none and read CPSR.
    pub open spec fn spsr_spec(self) -> u32 {
        let idx = self.mode_spec().bank_spec();
        if idx == 0 { self.cpsr } else { self.banked.spsr[idx] }
    }

    /// The CPU with the current mode's SPSR replaced (no effect in System/User).
    pub open spec fn with_spsr(self, val: u32) -> Arm7Tdmi {
        let idx = self.mode_spec().bank_spec();
        if idx == 0 {
            self
        } else {
            Arm7Tdmi { banked: BankedRegisters { spsr: spec_array_update(self.banked.spsr, idx, val), ..self.banked }, ..self }
        }
    }

    /// The CPU after switching to `m`: R13/R14 are saved to the old mode's
    /// bank and loaded from the new one, R8-R12 are exchanged with the FIQ
    /// bank when entering or leaving FIQ, and the CPSR mode bits are set.
    pub open spec fn switch_mode_spec(self, m: CpuMode) -> Arm7Tdmi {
        let old_mode = self.mode_spec();
        if old_mode == m {
            self
        } else {
            let oi = old_mode.bank_spec();
            let ni = m.bank_spec();
            let b = self.banked;
            let r13 = spec_array_update(b.r13, oi, self.regs[13]);
            let r14 = spec_array_update(b.r14, oi, self.regs[14]);
            let (regs, fiq, usr) = if old_mode == CpuMode::Fiq {
                (regs_from_bank(self.regs, b.usr_r8_r12), bank_from_regs(b.fiq_r8_r12, self.regs), b.usr_r8_r12)
            } else if m == CpuMode::Fiq {
                (regs_from_bank(self.regs, b.fiq_r8_r12), b.fiq_r8_r12, bank_from_regs(b.usr_r8_r12, self.regs))
            } else {
                (self.regs, b.fiq_r8_r12, b.usr_r8_r12)
            };
            Arm7Tdmi {
                regs: spec_array_update(spec_array_update(regs, 13, r13[ni]), 14, r14[ni]),
                cpsr: (self.cpsr & !0x1Fu32) | m.bits_spec(),
                banked: BankedRegisters { r13, r14, fiq_r8_r12: fiq, usr_r8_r12: usr, ..b },
            }
        }
    }

    /// Exception entry: switch to `m`, save the old CPSR in the new mode's
    /// SPSR, LR takes the (already advanced) PC, IRQs are masked, ARM state
    /// is entered and PC jumps to `vector`.
    pub open spec fn exception_spec(self, m: CpuMode, vector: u32) -> Arm7Tdmi {
        let s = self.switch_mode_spec(m);
        let s2 = Arm7Tdmi { banked: BankedRegisters { spsr: spec_array_update(s.banked.spsr, m.bank_spec(), self.cpsr), ..s.banked }, ..s };
        let s3 = s2.with_reg(14, self.regs[15]);
        Arm7Tdmi { cpsr: (s3.cpsr | I_FLAG) & !T_FLAG, ..s3 }.with_reg(15, vector)
    }

    pub fn new() -> (r: Self)
        ensures
            r.regs@ == Seq::new(16, |i: int| 0u32).update(13, 0x03007F00u32).update(15, 0x08000000u32),
            r.cpsr == 0x1F | I_FLAG | F_FLAG,
            r.banked.is_reset(),
    {
        let mut cpu = Arm7Tdmi {
            regs: [0; 16],
            cpsr: CpuMode::System.bits() | I_FLAG | F_FLAG,
            banked: BankedRegisters::new(),
        };
        // Initial state after reset: ARM mode, IRQ/FIQ disabled, System mode
        cpu.regs[13] = 0x03007F00; // SP default (IWRAM top)
        cpu.regs[15] = 0x08000000; // PC at ROM start (HLE skips BIOS)
        assert(cpu.regs@ =~= Seq::new(16, |i: int| 0u32).update(13, 0x03007F00u32).update(15, 0x08000000u32));
        cpu
    }

    /// Check if CPU is in THUMB mode (T bit set in CPSR).
    pub fn in_thumb_mode(&self) -> (r: bool)
        ensures r == flag_set(self.cpsr, T_FLAG),
    {
        self.cpsr & T_FLAG != 0
    }

    /// Get current operating mode.
    pub fn mode(&self) -> (r: CpuMode)
        ensures r == self.mode_spec(),
    {
        CpuMode::from_bits(self.cpsr)
    }

    /// Get the SPSR for the current mode (System/User have no SPSR — returns CPSR).
    pub fn spsr(&self) -> (r: u32)
        ensures r == self.spsr_spec(),
    {
        let idx = self.mode().bank_index();
        if idx == 0 {
            self.cpsr
        } else {
            self.banked.spsr[idx]
        }
    }

    /// Set the SPSR for the current mode.
    pub fn set_spsr(&mut self, val: u32)
        ensures *final(self) == old(self).with_spsr(val),
    {
        let idx = self.mode().bank_index();
        if idx != 0 {
            self.banked.spsr[idx] = val;
        }
    }

    /// Evaluate a 4-bit condition code against current flags.
    pub fn check_condition(&self, cond: u32) -> (r: bool)
        ensures r == cond_holds(self.cpsr, cond),
    {
        let n = self.cpsr & N_FLAG != 0;
        let z = self.cpsr & Z_FLAG != 0;
        let c = self.cpsr & C_FLAG != 0;
        let v = self.cpsr & V_FLAG != 0;
        match cond {
            0x0 => z,             // EQ
            0x1 => !z,            // NE
            0x2 => c,             // CS/HS
            0x3 => !c,            // CC/LO
            0x4 => n,             // MI
            0x5 => !n,            // PL
            0x6 => v,             // VS
            0x7 => !v,            // VC
            0x8 => c && !z,       // HI
            0x9 => !c || z,       // LS
            0xA => n == v,        // GE
            0xB => n != v,        // LT
            0xC => !z && n == v,  // GT
            0xD => z || n != v,   // LE
            0xE => true,          // AL (always)
            _ => true,            // NV (treat as always on ARM7TDMI)
        }
    }

    /// Get a flag bit from CPSR.
    pub fn get_flag(&self, flag: u32) -> (r: bool)
        ensures r == flag_set(self.cpsr, flag),
    {
        self.cpsr & flag != 0
    }

    /// Set a flag bit in CPSR.
    pub fn set_flag(&mut self, flag: u32, val: bool)
        ensures *final(self) == old(self).with_cpsr(with_flag(old(self).cpsr, flag, val)),
    {
        if val {
            self.cpsr |= flag;
        } else {
            self.cpsr &= !flag;
        }
    }

    /// Set N and Z flags based on a 32-bit result.
    pub fn set_nz(&mut self, result: u32)
        ensures *final(self) == old(self).with_cpsr(with_nz(old(self).cpsr, result)),
    {
        self.set_flag(N_FLAG, result & 0x8000_0000 != 0);
        self.set_flag(Z_FLAG, result == 0);
    }

    /// Switch to a new CPU mode, banking registers as needed.
    pub fn switch_mode(&mut self, new_mode: CpuMode)
        ensures *final(self) == old(self).switch_mode_spec(new_mode),
    {
        let old_mode = self.mode();
        if old_mode == new_mode {
            return;
        }
        let old_idx = old_mode.bank_index();
        let new_idx = new_mode.bank_index();

        // Save current R13/R14 to old bank
        self.banked.r13[old_idx] = self.regs[13];
        self.banked.r14[old_idx] = self.regs[14];

        // Handle FIQ R8-R12 banking
        if old_mode == CpuMode::Fiq {
            let ghost pre = *self;
            let mut i: usize = 0;
            while i < 5
                invariant
                    i <= 5,
                    self.regs == pre.regs,
                    self.banked == (BankedRegisters { fiq_r8_r12: self.banked.fiq_r8_r12, ..pre.banked }),
                    self.cpsr == pre.cpsr,
                    self.banked.fiq_r8_r12@ == Seq::new(5, |k: int| if k < i { pre.regs@[8 + k] } else { pre.banked.fiq_r8_r12@[k] }),
                decreases 5 - i,
            {
                self.banked.fiq_r8_r12[i] = self.regs[8 + i];
                i += 1;
            }
            assert(self.banked.fiq_r8_r12 =~= bank_from_regs(pre.banked.fiq_r8_r12, pre.regs));
            let ghost pre2 = *self;
            let mut i: usize = 0;
            while i < 5
                invariant
                    i <= 5,
                    self.banked == pre2.banked,
                    self.cpsr == pre2.cpsr,
                    self.regs@ == Seq::new(16, |k: int| if 8 <= k < 8 + i { pre2.banked.usr_r8_r12@[k - 8] } else { pre2.regs@[k] }),
                decreases 5 - i,
            {
                self.regs[8 + i] = self.banked.usr_r8_r12[i];
                i += 1;
            }
            assert(self.regs =~= regs_from_bank(pre2.regs, pre2.banked.usr_r8_r12));
        } else if new_mode == CpuMode::Fiq {
            let ghost pre = *self;
            let mut i: usize = 0;
            while i < 5
                invariant
                    i <= 5,
                    self.regs == pre.regs,
                    self.banked == (BankedRegisters { usr_r8_r12: self.banked.usr_r8_r12, ..pre.banked }),
                    self.cpsr == pre.cpsr,
                    self.banked.usr_r8_r12@ == Seq::new(5, |k: int| if k < i { pre.regs@[8 + k] } else { pre.banked.usr_r8_r12@[k] }),
                decreases 5 - i,
            {
                self.banked.usr_r8_r12[i] = self.regs[8 + i];
                i += 1;
            }
            assert(self.banked.usr_r8_r12 =~= bank_from_regs(pre.banked.usr_r8_r12, pre.regs));
            let ghost pre2 = *self;
            let mut i: usize = 0;
            while i < 5
                invariant
                    i <= 5,
                    self.banked == pre2.banked,
                    self.cpsr == pre2.cpsr,
                    self.regs@ == Seq::new(16, |k: int| if 8 <= k < 8 + i { pre2.banked.fiq_r8_r12@[k - 8] } else { pre2.regs@[k] }),
                decreases 5 - i,
            {
                self.regs[8 + i] = self.banked.fiq_r8_r12[i];
                i += 1;
            }
            assert(self.regs =~= regs_from_bank(pre2.regs, pre2.banked.fiq_r8_r12));
        }

        // Restore R13/R14 from new bank
        self.regs[13] = self.banked.r13[new_idx];
        self.regs[14] = self.banked.r14[new_idx];

        // Update mode bits in CPSR
        self.cpsr = (self.cpsr & !0x1F) | new_mode.bits();
    }

    /// Enter an exception (IRQ, SWI, etc.).
    pub fn enter_exception(&mut self, mode: CpuMode, vector: u32)
        ensures *final(self) == old(self).exception_spec(mode, vector),
    {
        let old_cpsr = self.cpsr;
        // Already advanced past current instruction
        let return_addr = self.regs[15];

        self.switch_mode(mode);
        self.banked.spsr[mode.bank_index()] = old_cpsr;
        self.regs[14] = return_addr;
        self.cpsr |= I_FLAG; // Disable IRQs
        self.cpsr &= !T_FLAG; // Switch to ARM mode
        self.regs[15] = vector;
    }
}


/// A register value read as a two's-complement 32-bit integer.
pub open spec fn as_i32(x: u32) -> int {
    if x < 0x8000_0000 { x as int } else { x - 0x1_0000_0000 }
}

pub open spec fn abs_int(x: int) -> int {
    if x < 0 { -x } else { x }
}

/// Integer division rounding toward zero (Rust's `/` on signed integers).
pub open spec fn trunc_div(n: int, d: int) -> int {
    let q = abs_int(n) / abs_int(d);
    if (n < 0) != (d < 0) { -q } else { q }
}

/// The remainder of `trunc_div`: it has the sign of the dividend.
pub open spec fn trunc_rem(n: int, d: int) -> int {
    let r = abs_int(n) % abs_int(d);
    if n < 0 { -r } else { r }
}

/// `r` is the integer square root of `x`.
pub open spec fn is_isqrt(x: int, r: int) -> bool {
    0 <= r && r * r <= x && x < (r + 1) * (r + 1)
}

/// The bus after the first `n` transfers of a CpuSet/CpuFastSet call:
/// transfer `i` copies the unit at `src` (fixed) or `src + i*unit` to
/// `dst + i*unit`, with words or halfwords as `word32` says.
pub open spec fn cpu_set_spec(b: BusView, src: u32, dst: u32, fixed: bool, word32: bool, n: nat) -> BusView
    decreases n,
{
    if n == 0 {
        b
    } else {
        let prev = cpu_set_spec(b, src, dst, fixed, word32, (n - 1) as nat);
        let i = n - 1;
        if word32 {
            let s = if fixed { src } else { wrap32(src + i * 4) };
            prev.write32_spec(wrap32(dst + i * 4), prev.read32_spec(s))
        } else {
            let s = if fixed { src } else { wrap32(src + i * 2) };
            prev.write16_spec(wrap32(dst + i * 2), prev.read16_spec(s))
        }
    }
}

impl Arm7Tdmi {
    /// One step: a halted CPU spends one cycle and wakes when an enabled
    /// interrupt is flagged; otherwise the instruction at PC (halfword in
    /// THUMB state, word in ARM state, PC aligned) is fetched, PC advances
    /// past it and the instruction executes.
    pub open spec fn step_spec(self, b: BusView) -> (Arm7Tdmi, BusView, u32) {
        if b.io.halted {
            let io2 = if b.io.irq_flags & b.io.ie != 0 { IoRegisters { halted: false, ..b.io } } else { b.io };
            (self, BusView { io: io2, ..b }, 1)
        } else if flag_set(self.cpsr, T_FLAG) {
            let pc = self.regs[15] & !1u32;
            thumb_spec(self.with_reg(15, wrap32(pc + 2)), b, b.read16_spec(pc))
        } else {
            let pc = self.regs[15] & !3u32;
            arm_spec(self.with_reg(15, wrap32(pc + 4)), b, b.read32_spec(pc))
        }
    }

    /// The BIOS calls emulated at a high level: SoftReset (0x00), Halt (0x02),
    /// VBlankIntrWait (0x05), Div (0x06), Sqrt (0x08), CpuSet (0x0B) and
    /// CpuFastSet (0x0C); any other number changes nothing.
    pub open spec fn swi_spec(self, b: BusView, comment: u32) -> (Arm7Tdmi, BusView) {
        if comment == 0x00 {
            (Arm7Tdmi { cpsr: CpuMode::System.bits_spec(), ..self.with_reg(15, 0x0800_0000) }, b)
        } else if comment == 0x02 || comment == 0x05 {
            (self, BusView { io: IoRegisters { halted: true, ..b.io }, ..b })
        } else if comment == 0x06 {
            let n = as_i32(self.regs[0]);
            let d = as_i32(self.regs[1]);
            if d == 0 {
                (self, b)
            } else {
                (self.with_reg(0, wrap32(trunc_div(n, d))).with_reg(1, wrap32(trunc_rem(n, d)))
                    .with_reg(3, (abs_int(n) / abs_int(d)) as u32), b)
            }
        } else if comment == 0x08 {
            (self.with_reg(0, (choose|r: int| is_isqrt(self.regs[0] as int, r)) as u32), b)
        } else if comment == 0x0B || comment == 0x0C {
            let ctrl = self.regs[2];
            (self, cpu_set_spec(b, self.regs[0], self.regs[1], ctrl & 0x0100_0000 != 0,
                ctrl & 0x0400_0000 != 0, (ctrl & 0x1F_FFFF) as nat))
        } else {
            (self, b)
        }
    }

    /// Execute one instruction. Returns cycles consumed.
    pub fn step(&mut self, bus: &mut Bus) -> (cycles: u32)
        requires old(bus)@.wf(),
        ensures
            (*final(self), final(bus)@, cycles) == old(self).step_spec(old(bus)@),
            final(bus)@.wf(),
            1 <= cycles <= 64,
    {
        if bus.io.halted {
            // CPU halted — just consume 1 cycle, check for IRQ
            if bus.io.irq_flags & bus.io.ie != 0 {
                bus.io.halted = false;
            }
            return 1;
        }

        if self.in_thumb_mode() {
            let pc = self.regs[15] & !1;
            let instruction = bus.read16(pc);
            self.regs[15] = pc.wrapping_add(2);
            execute_thumb(self, bus, instruction)
        } else {
            let pc = self.regs[15] & !3;
            let instruction = bus.read32(pc);
            self.regs[15] = pc.wrapping_add(4);
            execute_arm(self, bus, instruction)
        }
    }

    /// Handle a software interrupt (SWI) with HLE BIOS emulation.
    /// Div by -1 of the most negative integer overflows and is excluded.
    pub fn handle_swi(&mut self, bus: &mut Bus, comment: u32)
        requires
            old(bus)@.wf(),
            comment == 0x06 ==> !(old(self).regs[0] == 0x8000_0000 && old(self).regs[1] == 0xFFFF_FFFF),
        ensures
            (*final(self), final(bus)@) == old(self).swi_spec(old(bus)@, comment),
            final(bus)@.wf(),
    {
        if comment == 0x00 {
            // SoftReset — jump to ROM entry
            self.regs[15] = 0x08000000;
            self.cpsr = CpuMode::System.bits();
        } else if comment == 0x02 || comment == 0x05 {
            // Halt / VBlankIntrWait
            bus.io.halted = true;
        } else if comment == 0x06 {
            // Div: R0 = R0 / R1, R1 = R0 % R1, R3 = |R0/R1|
            let num = self.regs[0];
            let den = self.regs[1];
            if den != 0 {
                let (q, r, q_abs) = signed_div(num, den);
                self.regs[0] = q;
                self.regs[1] = r;
                self.regs[3] = q_abs;
            }
        } else if comment == 0x08 {
            // Sqrt: R0 = sqrt(R0)
            let r = isqrt(self.regs[0]);
            self.regs[0] = r;
        } else if comment == 0x0B || comment == 0x0C {
            // CpuSet / CpuFastSet — memory fill/copy
            let src = self.regs[0];
            let dst = self.regs[1];
            let ctrl = self.regs[2];
            let count = ctrl & 0x1FFFFF;
            proof { crate::bits::lemma_and_le(ctrl, 0x1FFFFF); }
            let fixed = ctrl & 0x0100_0000 != 0;
            let word32 = ctrl & 0x0400_0000 != 0;
            cpu_set(bus, src, dst, count, fixed, word32);
        }
    }
}

/// Signed 32-bit division of two register values: quotient, remainder
/// and the magnitude of the quotient.
fn signed_div(num: u32, den: u32) -> (r: (u32, u32, u32))
    requires den != 0, !(num == 0x8000_0000 && den == 0xFFFF_FFFF),
    ensures
        r.0 == wrap32(trunc_div(as_i32(num), as_i32(den))),
        r.1 == wrap32(trunc_rem(as_i32(num), as_i32(den))),
        r.2 == abs_int(as_i32(num)) / abs_int(as_i32(den)),
{
    let n_neg = num >= 0x8000_0000;
    let d_neg = den >= 0x8000_0000;
    let an: u32 = if n_neg { 0u32.wrapping_sub(num) } else { num };
    let ad: u32 = if d_neg { 0u32.wrapping_sub(den) } else { den };
    assert(an == abs_int(as_i32(num)));
    assert(ad == abs_int(as_i32(den)));
    let q = an / ad;
    let rem = an % ad;
    proof {
        if an == 0x8000_0000 && ad == 1 {
            assert(!d_neg);
        }
    }
    let qv = if n_neg != d_neg { 0u32.wrapping_sub(q) } else { q };
    let rv = if n_neg { 0u32.wrapping_sub(rem) } else { rem };
    (qv, rv, q)
}

/// The integer square root, by bisection.
fn isqrt(x: u32) -> (r: u32)
    ensures is_isqrt(x as int, r as int), (choose|k: int| is_isqrt(x as int, k)) == r,
{
    let mut lo: u64 = 0;
    let mut hi: u64 = 0x1_0000;
    assert(hi * hi > x) by (nonlinear_arith) requires hi == 0x1_0000, x <= 0xFFFF_FFFFu32;
    while hi - lo > 1
        invariant lo < hi <= 0x1_0000, lo * lo <= x, x < hi * hi,
        decreases hi - lo,
    {
        let mid = lo + (hi - lo) / 2;
        assert(mid * mid <= 0x1_0000 * 0x1_0000) by (nonlinear_arith) requires mid <= 0x1_0000;
        if mid * mid <= x as u64 {
            lo = mid;
        } else {
            hi = mid;
        }
    }
    proof {
        lemma_isqrt_unique(x as int, lo as int);
    }
    lo as u32
}

/// The integer square root is unique.
proof fn lemma_isqrt_unique(x: int, r: int)
    requires is_isqrt(x, r),
    ensures (choose|k: int| is_isqrt(x, k)) == r,
{
    let k = choose|k: int| is_isqrt(x, k);
    assert(is_isqrt(x, k));
    if k < r {
        assert((k + 1) * (k + 1) <= r * r) by (nonlinear_arith) requires 0 <= k, k + 1 <= r;
    } else if k > r {
        assert((r + 1) * (r + 1) <= k * k) by (nonlinear_arith) requires 0 <= r, r + 1 <= k;
    }
}

/// CpuSet/CpuFastSet: `count` word or halfword transfers.
#[verifier::spinoff_prover]
#[verifier::rlimit(40)]
fn cpu_set(bus: &mut Bus, src: u32, dst: u32, count: u32, fixed: bool, word32: bool)
    requires old(bus)@.wf(), count <= 0x1F_FFFF,
    ensures
        final(bus)@ == cpu_set_spec(old(bus)@, src, dst, fixed, word32, count as nat),
        final(bus)@.wf(),
{
    let mut i: u32 = 0;
    while i < count
        invariant
            i <= count, count <= 0x1F_FFFF, bus@.wf(),
            bus@ == cpu_set_spec(old(bus)@, src, dst, fixed, word32, i as nat),
        decreases count - i,
    {
        assert(src.wrapping_add((i * 4) as u32) == wrap32(src + i * 4));
        assert(dst.wrapping_add((i * 4) as u32) == wrap32(dst + i * 4));
        assert(src.wrapping_add((i * 2) as u32) == wrap32(src + i * 2));
        assert(dst.wrapping_add((i * 2) as u32) == wrap32(dst + i * 2));
        if word32 {
            let s = if fixed { src } else { src.wrapping_add(i * 4) };
            let val = bus.read32(s);
            bus.write32(dst.wrapping_add(i * 4), val);
        } else {
            let s = if fixed { src } else { src.wrapping_add(i * 2) };
            let val = bus.read16(s);
            bus.write16(dst.wrapping_add(i * 2), val);
        }
        i = i + 1;
    }
}


/// The mode field of a status register: replacing it and restoring it.
proof fn lemma_mode_field(x: u32, mb: u32, ob: u32)
    requires mb < 32, ob == x % 32,
    ensures ((x & !0x1Fu32) | mb) % 32 == mb, (((x & !0x1Fu32) | mb) & !0x1Fu32) | ob == x,
{
    assert(((x & !0x1Fu32) | mb) % 32 == mb && (((x & !0x1Fu32) | mb) & !0x1Fu32) | ob == x) by (bit_vector)
        requires mb < 32, ob == x % 32;
}

/// The mode field of a status register replaced, the other bits kept.
proof fn lemma_mode_field_set(x: u32, mb: u32)
    requires mb < 32,
    ensures ((x & !0x1Fu32) | mb) % 32 == mb, ((x & !0x1Fu32) | mb) & !0x1Fu32 == x & !0x1Fu32,
{
    assert(((x & !0x1Fu32) | mb) % 32 == mb && ((x & !0x1Fu32) | mb) & !0x1Fu32 == x & !0x1Fu32) by (bit_vector)
        requires mb < 32;
}

/// Switching to another mode and back restores every visible register
/// (R13 and R14, and R8-R12 where FIQ is involved): after the first switch
/// the CPU is in the new mode, after the second in the old one, and the
/// status bits above the mode field never change. When the mode field held
/// a mode's own encoding, the CPSR comes back exactly.
pub proof fn lemma_switch_mode_roundtrip(c: Arm7Tdmi, m: CpuMode)
    requires c.mode_spec() != m,
    ensures
        c.switch_mode_spec(m).mode_spec() == m,
        c.switch_mode_spec(m).cpsr & !0x1Fu32 == c.cpsr & !0x1Fu32,
        c.switch_mode_spec(m).switch_mode_spec(c.mode_spec()).regs == c.regs,
        c.switch_mode_spec(m).switch_mode_spec(c.mode_spec()).mode_spec() == c.mode_spec(),
        c.switch_mode_spec(m).switch_mode_spec(c.mode_spec()).cpsr & !0x1Fu32 == c.cpsr & !0x1Fu32,
        c.cpsr % 32 == c.mode_spec().bits_spec() ==> c.switch_mode_spec(m).switch_mode_spec(c.mode_spec()).cpsr == c.cpsr,
{
    broadcast use vstd::array::group_array_axioms;
    let o = c.mode_spec();
    let s1 = c.switch_mode_spec(m);
    registers::lemma_mode_bits_roundtrip(m);
    registers::lemma_mode_bits_roundtrip(o);
    lemma_mode_field_set(c.cpsr, m.bits_spec());
    assert(s1.mode_spec() == m);
    let s2 = s1.switch_mode_spec(o);
    lemma_mode_field_set(s1.cpsr, o.bits_spec());
    assert(s2.mode_spec() == o);
    if c.cpsr % 32 == o.bits_spec() {
        lemma_mode_field(c.cpsr, m.bits_spec(), o.bits_spec());
        lemma_mode_field(s1.cpsr, o.bits_spec(), m.bits_spec());
    }
    assert(s2.regs =~= c.regs);
}

/// Each odd condition code is the negation of the even one before it
/// (EQ/NE, CS/CC, MI/PL, VS/VC, HI/LS, GE/LT, GT/LE).
pub proof fn lemma_condition_pairs(psr: u32, cond: u32)
    requires cond < 14, cond % 2 == 0,
    ensures cond_holds(psr, (cond + 1) as u32) == !cond_holds(psr, cond),
{
}

/// Setting a status flag is seen by the flag test and by no other flag.
pub proof fn lemma_flag_roundtrip(psr: u32, flag: u32, other: u32, val: bool)
    requires
        flag == N_FLAG || flag == Z_FLAG || flag == C_FLAG || flag == V_FLAG || flag == I_FLAG || flag == F_FLAG || flag == T_FLAG,
        other == N_FLAG || other == Z_FLAG || other == C_FLAG || other == V_FLAG || other == I_FLAG || other == F_FLAG || other == T_FLAG,
        flag != other,
    ensures
        flag_set(with_flag(psr, flag, val), flag) == val,
        flag_set(with_flag(psr, flag, val), other) == flag_set(psr, other),
{
    assert((psr | flag) & flag != 0 && (psr & !flag) & flag == 0 && (((psr | flag) & other != 0) == (psr & other != 0))
        && (((psr & !flag) & other != 0) == (psr & other != 0))) by (bit_vector)
        requires
            flag == 0x8000_0000u32 || flag == 0x4000_0000u32 || flag == 0x2000_0000u32 || flag == 0x1000_0000u32
                || flag == 0x80u32 || flag == 0x40u32 || flag == 0x20u32,
            other == 0x8000_0000u32 || other == 0x4000_0000u32 || other == 0x2000_0000u32 || other == 0x1000_0000u32
                || other == 0x80u32 || other == 0x40u32 || other == 0x20u32,
            flag != other;
}

/// The BIOS division: quotient × divisor + remainder = dividend, the
/// remainder is smaller than the divisor in magnitude and never has the
/// opposite sign of the dividend.
pub proof fn lemma_div_identity(n: int, d: int)
    requires d != 0,
    ensures
        trunc_div(n, d) * d + trunc_rem(n, d) == n,
        abs_int(trunc_rem(n, d)) < abs_int(d),
        n >= 0 ==> trunc_rem(n, d) >= 0,
        n <= 0 ==> trunc_rem(n, d) <= 0,
{
    let an = abs_int(n);
    let ad = abs_int(d);
    let q = an / ad;
    let r = an % ad;
    vstd::arithmetic::div_mod::lemma_fundamental_div_mod(an, ad);
    assert(0 <= r < ad) by { vstd::arithmetic::div_mod::lemma_mod_bound(an, ad); }
    if n < 0 && d < 0 {
        assert(trunc_div(n, d) * d + trunc_rem(n, d) == q * d - r);
        assert(q * d == -(ad * q)) by (nonlinear_arith) requires d == -ad;
    } else if n < 0 {
        assert(trunc_div(n, d) * d == -(q * ad)) by (nonlinear_arith) requires trunc_div(n, d) == -q, d == ad;
        assert(q * ad == ad * q) by (nonlinear_arith);
    } else if d < 0 {
        assert(trunc_div(n, d) * d == q * ad) by (nonlinear_arith) requires trunc_div(n, d) == -q, d == -ad;
        assert(q * ad == ad * q) by (nonlinear_arith);
    } else {
        assert(q * d == ad * q) by (nonlinear_arith) requires d == ad;
    }
}

} // verus!
