//! SM83 register file.
//!
//! The Game Boy CPU has 8 8-bit registers that pair into 4 16-bit ones:
//! AF (accumulator + flags), BC, DE, HL, plus SP and PC.
use vstd::prelude::*;

verus! {

pub const ZERO_FLAG: u8 = 0x80;
pub const SUB_FLAG: u8 = 0x40;
pub const HALF_CARRY_FLAG: u8 = 0x20;
pub const CARRY_FLAG: u8 = 0x10;

/// The 16-bit value formed by a high and a low byte.
pub open spec fn pair(hi: u8, lo: u8) -> u16 {
    (hi * 256 + lo) as u16
}

/// High byte of a 16-bit value.
pub open spec fn hi_byte(v: u16) -> u8 {
    (v / 256) as u8
}

/// Low byte of a 16-bit value.
pub open spec fn lo_byte(v: u16) -> u8 {
    (v % 256) as u8
}

/// `f` with the bits of `mask` set or cleared.
pub open spec fn with_bit(f: u8, mask: u8, on: bool) -> u8 {
    if on { f | mask } else { f & !mask }
}

pub open spec fn bit_set(f: u8, mask: u8) -> bool {
    f & mask != 0
}

/// SM83 register file.
/// Bit 7 of `f` is Z (zero), 6 is N (subtract), 5 is H (half-carry), 4 is C (carry).
#[derive(Clone, Copy)]
pub struct Registers {
    pub a: u8,
    pub f: u8,
    pub b: u8,
    pub c: u8,
    pub d: u8,
    pub e: u8,
    pub h: u8,
    pub l: u8,
    pub sp: u16,
    pub pc: u16,
}

impl Registers {
    pub open spec fn spec_af(self) -> u16 { pair(self.a, self.f) }
    pub open spec fn spec_bc(self) -> u16 { pair(self.b, self.c) }
    pub open spec fn spec_de(self) -> u16 { pair(self.d, self.e) }
    pub open spec fn spec_hl(self) -> u16 { pair(self.h, self.l) }
    pub open spec fn spec_z(self) -> bool { bit_set(self.f, ZERO_FLAG) }
    pub open spec fn spec_n(self) -> bool { bit_set(self.f, SUB_FLAG) }
    pub open spec fn spec_h(self) -> bool { bit_set(self.f, HALF_CARRY_FLAG) }
    pub open spec fn spec_c(self) -> bool { bit_set(self.f, CARRY_FLAG) }

    pub open spec fn with_bc(self, v: u16) -> Registers {
        Registers { b: hi_byte(v), c: lo_byte(v), ..self }
    }
    pub open spec fn with_de(self, v: u16) -> Registers {
        Registers { d: hi_byte(v), e: lo_byte(v), ..self }
    }
    pub open spec fn with_hl(self, v: u16) -> Registers {
        Registers { h: hi_byte(v), l: lo_byte(v), ..self }
    }
    /// The low nibble of F does not exist in hardware and is always stored as 0.
    pub open spec fn with_af(self, v: u16) -> Registers {
        Registers { a: hi_byte(v), f: (lo_byte(v) & 0xF0) as u8, ..self }
    }
    pub open spec fn with_z(self, on: bool) -> Registers {
        Registers { f: with_bit(self.f, ZERO_FLAG, on), ..self }
    }
    pub open spec fn with_n(self, on: bool) -> Registers {
        Registers { f: with_bit(self.f, SUB_FLAG, on), ..self }
    }
    pub open spec fn with_h(self, on: bool) -> Registers {
        Registers { f: with_bit(self.f, HALF_CARRY_FLAG, on), ..self }
    }
    pub open spec fn with_c(self, on: bool) -> Registers {
        Registers { f: with_bit(self.f, CARRY_FLAG, on), ..self }
    }
    /// All four flags written at once, in the order Z, N, H, C.
    pub open spec fn with_flags(self, z: bool, n: bool, h: bool, c: bool) -> Registers {
        self.with_z(z).with_n(n).with_h(h).with_c(c)
    }

    /// The post-boot register state (DMG).
    pub open spec fn new_spec() -> Registers {
        Registers { a: 0x01, f: 0xB0, b: 0x00, c: 0x13, d: 0x00, e: 0xD8, h: 0x01, l: 0x4D, sp: 0xFFFE, pc: 0x0100 }
    }

    /// Post-boot register state (DMG). Skips the boot ROM entirely.
    pub fn new() -> (r: Self)
        ensures
            r == Registers::new_spec(),
    {
        Registers { a: 0x01, f: 0xB0, b: 0x00, c: 0x13, d: 0x00, e: 0xD8, h: 0x01, l: 0x4D, sp: 0xFFFE, pc: 0x0100 }
    }

    /// Zero state for boot ROM execution — starts at PC=0x0000.
    pub fn reset_for_boot(&mut self)
        ensures
            final(self).a == 0 && final(self).f == 0 && final(self).b == 0 && final(self).c == 0,
            final(self).d == 0 && final(self).e == 0 && final(self).h == 0 && final(self).l == 0,
            final(self).sp == 0 && final(self).pc == 0,
    {
        self.a = 0;
        self.f = 0;
        self.b = 0;
        self.c = 0;
        self.d = 0;
        self.e = 0;
        self.h = 0;
        self.l = 0;
        self.sp = 0;
        self.pc = 0;
    }

    pub fn af(&self) -> (r: u16)
        ensures r == self.spec_af(),
    {
        self.a as u16 * 256 + self.f as u16
    }

    pub fn bc(&self) -> (r: u16)
        ensures r == self.spec_bc(),
    {
        self.b as u16 * 256 + self.c as u16
    }

    pub fn de(&self) -> (r: u16)
        ensures r == self.spec_de(),
    {
        self.d as u16 * 256 + self.e as u16
    }

    pub fn hl(&self) -> (r: u16)
        ensures r == self.spec_hl(),
    {
        self.h as u16 * 256 + self.l as u16
    }

    pub fn set_af(&mut self, val: u16)
        ensures *final(self) == old(self).with_af(val),
    {
        self.a = (val / 256) as u8;
        self.f = ((val % 256) as u8) & 0xF0;
    }

    pub fn set_bc(&mut self, val: u16)
        ensures *final(self) == old(self).with_bc(val),
    {
        self.b = (val / 256) as u8;
        self.c = (val % 256) as u8;
    }

    pub fn set_de(&mut self, val: u16)
        ensures *final(self) == old(self).with_de(val),
    {
        self.d = (val / 256) as u8;
        self.e = (val % 256) as u8;
    }

    pub fn set_hl(&mut self, val: u16)
        ensures *final(self) == old(self).with_hl(val),
    {
        self.h = (val / 256) as u8;
        self.l = (val % 256) as u8;
    }

    pub fn flag_z(&self) -> (r: bool)
        ensures r == self.spec_z(),
    {
        self.f & ZERO_FLAG != 0
    }

    pub fn flag_n(&self) -> (r: bool)
        ensures r == self.spec_n(),
    {
        self.f & SUB_FLAG != 0
    }

    pub fn flag_h(&self) -> (r: bool)
        ensures r == self.spec_h(),
    {
        self.f & HALF_CARRY_FLAG != 0
    }

    pub fn flag_c(&self) -> (r: bool)
        ensures r == self.spec_c(),
    {
        self.f & CARRY_FLAG != 0
    }

    pub fn set_flag_z(&mut self, on: bool)
        ensures *final(self) == old(self).with_z(on),
    {
        if on { self.f = self.f | ZERO_FLAG; } else { self.f = self.f & !ZERO_FLAG; }
    }

    pub fn set_flag_n(&mut self, on: bool)
        ensures *final(self) == old(self).with_n(on),
    {
        if on { self.f = self.f | SUB_FLAG; } else { self.f = self.f & !SUB_FLAG; }
    }

    pub fn set_flag_h(&mut self, on: bool)
        ensures *final(self) == old(self).with_h(on),
    {
        if on { self.f = self.f | HALF_CARRY_FLAG; } else { self.f = self.f & !HALF_CARRY_FLAG; }
    }

    pub fn set_flag_c(&mut self, on: bool)
        ensures *final(self) == old(self).with_c(on),
    {
        if on { self.f = self.f | CARRY_FLAG; } else { self.f = self.f & !CARRY_FLAG; }
    }
}

/// Writing a register pair and reading it back gives the value written, and
/// the halves are its high and low bytes.
pub proof fn lemma_pair_roundtrip(r: Registers, v: u16)
    ensures
        r.with_bc(v).spec_bc() == v,
        r.with_de(v).spec_de() == v,
        r.with_hl(v).spec_hl() == v,
        r.with_af(v).a == hi_byte(v),
{
}

/// Setting one flag makes it read back as set, leaves the other three flags
/// reading as before, and leaves the unused low nibble untouched.
pub proof fn lemma_flag_setters(f: u8, on: bool)
    ensures
        bit_set(with_bit(f, ZERO_FLAG, on), ZERO_FLAG) == on,
        bit_set(with_bit(f, SUB_FLAG, on), SUB_FLAG) == on,
        bit_set(with_bit(f, HALF_CARRY_FLAG, on), HALF_CARRY_FLAG) == on,
        bit_set(with_bit(f, CARRY_FLAG, on), CARRY_FLAG) == on,
        bit_set(with_bit(f, ZERO_FLAG, on), SUB_FLAG) == bit_set(f, SUB_FLAG),
        bit_set(with_bit(f, ZERO_FLAG, on), HALF_CARRY_FLAG) == bit_set(f, HALF_CARRY_FLAG),
        bit_set(with_bit(f, ZERO_FLAG, on), CARRY_FLAG) == bit_set(f, CARRY_FLAG),
        bit_set(with_bit(f, SUB_FLAG, on), ZERO_FLAG) == bit_set(f, ZERO_FLAG),
        bit_set(with_bit(f, SUB_FLAG, on), HALF_CARRY_FLAG) == bit_set(f, HALF_CARRY_FLAG),
        bit_set(with_bit(f, SUB_FLAG, on), CARRY_FLAG) == bit_set(f, CARRY_FLAG),
        bit_set(with_bit(f, HALF_CARRY_FLAG, on), ZERO_FLAG) == bit_set(f, ZERO_FLAG),
        bit_set(with_bit(f, HALF_CARRY_FLAG, on), SUB_FLAG) == bit_set(f, SUB_FLAG),
        bit_set(with_bit(f, HALF_CARRY_FLAG, on), CARRY_FLAG) == bit_set(f, CARRY_FLAG),
        bit_set(with_bit(f, CARRY_FLAG, on), ZERO_FLAG) == bit_set(f, ZERO_FLAG),
        bit_set(with_bit(f, CARRY_FLAG, on), SUB_FLAG) == bit_set(f, SUB_FLAG),
        bit_set(with_bit(f, CARRY_FLAG, on), HALF_CARRY_FLAG) == bit_set(f, HALF_CARRY_FLAG),
        with_bit(f, ZERO_FLAG, on) & 0x7F == f & 0x7F,
        with_bit(f, SUB_FLAG, on) & 0xBF == f & 0xBF,
        with_bit(f, HALF_CARRY_FLAG, on) & 0xDF == f & 0xDF,
        with_bit(f, CARRY_FLAG, on) & 0xEF == f & 0xEF,
{
    assert(bit_set(with_bit(f, ZERO_FLAG, on), ZERO_FLAG) == on
        && bit_set(with_bit(f, SUB_FLAG, on), SUB_FLAG) == on
        && bit_set(with_bit(f, HALF_CARRY_FLAG, on), HALF_CARRY_FLAG) == on
        && bit_set(with_bit(f, CARRY_FLAG, on), CARRY_FLAG) == on
        && bit_set(with_bit(f, ZERO_FLAG, on), SUB_FLAG) == bit_set(f, SUB_FLAG)
        && bit_set(with_bit(f, ZERO_FLAG, on), HALF_CARRY_FLAG) == bit_set(f, HALF_CARRY_FLAG)
        && bit_set(with_bit(f, ZERO_FLAG, on), CARRY_FLAG) == bit_set(f, CARRY_FLAG)
        && bit_set(with_bit(f, SUB_FLAG, on), ZERO_FLAG) == bit_set(f, ZERO_FLAG)
        && bit_set(with_bit(f, SUB_FLAG, on), HALF_CARRY_FLAG) == bit_set(f, HALF_CARRY_FLAG)
        && bit_set(with_bit(f, SUB_FLAG, on), CARRY_FLAG) == bit_set(f, CARRY_FLAG)
        && bit_set(with_bit(f, HALF_CARRY_FLAG, on), ZERO_FLAG) == bit_set(f, ZERO_FLAG)
        && bit_set(with_bit(f, HALF_CARRY_FLAG, on), SUB_FLAG) == bit_set(f, SUB_FLAG)
        && bit_set(with_bit(f, HALF_CARRY_FLAG, on), CARRY_FLAG) == bit_set(f, CARRY_FLAG)
        && bit_set(with_bit(f, CARRY_FLAG, on), ZERO_FLAG) == bit_set(f, ZERO_FLAG)
        && bit_set(with_bit(f, CARRY_FLAG, on), SUB_FLAG) == bit_set(f, SUB_FLAG)
        && bit_set(with_bit(f, CARRY_FLAG, on), HALF_CARRY_FLAG) == bit_set(f, HALF_CARRY_FLAG)
        && with_bit(f, ZERO_FLAG, on) & 0x7F == f & 0x7F
        && with_bit(f, SUB_FLAG, on) & 0xBF == f & 0xBF
        && with_bit(f, HALF_CARRY_FLAG, on) & 0xDF == f & 0xDF
        && with_bit(f, CARRY_FLAG, on) & 0xEF == f & 0xEF) by (bit_vector);
}

/// The flag setters never introduce bits into the low nibble of F.
pub proof fn lemma_flag_setters_keep_low_nibble(f: u8, mask: u8, on: bool)
    requires
        mask == ZERO_FLAG || mask == SUB_FLAG || mask == HALF_CARRY_FLAG || mask == CARRY_FLAG,
    ensures
        with_bit(f, mask, on) & 0x0F == f & 0x0F,
{
    assert(with_bit(f, mask, on) & 0x0F == f & 0x0F) by (bit_vector)
        requires mask == 0x80u8 || mask == 0x40u8 || mask == 0x20u8 || mask == 0x10u8;
}

/// Setting Z keeps F's low nibble zero.
pub broadcast proof fn lemma_with_z_low(r: Registers, on: bool)
    requires r.f & 0x0F == 0,
    ensures (#[trigger] r.with_z(on)).f & 0x0F == 0,
{
    lemma_flag_setters_keep_low_nibble(r.f, ZERO_FLAG, on);
}

/// Setting N keeps F's low nibble zero.
pub broadcast proof fn lemma_with_n_low(r: Registers, on: bool)
    requires r.f & 0x0F == 0,
    ensures (#[trigger] r.with_n(on)).f & 0x0F == 0,
{
    lemma_flag_setters_keep_low_nibble(r.f, SUB_FLAG, on);
}

/// Setting H keeps F's low nibble zero.
pub broadcast proof fn lemma_with_h_low(r: Registers, on: bool)
    requires r.f & 0x0F == 0,
    ensures (#[trigger] r.with_h(on)).f & 0x0F == 0,
{
    lemma_flag_setters_keep_low_nibble(r.f, HALF_CARRY_FLAG, on);
}

/// Setting C keeps F's low nibble zero.
pub broadcast proof fn lemma_with_c_low(r: Registers, on: bool)
    requires r.f & 0x0F == 0,
    ensures (#[trigger] r.with_c(on)).f & 0x0F == 0,
{
    lemma_flag_setters_keep_low_nibble(r.f, CARRY_FLAG, on);
}

/// Loading AF (POP AF) leaves F's low nibble zero.
pub broadcast proof fn lemma_with_af_low(r: Registers, v: u16)
    ensures (#[trigger] r.with_af(v)).f & 0x0F == 0,
{
    let b = lo_byte(v);
    assert((b & 0xF0u8) & 0x0Fu8 == 0) by (bit_vector);
}

pub broadcast group group_f_low {
    lemma_with_z_low,
    lemma_with_n_low,
    lemma_with_h_low,
    lemma_with_c_low,
    lemma_with_af_low,
}

} // verus!
