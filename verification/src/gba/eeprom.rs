//! Whole EEPROM command sequences: what clocking in a write command, or a
//! read command and then reading out, does to the backup memory.
use vstd::prelude::*;
use vstd::arithmetic::power::{pow, lemma_pow0};
use vstd::arithmetic::power2::{pow2, lemma_pow2_unfold};
use vstd::bits::lemma_u64_shr_is_div;
use super::cartridge::{CartView, EepromState, BackupType, eeprom_addr_bits, pow2_64, store_word, eeprom_word};

verus! {

/// The `n` low bits of `v`, most significant first.
pub open spec fn bits_msb(v: nat, n: nat) -> Seq<u8>
    decreases n,
{
    if n == 0 { Seq::empty() } else { bits_msb(v / 2, (n - 1) as nat).push((v % 2) as u8) }
}

/// The cartridge after the bits `bs` are clocked into the EEPROM, in order.
pub open spec fn eeprom_write_bits(c: CartView, bs: Seq<u8>) -> CartView
    decreases bs.len(),
{
    if bs.len() == 0 { c } else { eeprom_write_bits(c, bs.drop_last()).eeprom_write_spec(bs.last()) }
}

/// The cartridge after `n` bits are read out of the EEPROM, and those bits.
pub open spec fn eeprom_read_bits(c: CartView, n: nat) -> (CartView, Seq<u8>)
    decreases n,
{
    if n == 0 {
        (c, Seq::empty())
    } else {
        let (c1, out) = eeprom_read_bits(c, (n - 1) as nat);
        let (c2, b) = c1.eeprom_read_spec();
        (c2, out.push(b))
    }
}

/// A write command for word `w` of an EEPROM with `ab` address bits: the
/// start bit, the opcode 01, the address, then the 64 data bits.
pub open spec fn write_command(ab: nat, w: nat, data: u64) -> Seq<u8> {
    seq![1u8] + bits_msb(pow2_64(ab) as nat + w, ab + 2) + bits_msb(data as nat, 64)
}

/// A read command for word `w`: the start bit, the opcode 10, the address.
pub open spec fn read_command(ab: nat, w: nat) -> Seq<u8> {
    seq![1u8] + bits_msb(2 * pow2_64(ab) as nat + w, ab + 2)
}

/// Shifting a bit into a 64-bit register doubles it and adds the bit,
/// modulo 2^64; low-bit masks are remainders.
proof fn lemma_shift_facts(x: u64, b: u64, y: u64)
    requires b <= 1,
    ensures
        ((x << 1u64) | b) as int == (2 * x + b) % 0x1_0000_0000_0000_0000,
        y & 1 == y % 2,
        y & 3 == y % 4,
{
    assert(((x << 1u64) | b) as int == (2 * x + b) % 0x1_0000_0000_0000_0000 && y & 1 == y % 2 && y & 3 == y % 4)
        by (bit_vector)
        requires b <= 1;
}

/// The two powers of two agree.
proof fn lemma_pow2_64(n: nat)
    ensures pow2_64(n) == pow2(n), pow2_64(n) > 0,
    decreases n,
{
    if n == 0 {
        lemma_pow0(2);
    } else {
        lemma_pow2_64((n - 1) as nat);
        lemma_pow2_unfold(n);
    }
}

/// Clocking in `a` then `b` is clocking in `a + b`.
proof fn lemma_write_bits_append(c: CartView, a: Seq<u8>, b: Seq<u8>)
    ensures eeprom_write_bits(c, a + b) == eeprom_write_bits(eeprom_write_bits(c, a), b),
    decreases b.len(),
{
    if b.len() == 0 {
        assert(a + b =~= a);
    } else {
        assert((a + b).drop_last() =~= a + b.drop_last());
        lemma_write_bits_append(c, a, b.drop_last());
    }
}

/// Each entry of `bits_msb` is 0 or 1.
proof fn lemma_bits_are_bits(v: nat, n: nat)
    ensures forall|i: int| 0 <= i < n ==> #[trigger] bits_msb(v, n)[i] <= 1, bits_msb(v, n).len() == n,
    decreases n,
{
    if n > 0 {
        lemma_bits_are_bits(v / 2, (n - 1) as nat);
    }
}

/// Splitting off the low bit: `2 * ((v / 2) % p) + v % 2 == v % (2 * p)`.
proof fn lemma_low_bits(v: int, p: int)
    requires v >= 0, p > 0,
    ensures 2 * ((v / 2) % p) + v % 2 == v % (2 * p),
{
    let q = v / 2;
    vstd::arithmetic::div_mod::lemma_fundamental_div_mod(q, p);
    let d = q / p;
    let m = q % p;
    let b = v % 2;
    let r = 2 * m + b;
    assert(v == 2 * q + b);
    assert(v == d * (2 * p) + r) by (nonlinear_arith)
        requires v == 2 * q + b, q == p * d + m, r == 2 * m + b;
    assert(0 <= r < 2 * p);
    vstd::arithmetic::div_mod::lemma_fundamental_div_mod_converse(v, 2 * p, d, r);
}

/// Powers of two grow.
proof fn lemma_pow2_64_mono(n: nat, m: nat)
    requires n <= m,
    ensures pow2_64(n) <= pow2_64(m),
    decreases m,
{
    if n < m {
        lemma_pow2_64_mono(n, (m - 1) as nat);
        lemma_pow2_64(m);
    }
}

/// One bit shifted into a small register.
proof fn lemma_shift_small(x: u64, b: u8)
    requires b <= 1, x < 0x4000_0000_0000_0000,
    ensures ((x << 1u64) | ((b % 2) as u64)) as int == 2 * x + b,
{
    lemma_shift_facts(x, (b % 2) as u64, 0);
}

/// Address and opcode bits clocked in after the start bit accumulate in
/// the command register, most significant first.
proof fn lemma_command_accum(c: CartView, v: nat, n: nat)
    requires
        c.eeprom_state == EepromState::ReadingCommand,
        c.eeprom_bits_in == 1, c.eeprom_bit_count == 1,
        1 + n < 3 + eeprom_addr_bits(c.backup_type),
    ensures
        eeprom_write_bits(c, bits_msb(v, n)) == (CartView {
            eeprom_bits_in: (pow2_64(n) + (v as int) % pow2_64(n)) as u64,
            eeprom_bit_count: (1 + n) as u8,
            ..c
        }),
        pow2_64(n) + (v as int) % pow2_64(n) < 2 * pow2_64(n),
    decreases n,
{
    lemma_pow2_64(n);
    if n == 0 {
        assert(v % 1 == 0);
    } else {
        let n1 = (n - 1) as nat;
        lemma_command_accum(c, v / 2, n1);
        lemma_pow2_64(n1);
        let c1 = eeprom_write_bits(c, bits_msb(v / 2, n1));
        let x = c1.eeprom_bits_in;
        assert(bits_msb(v, n).drop_last() =~= bits_msb(v / 2, n1));
        lemma_pow2_64_mono(n, 16);
        assert(pow2_64(16) == 0x10000) by { reveal_with_fuel(pow2_64, 17); }
        lemma_shift_small(x, (v % 2) as u8);
        lemma_low_bits(v as int, pow2_64(n1));
    }
}

/// Data bits clocked in during a write accumulate in the data register,
/// most significant first, modulo 2^64.
proof fn lemma_data_accum(c: CartView, v: nat, n: nat)
    requires
        c.eeprom_state == EepromState::WritingData,
        c.eeprom_bit_count == 0,
        n < 64,
    ensures
        eeprom_write_bits(c, bits_msb(v, n)) == (CartView {
            eeprom_read_data: ((c.eeprom_read_data * pow2_64(n) + (v as int) % pow2_64(n)) % 0x1_0000_0000_0000_0000) as u64,
            eeprom_bit_count: n as u8,
            ..c
        }),
    decreases n,
{
    lemma_pow2_64(n);
    if n == 0 {
        assert(v % 1 == 0);
    } else {
        let n1 = (n - 1) as nat;
        lemma_data_accum(c, v / 2, n1);
        lemma_pow2_64(n1);
        assert(bits_msb(v, n).drop_last() =~= bits_msb(v / 2, n1));
        let c1 = eeprom_write_bits(c, bits_msb(v / 2, n1));
        let r = c1.eeprom_read_data;
        let b = v % 2;
        lemma_shift_facts(r, b as u64, 0);
        lemma_low_bits(v as int, pow2_64(n1));
        let p = pow2_64(n1);
        let r0 = c.eeprom_read_data as int;
        let big = r0 * p + ((v / 2) as int) % p;
        lemma_double_mod(big, b as int);
        assert(pow2_64(n) == 2 * p);
        assert(2 * big + b == r0 * pow2_64(n) + (v as int) % pow2_64(n)) by (nonlinear_arith)
            requires big == r0 * p + ((v / 2) as int) % p, pow2_64(n) == 2 * p,
                2 * (((v / 2) as int) % p) + (v as int) % 2 == (v as int) % (2 * p), b == (v as int) % 2;
        assert(r as int == big % 0x1_0000_0000_0000_0000);
    }
}

/// Doubling a remainder and adding a bit, modulo 2^64, is doubling the
/// number and adding the bit.
proof fn lemma_double_mod(x: int, b: int)
    ensures (2 * (x % 0x1_0000_0000_0000_0000) + b) % 0x1_0000_0000_0000_0000 == (2 * x + b) % 0x1_0000_0000_0000_0000,
{
    let m: int = 0x1_0000_0000_0000_0000;
    vstd::arithmetic::div_mod::lemma_fundamental_div_mod(x, m);
    let q = x / m;
    assert(2 * x + b == m * (2 * q) + (2 * (x % m) + b)) by (nonlinear_arith)
        requires x == m * q + x % m;
    vstd::arithmetic::div_mod::lemma_mod_multiples_vanish(2 * q, 2 * (x % m) + b, m);
}

/// The start bit then the opcode `op` and address `w` bits: a write
/// command leaves the EEPROM waiting for data for word `w`, a read command
/// leaves word `w` ready to be read out after four dummy bits.
proof fn lemma_command(c: CartView, op: nat, w: nat)
    requires
        c.eeprom_state == EepromState::Idle,
        op == 1 || op == 2,
        w < pow2_64(eeprom_addr_bits(c.backup_type) as nat),
    ensures ({
        let ab = eeprom_addr_bits(c.backup_type) as nat;
        let r = eeprom_write_bits(c, seq![1u8] + bits_msb(op * pow2_64(ab) as nat + w, ab + 2));
        &&& op == 1 ==> r == (CartView { eeprom_bits_in: (w * 8) as u64, eeprom_bit_count: 0,
                eeprom_state: EepromState::WritingData, ..c })
        &&& op == 2 ==> r == (CartView { eeprom_read_data: eeprom_word(c.sram, (w * 8) as int, 8), eeprom_read_pos: 68,
                eeprom_state: EepromState::ReadReady, eeprom_bit_count: 0, eeprom_bits_in: 0, ..c })
    }),
{
    let ab = eeprom_addr_bits(c.backup_type) as nat;
    let p = pow2_64(ab);
    lemma_pow2_64(ab);
    lemma_pow2_64(ab + 1);
    lemma_pow2_64(ab + 2);
    assert(pow2_64(ab + 1) == 2 * p);
    assert(pow2_64(ab + 2) == 4 * p);
    let x: nat = op * p as nat + w;
    assert(x < 3 * p) by (nonlinear_arith) requires x == op * p + w, op <= 2, w < p;
    let cmd = bits_msb(x, ab + 2);
    lemma_write_bits_append(c, seq![1u8], cmd);
    assert(seq![1u8].drop_last() =~= Seq::<u8>::empty());
    let c0 = eeprom_write_bits(c, seq![1u8]);
    assert(eeprom_write_bits(c, Seq::<u8>::empty()) == c);
    assert(seq![1u8].last() == 1u8);
    assert(c0 == (CartView { eeprom_bits_in: 1, eeprom_bit_count: 1, eeprom_state: EepromState::ReadingCommand, ..c }));
    assert(cmd.drop_last() =~= bits_msb(x / 2, ab + 1));
    lemma_command_accum(c0, x / 2, ab + 1);
    let c1 = eeprom_write_bits(c0, bits_msb(x / 2, ab + 1));
    assert(x / 2 < 2 * p);
    vstd::arithmetic::div_mod::lemma_small_mod((x / 2) as nat, (2 * p) as nat);
    assert((x / 2) as int % pow2_64(ab + 1) == x / 2);
    lemma_pow2_64_mono(ab + 2, 16);
    assert(pow2_64(16) == 0x10000) by { reveal_with_fuel(pow2_64, 17); }
    let bits1 = c1.eeprom_bits_in;
    assert(bits1 == 2 * p + x / 2);
    lemma_shift_small(bits1, (x % 2) as u8);
    let bits = (bits1 << 1u64) | (((x % 2) as u8 % 2) as u64);
    assert(bits == 4 * p + x);
    // opcode and address
    lemma_u64_shr_is_div(bits, ab as u64);
    vstd::arithmetic::div_mod::lemma_fundamental_div_mod_converse(bits as int, p, 4 + op as int, w as int);
    assert(bits as int == (4 + op) * p + w) by (nonlinear_arith) requires bits == 4 * p + x, x == op * p + w;
    lemma_shift_facts(0, 0, bits >> (ab as u64));
}

/// 2^64 as the recursive power.
proof fn lemma_pow2_64_at_64()
    ensures pow2_64(64) == 0x1_0000_0000_0000_0000, pow2_64(63) == 0x8000_0000_0000_0000,
{
    reveal_with_fuel(pow2_64, 65);
}

/// Clocking a whole write command (the start bit, opcode 01, word address
/// `w` and the 64 bits of `d`, each most significant first) into an idle
/// EEPROM stores `d` big-endian at byte `8 * w` (bytes past the end are
/// dropped), marks the backup memory dirty and leaves the EEPROM idle.
pub proof fn lemma_eeprom_write_sequence(c: CartView, w: nat, d: u64)
    requires
        c.eeprom_state == EepromState::Idle,
        c.backup_type == BackupType::Eeprom512 || c.backup_type == BackupType::Eeprom8K,
        w < pow2_64(eeprom_addr_bits(c.backup_type) as nat),
    ensures
        eeprom_write_bits(c, write_command(eeprom_addr_bits(c.backup_type) as nat, w, d)) == (CartView {
            sram: store_word(c.sram, (8 * w) as int, d),
            dirty: true,
            eeprom_read_data: 0,
            eeprom_state: EepromState::Idle,
            eeprom_bit_count: 0,
            eeprom_bits_in: 0,
            ..c
        }),
{
    let ab = eeprom_addr_bits(c.backup_type) as nat;
    let p = pow2_64(ab);
    let head = seq![1u8] + bits_msb(1 * p as nat + w, ab + 2);
    assert(1 * p as nat + w == p as nat + w);
    assert(write_command(ab, w, d) =~= head + bits_msb(d as nat, 64));
    lemma_write_bits_append(c, head, bits_msb(d as nat, 64));
    lemma_command(c, 1, w);
    let c2 = eeprom_write_bits(c, head);
    lemma_pow2_64_at_64();
    let dn = d as nat;
    assert(bits_msb(dn, 64).drop_last() =~= bits_msb(dn / 2, 63));
    lemma_data_accum(c2, dn / 2, 63);
    let c3 = eeprom_write_bits(c2, bits_msb(dn / 2, 63));
    let m: int = 0x1_0000_0000_0000_0000;
    let half: int = 0x8000_0000_0000_0000;
    let r0 = c.eeprom_read_data as int;
    let big = r0 * half + ((dn / 2) as int) % half;
    assert(c3.eeprom_read_data as int == big % m);
    let b = dn % 2;
    lemma_shift_facts(c3.eeprom_read_data, b as u64, 0);
    lemma_double_mod(big, b as int);
    lemma_low_bits(dn as int, half);
    assert(2 * big + b == r0 * m + (dn as int) % m) by (nonlinear_arith)
        requires big == r0 * half + ((dn / 2) as int) % half, m == 2 * half,
            2 * (((dn / 2) as int) % half) + (dn as int) % 2 == (dn as int) % (2 * half), b == (dn as int) % 2;
    vstd::arithmetic::div_mod::lemma_small_mod(dn, m as nat);
    vstd::arithmetic::div_mod::lemma_mod_multiples_vanish(r0, dn as int, m);
    assert(((2 * big + b) % m) == d as int);
    assert(bits_msb(dn, 64).last() == (dn % 2) as u8);
    assert(eeprom_write_bits(c2, bits_msb(dn, 64)) == c3.eeprom_write_spec((dn % 2) as u8));
    let data = (c3.eeprom_read_data << 1u64) | ((((dn % 2) as u8) % 2) as u64);
    assert(data == d);
    lemma_pow2_64_mono(ab, 16);
    assert(pow2_64(16) == 0x10000) by { reveal_with_fuel(pow2_64, 17); }
    assert(c3.eeprom_bits_in as int == 8 * w);
}

/// Entry `i` of `bits_msb(v, n)` is bit `n - 1 - i` of `v`.
proof fn lemma_bits_msb_index(v: nat, n: nat, i: int)
    requires 0 <= i < n,
    ensures bits_msb(v, n)[i] == ((v / pow2_64((n - 1 - i) as nat) as nat) % 2) as u8,
    decreases n,
{
    lemma_pow2_64((n - 1 - i) as nat);
    lemma_bits_are_bits(v / 2, (n - 1) as nat);
    assert(bits_msb(v, n) == bits_msb(v / 2, (n - 1) as nat).push((v % 2) as u8));
    if i < n - 1 {
        lemma_bits_msb_index(v / 2, (n - 1) as nat, i);
        let q = pow2_64((n - 2 - i) as nat);
        lemma_pow2_64((n - 2 - i) as nat);
        vstd::arithmetic::div_mod::lemma_div_denominator(v as int, 2, q);
        assert(pow2_64((n - 1 - i) as nat) == 2 * q);
        assert(bits_msb(v, n)[i] == bits_msb(v / 2, (n - 1) as nat)[i]);
        assert(((v / 2) as int) / q == (v as int) / (2 * q));
    } else {
        assert(pow2_64(0) == 1);
        assert(bits_msb(v, n)[i] == (v % 2) as u8);
    }
}

/// What the 69 reads after a read command return: four dummy 0s, the 64
/// bits of the word, most significant first, then 1.
pub open spec fn read_out(x: u64) -> Seq<u8> {
    seq![0u8, 0u8, 0u8, 0u8] + bits_msb(x as nat, 64) + seq![1u8]
}

/// The first `k` reads of a word that is ready to be read out.
proof fn lemma_read_prefix(c: CartView, k: nat)
    requires c.eeprom_state == EepromState::ReadReady, c.eeprom_read_pos == 68, k <= 68,
    ensures eeprom_read_bits(c, k) == (CartView { eeprom_read_pos: (68 - k) as u8, ..c }, read_out(c.eeprom_read_data).take(k as int)),
    decreases k,
{
    let x = c.eeprom_read_data;
    let t = read_out(x);
    lemma_bits_are_bits(x as nat, 64);
    if k == 0 {
        assert(t.take(0) =~= Seq::<u8>::empty());
    } else {
        lemma_read_prefix(c, (k - 1) as nat);
        let pos = (69 - k) as u8;
        assert(t.take(k as int) =~= t.take(k - 1).push(t[k - 1]));
        if pos <= 64 {
            let sh = (pos - 1) as u64;
            lemma_u64_shr_is_div(x, sh);
            lemma_pow2_64(sh as nat);
            lemma_shift_facts(0, 0, x >> sh);
            lemma_bits_msb_index(x as nat, 64, k - 5);
            assert(t[k - 1] == bits_msb(x as nat, 64)[k - 5]);
        }
    }
}

/// A read command for word `w` clocked into an idle EEPROM, then 69 reads:
/// they return four dummy 0s, the 64 bits of the word stored big-endian at
/// byte `8 * w` (0xFF past the end), most significant first, then 1; and
/// the EEPROM is idle again.
pub proof fn lemma_eeprom_read_sequence(c: CartView, w: nat)
    requires
        c.eeprom_state == EepromState::Idle,
        c.backup_type == BackupType::Eeprom512 || c.backup_type == BackupType::Eeprom8K,
        w < pow2_64(eeprom_addr_bits(c.backup_type) as nat),
    ensures ({
        let x = eeprom_word(c.sram, (8 * w) as int, 8);
        let (c2, out) = eeprom_read_bits(eeprom_write_bits(c, read_command(eeprom_addr_bits(c.backup_type) as nat, w)), 69);
        &&& out == read_out(x)
        &&& c2 == (CartView { eeprom_read_data: x, eeprom_read_pos: 0, eeprom_state: EepromState::Idle,
                eeprom_bit_count: 0, eeprom_bits_in: 0, ..c })
    }),
{
    let ab = eeprom_addr_bits(c.backup_type) as nat;
    lemma_command(c, 2, w);
    assert(8 * w == w * 8);
    let c1 = eeprom_write_bits(c, read_command(ab, w));
    lemma_read_prefix(c1, 68);
    let x = c1.eeprom_read_data;
    lemma_bits_are_bits(x as nat, 64);
    assert(read_out(x).take(68).push(1u8) =~= read_out(x));
}

/// A word stored big-endian reads back.
proof fn lemma_store_word_read(s: Seq<u8>, a: int, d: u64)
    requires 0 <= a, a + 8 <= s.len(),
    ensures eeprom_word(store_word(s, a, d), a, 8) == d,
{
    let t = store_word(s, a, d);
    reveal_with_fuel(eeprom_word, 9);
    let b0 = t[a];
    let b1 = t[a + 1];
    let b2 = t[a + 2];
    let b3 = t[a + 3];
    let b4 = t[a + 4];
    let b5 = t[a + 5];
    let b6 = t[a + 6];
    let b7 = t[a + 7];
    assert(b0 == ((d >> 56u64) & 0xFF) as u8 && b1 == ((d >> 48u64) & 0xFF) as u8 && b2 == ((d >> 40u64) & 0xFF) as u8
        && b3 == ((d >> 32u64) & 0xFF) as u8 && b4 == ((d >> 24u64) & 0xFF) as u8 && b5 == ((d >> 16u64) & 0xFF) as u8
        && b6 == ((d >> 8u64) & 0xFF) as u8 && b7 == ((d >> 0u64) & 0xFF) as u8);
    assert(((((((((((((((((0u64 << 8u64) | b0 as u64) << 8u64) | b1 as u64) << 8u64) | b2 as u64) << 8u64)
        | b3 as u64) << 8u64) | b4 as u64) << 8u64) | b5 as u64) << 8u64) | b6 as u64) << 8u64) | b7 as u64) == d)
        by (bit_vector)
        requires b0 == ((d >> 56u64) & 0xFF) as u8, b1 == ((d >> 48u64) & 0xFF) as u8, b2 == ((d >> 40u64) & 0xFF) as u8,
            b3 == ((d >> 32u64) & 0xFF) as u8, b4 == ((d >> 24u64) & 0xFF) as u8, b5 == ((d >> 16u64) & 0xFF) as u8,
            b6 == ((d >> 8u64) & 0xFF) as u8, b7 == ((d >> 0u64) & 0xFF) as u8;
}

/// A word written with a write command reads back: after the write
/// sequence for word `w` with data `d` (the word lying within the backup
/// memory), a read command for `w` and 69 reads return four dummy 0s, the
/// 64 bits of `d` most significant first, then 1.
pub proof fn lemma_eeprom_write_then_read(c: CartView, w: nat, d: u64)
    requires
        c.eeprom_state == EepromState::Idle,
        c.backup_type == BackupType::Eeprom512 || c.backup_type == BackupType::Eeprom8K,
        w < pow2_64(eeprom_addr_bits(c.backup_type) as nat),
        8 * w + 8 <= c.sram.len(),
    ensures ({
        let ab = eeprom_addr_bits(c.backup_type) as nat;
        let c1 = eeprom_write_bits(c, write_command(ab, w, d));
        eeprom_read_bits(eeprom_write_bits(c1, read_command(ab, w)), 69).1 == read_out(d)
    }),
{
    let ab = eeprom_addr_bits(c.backup_type) as nat;
    lemma_eeprom_write_sequence(c, w, d);
    let c1 = eeprom_write_bits(c, write_command(ab, w, d));
    lemma_eeprom_read_sequence(c1, w);
    lemma_store_word_read(c.sram, (8 * w) as int, d);
}

} // verus!
