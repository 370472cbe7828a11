//! Save-state serialisation helpers.
//!
//! All values are stored in little-endian byte order. Readers never fail: a
//! cursor that runs short yields zero and is emptied.
use vstd::prelude::*;

verus! {

/// Largest vector accepted by `pop_vec` (1 MiB).
pub const MAX_VEC_LEN: usize = 1048576;

/// Little-endian bytes of a 16-bit value.
pub open spec fn le16(v: u16) -> Seq<u8> {
    seq![(v % 256) as u8, (v / 256) as u8]
}

/// Little-endian bytes of a 32-bit value.
pub open spec fn le32(v: u32) -> Seq<u8> {
    seq![(v % 256) as u8, ((v / 256) % 256) as u8, ((v / 65536) % 256) as u8, (v / 16777216) as u8]
}

/// The 16-bit value whose little-endian bytes start `s`.
pub open spec fn from_le16(s: Seq<u8>) -> u16 {
    (s[0] + 256 * s[1]) as u16
}

/// The 32-bit value whose little-endian bytes start `s`.
pub open spec fn from_le32(s: Seq<u8>) -> u32 {
    (s[0] + 256 * s[1] + 65536 * s[2] + 16777216 * s[3]) as u32
}

/// Two's-complement reading of a byte.
pub open spec fn i8_of(b: u8) -> i8 {
    if b < 128 { b as i8 } else { (b - 256) as i8 }
}

/// Two's-complement byte of a signed value.
pub open spec fn u8_of_i8(v: i8) -> u8 {
    if v >= 0 { v as u8 } else { (v + 256) as u8 }
}

/// Two's-complement reading of a 16-bit value.
pub open spec fn i16_of(w: u16) -> i16 {
    if w < 32768 { w as i16 } else { (w - 65536) as i16 }
}

/// Two's-complement 16-bit pattern of a signed value.
pub open spec fn u16_of_i16(v: i16) -> u16 {
    if v >= 0 { v as u16 } else { (v + 65536) as u16 }
}

/// What a reader that needs `n` bytes leaves behind.
pub open spec fn rest_after(s: Seq<u8>, n: int) -> Seq<u8> {
    if s.len() < n { Seq::empty() } else { s.subrange(n, s.len() as int) }
}

fn u8_of_i8_exec(v: i8) -> (r: u8)
    ensures r == u8_of_i8(v),
{
    if v >= 0 { v as u8 } else { (v as i16 + 256) as u8 }
}

fn i8_of_exec(b: u8) -> (r: i8)
    ensures r == i8_of(b),
{
    if b < 128 { b as i8 } else { (b as i16 - 256) as i8 }
}

pub fn push_u8(data: &mut Vec<u8>, v: u8)
    ensures
        final(data)@ == old(data)@.push(v),
{
    data.push(v);
}

pub fn push_u16(data: &mut Vec<u8>, v: u16)
    ensures
        final(data)@ == old(data)@ + le16(v),
{
    data.push((v % 256) as u8);
    data.push((v / 256) as u8);
    assert(data@ =~= old(data)@ + le16(v));
}

pub fn push_u32(data: &mut Vec<u8>, v: u32)
    ensures
        final(data)@ == old(data)@ + le32(v),
{
    data.push((v % 256) as u8);
    data.push(((v / 256) % 256) as u8);
    data.push(((v / 65536) % 256) as u8);
    data.push((v / 16777216) as u8);
    assert(data@ =~= old(data)@ + le32(v));
}

pub fn push_bool(data: &mut Vec<u8>, v: bool)
    ensures
        final(data)@ == old(data)@.push(if v { 1u8 } else { 0u8 }),
{
    data.push(if v { 1u8 } else { 0u8 });
}

pub fn push_i8(data: &mut Vec<u8>, v: i8)
    ensures
        final(data)@ == old(data)@.push(u8_of_i8(v)),
{
    let b = u8_of_i8_exec(v);
    data.push(b);
}

pub fn push_i16(data: &mut Vec<u8>, v: i16)
    ensures
        final(data)@ == old(data)@ + le16(u16_of_i16(v)),
{
    let w: u16 = if v >= 0 { v as u16 } else { (v as i32 + 65536) as u16 };
    push_u16(data, w);
}

/// Appends the slice's length as a 32-bit value, then its bytes.
pub fn push_slice(data: &mut Vec<u8>, s: &[u8])
    ensures
        final(data)@ == old(data)@ + le32(s@.len() as u32) + s@,
{
    push_u32(data, s.len() as u32);
    let ghost mid = data@;
    let mut i: usize = 0;
    while i < s.len()
        invariant
            i <= s@.len(),
            data@ == mid + s@.subrange(0, i as int),
        decreases s@.len() - i,
    {
        data.push(s[i]);
        i = i + 1;
        assert(data@ =~= mid + s@.subrange(0, i as int));
    }
    assert(s@.subrange(0, s@.len() as int) =~= s@);
}

pub fn pop_u8(data: &mut &[u8]) -> (r: u8)
    ensures
        r == (if old(data)@.len() == 0 { 0u8 } else { old(data)@[0] }),
        final(data)@ == rest_after(old(data)@, 1),
{
    if data.len() == 0 {
        assert(data@ =~= rest_after(old(data)@, 1));
        return 0;
    }
    let v = data[0];
    *data = &data[1..data.len()];
    v
}

pub fn pop_u16(data: &mut &[u8]) -> (r: u16)
    ensures
        r == (if old(data)@.len() < 2 { 0u16 } else { from_le16(old(data)@) }),
        final(data)@ == rest_after(old(data)@, 2),
{
    if data.len() < 2 {
        *data = &data[0..0];
        assert(data@ =~= rest_after(old(data)@, 2));
        return 0;
    }
    let v = data[0] as u16 + 256 * data[1] as u16;
    *data = &data[2..data.len()];
    v
}

pub fn pop_u32(data: &mut &[u8]) -> (r: u32)
    ensures
        r == (if old(data)@.len() < 4 { 0u32 } else { from_le32(old(data)@) }),
        final(data)@ == rest_after(old(data)@, 4),
{
    if data.len() < 4 {
        *data = &data[0..0];
        assert(data@ =~= rest_after(old(data)@, 4));
        return 0;
    }
    let v = data[0] as u32 + 256 * data[1] as u32 + 65536 * data[2] as u32
        + 16777216 * data[3] as u32;
    *data = &data[4..data.len()];
    v
}

pub fn pop_bool(data: &mut &[u8]) -> (r: bool)
    ensures
        r == (old(data)@.len() > 0 && old(data)@[0] != 0),
        final(data)@ == rest_after(old(data)@, 1),
{
    pop_u8(data) != 0
}

pub fn pop_i8(data: &mut &[u8]) -> (r: i8)
    ensures
        r == (if old(data)@.len() == 0 { 0i8 } else { i8_of(old(data)@[0]) }),
        final(data)@ == rest_after(old(data)@, 1),
{
    let b = pop_u8(data);
    i8_of_exec(b)
}

pub fn pop_i16(data: &mut &[u8]) -> (r: i16)
    ensures
        r == (if old(data)@.len() < 2 { 0i16 } else { i16_of(from_le16(old(data)@)) }),
        final(data)@ == rest_after(old(data)@, 2),
{
    let w = pop_u16(data);
    if w < 32768 { w as i16 } else { (w as i32 - 65536) as i16 }
}

/// The number of bytes `pop_vec` takes after the length prefix.
pub open spec fn vec_take(s: Seq<u8>) -> int {
    let n = if s.len() < 4 { 0int } else { from_le32(s) as int };
    let rest = rest_after(s, 4);
    let m = if n < rest.len() { n } else { rest.len() as int };
    if m < MAX_VEC_LEN { m } else { MAX_VEC_LEN as int }
}

/// Reads a length-prefixed byte vector. The length is capped by the bytes
/// that remain and by `MAX_VEC_LEN`.
pub fn pop_vec(data: &mut &[u8]) -> (r: Vec<u8>)
    ensures
        r@ == rest_after(old(data)@, 4).subrange(0, vec_take(old(data)@)),
        final(data)@ == rest_after(old(data)@, 4).subrange(vec_take(old(data)@), rest_after(old(data)@, 4).len() as int),
{
    let len = pop_u32(data) as usize;
    let len = if len < data.len() { len } else { data.len() };
    let len = if len < MAX_VEC_LEN { len } else { MAX_VEC_LEN };
    let head = &data[0..len];
    let v = vstd::slice::slice_to_vec(head);
    *data = &data[len..data.len()];
    v
}

/// A value pushed by `push_u16` is read back by `pop_u16`, and the cursor
/// moves past exactly its two bytes.
pub proof fn lemma_u16_roundtrip(v: u16, tail: Seq<u8>)
    ensures
        from_le16(le16(v) + tail) == v,
        rest_after(le16(v) + tail, 2) == tail,
{
    let s = le16(v) + tail;
    assert(s[0] == (v % 256) as u8);
    assert(s[1] == (v / 256) as u8);
    assert(rest_after(s, 2) =~= tail);
}

/// A value pushed by `push_u32` is read back by `pop_u32`, and the cursor
/// moves past exactly its four bytes.
pub proof fn lemma_u32_roundtrip(v: u32, tail: Seq<u8>)
    ensures
        from_le32(le32(v) + tail) == v,
        rest_after(le32(v) + tail, 4) == tail,
{
    let s = le32(v) + tail;
    assert(s[0] == (v % 256) as u8);
    assert(s[1] == ((v / 256) % 256) as u8);
    assert(s[2] == ((v / 65536) % 256) as u8);
    assert(s[3] == (v / 16777216) as u8);
    assert(rest_after(s, 4) =~= tail);
}

/// A byte pushed by `push_u8` is read back by `pop_u8`.
pub proof fn lemma_u8_roundtrip(v: u8, tail: Seq<u8>)
    ensures
        (seq![v] + tail)[0] == v,
        rest_after(seq![v] + tail, 1) == tail,
{
    assert(rest_after(seq![v] + tail, 1) =~= tail);
}

/// A signed byte survives `push_i8` then `pop_i8`.
pub proof fn lemma_i8_roundtrip(v: i8)
    ensures
        i8_of(u8_of_i8(v)) == v,
{
}

/// A signed 16-bit value survives `push_i16` then `pop_i16`.
pub proof fn lemma_i16_roundtrip(v: i16, tail: Seq<u8>)
    ensures
        i16_of(from_le16(le16(u16_of_i16(v)) + tail)) == v,
{
    lemma_u16_roundtrip(u16_of_i16(v), tail);
}

/// A slice of at most `MAX_VEC_LEN` bytes pushed by `push_slice` is read back
/// whole by `pop_vec`, and the cursor stops right after it.
pub proof fn lemma_slice_roundtrip(s: Seq<u8>, tail: Seq<u8>)
    requires
        s.len() <= MAX_VEC_LEN,
    ensures
        ({
            let d = le32(s.len() as u32) + s + tail;
            &&& rest_after(d, 4).subrange(0, vec_take(d)) == s
            &&& rest_after(d, 4).subrange(vec_take(d), rest_after(d, 4).len() as int) == tail
        }),
{
    let d = le32(s.len() as u32) + s + tail;
    assert(d =~= le32(s.len() as u32) + (s + tail));
    lemma_u32_roundtrip(s.len() as u32, s + tail);
    assert(rest_after(d, 4) =~= s + tail);
    assert(vec_take(d) == s.len());
    assert((s + tail).subrange(0, s.len() as int) =~= s);
    assert((s + tail).subrange(s.len() as int, (s + tail).len() as int) =~= tail);
}

/// What `pop_u8` returns and leaves, as a pair.
pub open spec fn take_u8(s: Seq<u8>) -> (u8, Seq<u8>) {
    (if s.len() == 0 { 0u8 } else { s[0] }, rest_after(s, 1))
}

/// What `pop_bool` returns and leaves, as a pair.
pub open spec fn take_bool(s: Seq<u8>) -> (bool, Seq<u8>) {
    (s.len() > 0 && s[0] != 0, rest_after(s, 1))
}

/// What `pop_u16` returns and leaves, as a pair.
pub open spec fn take_u16(s: Seq<u8>) -> (u16, Seq<u8>) {
    (if s.len() < 2 { 0u16 } else { from_le16(s) }, rest_after(s, 2))
}

/// What `pop_u32` returns and leaves, as a pair.
pub open spec fn take_u32(s: Seq<u8>) -> (u32, Seq<u8>) {
    (if s.len() < 4 { 0u32 } else { from_le32(s) }, rest_after(s, 4))
}

/// What `pop_i16` returns and leaves, as a pair.
pub open spec fn take_i16(s: Seq<u8>) -> (i16, Seq<u8>) {
    (if s.len() < 2 { 0i16 } else { i16_of(from_le16(s)) }, rest_after(s, 2))
}

/// What `pop_vec` returns and leaves, as a pair.
pub open spec fn take_vec(s: Seq<u8>) -> (Seq<u8>, Seq<u8>) {
    let r = rest_after(s, 4);
    (r.subrange(0, vec_take(s)), r.subrange(vec_take(s), r.len() as int))
}

/// Encoding of a flag as `push_bool` writes it.
pub open spec fn enc_bool(v: bool) -> Seq<u8> {
    seq![if v { 1u8 } else { 0u8 }]
}

/// Encoding of a byte slice as `push_slice` writes it.
pub open spec fn enc_slice(s: Seq<u8>) -> Seq<u8> {
    le32(s.len() as u32) + s
}

/// `take_u8` reads back a byte written in front of `tail`.
pub proof fn lemma_take_u8(v: u8, tail: Seq<u8>)
    ensures take_u8(seq![v] + tail) == (v, tail),
{
    lemma_u8_roundtrip(v, tail);
}

/// `take_bool` reads back a flag written in front of `tail`.
pub proof fn lemma_take_bool(v: bool, tail: Seq<u8>)
    ensures take_bool(enc_bool(v) + tail) == (v, tail),
{
    assert(rest_after(enc_bool(v) + tail, 1) =~= tail);
}

/// `take_u16` reads back a halfword written in front of `tail`.
pub proof fn lemma_take_u16(v: u16, tail: Seq<u8>)
    ensures take_u16(le16(v) + tail) == (v, tail),
{
    lemma_u16_roundtrip(v, tail);
}

/// `take_u32` reads back a word written in front of `tail`.
pub proof fn lemma_take_u32(v: u32, tail: Seq<u8>)
    ensures take_u32(le32(v) + tail) == (v, tail),
{
    lemma_u32_roundtrip(v, tail);
}

/// `take_i16` reads back a signed halfword written in front of `tail`.
pub proof fn lemma_take_i16(v: i16, tail: Seq<u8>)
    ensures take_i16(le16(u16_of_i16(v)) + tail) == (v, tail),
{
    lemma_i16_roundtrip(v, tail);
    lemma_u16_roundtrip(u16_of_i16(v), tail);
}

/// `take_vec` reads back a slice written by `push_slice` in front of `tail`.
pub proof fn lemma_take_vec(v: Seq<u8>, tail: Seq<u8>)
    requires v.len() <= MAX_VEC_LEN,
    ensures take_vec(enc_slice(v) + tail) == (v, tail),
{
    lemma_slice_roundtrip(v, tail);
}

/// Each reader undoes its writer: the value comes back and the cursor moves
/// past exactly the bytes the writer appended.
pub proof fn lemma_take_roundtrips(tail: Seq<u8>)
    ensures
        forall|v: u8| #[trigger] take_u8(seq![v] + tail) == (v, tail),
        forall|v: bool| #[trigger] take_bool(enc_bool(v) + tail) == (v, tail),
        forall|v: u16| #[trigger] take_u16(le16(v) + tail) == (v, tail),
        forall|v: u32| #[trigger] take_u32(le32(v) + tail) == (v, tail),
        forall|v: i16| #[trigger] take_i16(le16(u16_of_i16(v)) + tail) == (v, tail),
        forall|v: Seq<u8>| v.len() <= MAX_VEC_LEN ==> #[trigger] take_vec(enc_slice(v) + tail) == (v, tail),
{
    assert forall|v: u8| #[trigger] take_u8(seq![v] + tail) == (v, tail) by {
        lemma_u8_roundtrip(v, tail);
    }
    assert forall|v: bool| #[trigger] take_bool(enc_bool(v) + tail) == (v, tail) by {
        assert(rest_after(enc_bool(v) + tail, 1) =~= tail);
    }
    assert forall|v: u16| #[trigger] take_u16(le16(v) + tail) == (v, tail) by {
        lemma_u16_roundtrip(v, tail);
    }
    assert forall|v: u32| #[trigger] take_u32(le32(v) + tail) == (v, tail) by {
        lemma_u32_roundtrip(v, tail);
    }
    assert forall|v: i16| #[trigger] take_i16(le16(u16_of_i16(v)) + tail) == (v, tail) by {
        lemma_i16_roundtrip(v, tail);
        lemma_u16_roundtrip(u16_of_i16(v), tail);
    }
    assert forall|v: Seq<u8>| v.len() <= MAX_VEC_LEN implies #[trigger] take_vec(enc_slice(v) + tail) == (v, tail) by {
        lemma_slice_roundtrip(v, tail);
    }
}

} // verus!
