//! Little- and big-endian integer encodings over byte sequences.

use vstd::prelude::*;

verus! {

/// Little-endian 32-bit word from four bytes.
pub open spec fn le_u32(b0: u8, b1: u8, b2: u8, b3: u8) -> u32 {
    (b0 as u32) | ((b1 as u32) << 8u32) | ((b2 as u32) << 16u32) | ((b3 as u32) << 24u32)
}

/// Byte `k` (0..4) of `w` in little-endian order.
pub open spec fn le_byte(w: u32, k: int) -> u8 {
    ((w >> ((8 * k) as u32)) & 0xFFu32) as u8
}

/// The little-endian word stored at `bytes[i .. i + 4]`.
pub open spec fn word_at(bytes: Seq<u8>, i: int) -> u32 {
    le_u32(bytes[i], bytes[i + 1], bytes[i + 2], bytes[i + 3])
}

pub proof fn lemma_le_bytes(w: u32)
    ensures
        le_byte(w, 0) == (w & 0xFFu32) as u8,
        le_byte(w, 1) == ((w >> 8u32) & 0xFFu32) as u8,
        le_byte(w, 2) == ((w >> 16u32) & 0xFFu32) as u8,
        le_byte(w, 3) == ((w >> 24u32) & 0xFFu32) as u8,
{
    assert(w >> 0u32 == w) by (bit_vector);
}

/// Reads the little-endian word at `data[i .. i + 4]`.
pub fn read_word(data: &Vec<u8>, i: usize) -> (w: u32)
    requires
        i + 4 <= data@.len(),
    ensures
        w == word_at(data@, i as int),
{
    let _n = data.len();
    let b0 = data[i];
    let b1 = data[i + 1];
    let b2 = data[i + 2];
    let b3 = data[i + 3];
    (b0 as u32) | ((b1 as u32) << 8) | ((b2 as u32) << 16) | ((b3 as u32) << 24)
}

/// Overwrites `data[i .. i + 4]` with the little-endian bytes of `w`.
pub fn write_word(data: &mut Vec<u8>, i: usize, w: u32)
    requires
        i + 4 <= old(data)@.len(),
    ensures
        final(data)@.len() == old(data)@.len(),
        forall|k: int|
            0 <= k < old(data)@.len() && !(i <= k < i + 4) ==> final(data)@[k] == old(data)@[k],
        forall|t: int| 0 <= t < 4 ==> final(data)@[i + t] == le_byte(w, t),
{
    proof {
        lemma_le_bytes(w);
    }
    let _n = data.len();
    data.set(i, (w & 0xFF) as u8);
    data.set(i + 1, ((w >> 8) & 0xFF) as u8);
    data.set(i + 2, ((w >> 16) & 0xFF) as u8);
    data.set(i + 3, ((w >> 24) & 0xFF) as u8);
    assert(forall|t: int| 0 <= t < 4 ==> final(data)@[i + t] == le_byte(w, t)) by {
        assert(final(data)@[i + 0] == le_byte(w, 0));
    }
}

pub proof fn lemma_le_u32_of_bytes(w: u32)
    ensures
        le_u32(le_byte(w, 0), le_byte(w, 1), le_byte(w, 2), le_byte(w, 3)) == w,
{
    lemma_le_bytes(w);
    assert(((w & 0xFFu32) as u8 as u32) | ((((w >> 8u32) & 0xFFu32) as u8 as u32) << 8u32) | ((((w
        >> 16u32) & 0xFFu32) as u8 as u32) << 16u32) | ((((w >> 24u32) & 0xFFu32) as u8 as u32)
        << 24u32) == w) by (bit_vector);
}

pub proof fn lemma_bytes_of_le_u32(b0: u8, b1: u8, b2: u8, b3: u8)
    ensures
        le_byte(le_u32(b0, b1, b2, b3), 0) == b0,
        le_byte(le_u32(b0, b1, b2, b3), 1) == b1,
        le_byte(le_u32(b0, b1, b2, b3), 2) == b2,
        le_byte(le_u32(b0, b1, b2, b3), 3) == b3,
{
    let w = le_u32(b0, b1, b2, b3);
    lemma_le_bytes(w);
    assert(((((b0 as u32) | ((b1 as u32) << 8u32) | ((b2 as u32) << 16u32) | ((b3 as u32)
        << 24u32)) & 0xFFu32) as u8) == b0 && (((((b0 as u32) | ((b1 as u32) << 8u32) | ((b2
        as u32) << 16u32) | ((b3 as u32) << 24u32)) >> 8u32) & 0xFFu32) as u8) == b1 && (((((b0
        as u32) | ((b1 as u32) << 8u32) | ((b2 as u32) << 16u32) | ((b3 as u32) << 24u32))
        >> 16u32) & 0xFFu32) as u8) == b2 && (((((b0 as u32) | ((b1 as u32) << 8u32) | ((b2
        as u32) << 16u32) | ((b3 as u32) << 24u32)) >> 24u32) & 0xFFu32) as u8) == b3)
        by (bit_vector);
}

/// Little-endian 16-bit value stored at `bytes[i .. i + 2]`.
pub open spec fn u16_at(bytes: Seq<u8>, i: int) -> u16 {
    ((bytes[i] as u16) | ((bytes[i + 1] as u16) << 8u16)) as u16
}

/// Little-endian 64-bit value stored at `bytes[i .. i + 8]`.
pub open spec fn u64_at(bytes: Seq<u8>, i: int) -> u64 {
    (word_at(bytes, i) as u64) | ((word_at(bytes, i + 4) as u64) << 32u64)
}

/// Little-endian bytes of a 16-bit value.
pub open spec fn u16_le(v: u16) -> Seq<u8> {
    seq![(v & 0xFFu16) as u8, ((v >> 8u16) & 0xFFu16) as u8]
}

/// Little-endian bytes of a 32-bit value.
pub open spec fn u32_le(v: u32) -> Seq<u8> {
    seq![le_byte(v, 0), le_byte(v, 1), le_byte(v, 2), le_byte(v, 3)]
}

/// Little-endian bytes of a 64-bit value.
pub open spec fn u64_le(v: u64) -> Seq<u8> {
    u32_le((v & 0xFFFF_FFFFu64) as u32) + u32_le((v >> 32u64) as u32)
}

/// Big-endian bytes of a 16-bit value.
pub open spec fn u16_be(v: u16) -> Seq<u8> {
    seq![((v >> 8u16) & 0xFFu16) as u8, (v & 0xFFu16) as u8]
}

/// Big-endian bytes of a 32-bit value.
pub open spec fn u32_be(v: u32) -> Seq<u8> {
    seq![le_byte(v, 3), le_byte(v, 2), le_byte(v, 1), le_byte(v, 0)]
}

/// Big-endian bytes of a 64-bit value.
pub open spec fn u64_be(v: u64) -> Seq<u8> {
    u32_be((v >> 32u64) as u32) + u32_be((v & 0xFFFF_FFFFu64) as u32)
}

/// Big-endian 16-bit value stored at `bytes[i .. i + 2]`.
pub open spec fn u16_be_at(bytes: Seq<u8>, i: int) -> u16 {
    (((bytes[i] as u16) << 8u16) | (bytes[i + 1] as u16)) as u16
}

/// Big-endian 32-bit value stored at `bytes[i .. i + 4]`.
pub open spec fn u32_be_at(bytes: Seq<u8>, i: int) -> u32 {
    le_u32(bytes[i + 3], bytes[i + 2], bytes[i + 1], bytes[i])
}

/// Big-endian 64-bit value stored at `bytes[i .. i + 8]`.
pub open spec fn u64_be_at(bytes: Seq<u8>, i: int) -> u64 {
    ((u32_be_at(bytes, i) as u64) << 32u64) | (u32_be_at(bytes, i + 4) as u64)
}

pub proof fn lemma_u16_le_roundtrip(v: u16)
    ensures
        u16_at(u16_le(v), 0) == v,
{
    let b = u16_le(v);
    assert((((v & 0xFFu16) as u8 as u16) | ((((v >> 8u16) & 0xFFu16) as u8 as u16) << 8u16)) as u16
        == v) by (bit_vector);
}

pub proof fn lemma_u32_le_roundtrip(v: u32)
    ensures
        word_at(u32_le(v), 0) == v,
{
    lemma_le_u32_of_bytes(v);
}

pub proof fn lemma_u64_le_roundtrip(v: u64)
    ensures
        u64_at(u64_le(v), 0) == v,
{
    let lo = (v & 0xFFFF_FFFFu64) as u32;
    let hi = (v >> 32u64) as u32;
    lemma_le_u32_of_bytes(lo);
    lemma_le_u32_of_bytes(hi);
    let b = u64_le(v);
    assert(word_at(b, 0) == lo);
    assert(word_at(b, 4) == hi) by {
        assert(b[4] == le_byte(hi, 0) && b[5] == le_byte(hi, 1) && b[6] == le_byte(hi, 2) && b[7]
            == le_byte(hi, 3));
    }
    assert(((v & 0xFFFF_FFFFu64) as u32 as u64) | (((v >> 32u64) as u32 as u64) << 32u64) == v)
        by (bit_vector);
}

pub proof fn lemma_u16_be_roundtrip(v: u16)
    ensures
        u16_be_at(u16_be(v), 0) == v,
{
    assert(((((v >> 8u16) & 0xFFu16) as u8 as u16) << 8u16 | ((v & 0xFFu16) as u8 as u16)) as u16
        == v) by (bit_vector);
}

pub proof fn lemma_u32_be_roundtrip(v: u32)
    ensures
        u32_be_at(u32_be(v), 0) == v,
{
    lemma_le_u32_of_bytes(v);
}

pub proof fn lemma_u64_be_roundtrip(v: u64)
    ensures
        u64_be_at(u64_be(v), 0) == v,
{
    let lo = (v & 0xFFFF_FFFFu64) as u32;
    let hi = (v >> 32u64) as u32;
    lemma_le_u32_of_bytes(lo);
    lemma_le_u32_of_bytes(hi);
    let b = u64_be(v);
    assert(u32_be_at(b, 0) == hi);
    assert(u32_be_at(b, 4) == lo) by {
        assert(b[4] == le_byte(lo, 3) && b[5] == le_byte(lo, 2) && b[6] == le_byte(lo, 1) && b[7]
            == le_byte(lo, 0));
    }
    assert((((v >> 32u64) as u32 as u64) << 32u64) | ((v & 0xFFFF_FFFFu64) as u32 as u64) == v)
        by (bit_vector);
}

/// Reads the little-endian `u16` at `data[i .. i + 2]`.
pub fn read_u16_le(data: &[u8], i: usize) -> (v: u16)
    requires
        i + 2 <= data@.len(),
    ensures
        v == u16_at(data@, i as int),
{
    let _n = data.len();
    let b0 = data[i];
    let b1 = data[i + 1];
    (b0 as u16) | ((b1 as u16) << 8)
}

/// Reads the little-endian `u32` at `data[i .. i + 4]`.
pub fn read_u32_le(data: &[u8], i: usize) -> (v: u32)
    requires
        i + 4 <= data@.len(),
    ensures
        v == word_at(data@, i as int),
{
    let _n = data.len();
    let b0 = data[i];
    let b1 = data[i + 1];
    let b2 = data[i + 2];
    let b3 = data[i + 3];
    (b0 as u32) | ((b1 as u32) << 8) | ((b2 as u32) << 16) | ((b3 as u32) << 24)
}

/// Reads the little-endian `u64` at `data[i .. i + 8]`.
pub fn read_u64_le(data: &[u8], i: usize) -> (v: u64)
    requires
        i + 8 <= data@.len(),
    ensures
        v == u64_at(data@, i as int),
{
    let _n = data.len();
    let lo = read_u32_le(data, i);
    let hi = read_u32_le(data, i + 4);
    (lo as u64) | ((hi as u64) << 32)
}

/// Reads the big-endian `u16` at `data[i .. i + 2]`.
pub fn read_u16_be(data: &[u8], i: usize) -> (v: u16)
    requires
        i + 2 <= data@.len(),
    ensures
        v == u16_be_at(data@, i as int),
{
    let _n = data.len();
    let b0 = data[i];
    let b1 = data[i + 1];
    ((b0 as u16) << 8) | (b1 as u16)
}

/// Reads the big-endian `u32` at `data[i .. i + 4]`.
pub fn read_u32_be(data: &[u8], i: usize) -> (v: u32)
    requires
        i + 4 <= data@.len(),
    ensures
        v == u32_be_at(data@, i as int),
{
    let _n = data.len();
    let b0 = data[i];
    let b1 = data[i + 1];
    let b2 = data[i + 2];
    let b3 = data[i + 3];
    (b3 as u32) | ((b2 as u32) << 8) | ((b1 as u32) << 16) | ((b0 as u32) << 24)
}

/// Reads the big-endian `u64` at `data[i .. i + 8]`.
pub fn read_u64_be(data: &[u8], i: usize) -> (v: u64)
    requires
        i + 8 <= data@.len(),
    ensures
        v == u64_be_at(data@, i as int),
{
    let _n = data.len();
    let hi = read_u32_be(data, i);
    let lo = read_u32_be(data, i + 4);
    ((hi as u64) << 32) | (lo as u64)
}

/// Appends the little-endian bytes of `v`.
pub fn push_u16_le(out: &mut Vec<u8>, v: u16)
    ensures
        final(out)@ == old(out)@ + u16_le(v),
{
    out.push((v & 0xFF) as u8);
    out.push(((v >> 8) & 0xFF) as u8);
    assert(final(out)@ =~= old(out)@ + u16_le(v));
}

/// Appends the little-endian bytes of `v`.
pub fn push_u32_le(out: &mut Vec<u8>, v: u32)
    ensures
        final(out)@ == old(out)@ + u32_le(v),
{
    proof {
        lemma_le_bytes(v);
    }
    out.push((v & 0xFF) as u8);
    out.push(((v >> 8) & 0xFF) as u8);
    out.push(((v >> 16) & 0xFF) as u8);
    out.push(((v >> 24) & 0xFF) as u8);
    assert(final(out)@ =~= old(out)@ + u32_le(v));
}

/// Appends the little-endian bytes of `v`.
pub fn push_u64_le(out: &mut Vec<u8>, v: u64)
    ensures
        final(out)@ == old(out)@ + u64_le(v),
{
    let ghost start = out@;
    push_u32_le(out, (v & 0xFFFF_FFFF) as u32);
    push_u32_le(out, (v >> 32) as u32);
    assert(final(out)@ =~= start + u64_le(v));
}

/// Appends the big-endian bytes of `v`.
pub fn push_u16_be(out: &mut Vec<u8>, v: u16)
    ensures
        final(out)@ == old(out)@ + u16_be(v),
{
    out.push(((v >> 8) & 0xFF) as u8);
    out.push((v & 0xFF) as u8);
    assert(final(out)@ =~= old(out)@ + u16_be(v));
}

/// Appends the big-endian bytes of `v`.
pub fn push_u32_be(out: &mut Vec<u8>, v: u32)
    ensures
        final(out)@ == old(out)@ + u32_be(v),
{
    proof {
        lemma_le_bytes(v);
    }
    out.push(((v >> 24) & 0xFF) as u8);
    out.push(((v >> 16) & 0xFF) as u8);
    out.push(((v >> 8) & 0xFF) as u8);
    out.push((v & 0xFF) as u8);
    assert(final(out)@ =~= old(out)@ + u32_be(v));
}

/// Appends the big-endian bytes of `v`.
pub fn push_u64_be(out: &mut Vec<u8>, v: u64)
    ensures
        final(out)@ == old(out)@ + u64_be(v),
{
    let ghost start = out@;
    push_u32_be(out, (v >> 32) as u32);
    push_u32_be(out, (v & 0xFFFF_FFFF) as u32);
    assert(final(out)@ =~= start + u64_be(v));
}

/// A fresh vector holding `data[start .. end]`.
pub fn copy_range(data: &[u8], start: usize, end: usize) -> (r: Vec<u8>)
    requires
        start <= end <= data@.len(),
    ensures
        r@ == data@.subrange(start as int, end as int),
{
    let mut r: Vec<u8> = Vec::new();
    let mut i = start;
    while i < end
        invariant
            start <= i <= end <= data@.len(),
            r@ == data@.subrange(start as int, i as int),
        decreases end - i,
    {
        r.push(data[i]);
        i = i + 1;
        assert(r@ =~= data@.subrange(start as int, i as int));
    }
    r
}

/// Appends every byte of `data` to `out`.
pub fn append_bytes(out: &mut Vec<u8>, data: &[u8])
    ensures
        final(out)@ == old(out)@ + data@,
{
    let ghost start = out@;
    let mut i: usize = 0;
    while i < data.len()
        invariant
            i <= data@.len(),
            out@ == start + data@.subrange(0, i as int),
        decreases data@.len() - i,
    {
        out.push(data[i]);
        i = i + 1;
        assert(out@ =~= start + data@.subrange(0, i as int));
    }
    assert(data@.subrange(0, data@.len() as int) =~= data@);
}

} // verus!
