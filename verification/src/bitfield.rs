//! LSB-first packing of `(value, bit_length)` fields into one integer.

use vstd::prelude::*;

verus! {

/// Bit offset at which field `k` starts: the sum of the lengths before it.
pub open spec fn field_offset<T>(fields: Seq<(T, u8)>, k: int) -> int
    decreases k,
{
    if k <= 0 {
        0
    } else {
        field_offset(fields, k - 1) + fields[k - 1].1
    }
}

/// Mask keeping the low `len` bits of a 32-bit value.
pub open spec fn mask32(len: u32) -> u32 {
    if len >= 32 {
        u32::MAX
    } else {
        ((1u32 << len) - 1) as u32
    }
}

/// Mask keeping the low `len` bits of a 64-bit value.
pub open spec fn mask64(len: u32) -> u64 {
    if len >= 64 {
        u64::MAX
    } else {
        ((1u64 << len) - 1) as u64
    }
}

/// The 32-bit word built from the first `k` fields.
pub open spec fn packed32(fields: Seq<(u32, u8)>, k: int) -> u32
    decreases k,
{
    if k <= 0 {
        0
    } else {
        packed32(fields, k - 1) | ((fields[k - 1].0 & mask32(fields[k - 1].1 as u32)) << (
        field_offset(fields, k - 1) as u32))
    }
}

/// The 64-bit word built from the first `k` fields.
pub open spec fn packed64(fields: Seq<(u64, u8)>, k: int) -> u64
    decreases k,
{
    if k <= 0 {
        0
    } else {
        packed64(fields, k - 1) | ((fields[k - 1].0 & mask64(fields[k - 1].1 as u32)) << (
        field_offset(fields, k - 1) as u32))
    }
}

/// Every field starts inside the word (the shift stays below the width).
pub open spec fn fields_start_within<T>(fields: Seq<(T, u8)>, width: int) -> bool {
    forall|k: int| 0 <= k < fields.len() ==> #[trigger] field_offset(fields, k) < width
}

fn mask32_exec(len: u32) -> (m: u32)
    ensures
        m == mask32(len),
{
    if len >= 32 {
        u32::MAX
    } else {
        assert(1u32 << len >= 1) by (bit_vector)
            requires
                len < 32,
        ;
        (1u32 << len) - 1
    }
}

fn mask64_exec(len: u32) -> (m: u64)
    ensures
        m == mask64(len),
{
    if len >= 64 {
        u64::MAX
    } else {
        assert(1u64 << len >= 1) by (bit_vector)
            requires
                len < 64,
        ;
        (1u64 << len) - 1
    }
}

/// Packs `(value, length)` pairs LSB-first into a `u32`; each value is
/// truncated to its length. Every field must start below bit 32.
pub fn pack_u32(fields: &[(u32, u8)]) -> (r: u32)
    requires
        fields_start_within(fields@, 32),
    ensures
        r == packed32(fields@, fields@.len() as int),
{
    let mut r: u32 = 0;
    let mut offset: u32 = 0;
    let mut i: usize = 0;
    while i < fields.len()
        invariant
            i <= fields@.len(),
            fields_start_within(fields@, 32),
            offset == field_offset(fields@, i as int),
            r == packed32(fields@, i as int),
        decreases fields@.len() - i,
    {
        let (value, length) = fields[i];
        let length = length as u32;
        let mask = mask32_exec(length);
        assert(field_offset(fields@, i as int) < 32);
        r = r | ((value & mask) << offset);
        offset = offset + length;
        i = i + 1;
    }
    r
}

/// Packs `(value, length)` pairs LSB-first into a `u64`; each value is
/// truncated to its length. Every field must start below bit 64.
pub fn pack_u64(fields: &[(u64, u8)]) -> (r: u64)
    requires
        fields_start_within(fields@, 64),
    ensures
        r == packed64(fields@, fields@.len() as int),
{
    let mut r: u64 = 0;
    let mut offset: u32 = 0;
    let mut i: usize = 0;
    while i < fields.len()
        invariant
            i <= fields@.len(),
            fields_start_within(fields@, 64),
            offset == field_offset(fields@, i as int),
            r == packed64(fields@, i as int),
        decreases fields@.len() - i,
    {
        let (value, length) = fields[i];
        let length = length as u32;
        let mask = mask64_exec(length);
        assert(field_offset(fields@, i as int) < 64);
        r = r | ((value & mask) << offset);
        offset = offset + length;
        i = i + 1;
    }
    r
}

} // verus!
