//! Grand companies: which ids are companies, their seal items, and how
//! many seals each rank may hold.

use vstd::prelude::*;

verus! {

pub const GC_NONE: u8 = 0;
pub const GC_MAELSTROM: u8 = 1;
pub const GC_TWIN_ADDER: u8 = 2;
pub const GC_IMMORTAL_FLAMES: u8 = 3;

pub const SEAL_STORM: u32 = 1_000_201;
pub const SEAL_SERPENT: u32 = 1_000_202;
pub const SEAL_FLAME: u32 = 1_000_203;

pub const RANK_RECRUIT: u8 = 127;

/// Highest rank the story lets a player reach.
pub const STORY_RANK_CAP: u8 = 31;

/// Whether `gc` names one of the three grand companies.
pub fn is_valid_gc(gc: u8) -> (r: bool)
    ensures
        r == (gc == GC_MAELSTROM || gc == GC_TWIN_ADDER || gc == GC_IMMORTAL_FLAMES),
{
    gc == GC_MAELSTROM || gc == GC_TWIN_ADDER || gc == GC_IMMORTAL_FLAMES
}

/// The seal item of a grand company.
pub open spec fn seal_of(gc: u8) -> Option<u32> {
    if gc == GC_MAELSTROM {
        Some(SEAL_STORM)
    } else if gc == GC_TWIN_ADDER {
        Some(SEAL_SERPENT)
    } else if gc == GC_IMMORTAL_FLAMES {
        Some(SEAL_FLAME)
    } else {
        None
    }
}

/// The seal item of `gc`; `None` for anything but the three companies.
pub fn seal_item_id(gc: u8) -> (r: Option<u32>)
    ensures
        r == seal_of(gc),
        r is Some <==> (gc == GC_MAELSTROM || gc == GC_TWIN_ADDER || gc == GC_IMMORTAL_FLAMES),
{
    match gc {
        GC_MAELSTROM => Some(SEAL_STORM),
        GC_TWIN_ADDER => Some(SEAL_SERPENT),
        GC_IMMORTAL_FLAMES => Some(SEAL_FLAME),
        _ => None,
    }
}

/// The seal cap of a rank; unknown ranks (and the top officer ranks) cap
/// at 0.
pub open spec fn seal_cap(rank: u8) -> i32 {
    if rank == 11 || rank == 127 {
        10_000
    } else if rank == 13 {
        15_000
    } else if rank == 15 {
        20_000
    } else if rank == 17 {
        25_000
    } else if rank == 21 {
        30_000
    } else if rank == 23 {
        35_000
    } else if rank == 25 {
        40_000
    } else if rank == 27 {
        45_000
    } else if rank == 31 || rank == 33 || rank == 35 {
        50_000
    } else if rank == 41 || rank == 43 || rank == 45 {
        60_000
    } else if rank == 51 || rank == 53 || rank == 55 || rank == 57 {
        70_000
    } else if rank == 100 {
        100_000
    } else {
        0
    }
}

/// How many seals a player of `rank` may hold (see [`seal_cap`]).
pub fn rank_seal_cap(rank: u8) -> (r: i32)
    ensures
        r == seal_cap(rank),
{
    match rank {
        0 => 0,
        11 => 10_000,
        13 => 15_000,
        15 => 20_000,
        17 => 25_000,
        21 => 30_000,
        23 => 35_000,
        25 => 40_000,
        27 => 45_000,
        31 => 50_000,
        33 => 50_000,
        35 => 50_000,
        41 => 60_000,
        43 => 60_000,
        45 => 60_000,
        51 => 70_000,
        53 => 70_000,
        55 => 70_000,
        57 => 70_000,
        100 => 100_000,
        111 => 0,
        127 => 10_000,
        _ => 0,
    }
}

/// A company has a seal exactly when it is valid, and the three seals are
/// distinct.
pub proof fn lemma_seal_iff_valid(gc: u8, other: u8)
    ensures
        seal_of(gc) is Some <==> (gc == GC_MAELSTROM || gc == GC_TWIN_ADDER || gc
            == GC_IMMORTAL_FLAMES),
        seal_of(gc) is Some && seal_of(other) is Some && gc != other ==> seal_of(gc) != seal_of(
            other,
        ),
{
}

} // verus!
