//! Path-following flags and the straight-line navmesh marker.

use vstd::prelude::*;

verus! {

/// How a path is followed.
#[derive(Debug, Clone, Copy, PartialEq, Eq, Structural)]
pub struct PathFindFlags(pub u32);

impl Default for PathFindFlags {
    /// No bits set.
    fn default() -> (r: Self)
        ensures
            r.0 == 0,
    {
        PathFindFlags(0)
    }
}

impl PathFindFlags {
    pub const NONE: u32 = 0x00;
    pub const SCRIPTED: u32 = 0x01;
    pub const IGNORE_NAV: u32 = 0x02;

    /// The raw bits.
    pub fn bits(self) -> (r: u32)
        ensures
            r == self.0,
    {
        self.0
    }

    /// Whether every bit of `other` is set here.
    pub fn contains(self, other: Self) -> (r: bool)
        ensures
            r == (self.0 & other.0 == other.0),
    {
        (self.0 & other.0) == other.0
    }
}

/// The fallback navmesh: straight lines, no obstacle avoidance.
#[derive(Debug, Clone, Copy, PartialEq, Eq)]
pub struct StraightLineNavmesh;

} // verus!
