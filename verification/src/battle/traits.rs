//! Battle traits: passive bonuses a class gains at a level.

use vstd::prelude::*;

verus! {

/// A passive bonus of a class: at `level`, the modifier `modifier` gains
/// `bonus`.
#[derive(Debug, Clone)]
pub struct BattleTrait {
    pub id: u16,
    pub name: String,
    pub job: u8,
    pub level: u8,
    pub modifier: u32,
    pub bonus: i32,
}

impl BattleTrait {
    pub fn new(id: u16, name: &str, job: u8, level: u8, modifier: u32, bonus: i32) -> (r: Self)
        ensures
            r.id == id,
            r.name@ == name@,
            r.job == job,
            r.level == level,
            r.modifier == modifier,
            r.bonus == bonus,
    {
        BattleTrait { id, name: name.to_owned(), job, level, modifier, bonus }
    }
}

} // verus!
