//! Battle lookup tables: the text a hit shows, the effect bits it carries,
//! the position bonus of a hit direction, and the link and chain bonuses.

use vstd::prelude::*;
use crate::battle::command::BattleCommandPositionBonus;
use crate::battle::effects::HitDirection;
use crate::battle::effects::HitEffect;
use crate::battle::effects::HitType;

verus! {

/// The text id shown for a physical hit (0 for resist outcomes).
pub open spec fn physical_hit_text(ty: HitType) -> u16 {
    match ty {
        HitType::Miss => 30311,
        HitType::Evade => 30310,
        HitType::Parry => 30308,
        HitType::Block => 30306,
        HitType::Hit => 30301,
        HitType::Crit => 30302,
        _ => 0,
    }
}

/// The text id shown for a physical hit (see [`physical_hit_text`]).
pub fn physical_hit_text_id(ty: HitType) -> (r: u16)
    ensures
        r == physical_hit_text(ty),
{
    match ty {
        HitType::Miss => 30311,
        HitType::Evade => 30310,
        HitType::Parry => 30308,
        HitType::Block => 30306,
        HitType::Hit => 30301,
        HitType::Crit => 30302,
        _ => 0,
    }
}

/// The text id shown for a spell hit (0 for miss, evade, parry, block).
pub open spec fn magical_hit_text(ty: HitType) -> u16 {
    match ty {
        HitType::SingleResist => 30318,
        HitType::DoubleResist => 30317,
        HitType::TripleResist => 30316,
        HitType::FullResist => 30316,
        HitType::Hit => 30319,
        HitType::Crit => 30392,
        _ => 0,
    }
}

/// The text id shown for a spell hit (see [`magical_hit_text`]).
pub fn magical_hit_text_id(ty: HitType) -> (r: u16)
    ensures
        r == magical_hit_text(ty),
{
    match ty {
        HitType::SingleResist => 30318,
        HitType::DoubleResist => 30317,
        HitType::TripleResist => 30316,
        HitType::FullResist => 30316,
        HitType::Hit => 30319,
        HitType::Crit => 30392,
        _ => 0,
    }
}

/// The text id shown for one hit of a multi-hit attack (0 for evades and
/// resists).
pub open spec fn multi_hit_text(ty: HitType) -> u16 {
    match ty {
        HitType::Miss => 30449,
        HitType::Parry => 30448,
        HitType::Block => 30447,
        HitType::Hit => 30443,
        HitType::Crit => 30444,
        _ => 0,
    }
}

/// The text id shown for one hit of a multi-hit attack (see
/// [`multi_hit_text`]).
pub fn multi_hit_text_id(ty: HitType) -> (r: u16)
    ensures
        r == multi_hit_text(ty),
{
    match ty {
        HitType::Miss => 30449,
        HitType::Parry => 30448,
        HitType::Block => 30447,
        HitType::Hit => 30443,
        HitType::Crit => 30444,
        _ => 0,
    }
}

/// The effect bits of a physical hit; a critical hit carries both the crit
/// pop-up and the critical recoil.
pub open spec fn physical_effect_bits(ty: HitType) -> u32 {
    match ty {
        HitType::Miss => HitEffect::MISS,
        HitType::Evade => HitEffect::EVADE,
        HitType::Parry => HitEffect::PARRY,
        HitType::Block => HitEffect::BLOCK,
        HitType::Hit => HitEffect::HIT,
        HitType::Crit => HitEffect::CRIT | HitEffect::CRITICAL_HIT,
        _ => HitEffect::NONE,
    }
}

/// The effect of a physical hit (see [`physical_effect_bits`]).
pub fn physical_hit_effect(ty: HitType) -> (r: HitEffect)
    ensures
        r.0 == physical_effect_bits(ty),
{
    match ty {
        HitType::Miss => HitEffect(HitEffect::MISS),
        HitType::Evade => HitEffect(HitEffect::EVADE),
        HitType::Parry => HitEffect(HitEffect::PARRY),
        HitType::Block => HitEffect(HitEffect::BLOCK),
        HitType::Hit => HitEffect(HitEffect::HIT),
        HitType::Crit => HitEffect(HitEffect::CRIT | HitEffect::CRITICAL_HIT),
        _ => HitEffect(HitEffect::NONE),
    }
}

/// The effect bits of a spell hit.
pub open spec fn magical_effect_bits(ty: HitType) -> u32 {
    match ty {
        HitType::SingleResist => HitEffect::WEAK_RESIST,
        HitType::DoubleResist => HitEffect::WEAK_RESIST,
        HitType::TripleResist => HitEffect::WEAK_RESIST,
        HitType::FullResist => HitEffect::FULL_RESIST,
        HitType::Hit => HitEffect::NO_RESIST,
        HitType::Crit => HitEffect::CRIT,
        _ => HitEffect::NONE,
    }
}

/// The effect of a spell hit (see [`magical_effect_bits`]).
pub fn magical_hit_effect(ty: HitType) -> (r: HitEffect)
    ensures
        r.0 == magical_effect_bits(ty),
{
    match ty {
        HitType::SingleResist => HitEffect(HitEffect::WEAK_RESIST),
        HitType::DoubleResist => HitEffect(HitEffect::WEAK_RESIST),
        HitType::TripleResist => HitEffect(HitEffect::WEAK_RESIST),
        HitType::FullResist => HitEffect(HitEffect::FULL_RESIST),
        HitType::Hit => HitEffect(HitEffect::NO_RESIST),
        HitType::Crit => HitEffect(HitEffect::CRIT),
        _ => HitEffect(HitEffect::NONE),
    }
}

/// The position bonus a hit direction earns: front first, then either
/// flank, then rear.
pub open spec fn position_of_direction(dir: u8) -> BattleCommandPositionBonus {
    if dir & HitDirection::FRONT == HitDirection::FRONT {
        BattleCommandPositionBonus::Front
    } else if dir & HitDirection::RIGHT == HitDirection::RIGHT || dir & HitDirection::LEFT
        == HitDirection::LEFT {
        BattleCommandPositionBonus::Flank
    } else if dir & HitDirection::REAR == HitDirection::REAR {
        BattleCommandPositionBonus::Rear
    } else {
        BattleCommandPositionBonus::NoBonus
    }
}

/// The position bonus of a hit direction (see [`position_of_direction`]).
pub fn hit_dir_to_position(dir: HitDirection) -> (r: BattleCommandPositionBonus)
    ensures
        r == position_of_direction(dir.0),
{
    if dir.contains(HitDirection(HitDirection::FRONT)) {
        BattleCommandPositionBonus::Front
    } else if dir.contains(HitDirection(HitDirection::RIGHT)) || dir.contains(
        HitDirection(HitDirection::LEFT),
    ) {
        BattleCommandPositionBonus::Flank
    } else if dir.contains(HitDirection(HitDirection::REAR)) {
        BattleCommandPositionBonus::Rear
    } else {
        BattleCommandPositionBonus::NoBonus
    }
}

/// Link bonus percent for `link_count` linked attacks: 25 per link, capped
/// at 100.
pub open spec fn link_bonus(link_count: u16) -> u8 {
    if link_count >= 4 {
        100
    } else {
        (25 * link_count) as u8
    }
}

/// Link bonus percent (see [`link_bonus`]).
pub fn get_link_bonus(link_count: u16) -> (r: u8)
    ensures
        r == link_bonus(link_count),
{
    match link_count {
        0 => 0,
        1 => 25,
        2 => 50,
        3 => 75,
        _ => 100,
    }
}

/// Chain bonus percent for a chain tier: 0, 20, 25, 30, 40, then 50.
pub open spec fn chain_bonus(tier: u16) -> u8 {
    if tier == 0 {
        0
    } else if tier == 1 {
        20
    } else if tier == 2 {
        25
    } else if tier == 3 {
        30
    } else if tier == 4 {
        40
    } else {
        50
    }
}

/// Chain bonus percent (see [`chain_bonus`]).
pub fn get_chain_bonus(tier: u16) -> (r: u8)
    ensures
        r == chain_bonus(tier),
{
    match tier {
        0 => 0,
        1 => 20,
        2 => 25,
        3 => 30,
        4 => 40,
        _ => 50,
    }
}

/// Time allowed to extend a chain at a tier: 100, 80, 60, 20, then 10.
pub open spec fn chain_time_limit(tier: u16) -> u8 {
    if tier == 0 {
        100
    } else if tier == 1 {
        80
    } else if tier == 2 {
        60
    } else if tier == 3 {
        20
    } else {
        10
    }
}

/// Time allowed to extend a chain (see [`chain_time_limit`]).
pub fn get_chain_time_limit(tier: u16) -> (r: u8)
    ensures
        r == chain_time_limit(tier),
{
    match tier {
        0 => 100,
        1 => 80,
        2 => 60,
        3 => 20,
        _ => 10,
    }
}

/// Chain bonuses never fall as the tier rises, and the time to extend a
/// chain never grows.
pub proof fn lemma_chain_monotone(a: u16, b: u16)
    requires
        a <= b,
    ensures
        chain_bonus(a) <= chain_bonus(b),
        chain_time_limit(a) >= chain_time_limit(b),
        link_bonus(a) <= link_bonus(b),
{
}

/// Damage to deal to a target, with the enmity it causes.
#[derive(Debug, Clone, Copy)]
pub struct DamageRequest {
    pub target_actor_id: u32,
    pub amount: u16,
    pub enmity: u16,
}

/// Healing to apply to a target.
#[derive(Debug, Clone, Copy)]
pub struct HealRequest {
    pub target_actor_id: u32,
    pub amount: u16,
}

/// Base experience for a kill by level, levels 1 to 50.
pub const BASE_EXP: [u16; 50] = [
    150, 150, 150, 150, 150, 150, 150, 150, 150, 150,
    150, 150, 150, 150, 150, 150, 150, 150, 160, 170,
    180, 190, 190, 200, 210, 220, 230, 240, 250, 260,
    270, 280, 290, 300, 310, 320, 330, 340, 350, 360,
    370, 380, 380, 390, 400, 410, 420, 430, 430, 440,
];

} // verus!
