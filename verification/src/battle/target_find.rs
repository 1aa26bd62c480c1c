//! Which actors a command may target, and the shapes of area effects.

use vstd::prelude::*;

verus! {

/// Which actors a command may target.
#[derive(Debug, Clone, Copy, PartialEq, Eq, Structural)]
pub struct ValidTarget(pub u16);

impl Default for ValidTarget {
    /// No bits set.
    fn default() -> (r: Self)
        ensures
            r.0 == 0,
    {
        ValidTarget(0)
    }
}

impl ValidTarget {
    pub const NONE: u16 = 0x0000;
    pub const SELF: u16 = 0x0001;
    pub const SELF_ONLY: u16 = 0x0002;
    pub const PARTY: u16 = 0x0004;
    pub const PARTY_ONLY: u16 = 0x0008;
    pub const ALLY: u16 = 0x0010;
    pub const ALLY_ONLY: u16 = 0x0020;
    pub const NPC: u16 = 0x0040;
    pub const NPC_ONLY: u16 = 0x0080;
    pub const ENEMY: u16 = 0x0100;
    pub const ENEMY_ONLY: u16 = 0x0200;
    pub const OBJECT: u16 = 0x0400;
    pub const OBJECT_ONLY: u16 = 0x0800;
    pub const CORPSE: u16 = 0x1000;
    pub const CORPSE_ONLY: u16 = 0x2000;
    pub const MAIN_TARGET_PARTY: u16 = 0x4000;
    pub const MAIN_TARGET_PARTY_ONLY: u16 = 0x8000;

    /// The raw bits.
    pub fn bits(self) -> (r: u16)
        ensures
            r == self.0,
    {
        self.0
    }

    /// Whether every bit of `other` is set here.
    pub fn contains(self, other: Self) -> (r: bool)
        ensures
            r == (self.0 & other.0 == other.0),
    {
        (self.0 & other.0) == other.0
    }

    /// Whether some bit of `other` is set here.
    pub fn intersects(self, other: Self) -> (r: bool)
        ensures
            r == (self.0 & other.0 != 0),
    {
        (self.0 & other.0) != 0
    }
}

/// The shape of an area effect: a cylinder, a cone, or a box.
#[derive(Debug, Clone, Copy, PartialEq, Eq, Structural)]
pub enum TargetFindAOEType {
    NoArea,
    Circle,
    Cone,
    Box,
}

impl Default for TargetFindAOEType {
    fn default() -> (r: Self)
        ensures
            r == TargetFindAOEType::NoArea,
    {
        TargetFindAOEType::NoArea
    }
}

/// Where an area effect is centred.
#[derive(Debug, Clone, Copy, PartialEq, Eq, Structural)]
pub enum TargetFindAOETarget {
    Target,
    Self_,
}

impl Default for TargetFindAOETarget {
    fn default() -> (r: Self)
        ensures
            r == TargetFindAOETarget::Target,
    {
        TargetFindAOETarget::Target
    }
}

/// What the target filters read of an actor. Its position and facing are
/// floating point and stay with the game loop, which answers the distance
/// questions itself.
#[derive(Debug, Clone, Copy, PartialEq, Eq, Structural)]
pub struct ActorView {
    pub actor_id: u32,
    pub is_alive: bool,
    pub is_static: bool,
    /// The side the actor is on.
    pub allegiance: u32,
    /// Party id, 0 outside a party.
    pub party_id: u64,
    pub zone_id: u32,
    pub is_updates_locked: bool,
    pub is_player: bool,
    pub is_battle_npc: bool,
}

/// Whether `v` has some bit of `bit`.
pub open spec fn has_bit(v: ValidTarget, bit: u16) -> bool {
    v.0 & bit != 0
}

/// The filters a target must pass before the area geometry is looked at:
/// not already targeted; alive unless corpses are allowed, dead when only
/// corpses are; the self, ally, enemy, party and NPC flags against whether
/// the target is the owner, on the owner's side, in the owner's party or
/// static; not zoning and in the owner's zone; not a bystander of a
/// self-only command without area; and the main target's party flags.
pub open spec fn target_filters(
    valid: ValidTarget,
    aoe: TargetFindAOEType,
    owner: ActorView,
    main_target: ActorView,
    targets: Seq<ActorView>,
    target: ActorView,
) -> bool {
    let is_self = target.actor_id == owner.actor_id;
    let is_ally = target.allegiance == owner.allegiance;
    let in_party = owner.party_id != 0 && target.party_id == owner.party_id;
    let in_main_party = main_target.party_id != 0 && target.party_id == main_target.party_id;
    &&& forall|i: int| 0 <= i < targets.len() ==> #[trigger] targets[i].actor_id != target.actor_id
    &&& has_bit(valid, ValidTarget::CORPSE) || target.is_alive
    &&& !(has_bit(valid, ValidTarget::CORPSE_ONLY) && target.is_alive)
    &&& has_bit(valid, ValidTarget::SELF) || !is_self
    &&& !(has_bit(valid, ValidTarget::SELF_ONLY) && !is_self)
    &&& has_bit(valid, ValidTarget::ALLY) || !is_ally || is_self
    &&& !(has_bit(valid, ValidTarget::ALLY_ONLY) && !is_ally)
    &&& has_bit(valid, ValidTarget::ENEMY) || is_ally
    &&& !(has_bit(valid, ValidTarget::ENEMY_ONLY) && is_ally)
    &&& has_bit(valid, ValidTarget::PARTY) || !in_party
    &&& !(has_bit(valid, ValidTarget::PARTY_ONLY) && !in_party)
    &&& has_bit(valid, ValidTarget::NPC) || !target.is_static
    &&& !(has_bit(valid, ValidTarget::NPC_ONLY) && !target.is_static)
    &&& !target.is_updates_locked
    &&& target.zone_id == owner.zone_id
    &&& !(valid.0 == ValidTarget::SELF && aoe == TargetFindAOEType::NoArea && !is_self)
    &&& has_bit(valid, ValidTarget::MAIN_TARGET_PARTY) || !in_main_party || is_self
    &&& !(has_bit(valid, ValidTarget::MAIN_TARGET_PARTY_ONLY) && !in_main_party)
}

fn flag_set(valid: ValidTarget, bit: u16) -> (r: bool)
    ensures
        r == has_bit(valid, bit),
{
    valid.intersects(ValidTarget(bit))
}

/// Whether `target` passes the target filters (see [`target_filters`]) of
/// a command of `valid` targets and `aoe` area cast by `owner` at
/// `main_target`, with `targets` already chosen.
pub fn passes_target_filters(
    valid: ValidTarget,
    aoe: TargetFindAOEType,
    owner: ActorView,
    main_target: ActorView,
    targets: &[ActorView],
    target: ActorView,
) -> (r: bool)
    ensures
        r == target_filters(valid, aoe, owner, main_target, targets@, target),
{
    let mut i: usize = 0;
    while i < targets.len()
        invariant
            i <= targets@.len(),
            forall|j: int| 0 <= j < i ==> #[trigger] targets@[j].actor_id != target.actor_id,
        decreases targets@.len() - i,
    {
        if targets[i].actor_id == target.actor_id {
            return false;
        }
        i = i + 1;
    }
    if !flag_set(valid, ValidTarget::CORPSE) && !target.is_alive {
        return false;
    }
    if flag_set(valid, ValidTarget::CORPSE_ONLY) && target.is_alive {
        return false;
    }
    let is_self = target.actor_id == owner.actor_id;
    if !flag_set(valid, ValidTarget::SELF) && is_self {
        return false;
    }
    if flag_set(valid, ValidTarget::SELF_ONLY) && !is_self {
        return false;
    }
    let is_ally = target.allegiance == owner.allegiance;
    if !flag_set(valid, ValidTarget::ALLY) && is_ally && !is_self {
        return false;
    }
    if flag_set(valid, ValidTarget::ALLY_ONLY) && !is_ally {
        return false;
    }
    if !flag_set(valid, ValidTarget::ENEMY) && !is_ally {
        return false;
    }
    if flag_set(valid, ValidTarget::ENEMY_ONLY) && is_ally {
        return false;
    }
    let in_same_party = owner.party_id != 0 && target.party_id == owner.party_id;
    if !flag_set(valid, ValidTarget::PARTY) && in_same_party {
        return false;
    }
    if flag_set(valid, ValidTarget::PARTY_ONLY) && !in_same_party {
        return false;
    }
    if !flag_set(valid, ValidTarget::NPC) && target.is_static {
        return false;
    }
    if flag_set(valid, ValidTarget::NPC_ONLY) && !target.is_static {
        return false;
    }
    if target.is_updates_locked {
        return false;
    }
    if target.zone_id != owner.zone_id {
        return false;
    }
    if valid.0 == ValidTarget::SELF && aoe == TargetFindAOEType::NoArea && !is_self {
        return false;
    }
    let in_main_party = main_target.party_id != 0 && target.party_id == main_target.party_id;
    if !flag_set(valid, ValidTarget::MAIN_TARGET_PARTY) && in_main_party && !is_self {
        return false;
    }
    if flag_set(valid, ValidTarget::MAIN_TARGET_PARTY_ONLY) && !in_main_party {
        return false;
    }
    true
}

/// What each target flag rules out, whatever else holds: an actor already
/// chosen; a dead target without the corpse flag (0x1000); a living one
/// under corpse-only (0x2000); the owner without the self flag (0x0001);
/// anyone else under self-only (0x0002); the owner's side, other than the
/// owner, without the ally flag (0x0010); the other side under ally-only
/// (0x0020) or without the enemy flag (0x0100); the owner's side under
/// enemy-only (0x0200); the owner's party without the party flag (0x0004);
/// anyone outside it under party-only (0x0008); a static actor without the
/// NPC flag (0x0040); a non-static one under NPC-only (0x0080); an actor
/// that is zoning or in another zone; a bystander of a command whose only
/// flag is self and which has no area; the main target's party, other than
/// the owner, without its flag (0x4000); anyone outside it under its
/// only-flag (0x8000).
pub proof fn lemma_target_filters_reject(
    valid: ValidTarget,
    aoe: TargetFindAOEType,
    owner: ActorView,
    main_target: ActorView,
    targets: Seq<ActorView>,
    target: ActorView,
)
    ensures
        ({
            let ok = target_filters(valid, aoe, owner, main_target, targets, target);
            let v = valid.0;
            let is_self = target.actor_id == owner.actor_id;
            let is_ally = target.allegiance == owner.allegiance;
            let in_party = owner.party_id != 0 && target.party_id == owner.party_id;
            let in_main = main_target.party_id != 0 && target.party_id == main_target.party_id;
            &&& (exists|i: int| 0 <= i < targets.len() && targets[i].actor_id == target.actor_id) ==> !ok
            &&& (v & 0x1000 == 0 && !target.is_alive) ==> !ok
            &&& (v & 0x2000 != 0 && target.is_alive) ==> !ok
            &&& (v & 0x0001 == 0 && is_self) ==> !ok
            &&& (v & 0x0002 != 0 && !is_self) ==> !ok
            &&& (v & 0x0010 == 0 && is_ally && !is_self) ==> !ok
            &&& (v & 0x0020 != 0 && !is_ally) ==> !ok
            &&& (v & 0x0100 == 0 && !is_ally) ==> !ok
            &&& (v & 0x0200 != 0 && is_ally) ==> !ok
            &&& (v & 0x0004 == 0 && in_party) ==> !ok
            &&& (v & 0x0008 != 0 && !in_party) ==> !ok
            &&& (v & 0x0040 == 0 && target.is_static) ==> !ok
            &&& (v & 0x0080 != 0 && !target.is_static) ==> !ok
            &&& target.is_updates_locked ==> !ok
            &&& target.zone_id != owner.zone_id ==> !ok
            &&& (v == 0x0001 && aoe == TargetFindAOEType::NoArea && !is_self) ==> !ok
            &&& (v & 0x4000 == 0 && in_main && !is_self) ==> !ok
            &&& (v & 0x8000 != 0 && !in_main) ==> !ok
        }),
{
    if exists|i: int| 0 <= i < targets.len() && targets[i].actor_id == target.actor_id {
        let i = choose|i: int| 0 <= i < targets.len() && targets[i].actor_id == target.actor_id;
        assert(targets[i].actor_id == target.actor_id);
    }
}

/// A command for enemies alone (flags 0x0100) reaches any living, unchosen
/// actor of another side that is not static, not zoning and in the owner's
/// zone, when neither the owner nor the main target is in a party.
pub proof fn lemma_enemy_command_admits(
    aoe: TargetFindAOEType,
    owner: ActorView,
    main_target: ActorView,
    targets: Seq<ActorView>,
    target: ActorView,
)
    requires
        forall|i: int| 0 <= i < targets.len() ==> targets[i].actor_id != target.actor_id,
        target.is_alive,
        target.allegiance != owner.allegiance,
        target.actor_id != owner.actor_id,
        owner.party_id == 0,
        main_target.party_id == 0,
        !target.is_static,
        !target.is_updates_locked,
        target.zone_id == owner.zone_id,
    ensures
        target_filters(ValidTarget(0x0100), aoe, owner, main_target, targets, target),
{
    let v = 0x0100u16;
    assert(v & 0x1000 == 0 && v & 0x2000 == 0 && v & 0x0001 == 0 && v & 0x0002 == 0 && v & 0x0010
        == 0 && v & 0x0020 == 0 && v & 0x0100 != 0 && v & 0x0200 == 0 && v & 0x0004 == 0 && v
        & 0x0008 == 0 && v & 0x0040 == 0 && v & 0x0080 == 0 && v & 0x4000 == 0 && v & 0x8000 == 0)
        by (bit_vector)
        requires
            v == 0x0100u16,
    ;
}

} // verus!
