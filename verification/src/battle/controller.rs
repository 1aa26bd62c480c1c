//! Controllers: what an actor wants to do on each tick.
//!
//! One `Controller` serves every kind of actor, tagged by
//! [`ControllerKind`]. Its `tick` only keeps books and returns a
//! [`ControllerDecision`] for the AI container to act on. The sight and
//! hearing ranges, the spawn point and the facing test are floating point
//! and stay with the game loop: for each actor near the owner it reports,
//! as an [`AggroCandidate`], whether that actor is within detection range,
//! in sight and in hearing.

use vstd::prelude::*;
use crate::actor::player::vec_contains_u32;
use crate::battle::target_find::ActorView;

verus! {

/// Which AI drives an actor.
#[derive(Debug, Clone, Copy, PartialEq, Eq, Structural)]
pub enum ControllerKind {
    Player,
    BattleNpc,
    Ally,
    Pet,
}

impl Default for ControllerKind {
    fn default() -> (r: Self)
        ensures
            r == ControllerKind::Player,
    {
        ControllerKind::Player
    }
}

/// How a monster notices targets.
#[derive(Debug, Clone, Copy, PartialEq, Eq, Structural)]
pub struct DetectionType(pub u32);

impl Default for DetectionType {
    /// No bits set.
    fn default() -> (r: Self)
        ensures
            r.0 == 0,
    {
        DetectionType(0)
    }
}

impl DetectionType {
    pub const NONE: u32 = 0x00;
    pub const SIGHT: u32 = 0x01;
    pub const SOUND: u32 = 0x02;
    pub const MAGIC: u32 = 0x04;
    pub const LOW_HP: u32 = 0x08;
    pub const IGNORE_LEVEL_DIFFERENCE: u32 = 0x10;

    /// Whether every bit of `other` is set here.
    pub fn contains(self, other: Self) -> (r: bool)
        ensures
            r == (self.0 & other.0 == other.0),
    {
        (self.0 & other.0) == other.0
    }
}

/// Whether every bit of `bit` is set in `d`.
pub open spec fn has_bits(d: DetectionType, bit: u32) -> bool {
    d.0 & bit == bit
}

/// Time between two combat-tick script calls.
pub const COMBAT_TICK_INTERVAL_MS: u64 = 3000;
/// Shortest wait between two roams.
pub const DEFAULT_ROAM_DELAY_MS: u64 = 5000;
/// Largest level gap a monster aggroes across, unless told to ignore it.
pub const AGGRO_LEVEL_CAP: i16 = 10;
/// How long a monster stays neutral after starting to roam.
pub const ROAM_NEUTRAL_MS: u64 = 5000;

/// The monster-side state of a controller (the floating-point ranges and
/// spawn point are kept by the game loop).
#[derive(Debug, Clone)]
pub struct BattleNpcControllerState {
    pub detection_type: DetectionType,
    pub level: i16,
    pub neutral: bool,
    pub is_moving_to_spawn: bool,
    pub roam_delay_seconds: u32,
    pub last_action_time_ms: u64,
    pub last_spell_cast_time_ms: u64,
    pub last_skill_time_ms: u64,
    pub deaggro_time_ms: u64,
    pub neutral_time_ms: u64,
    pub wait_time_ms: u64,
    pub battle_start_time_ms: u64,
    pub first_spell: bool,
    pub last_roam_update_ms: u64,
    /// Members of the content group an ally fights for; empty otherwise.
    pub content_group_ids: Vec<u32>,
}

impl Default for BattleNpcControllerState {
    /// Every number 0, every flag off, no group.
    fn default() -> (r: Self)
        ensures
            r.detection_type.0 == 0,
            r.level == 0,
            !r.neutral,
            !r.is_moving_to_spawn,
            r.roam_delay_seconds == 0,
            r.last_action_time_ms == 0,
            r.last_spell_cast_time_ms == 0,
            r.last_skill_time_ms == 0,
            r.deaggro_time_ms == 0,
            r.neutral_time_ms == 0,
            r.wait_time_ms == 0,
            r.battle_start_time_ms == 0,
            !r.first_spell,
            r.last_roam_update_ms == 0,
            r.content_group_ids@ == Seq::<u32>::empty(),
    {
        BattleNpcControllerState {
            detection_type: DetectionType(0),
            level: 0,
            neutral: false,
            is_moving_to_spawn: false,
            roam_delay_seconds: 0,
            last_action_time_ms: 0,
            last_spell_cast_time_ms: 0,
            last_skill_time_ms: 0,
            deaggro_time_ms: 0,
            neutral_time_ms: 0,
            wait_time_ms: 0,
            battle_start_time_ms: 0,
            first_spell: false,
            last_roam_update_ms: 0,
            content_group_ids: Vec::new(),
        }
    }
}

/// The controller of one actor.
#[derive(Debug, Clone)]
pub struct Controller {
    pub owner_actor_id: u32,
    pub kind: ControllerKind,
    pub last_update_ms: u64,
    pub last_combat_tick_ms: u64,
    pub can_update: bool,
    pub auto_attack_enabled: bool,
    pub casting_enabled: bool,
    pub weapon_skill_enabled: bool,
    /// Monster state (left at its start values for players).
    pub battle: BattleNpcControllerState,
    /// A pet's master, 0 for none.
    pub pet_master_actor_id: u32,
}

/// What the controller reads of its owner.
#[derive(Debug, Clone, Copy)]
pub struct ControllerOwnerView {
    pub actor: ActorView,
    pub is_engaged: bool,
    pub is_spawned: bool,
    pub is_following_path: bool,
    pub at_path_end: bool,
    pub most_hated_actor_id: Option<u32>,
    pub current_target_actor_id: Option<u32>,
    pub has_prevent_movement: bool,
    pub max_hp: i16,
    pub current_hp: i16,
    /// The current target's HP percentage, if there is a target.
    pub target_hpp: Option<u8>,
    pub target_has_stealth: bool,
    pub is_close_to_spawn: bool,
    pub target_is_locked: bool,
    /// Time between two auto-attack swings.
    pub attack_delay_ms: u32,
}

/// An actor near the owner, as the aggro scan sees it. The three flags
/// are the game loop's answers to the distance and facing questions:
/// whether the actor is within the detection limits at all, within sight
/// range in front of the owner, and within hearing range.
#[derive(Debug, Clone, Copy)]
pub struct AggroCandidate {
    pub actor: ActorView,
    pub in_detect_range: bool,
    pub in_sight: bool,
    pub in_hearing: bool,
}

/// What the controller wants done this tick.
#[derive(Debug, Clone, Copy, PartialEq, Eq, Structural)]
pub enum ControllerDecision {
    /// Nothing.
    Idle,
    /// Start fighting this target.
    Engage { target_actor_id: u32 },
    /// Drop aggro and go back to spawn.
    Disengage,
    /// Stop and face the current target.
    FaceTarget,
    /// Walk to a point near spawn.
    Roam,
    /// Switch the locked target without engaging.
    ChangeTarget { target_actor_id: Option<u32> },
    /// Run the combat-tick script.
    LuaCombatTick { target_actor_id: Option<u32> },
}

/// The level the aggro check assumes for a target.
pub open spec fn assumed_target_level() -> int {
    1
}

/// Whether `owner` may aggro `target` by level and spawn state.
pub open spec fn can_aggro(b: BattleNpcControllerState, owner: ControllerOwnerView, target: ActorView) -> bool {
    &&& !b.neutral
    &&& b.detection_type.0 != DetectionType::NONE
    &&& target.is_alive
    &&& (has_bits(b.detection_type, DetectionType::IGNORE_LEVEL_DIFFERENCE) || -10 <= b.level
        - assumed_target_level() <= 10)
    &&& owner.is_spawned
    &&& !owner.is_engaged
}

/// Whether the candidate is noticed: within the detection limits, and
/// either seen (sight detection) or heard (sound detection). No target is
/// treated as stealthed, and low-HP detection never fires by itself.
pub open spec fn detects(b: BattleNpcControllerState, cand: AggroCandidate) -> bool {
    &&& cand.in_detect_range
    &&& ((has_bits(b.detection_type, DetectionType::SIGHT) && cand.in_sight) || (has_bits(
        b.detection_type,
        DetectionType::SOUND,
    ) && cand.in_hearing))
}

/// The filters every candidate must pass before the level check: not the
/// owner, another side, alive, and for an ally a member of its group.
pub open spec fn passes_prefilter(
    kind: ControllerKind,
    b: BattleNpcControllerState,
    owner: ControllerOwnerView,
    cand: AggroCandidate,
) -> bool {
    &&& cand.actor.actor_id != owner.actor.actor_id
    &&& cand.actor.allegiance != owner.actor.allegiance
    &&& cand.actor.is_alive
    &&& (kind != ControllerKind::Ally || b.content_group_ids@.contains(cand.actor.actor_id))
}

/// Whether the scan engages this candidate.
pub open spec fn aggroes(
    kind: ControllerKind,
    b: BattleNpcControllerState,
    owner: ControllerOwnerView,
    cand: AggroCandidate,
) -> bool {
    passes_prefilter(kind, b, owner, cand) && can_aggro(b, owner, cand.actor) && detects(b, cand)
}

/// The first candidate, in scan order, that the scan engages.
pub open spec fn first_aggro(
    kind: ControllerKind,
    b: BattleNpcControllerState,
    owner: ControllerOwnerView,
    cands: Seq<AggroCandidate>,
) -> Option<u32>
    decreases cands.len(),
{
    if cands.len() == 0 {
        None
    } else if aggroes(kind, b, owner, cands[0]) {
        Some(cands[0].actor.actor_id)
    } else {
        first_aggro(kind, b, owner, cands.drop_first())
    }
}

/// Whether the aggro scan runs at all: past the neutral time, not walking
/// home, not neutral.
pub open spec fn scan_active(b: BattleNpcControllerState, now_ms: u64) -> bool {
    now_ms >= b.neutral_time_ms && !b.is_moving_to_spawn && !b.neutral
}

/// The target the aggro scan picks.
pub open spec fn aggro_target(
    c: Controller,
    now_ms: u64,
    owner: ControllerOwnerView,
    cands: Seq<AggroCandidate>,
) -> Option<u32> {
    if scan_active(c.battle, now_ms) {
        first_aggro(c.kind, c.battle, owner, cands)
    } else {
        None
    }
}

/// Whether the combat tick script is due: a target, free to move, and at
/// least the interval since the last one.
pub open spec fn combat_tick_due(c: Controller, now_ms: u64, owner: ControllerOwnerView) -> bool {
    owner.current_target_actor_id is Some && !owner.has_prevent_movement && now_ms
        - c.last_combat_tick_ms >= COMBAT_TICK_INTERVAL_MS
}

/// The decision of an engaged monster: give up without hate or far from
/// spawn, follow the most hated actor, else run the combat tick when due.
pub open spec fn combat_decision(c: Controller, now_ms: u64, owner: ControllerOwnerView) -> ControllerDecision {
    if owner.most_hated_actor_id is None || !owner.is_close_to_spawn {
        ControllerDecision::Disengage
    } else if owner.most_hated_actor_id != owner.current_target_actor_id {
        ControllerDecision::ChangeTarget { target_actor_id: owner.most_hated_actor_id }
    } else if combat_tick_due(c, now_ms, owner) {
        ControllerDecision::LuaCombatTick { target_actor_id: owner.current_target_actor_id }
    } else {
        ControllerDecision::Idle
    }
}

/// Whether a monster with nothing to aggro takes the roaming path.
pub open spec fn wants_roam(c: Controller) -> bool {
    c.battle.is_moving_to_spawn || c.battle.roam_delay_seconds > 0
}

/// Whether the tick drives a monster's AI (a monster or ally controller
/// that may update, with a living owner).
pub open spec fn drives_monster(c: Controller, owner: ControllerOwnerView) -> bool {
    c.can_update && (c.kind == ControllerKind::BattleNpc || c.kind == ControllerKind::Ally)
        && owner.actor.is_alive
}

/// Whether the tick roams: an idle monster with nothing to aggro, on the
/// roaming path, past its wait time.
pub open spec fn tick_roams(
    c: Controller,
    now_ms: u64,
    owner: ControllerOwnerView,
    cands: Seq<AggroCandidate>,
) -> bool {
    &&& drives_monster(c, owner)
    &&& !owner.is_engaged
    &&& aggro_target(c, now_ms, owner, cands) is None
    &&& wants_roam(c)
    &&& now_ms >= c.battle.wait_time_ms
}

/// How long a roam makes the monster wait: its roam delay, at least
/// [`DEFAULT_ROAM_DELAY_MS`].
pub open spec fn roam_wait_ms(c: Controller) -> int {
    let d = c.battle.roam_delay_seconds * 1000;
    if d >= DEFAULT_ROAM_DELAY_MS {
        d
    } else {
        DEFAULT_ROAM_DELAY_MS as int
    }
}

/// The decision of one tick.
pub open spec fn tick_decision(
    c: Controller,
    now_ms: u64,
    owner: ControllerOwnerView,
    cands: Seq<AggroCandidate>,
) -> ControllerDecision {
    if !drives_monster(c, owner) {
        ControllerDecision::Idle
    } else if owner.is_engaged {
        combat_decision(c, now_ms, owner)
    } else if let Some(t) = aggro_target(c, now_ms, owner, cands) {
        ControllerDecision::Engage { target_actor_id: t }
    } else if tick_roams(c, now_ms, owner, cands) {
        ControllerDecision::Roam
    } else {
        ControllerDecision::Idle
    }
}

/// Whether some candidate gets as far as the level check: the scan runs
/// with a detection type, no order to ignore levels, and a candidate
/// passes the first filters.
pub open spec fn reaches_level_check(
    c: Controller,
    now_ms: u64,
    owner: ControllerOwnerView,
    cands: Seq<AggroCandidate>,
) -> bool {
    &&& drives_monster(c, owner)
    &&& !owner.is_engaged
    &&& scan_active(c.battle, now_ms)
    &&& c.battle.detection_type.0 != DetectionType::NONE
    &&& !has_bits(c.battle.detection_type, DetectionType::IGNORE_LEVEL_DIFFERENCE)
    &&& exists|i: int| 0 <= i < cands.len() && #[trigger] passes_prefilter(c.kind, c.battle, owner, cands[i])
}

/// What a tick may run into: the level gap of a reached level check is
/// computed in `i16`, and a roam adds its wait to the clock in `u64`.
pub open spec fn tick_in_range(
    c: Controller,
    now_ms: u64,
    owner: ControllerOwnerView,
    cands: Seq<AggroCandidate>,
) -> bool {
    &&& reaches_level_check(c, now_ms, owner, cands) ==> c.battle.level >= -32766
    &&& tick_roams(c, now_ms, owner, cands) ==> now_ms + roam_wait_ms(c) <= u64::MAX
}

/// Whether `r` is a fresh controller of `kind` for `owner_actor_id`: free
/// to update, with auto-attack, casting and weapon skills on, a roam delay
/// of five seconds, its first spell still to come, no group, and every
/// other number 0 and flag off.
pub open spec fn is_fresh_controller(r: Controller, kind: ControllerKind, owner_actor_id: u32) -> bool {
    &&& r.owner_actor_id == owner_actor_id
    &&& r.kind == kind
    &&& r.last_update_ms == 0
    &&& r.last_combat_tick_ms == 0
    &&& r.can_update
    &&& r.auto_attack_enabled
    &&& r.casting_enabled
    &&& r.weapon_skill_enabled
    &&& r.pet_master_actor_id == 0
    &&& r.battle.detection_type.0 == 0
    &&& r.battle.level == 0
    &&& !r.battle.neutral
    &&& !r.battle.is_moving_to_spawn
    &&& r.battle.roam_delay_seconds == 5
    &&& r.battle.last_action_time_ms == 0
    &&& r.battle.last_spell_cast_time_ms == 0
    &&& r.battle.last_skill_time_ms == 0
    &&& r.battle.deaggro_time_ms == 0
    &&& r.battle.neutral_time_ms == 0
    &&& r.battle.wait_time_ms == 0
    &&& r.battle.battle_start_time_ms == 0
    &&& r.battle.first_spell
    &&& r.battle.last_roam_update_ms == 0
    &&& r.battle.content_group_ids@ == Seq::<u32>::empty()
}

impl Controller {
    /// A controller of `kind` for `owner_actor_id`: free to update, with
    /// auto-attack, casting and weapon skills on, a roam delay of five
    /// seconds, its first spell still to come, and every clock at 0.
    pub fn new(kind: ControllerKind, owner_actor_id: u32) -> (r: Self)
        ensures
            is_fresh_controller(r, kind, owner_actor_id),
    {
        let mut battle = BattleNpcControllerState::default();
        battle.first_spell = true;
        battle.roam_delay_seconds = 5;
        Controller {
            owner_actor_id,
            kind,
            last_update_ms: 0,
            last_combat_tick_ms: 0,
            can_update: true,
            auto_attack_enabled: true,
            casting_enabled: true,
            weapon_skill_enabled: true,
            battle,
            pet_master_actor_id: 0,
        }
    }

    pub fn is_auto_attack_enabled(&self) -> (r: bool)
        ensures
            r == self.auto_attack_enabled,
    {
        self.auto_attack_enabled
    }

    pub fn set_auto_attack_enabled(&mut self, v: bool)
        ensures
            *final(self) == (Controller { auto_attack_enabled: v, ..*old(self) }),
    {
        self.auto_attack_enabled = v;
    }

    pub fn is_casting_enabled(&self) -> (r: bool)
        ensures
            r == self.casting_enabled,
    {
        self.casting_enabled
    }

    pub fn set_casting_enabled(&mut self, v: bool)
        ensures
            *final(self) == (Controller { casting_enabled: v, ..*old(self) }),
    {
        self.casting_enabled = v;
    }

    pub fn is_weapon_skill_enabled(&self) -> (r: bool)
        ensures
            r == self.weapon_skill_enabled,
    {
        self.weapon_skill_enabled
    }

    pub fn set_weapon_skill_enabled(&mut self, v: bool)
        ensures
            *final(self) == (Controller { weapon_skill_enabled: v, ..*old(self) }),
    {
        self.weapon_skill_enabled = v;
    }
}

/// The controller after one tick: the update time is recorded when it may
/// update; a combat-tick script call records its time, and a roam starts
/// the neutral period and the wait before the next roam.
pub open spec fn tick_state(
    c: Controller,
    now_ms: u64,
    owner: ControllerOwnerView,
    cands: Seq<AggroCandidate>,
) -> Controller {
    if !c.can_update {
        c
    } else if drives_monster(c, owner) && owner.is_engaged && combat_decision(
        c,
        now_ms,
        owner,
    ) is LuaCombatTick {
        Controller { last_update_ms: now_ms, last_combat_tick_ms: now_ms, ..c }
    } else if tick_roams(c, now_ms, owner, cands) {
        Controller {
            last_update_ms: now_ms,
            battle: BattleNpcControllerState {
                neutral_time_ms: (now_ms + ROAM_NEUTRAL_MS) as u64,
                wait_time_ms: (now_ms + roam_wait_ms(c)) as u64,
                ..c.battle
            },
            ..c
        }
    } else {
        Controller { last_update_ms: now_ms, ..c }
    }
}

/// The level the aggro check assumes for a target.
fn owner_target_level(target: &ActorView) -> (r: i16)
    ensures
        r == assumed_target_level(),
{
    1
}

impl Controller {
    /// Whether `target` hides from detection; no target does.
    fn target_view_has_stealth(&self, target: &ActorView) -> (r: bool)
        ensures
            !r,
    {
        false
    }

    fn can_aggro(&self, owner: &ControllerOwnerView, target: &ActorView) -> (r: bool)
        requires
            !self.battle.neutral && self.battle.detection_type.0 != DetectionType::NONE
                && target.is_alive && !has_bits(
                self.battle.detection_type,
                DetectionType::IGNORE_LEVEL_DIFFERENCE,
            ) ==> self.battle.level >= -32766,
        ensures
            r == can_aggro(self.battle, *owner, *target),
    {
        if self.battle.neutral || self.battle.detection_type.0 == DetectionType::NONE {
            return false;
        }
        if !target.is_alive {
            return false;
        }
        if !self.battle.detection_type.contains(
            DetectionType(DetectionType::IGNORE_LEVEL_DIFFERENCE),
        ) {
            let gap: i16 = self.battle.level - owner_target_level(target);
            let lvl_diff: i16 = if gap < 0 {
                -gap
            } else {
                gap
            };
            if lvl_diff > AGGRO_LEVEL_CAP {
                return false;
            }
        }
        owner.is_spawned && !owner.is_engaged
    }

    fn can_detect(&self, cand: &AggroCandidate) -> (r: bool)
        ensures
            r == detects(self.battle, *cand),
    {
        if !cand.in_detect_range {
            return false;
        }
        let detect_type = self.battle.detection_type;
        let has_stealth = self.target_view_has_stealth(&cand.actor);
        if detect_type.contains(DetectionType(DetectionType::SIGHT)) && !has_stealth
            && cand.in_sight {
            return true;
        }
        if detect_type.contains(DetectionType(DetectionType::SOUND)) && !has_stealth
            && cand.in_hearing {
            return true;
        }
        if detect_type.contains(DetectionType(DetectionType::LOW_HP)) {
            return false;
        }
        false
    }

    fn try_aggro(&self, now_ms: u64, owner: &ControllerOwnerView, cands: &Vec<AggroCandidate>) -> (r:
        Option<u32>)
        requires
            drives_monster(*self, *owner),
            !owner.is_engaged,
            reaches_level_check(*self, now_ms, *owner, cands@) ==> self.battle.level >= -32766,
        ensures
            r == aggro_target(*self, now_ms, *owner, cands@),
    {
        if now_ms < self.battle.neutral_time_ms || self.battle.is_moving_to_spawn {
            return None;
        }
        if self.battle.neutral {
            return None;
        }
        let is_ally = self.kind == ControllerKind::Ally;
        let mut i: usize = 0;
        assert(cands@.skip(0) =~= cands@);
        while i < cands.len()
            invariant
                i <= cands@.len(),
                is_ally == (self.kind == ControllerKind::Ally),
                scan_active(self.battle, now_ms),
                drives_monster(*self, *owner),
                !owner.is_engaged,
                reaches_level_check(*self, now_ms, *owner, cands@) ==> self.battle.level >= -32766,
                first_aggro(self.kind, self.battle, *owner, cands@) == first_aggro(
                    self.kind,
                    self.battle,
                    *owner,
                    cands@.skip(i as int),
                ),
            decreases cands@.len() - i,
        {
            let cand = &cands[i];
            assert(cands@.skip(i as int)[0] == cands@[i as int]);
            assert(cands@.skip(i as int).drop_first() =~= cands@.skip(i + 1));
            if cand.actor.actor_id == owner.actor.actor_id {
                i = i + 1;
                continue;
            }
            if cand.actor.allegiance == owner.actor.allegiance {
                i = i + 1;
                continue;
            }
            if !cand.actor.is_alive {
                i = i + 1;
                continue;
            }
            if is_ally && !vec_contains_u32(&self.battle.content_group_ids, cand.actor.actor_id) {
                i = i + 1;
                continue;
            }
            assert(passes_prefilter(self.kind, self.battle, *owner, cands@[i as int]));
            if !self.can_aggro(owner, &cand.actor) {
                i = i + 1;
                continue;
            }
            if !self.can_detect(cand) {
                i = i + 1;
                continue;
            }
            return Some(cand.actor.actor_id);
        }
        assert(cands@.skip(i as int) =~= Seq::<AggroCandidate>::empty());
        None
    }

    fn do_combat_tick(&mut self, now_ms: u64, owner: &ControllerOwnerView) -> (r: ControllerDecision)
        ensures
            r == combat_decision(*old(self), now_ms, *owner),
            *final(self) == (if r is LuaCombatTick {
                Controller { last_combat_tick_ms: now_ms, ..*old(self) }
            } else {
                *old(self)
            }),
    {
        if self.should_deaggro(owner) {
            return ControllerDecision::Disengage;
        }
        if owner.most_hated_actor_id != owner.current_target_actor_id {
            return ControllerDecision::ChangeTarget { target_actor_id: owner.most_hated_actor_id };
        }
        if let Some(target_id) = owner.current_target_actor_id {
            if !owner.has_prevent_movement && now_ms.saturating_sub(self.last_combat_tick_ms)
                >= COMBAT_TICK_INTERVAL_MS {
                self.last_combat_tick_ms = now_ms;
                return ControllerDecision::LuaCombatTick { target_actor_id: Some(target_id) };
            }
        }
        ControllerDecision::Idle
    }

    fn should_deaggro(&self, owner: &ControllerOwnerView) -> (r: bool)
        ensures
            r == (owner.most_hated_actor_id is None || !owner.is_close_to_spawn),
    {
        if owner.most_hated_actor_id.is_none() {
            return true;
        }
        if !owner.is_close_to_spawn {
            return true;
        }
        false
    }

    fn do_roam_tick(&mut self, now_ms: u64) -> (r: ControllerDecision)
        requires
            now_ms >= old(self).battle.wait_time_ms ==> now_ms + roam_wait_ms(*old(self))
                <= u64::MAX,
        ensures
            now_ms < old(self).battle.wait_time_ms ==> r == ControllerDecision::Idle && *final(self)
                == *old(self),
            now_ms >= old(self).battle.wait_time_ms ==> r == ControllerDecision::Roam
                && *final(self) == (Controller {
                battle: BattleNpcControllerState {
                    neutral_time_ms: (now_ms + ROAM_NEUTRAL_MS) as u64,
                    wait_time_ms: (now_ms + roam_wait_ms(*old(self))) as u64,
                    ..old(self).battle
                },
                ..*old(self)
            }),
    {
        if now_ms < self.battle.wait_time_ms {
            return ControllerDecision::Idle;
        }
        let delay: u64 = self.battle.roam_delay_seconds as u64 * 1000;
        let wait: u64 = if delay >= DEFAULT_ROAM_DELAY_MS {
            delay
        } else {
            DEFAULT_ROAM_DELAY_MS
        };
        self.battle.neutral_time_ms = now_ms + ROAM_NEUTRAL_MS;
        self.battle.wait_time_ms = now_ms + wait;
        ControllerDecision::Roam
    }

    /// One tick at `now_ms`. A controller that may not update decides
    /// nothing and changes nothing. Otherwise it records the time; players
    /// and pets, and monsters whose owner is dead, stay idle. An engaged
    /// monster gives up without hate or far from spawn, follows the most
    /// hated actor, and runs the combat-tick script every
    /// [`COMBAT_TICK_INTERVAL_MS`]. An idle monster engages the first
    /// candidate, in the order given, that it may aggro and detects;
    /// failing that it roams once its wait is over.
    pub fn tick(&mut self, now_ms: u64, owner: ControllerOwnerView, candidates: &Vec<AggroCandidate>) -> (r:
        ControllerDecision)
        requires
            tick_in_range(*old(self), now_ms, owner, candidates@),
        ensures
            r == tick_decision(*old(self), now_ms, owner, candidates@),
            *final(self) == tick_state(*old(self), now_ms, owner, candidates@),
    {
        if !self.can_update {
            return ControllerDecision::Idle;
        }
        self.last_update_ms = now_ms;
        assert(tick_decision(*self, now_ms, owner, candidates@) == tick_decision(
            *old(self),
            now_ms,
            owner,
            candidates@,
        ));
        assert(tick_state(*self, now_ms, owner, candidates@) == tick_state(
            *old(self),
            now_ms,
            owner,
            candidates@,
        ));
        match self.kind {
            ControllerKind::Player => ControllerDecision::Idle,
            ControllerKind::Pet => ControllerDecision::Idle,
            _ => self.tick_battle_npc(now_ms, owner, candidates),
        }
    }

    fn tick_battle_npc(&mut self, now_ms: u64, owner: ControllerOwnerView, cands: &Vec<AggroCandidate>) -> (r:
        ControllerDecision)
        requires
            old(self).can_update,
            old(self).last_update_ms == now_ms,
            old(self).kind == ControllerKind::BattleNpc || old(self).kind == ControllerKind::Ally,
            tick_in_range(*old(self), now_ms, owner, cands@),
        ensures
            r == tick_decision(*old(self), now_ms, owner, cands@),
            *final(self) == tick_state(*old(self), now_ms, owner, cands@),
    {
        if !owner.actor.is_alive {
            return ControllerDecision::Idle;
        }
        if owner.is_engaged {
            self.do_combat_tick(now_ms, &owner)
        } else if let Some(target_id) = self.try_aggro(now_ms, &owner, cands) {
            ControllerDecision::Engage { target_actor_id: target_id }
        } else if self.battle.is_moving_to_spawn || self.battle.roam_delay_seconds > 0 {
            self.do_roam_tick(now_ms)
        } else {
            ControllerDecision::Idle
        }
    }
}

/// Player and pet controllers never ask for anything: every tick of one
/// decides [`ControllerDecision::Idle`].
pub proof fn lemma_players_and_pets_idle(
    c: Controller,
    now_ms: u64,
    owner: ControllerOwnerView,
    cands: Seq<AggroCandidate>,
)
    requires
        c.kind == ControllerKind::Player || c.kind == ControllerKind::Pet,
    ensures
        tick_decision(c, now_ms, owner, cands) == ControllerDecision::Idle,
{
}

/// The combat-tick script runs at most once per interval: after a tick at
/// `t1` that ran it, no tick before `t1 + COMBAT_TICK_INTERVAL_MS` runs it
/// again, whatever the owner's view and candidates then.
pub proof fn lemma_combat_tick_spacing(
    c: Controller,
    t1: u64,
    owner1: ControllerOwnerView,
    cands1: Seq<AggroCandidate>,
    t2: u64,
    owner2: ControllerOwnerView,
    cands2: Seq<AggroCandidate>,
)
    requires
        tick_decision(c, t1, owner1, cands1) is LuaCombatTick,
        t2 < t1 + COMBAT_TICK_INTERVAL_MS,
    ensures
        !(tick_decision(tick_state(c, t1, owner1, cands1), t2, owner2, cands2) is LuaCombatTick),
{
}

/// Marks the controller of a player character.
#[derive(Debug, Clone, Copy, PartialEq, Eq)]
pub struct PlayerController;

/// Marks the controller of a monster.
#[derive(Debug, Clone, Copy, PartialEq, Eq)]
pub struct BattleNpcController;

/// Marks the controller of an ally.
#[derive(Debug, Clone, Copy, PartialEq, Eq)]
pub struct AllyController;

/// Marks the controller of a pet.
#[derive(Debug, Clone, Copy, PartialEq, Eq)]
pub struct PetController;

impl PlayerController {
    /// A fresh player controller (see [`Controller::new`]).
    pub fn new_for(owner_actor_id: u32) -> (r: Controller)
        ensures
            is_fresh_controller(r, ControllerKind::Player, owner_actor_id),
    {
        Controller::new(ControllerKind::Player, owner_actor_id)
    }
}

impl BattleNpcController {
    /// A fresh monster controller (see [`Controller::new`]).
    pub fn new_for(owner_actor_id: u32) -> (r: Controller)
        ensures
            is_fresh_controller(r, ControllerKind::BattleNpc, owner_actor_id),
    {
        Controller::new(ControllerKind::BattleNpc, owner_actor_id)
    }
}

impl AllyController {
    /// A fresh ally controller (see [`Controller::new`]).
    pub fn new_for(owner_actor_id: u32) -> (r: Controller)
        ensures
            is_fresh_controller(r, ControllerKind::Ally, owner_actor_id),
    {
        Controller::new(ControllerKind::Ally, owner_actor_id)
    }
}

impl PetController {
    /// A fresh pet controller (see [`Controller::new`]).
    pub fn new_for(owner_actor_id: u32) -> (r: Controller)
        ensures
            is_fresh_controller(r, ControllerKind::Pet, owner_actor_id),
    {
        Controller::new(ControllerKind::Pet, owner_actor_id)
    }
}

} // verus!
