//! Battle command metadata: requirement and command-type flags, the enums a
//! command is described by, and target validation failures.

use vstd::prelude::*;
use crate::battle::effects::ActionProperty;
use crate::battle::effects::ActionType;
use crate::battle::effects::HitType;
use crate::battle::effects::action_type_value;
use crate::battle::target_find::TargetFindAOETarget;
use crate::battle::target_find::TargetFindAOEType;
use crate::battle::target_find::ValidTarget;

verus! {

/// What a command requires of its user (class or equipment).
#[derive(Debug, Clone, Copy, PartialEq, Eq, Structural)]
pub struct BattleCommandRequirements(pub u16);

impl Default for BattleCommandRequirements {
    /// No bits set.
    fn default() -> (r: Self)
        ensures
            r.0 == 0,
    {
        BattleCommandRequirements(0)
    }
}

impl BattleCommandRequirements {
    pub const NONE: u16 = 0x0000;
    pub const DISCIPLE_OF_WAR: u16 = 0x0001;
    pub const DISCIPLE_OF_MAGIC: u16 = 0x0002;
    pub const HAND_TO_HAND: u16 = 0x0004;
    pub const SWORD: u16 = 0x0008;
    pub const SHIELD: u16 = 0x0010;
    pub const AXE: u16 = 0x0020;
    pub const ARCHERY: u16 = 0x0040;
    pub const POLEARM: u16 = 0x0080;
    pub const THAUMATURGY: u16 = 0x0100;
    pub const CONJURY: u16 = 0x0200;

    /// The raw bits.
    pub fn bits(self) -> (r: u16)
        ensures
            r == self.0,
    {
        self.0
    }

    /// Whether every bit of `other` is set here.
    pub fn contains(self, other: Self) -> (r: bool)
        ensures
            r == (self.0 & other.0 == other.0),
    {
        (self.0 & other.0) == other.0
    }
}

/// The position a command gets a bonus from.
#[derive(Debug, Clone, Copy, PartialEq, Eq, Structural)]
pub enum BattleCommandPositionBonus {
    NoBonus,
    Front,
    Rear,
    Flank,
}

impl Default for BattleCommandPositionBonus {
    fn default() -> (r: Self)
        ensures
            r == BattleCommandPositionBonus::NoBonus,
    {
        BattleCommandPositionBonus::NoBonus
    }
}

/// The reaction a command needs to be usable.
#[derive(Debug, Clone, Copy, PartialEq, Eq, Structural)]
pub enum BattleCommandProcRequirement {
    NoRequirement,
    Miss,
    Evade,
    Parry,
    Block,
}

impl Default for BattleCommandProcRequirement {
    fn default() -> (r: Self)
        ensures
            r == BattleCommandProcRequirement::NoRequirement,
    {
        BattleCommandProcRequirement::NoRequirement
    }
}

/// Who may use a command.
#[derive(Debug, Clone, Copy, PartialEq, Eq, Structural)]
pub enum BattleCommandValidUser {
    All,
    Player,
    Monster,
}

impl Default for BattleCommandValidUser {
    fn default() -> (r: Self)
        ensures
            r == BattleCommandValidUser::All,
    {
        BattleCommandValidUser::All
    }
}

/// How a command is cast.
#[derive(Debug, Clone, Copy, PartialEq, Eq, Structural)]
pub enum BattleCommandCastType {
    NoCast,
    WeaponSkill,
    WeaponSkill2,
    BlackMagic,
    WhiteMagic,
    SongMagic,
}

impl Default for BattleCommandCastType {
    fn default() -> (r: Self)
        ensures
            r == BattleCommandCastType::NoCast,
    {
        BattleCommandCastType::NoCast
    }
}

/// The kind of a command.
#[derive(Debug, Clone, Copy, PartialEq, Eq, Structural)]
pub struct CommandType(pub u16);

impl Default for CommandType {
    /// No bits set.
    fn default() -> (r: Self)
        ensures
            r.0 == 0,
    {
        CommandType(0)
    }
}

impl CommandType {
    pub const NONE: u16 = 0;
    pub const AUTO_ATTACK: u16 = 1;
    pub const WEAPON_SKILL: u16 = 2;
    pub const ABILITY: u16 = 3;
    pub const SPELL: u16 = 4;

    /// The raw bits.
    pub fn bits(self) -> (r: u16)
        ensures
            r == self.0,
    {
        self.0
    }

    /// Whether every bit of `other` is set here.
    pub fn contains(self, other: Self) -> (r: bool)
        ensures
            r == (self.0 & other.0 == other.0),
    {
        (self.0 & other.0) == other.0
    }
}

/// How far and which way a hit knocks its target.
#[derive(Debug, Clone, Copy, PartialEq, Eq, Structural)]
pub enum KnockbackType {
    NoKnockback,
    Level1,
    Level2,
    Level3,
    Level4,
    Level5,
    Clockwise1,
    Clockwise2,
    CounterClockwise1,
    CounterClockwise2,
    DrawIn,
}

impl Default for KnockbackType {
    fn default() -> (r: Self)
        ensures
            r == KnockbackType::NoKnockback,
    {
        KnockbackType::NoKnockback
    }
}

/// Why a command cannot be used on a target.
#[derive(Debug, Clone, Copy, PartialEq, Eq, Structural)]
pub enum TargetValidationError {
    TargetDoesNotExist,
    CannotTargetKoTarget,
    MustTargetKoTarget,
    CannotTargetSelf,
    MustTargetSelf,
    CannotTargetAlly,
    MustTargetAlly,
    CannotTargetEnemy,
    MustTargetEnemy,
    InvalidTarget,
    CannotTargetParty,
    OutOfZone,
}

/// The world-master text id the client shows for a validation failure.
pub open spec fn validation_text_id(e: TargetValidationError) -> u16 {
    match e {
        TargetValidationError::TargetDoesNotExist => 32511,
        TargetValidationError::CannotTargetKoTarget => 32512,
        TargetValidationError::MustTargetKoTarget => 32513,
        TargetValidationError::CannotTargetSelf => 32514,
        TargetValidationError::MustTargetSelf => 32515,
        TargetValidationError::CannotTargetAlly => 32516,
        TargetValidationError::MustTargetAlly => 32517,
        TargetValidationError::CannotTargetEnemy => 32518,
        TargetValidationError::MustTargetEnemy => 32519,
        TargetValidationError::InvalidTarget => 32547,
        TargetValidationError::CannotTargetParty => 32548,
        TargetValidationError::OutOfZone => 32540,
    }
}

impl TargetValidationError {
    /// The world-master text id of this failure.
    pub fn text_id(self) -> (r: u16)
        ensures
            r == validation_text_id(self),
    {
        match self {
            TargetValidationError::TargetDoesNotExist => 32511,
            TargetValidationError::CannotTargetKoTarget => 32512,
            TargetValidationError::MustTargetKoTarget => 32513,
            TargetValidationError::CannotTargetSelf => 32514,
            TargetValidationError::MustTargetSelf => 32515,
            TargetValidationError::CannotTargetAlly => 32516,
            TargetValidationError::MustTargetAlly => 32517,
            TargetValidationError::CannotTargetEnemy => 32518,
            TargetValidationError::MustTargetEnemy => 32519,
            TargetValidationError::InvalidTarget => 32547,
            TargetValidationError::CannotTargetParty => 32548,
            TargetValidationError::OutOfZone => 32540,
        }
    }
}

/// What target validation reads of an actor.
#[derive(Debug, Clone, Copy, PartialEq, Eq, Structural)]
pub struct ActorSnapshot {
    pub actor_id: u32,
    pub is_alive: bool,
    pub is_static: bool,
    pub allegiance: u32,
    pub party_id: u64,
    pub zone_id: u32,
    pub is_updates_locked: bool,
}

/// Whether the target mask `mt` has some bit of `flag`.
pub open spec fn has_flag(mt: u16, flag: u16) -> bool {
    mt & flag != 0
}

/// The verdict on using a command whose main-target mask is `mt` by
/// `user` on `target`, the rules tried in order: the target must exist;
/// a dead target needs the corpse bit and corpse-only needs a dead one;
/// then self, ally, enemy and party rules (party counts only for a user
/// in a party); static actors need the NPC bit and NPC-only needs one; a
/// target whose updates are locked is invalid; and the target must share
/// the user's zone.
pub open spec fn main_target_verdict(
    mt: u16,
    user: ActorSnapshot,
    target: Option<ActorSnapshot>,
) -> Result<(), TargetValidationError> {
    match target {
        None => Err(TargetValidationError::TargetDoesNotExist),
        Some(t) => {
            let is_self = user.actor_id == t.actor_id;
            let is_ally = t.allegiance == user.allegiance;
            let in_party = user.party_id != 0 && t.party_id == user.party_id;
            if !has_flag(mt, ValidTarget::CORPSE) && !t.is_alive {
                Err(TargetValidationError::CannotTargetKoTarget)
            } else if has_flag(mt, ValidTarget::CORPSE_ONLY) && t.is_alive {
                Err(TargetValidationError::MustTargetKoTarget)
            } else if !has_flag(mt, ValidTarget::SELF) && is_self {
                Err(TargetValidationError::CannotTargetSelf)
            } else if has_flag(mt, ValidTarget::SELF_ONLY) && !is_self {
                Err(TargetValidationError::MustTargetSelf)
            } else if !has_flag(mt, ValidTarget::ALLY) && is_ally && !is_self {
                Err(TargetValidationError::CannotTargetAlly)
            } else if has_flag(mt, ValidTarget::ALLY_ONLY) && !is_ally {
                Err(TargetValidationError::MustTargetAlly)
            } else if !has_flag(mt, ValidTarget::ENEMY) && !is_ally {
                Err(TargetValidationError::CannotTargetEnemy)
            } else if has_flag(mt, ValidTarget::ENEMY_ONLY) && is_ally {
                Err(TargetValidationError::MustTargetEnemy)
            } else if !has_flag(mt, ValidTarget::PARTY) && in_party {
                Err(TargetValidationError::CannotTargetParty)
            } else if has_flag(mt, ValidTarget::PARTY_ONLY) && !in_party {
                Err(TargetValidationError::InvalidTarget)
            } else if !has_flag(mt, ValidTarget::NPC) && t.is_static {
                Err(TargetValidationError::InvalidTarget)
            } else if has_flag(mt, ValidTarget::NPC_ONLY) && !t.is_static {
                Err(TargetValidationError::InvalidTarget)
            } else if t.is_updates_locked {
                Err(TargetValidationError::InvalidTarget)
            } else if t.zone_id != user.zone_id {
                Err(TargetValidationError::OutOfZone)
            } else {
                Ok(())
            }
        },
    }
}

/// A battle command's data as the rules read it. Ranges, area sizes and
/// angles, the status chance and magnitude, and the enmity, accuracy and
/// critical modifiers are floating point and stay with the caller.
#[derive(Debug, Clone)]
pub struct BattleCommand {
    pub id: u16,
    pub name: String,
    pub job: u8,
    pub level: u8,
    pub requirements: BattleCommandRequirements,
    pub main_target: ValidTarget,
    pub valid_target: ValidTarget,
    pub aoe_type: TargetFindAOEType,
    pub aoe_target: TargetFindAOETarget,
    pub num_hits: u8,
    pub position_bonus: BattleCommandPositionBonus,
    pub proc_requirement: BattleCommandProcRequirement,
    pub status_id: u32,
    pub status_duration: u32,
    pub status_tier: u8,
    pub cast_type: u8,
    pub cast_time_ms: u32,
    pub recast_time_ms: u32,
    pub max_recast_time_seconds: u32,
    pub mp_cost: i16,
    pub tp_cost: i16,
    pub animation_type: u8,
    pub effect_animation: u16,
    pub model_animation: u16,
    pub animation_duration_seconds: u16,
    pub battle_animation: u32,
    pub world_master_text_id: u16,
    pub combo_next_command_id: [i32; 2],
    pub combo_step: i16,
    pub is_combo: bool,
    pub combo_effect_added: bool,
    pub is_ranged: bool,
    pub action_crit: bool,
    pub command_type: CommandType,
    pub action_property: ActionProperty,
    pub action_type: ActionType,
    pub base_potency: u16,
    pub valid_user: BattleCommandValidUser,
}

impl BattleCommand {
    /// A command with id `id` and name `name`: no targets, no costs, no
    /// casting, status tier 1, usable by all.
    pub fn new(id: u16, name: &str) -> (r: Self)
        ensures
            r.id == id,
            r.name@ == name@,
            r.main_target.0 == ValidTarget::NONE,
            r.valid_target.0 == ValidTarget::NONE,
            r.mp_cost == 0 && r.tp_cost == 0,
            r.cast_time_ms == 0,
            r.status_tier == 1,
            r.combo_next_command_id@ == seq![0i32, 0i32],
            r.command_type.0 == 0,
            r.action_type == ActionType::NoAction,
            r.action_property == ActionProperty::NoProperty,
            r.valid_user == BattleCommandValidUser::All,
            r.world_master_text_id == 0,
    {
        let combo = [0i32, 0i32];
        assert(combo@ =~= seq![0i32, 0i32]);
        BattleCommand {
            id,
            name: name.to_owned(),
            job: 0,
            level: 0,
            requirements: BattleCommandRequirements(0),
            main_target: ValidTarget(ValidTarget::NONE),
            valid_target: ValidTarget(ValidTarget::NONE),
            aoe_type: TargetFindAOEType::NoArea,
            aoe_target: TargetFindAOETarget::Target,
            num_hits: 0,
            position_bonus: BattleCommandPositionBonus::NoBonus,
            proc_requirement: BattleCommandProcRequirement::NoRequirement,
            status_id: 0,
            status_duration: 0,
            status_tier: 1,
            cast_type: 0,
            cast_time_ms: 0,
            recast_time_ms: 0,
            max_recast_time_seconds: 0,
            mp_cost: 0,
            tp_cost: 0,
            animation_type: 0,
            effect_animation: 0,
            model_animation: 0,
            animation_duration_seconds: 0,
            battle_animation: 0,
            world_master_text_id: 0,
            combo_next_command_id: combo,
            combo_step: 0,
            is_combo: false,
            combo_effect_added: false,
            is_ranged: false,
            action_crit: false,
            command_type: CommandType(0),
            action_property: ActionProperty::NoProperty,
            action_type: ActionType::NoAction,
            base_potency: 0,
            valid_user: BattleCommandValidUser::All,
        }
    }

    /// A spell: it costs MP or has a cast time.
    pub fn is_spell(&self) -> (r: bool)
        ensures
            r == (self.mp_cost != 0 || self.cast_time_ms != 0),
    {
        self.mp_cost != 0 || self.cast_time_ms != 0
    }

    /// No cast bar.
    pub fn is_instant_cast(&self) -> (r: bool)
        ensures
            r == (self.cast_time_ms == 0),
    {
        self.cast_time_ms == 0
    }

    /// Whether `command_id` is one of the two next links of this command's
    /// combo.
    pub fn combo_matches(&self, command_id: i32) -> (r: bool)
        ensures
            r == (self.combo_next_command_id@[0] == command_id || self.combo_next_command_id@[1]
                == command_id),
    {
        self.combo_next_command_id[0] == command_id || self.combo_next_command_id[1] == command_id
    }

    /// The command-type bits.
    pub fn get_command_type(&self) -> (r: u16)
        ensures
            r == self.command_type.0,
    {
        self.command_type.bits()
    }

    /// The action type's wire value.
    pub fn get_action_type(&self) -> (r: u16)
        ensures
            r == action_type_value(self.action_type),
    {
        self.action_type.as_u16()
    }

    /// Whether `user` may use this command on `target` (see
    /// [`main_target_verdict`]); a refusal names the text the client
    /// shows.
    pub fn validate_main_target(
        &self,
        user: &ActorSnapshot,
        target: Option<&ActorSnapshot>,
    ) -> (r: Result<(), TargetValidationError>)
        ensures
            r == main_target_verdict(
                self.main_target.0,
                *user,
                match target {
                    Some(t) => Some(*t),
                    None => None,
                },
            ),
    {
        let t = match target {
            None => {
                return Err(TargetValidationError::TargetDoesNotExist);
            },
            Some(t) => t,
        };
        let mt = self.main_target;
        let is_self = user.actor_id == t.actor_id;
        let is_ally = t.allegiance == user.allegiance;
        let in_party = user.party_id != 0 && t.party_id == user.party_id;
        if !mt.intersects(ValidTarget(ValidTarget::CORPSE)) && !t.is_alive {
            return Err(TargetValidationError::CannotTargetKoTarget);
        }
        if mt.intersects(ValidTarget(ValidTarget::CORPSE_ONLY)) && t.is_alive {
            return Err(TargetValidationError::MustTargetKoTarget);
        }
        if !mt.intersects(ValidTarget(ValidTarget::SELF)) && is_self {
            return Err(TargetValidationError::CannotTargetSelf);
        }
        if mt.intersects(ValidTarget(ValidTarget::SELF_ONLY)) && !is_self {
            return Err(TargetValidationError::MustTargetSelf);
        }
        if !mt.intersects(ValidTarget(ValidTarget::ALLY)) && is_ally && !is_self {
            return Err(TargetValidationError::CannotTargetAlly);
        }
        if mt.intersects(ValidTarget(ValidTarget::ALLY_ONLY)) && !is_ally {
            return Err(TargetValidationError::MustTargetAlly);
        }
        if !mt.intersects(ValidTarget(ValidTarget::ENEMY)) && !is_ally {
            return Err(TargetValidationError::CannotTargetEnemy);
        }
        if mt.intersects(ValidTarget(ValidTarget::ENEMY_ONLY)) && is_ally {
            return Err(TargetValidationError::MustTargetEnemy);
        }
        if !mt.intersects(ValidTarget(ValidTarget::PARTY)) && in_party {
            return Err(TargetValidationError::CannotTargetParty);
        }
        if mt.intersects(ValidTarget(ValidTarget::PARTY_ONLY)) && !in_party {
            return Err(TargetValidationError::InvalidTarget);
        }
        if !mt.intersects(ValidTarget(ValidTarget::NPC)) && t.is_static {
            return Err(TargetValidationError::InvalidTarget);
        }
        if mt.intersects(ValidTarget(ValidTarget::NPC_ONLY)) && !t.is_static {
            return Err(TargetValidationError::InvalidTarget);
        }
        if t.is_updates_locked {
            return Err(TargetValidationError::InvalidTarget);
        }
        if t.zone_id != user.zone_id {
            return Err(TargetValidationError::OutOfZone);
        }
        Ok(())
    }
}

/// One resolved hit of a command on one target. The parry, block, resist,
/// hit and critical rates are floating point and stay with the caller.
#[derive(Debug, Clone, Copy, PartialEq, Eq, Structural)]
pub struct CommandResult {
    pub target_actor_id: u32,
    pub amount: u16,
    pub amount_mitigated: u16,
    pub enmity: u16,
    pub world_master_text_id: u16,
    pub effect_id: u32,
    /// The side the action comes from (hit-direction bits).
    pub param: u8,
    pub hit_num: u8,
    pub animation: u32,
    pub command_type: CommandType,
    pub action_property: ActionProperty,
    pub action_type: ActionType,
    pub hit_type: HitType,
}

/// A result with every number zero, no command kind, and `hit_type`.
pub open spec fn blank_result(hit_type: HitType) -> CommandResult {
    CommandResult {
        target_actor_id: 0,
        amount: 0,
        amount_mitigated: 0,
        enmity: 0,
        world_master_text_id: 0,
        effect_id: 0,
        param: 0,
        hit_num: 0,
        animation: 0,
        command_type: CommandType(0),
        action_property: ActionProperty::NoProperty,
        action_type: ActionType::NoAction,
        hit_type,
    }
}

impl Default for CommandResult {
    /// Every number zero, a plain hit.
    fn default() -> (r: Self)
        ensures
            r == blank_result(HitType::Hit),
    {
        CommandResult {
            target_actor_id: 0,
            amount: 0,
            amount_mitigated: 0,
            enmity: 0,
            world_master_text_id: 0,
            effect_id: 0,
            param: 0,
            hit_num: 0,
            animation: 0,
            command_type: CommandType(0),
            action_property: ActionProperty::NoProperty,
            action_type: ActionType::NoAction,
            hit_type: HitType::Hit,
        }
    }
}

impl CommandResult {
    /// A hit on `target_actor_id` showing text `world_master_text_id` with
    /// effect `effect_id`: the first hit, everything else zero.
    pub fn for_target(target_actor_id: u32, world_master_text_id: u16, effect_id: u32) -> (r: Self)
        ensures
            r == (CommandResult {
                target_actor_id,
                world_master_text_id,
                effect_id,
                hit_num: 1,
                ..blank_result(HitType::Hit)
            }),
    {
        CommandResult {
            target_actor_id,
            world_master_text_id,
            effect_id,
            hit_num: 1,
            hit_type: HitType::Hit,
            ..CommandResult::default()
        }
    }

    /// Hit number `hit_num` of `cmd` on `target_actor_id`, carrying the
    /// command's text and kinds.
    pub fn from_command(target_actor_id: u32, cmd: &BattleCommand, hit_num: u8) -> (r: Self)
        ensures
            r == (CommandResult {
                target_actor_id,
                world_master_text_id: cmd.world_master_text_id,
                command_type: cmd.command_type,
                action_property: cmd.action_property,
                action_type: cmd.action_type,
                hit_num,
                ..blank_result(HitType::Hit)
            }),
    {
        CommandResult {
            target_actor_id,
            world_master_text_id: cmd.world_master_text_id,
            command_type: cmd.command_type,
            action_property: cmd.action_property,
            action_type: cmd.action_type,
            hit_num,
            hit_type: HitType::Hit,
            ..CommandResult::default()
        }
    }

    /// Sets the text the client shows.
    pub fn set_text_id(&mut self, id: u16)
        ensures
            *final(self) == (CommandResult { world_master_text_id: id, ..*old(self) }),
    {
        self.world_master_text_id = id;
    }

    /// Whether the hit connected (no miss, evasion or resist).
    pub fn action_landed(&self) -> (r: bool)
        ensures
            r == !(self.hit_type == HitType::Miss || self.hit_type == HitType::Evade
                || self.hit_type == HitType::SingleResist || self.hit_type == HitType::DoubleResist
                || self.hit_type == HitType::FullResist),
    {
        self.hit_type.landed()
    }
}

/// The results of one action: the main ones, then the additional ones.
#[derive(Debug)]
pub struct CommandResultContainer {
    pub main_results: Vec<CommandResult>,
    pub additional_results: Vec<CommandResult>,
}

impl Default for CommandResultContainer {
    /// No results.
    fn default() -> (r: Self)
        ensures
            r.main_results@.len() == 0,
            r.additional_results@.len() == 0,
    {
        CommandResultContainer { main_results: Vec::new(), additional_results: Vec::new() }
    }
}

impl CommandResultContainer {
    /// No results.
    pub fn new() -> (r: Self)
        ensures
            r.main_results@.len() == 0,
            r.additional_results@.len() == 0,
    {
        CommandResultContainer::default()
    }

    /// Appends a main result.
    pub fn add_action(&mut self, r: CommandResult)
        ensures
            final(self).main_results@ == old(self).main_results@.push(r),
            final(self).additional_results@ == old(self).additional_results@,
    {
        self.main_results.push(r);
    }

    /// Appends an additional result.
    pub fn add_additional(&mut self, r: CommandResult)
        ensures
            final(self).additional_results@ == old(self).additional_results@.push(r),
            final(self).main_results@ == old(self).main_results@,
    {
        self.additional_results.push(r);
    }

    /// Hands out the main results followed by the additional ones, leaving
    /// the container empty.
    pub fn combine_lists(&mut self) -> (r: Vec<CommandResult>)
        ensures
            r@ == old(self).main_results@ + old(self).additional_results@,
            final(self).main_results@.len() == 0,
            final(self).additional_results@.len() == 0,
    {
        self.main_results.append(&mut self.additional_results);
        let mut out: Vec<CommandResult> = Vec::new();
        std::mem::swap(&mut out, &mut self.main_results);
        out
    }

    /// Whether there are no results.
    pub fn is_empty(&self) -> (r: bool)
        ensures
            r == (self.main_results@.len() == 0 && self.additional_results@.len() == 0),
    {
        self.main_results.len() == 0 && self.additional_results.len() == 0
    }
}

} // verus!
