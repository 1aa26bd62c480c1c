//! Hit effects, hit directions, and the kinds of hits and actions.
//!
//! Flag values are plain integers named on their flag type (for example
//! `HitEffect(HitEffect::HIT)`).

use vstd::prelude::*;

verus! {

/// The effect bits a hit shows on the client: a category in the top byte and flags below it.
#[derive(Debug, Clone, Copy, PartialEq, Eq, Structural)]
pub struct HitEffect(pub u32);

impl Default for HitEffect {
    /// No bits set.
    fn default() -> (r: Self)
        ensures
            r.0 == 0,
    {
        HitEffect(0)
    }
}

impl HitEffect {
    pub const NONE: u32 = 0x00000000;

    // Category byte (bits 24..32).
    pub const HIT_EFFECT_TYPE: u32 = 0x08000000;
    pub const ADDITIONAL_EFFECT_TYPE: u32 = 0x18000000;
    pub const STATUS_EFFECT_TYPE: u32 = 0x20000000;
    pub const STATUS_LOSS_TYPE: u32 = 0x28000000;
    pub const MAGIC_EFFECT_TYPE: u32 = 0x30000000;
    pub const SELF_HEAL_TYPE: u32 = 0x48000000;
    pub const ANIMATION_EFFECT_TYPE: u32 = 0x60000000;

    // HitEffectType recoil levels.
    pub const RECOIL_LV1: u32 = 0x00000000;
    pub const RECOIL_LV2: u32 = 0x00000001;
    pub const RECOIL_LV3: u32 = 0x00000002;
    pub const CRITICAL_HIT: u32 = 0x00000003;

    // Hit visuals — weapon/impact flavour.
    pub const HIT_VISUAL1: u32 = 0x00000004;
    pub const HIT_VISUAL2: u32 = 0x00000008;
    pub const HIT_VISUAL3: u32 = 0x00000010;
    pub const HIT_VISUAL4: u32 = 0x00000020;

    // Protect / Shell buff responses.
    pub const PROTECT: u32 = 0x00000040;
    pub const SHELL: u32 = 0x00000080;
    pub const PROTECT_SHELL_SPECIAL: u32 = 0x000000C0;

    // Hit / Evade / Miss / Parry / Block pop-up triggers.
    pub const HIT_EFFECT1: u32 = 0x00000200;
    pub const HIT_EFFECT2: u32 = 0x00000400;
    pub const HIT_EFFECT3: u32 = 0x00000800;
    pub const HIT_EFFECT4: u32 = 0x00001000;
    pub const HIT_EFFECT5: u32 = 0x00002000;

    pub const MISS: u32 = 0x00000000;
    pub const EVADE: u32 = 0x00000200;
    pub const HIT: u32 = 0x00000600;
    pub const CRIT: u32 = 0x00000800;
    pub const PARRY: u32 = 0x00000E00;
    pub const BLOCK: u32 = 0x00001000;

    // Knockbacks (stacked recoil + direction).
    pub const KNOCKBACK_LV1: u32 = 0x00001600;
    pub const KNOCKBACK_LV2: u32 = 0x00001800;
    pub const KNOCKBACK_LV3: u32 = 0x00001A00;
    pub const KNOCKBACK_LV4: u32 = 0x00001C00;
    pub const KNOCKBACK_LV5: u32 = 0x00001E00;

    pub const KNOCKBACK_CCW_LV1: u32 = 0x00002000;
    pub const KNOCKBACK_CCW_LV2: u32 = 0x00002200;
    pub const KNOCKBACK_CW_LV1: u32 = 0x00002400;
    pub const KNOCKBACK_CW_LV2: u32 = 0x00002600;

    pub const DRAW_IN: u32 = 0x00002800;
    pub const UNKNOWN_SHIELD_EFFECT: u32 = 0x00003000;
    pub const STONESKIN: u32 = 0x00003200;

    // Skill combos.
    pub const SKILL_COMBO1: u32 = 0x00008000;
    pub const SKILL_COMBO2: u32 = 0x00010000;
    pub const SKILL_COMBO3: u32 = 0x00018000;
    pub const SKILL_COMBO4: u32 = 0x00020000;

    // MagicEffectType flags.
    pub const FULL_RESIST: u32 = 0x00000000;
    pub const WEAK_RESIST: u32 = 0x00000001;
    pub const NO_RESIST: u32 = 0x00000002;

    pub const MAGIC_SHELL: u32 = 0x00000010;
    pub const MAGIC_SHIELD: u32 = 0x00000020;

    pub const HEAL: u32 = 0x00000100;
    pub const MP: u32 = 0x00000200;
    pub const TP: u32 = 0x00000400;

    // SelfHealType subflags.
    pub const SELF_HEAL_HP: u32 = 0x00000000;
    pub const SELF_HEAL_MP: u32 = 0x00000001;
    pub const SELF_HEAL_TP: u32 = 0x00000002;
    pub const SELF_HEAL: u32 = 0x00000400;

    // AdditionalEffectType — elemental flavours.
    pub const FIRE_EFFECT: u32 = 0x00000400;
    pub const ICE_EFFECT: u32 = 0x00000800;
    pub const WIND_EFFECT: u32 = 0x00000C00;
    pub const EARTH_EFFECT: u32 = 0x00001000;
    pub const LIGHTNING_EFFECT: u32 = 0x00001400;
    pub const WATER_EFFECT: u32 = 0x00001800;
    pub const ASTRAL_EFFECT: u32 = 0x00001C00;
    pub const UMBRAL_EFFECT: u32 = 0x00002000;

    pub const HP_ABSORB_EFFECT: u32 = 0x00003800;
    pub const MP_ABSORB_EFFECT: u32 = 0x00003C00;
    pub const TP_ABSORB_EFFECT: u32 = 0x00004000;
    pub const TRIPLE_ABSORB_EFFECT: u32 = 0x00004400;
    pub const MOOGLE_EFFECT: u32 = 0x00004800;


    /// The raw bits.
    pub fn bits(self) -> (r: u32)
        ensures
            r == self.0,
    {
        self.0
    }

    /// Whether every bit of `other` is set here.
    pub fn contains(self, other: Self) -> (r: bool)
        ensures
            r == (self.0 & other.0 == other.0),
    {
        (self.0 & other.0) == other.0
    }

    /// Whether some bit of `other` is set here.
    pub fn intersects(self, other: Self) -> (r: bool)
        ensures
            r == (self.0 & other.0 != 0),
    {
        (self.0 & other.0) != 0
    }
}

/// The side of the target a hit landed on.
#[derive(Debug, Clone, Copy, PartialEq, Eq, Structural)]
pub struct HitDirection(pub u8);

impl Default for HitDirection {
    /// No bits set.
    fn default() -> (r: Self)
        ensures
            r.0 == 0,
    {
        HitDirection(0)
    }
}

impl HitDirection {
    pub const NONE: u8 = 0x00;
    pub const FRONT: u8 = 0x01;
    pub const RIGHT: u8 = 0x02;
    pub const REAR: u8 = 0x04;
    pub const LEFT: u8 = 0x08;

    /// The raw bits.
    pub fn bits(self) -> (r: u8)
        ensures
            r == self.0,
    {
        self.0
    }

    /// Whether every bit of `other` is set here.
    pub fn contains(self, other: Self) -> (r: bool)
        ensures
            r == (self.0 & other.0 == other.0),
    {
        (self.0 & other.0) == other.0
    }
}

/// How an action resolved against its target.
#[derive(Debug, Clone, Copy, PartialEq, Eq, Structural)]
pub enum HitType {
    Miss,
    Evade,
    Parry,
    Block,
    SingleResist,
    DoubleResist,
    TripleResist,
    FullResist,
    Hit,
    Crit,
}

impl Default for HitType {
    /// A plain hit.
    fn default() -> (r: Self)
        ensures
            r == HitType::Hit,
    {
        HitType::Hit
    }
}

/// The wire value of a hit type (`Miss` 0 through `Crit` 9).
pub open spec fn hit_type_value(t: HitType) -> u16 {
    match t {
        HitType::Miss => 0,
        HitType::Evade => 1,
        HitType::Parry => 2,
        HitType::Block => 3,
        HitType::SingleResist => 4,
        HitType::DoubleResist => 5,
        HitType::TripleResist => 6,
        HitType::FullResist => 7,
        HitType::Hit => 8,
        HitType::Crit => 9,
    }
}

impl HitType {
    /// Whether the action connected: everything but a miss, an evade, and a
    /// single, double or full resist (a triple resist counts as landed).
    pub fn landed(self) -> (r: bool)
        ensures
            r == !(self == HitType::Miss || self == HitType::Evade || self == HitType::SingleResist
                || self == HitType::DoubleResist || self == HitType::FullResist),
    {
        match self {
            HitType::Miss | HitType::Evade | HitType::SingleResist | HitType::DoubleResist
            | HitType::FullResist => false,
            _ => true,
        }
    }

    /// The wire value.
    pub fn as_u16(self) -> (r: u16)
        ensures
            r == hit_type_value(self),
    {
        match self {
            HitType::Miss => 0,
            HitType::Evade => 1,
            HitType::Parry => 2,
            HitType::Block => 3,
            HitType::SingleResist => 4,
            HitType::DoubleResist => 5,
            HitType::TripleResist => 6,
            HitType::FullResist => 7,
            HitType::Hit => 8,
            HitType::Crit => 9,
        }
    }
}

/// The broad kind of an action.
#[derive(Debug, Clone, Copy, PartialEq, Eq, Structural)]
pub enum ActionType {
    NoAction,
    Physical,
    Magic,
    Heal,
    Status,
}

impl Default for ActionType {
    fn default() -> (r: Self)
        ensures
            r == ActionType::NoAction,
    {
        ActionType::NoAction
    }
}

/// The action type with wire value `v`: 1 to 4 name a type, anything else
/// is no action.
pub open spec fn action_type_of(v: u16) -> ActionType {
    if v == 1 {
        ActionType::Physical
    } else if v == 2 {
        ActionType::Magic
    } else if v == 3 {
        ActionType::Heal
    } else if v == 4 {
        ActionType::Status
    } else {
        ActionType::NoAction
    }
}

/// The wire value of an action type.
pub open spec fn action_type_value(t: ActionType) -> u16 {
    match t {
        ActionType::NoAction => 0,
        ActionType::Physical => 1,
        ActionType::Magic => 2,
        ActionType::Heal => 3,
        ActionType::Status => 4,
    }
}

impl ActionType {
    /// The wire value (see [`action_type_value`]).
    pub fn as_u16(self) -> (r: u16)
        ensures
            r == action_type_value(self),
            action_type_of(r) == self,
    {
        match self {
            ActionType::NoAction => 0,
            ActionType::Physical => 1,
            ActionType::Magic => 2,
            ActionType::Heal => 3,
            ActionType::Status => 4,
        }
    }

    /// The action type for a wire value (see [`action_type_of`]).
    pub fn from_u16(v: u16) -> (r: Self)
        ensures
            r == action_type_of(v),
    {
        match v {
            1 => ActionType::Physical,
            2 => ActionType::Magic,
            3 => ActionType::Heal,
            4 => ActionType::Status,
            _ => ActionType::NoAction,
        }
    }
}

/// The damage element or kind of an action.
#[derive(Debug, Clone, Copy, PartialEq, Eq, Structural)]
pub enum ActionProperty {
    NoProperty,
    Slashing,
    Piercing,
    Blunt,
    Projectile,
    Fire,
    Ice,
    Wind,
    Earth,
    Lightning,
    Water,
    Astral,
    Umbral,
    Heal,
}

impl Default for ActionProperty {
    fn default() -> (r: Self)
        ensures
            r == ActionProperty::NoProperty,
    {
        ActionProperty::NoProperty
    }
}

/// The wire value of an action property (`NoProperty` 0 through `Heal` 13).
pub open spec fn action_property_value(p: ActionProperty) -> u16 {
    match p {
        ActionProperty::NoProperty => 0,
        ActionProperty::Slashing => 1,
        ActionProperty::Piercing => 2,
        ActionProperty::Blunt => 3,
        ActionProperty::Projectile => 4,
        ActionProperty::Fire => 5,
        ActionProperty::Ice => 6,
        ActionProperty::Wind => 7,
        ActionProperty::Earth => 8,
        ActionProperty::Lightning => 9,
        ActionProperty::Water => 10,
        ActionProperty::Astral => 11,
        ActionProperty::Umbral => 12,
        ActionProperty::Heal => 13,
    }
}

impl ActionProperty {
    /// The property whose wire value is `v`; values past 13 give no
    /// property.
    pub fn from_u16(v: u16) -> (r: Self)
        ensures
            v <= 13 ==> action_property_value(r) == v,
            v > 13 ==> r == ActionProperty::NoProperty,
    {
        match v {
            1 => ActionProperty::Slashing,
            2 => ActionProperty::Piercing,
            3 => ActionProperty::Blunt,
            4 => ActionProperty::Projectile,
            5 => ActionProperty::Fire,
            6 => ActionProperty::Ice,
            7 => ActionProperty::Wind,
            8 => ActionProperty::Earth,
            9 => ActionProperty::Lightning,
            10 => ActionProperty::Water,
            11 => ActionProperty::Astral,
            12 => ActionProperty::Umbral,
            13 => ActionProperty::Heal,
            _ => ActionProperty::NoProperty,
        }
    }
}

} // verus!
