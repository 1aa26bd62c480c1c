//! Stat modifiers, identified on the wire and in scripts by a number.

use vstd::prelude::*;

verus! {

/// Every modifier a client or script can name; [`Modifier::as_u32`] gives
/// its wire id.
#[derive(Debug, Clone, Copy, PartialEq, Eq, Hash, Structural)]
pub enum Modifier {
    // Health
    Hp,
    Mp,
    Tp,

    // Main stats
    Strength,
    Vitality,
    Dexterity,
    Intelligence,
    Mind,
    Piety,

    // Elemental resistances
    FireResistance,
    IceResistance,
    WindResistance,
    EarthResistance,
    LightningResistance,
    WaterResistance,

    // Physical secondary
    Accuracy,
    Evasion,
    Attack,
    Defense,

    // Physical crit
    CriticalHitRating,
    CriticalHitEvasion,
    CriticalHitAttackPower,
    CriticalHitResilience,

    // Magic secondary
    AttackMagicPotency,
    HealingMagicPotency,
    EnhancementMagicPotency,
    EnfeeblingMagicPotency,
    MagicAccuracy,
    MagicEvasion,

    // Crafting
    Craftsmanship,
    MagicCraftsmanship,
    Control,
    Gathering,
    Output,
    Perception,

    // Magic crit
    MagicCriticalHitRating,
    MagicCriticalHitEvasion,
    MagicCriticalHitPotency,
    MagicCriticalHitResilience,

    // Block / parry
    Parry,
    BlockRate,
    Block,

    // Elemental potencies
    FireMagicPotency,
    IceMagicPotency,
    WindMagicPotency,
    EarthMagicPotency,
    LightningMagicPotency,
    WaterMagicPotency,

    // Misc
    Regen,
    Refresh,
    StoreTp,
    Enmity,
    Spikes,
    Haste,
    ReducedDurabilityLoss,
    IncreasedSpiritbondGain,
    Damage,
    Delay,
    Fastcast,
    MovementSpeed,
    Exp,
    RestingHp,
    RestingMp,

    // Attack property resistances
    SlashingResistance,
    PiercingResistance,
    BluntResistance,
    ProjectileResistance,
    SonicResistance,
    BreathResistance,
    PhysicalResistance,
    MagicResistance,

    // Status resistances
    SlowResistance,
    PetrificationResistance,
    ParalysisResistance,
    SilenceResistance,
    BlindResistance,
    PoisonResistance,
    StunResistance,
    SleepResistance,
    BindResistance,
    HeavyResistance,
    DoomResistance,

    // More misc
    ConserveMp,
    SpellInterruptResistance,
    DoubleDownOdds,
    HqDiscoveryRate,

    // Non-gear
    NoModifier,
    NameplateShown,
    Targetable,
    NameplateShown2,

    HpPercent,
    MpPercent,
    TpPercent,

    AttackRange,

    Raise,
    MinimumHpLock,
    MinimumMpLock,
    MinimumTpLock,
    AttackType,
    CanBlock,
    HitCount,

    RawEvadeRate,
    RawParryRate,
    RawBlockRate,
    RawResistRate,
    RawHitRate,
    RawCritRate,

    DamageTakenDown,
    Regain,
    RegenDown,
    Stoneskin,
    KnockbackImmune,
    Stealth,
}

/// The wire id of a modifier.
pub open spec fn modifier_id(m: Modifier) -> u32 {
    match m {
        Modifier::Hp => 0,
        Modifier::Mp => 1,
        Modifier::Tp => 2,
        Modifier::Strength => 3,
        Modifier::Vitality => 4,
        Modifier::Dexterity => 5,
        Modifier::Intelligence => 6,
        Modifier::Mind => 7,
        Modifier::Piety => 8,
        Modifier::FireResistance => 9,
        Modifier::IceResistance => 10,
        Modifier::WindResistance => 11,
        Modifier::EarthResistance => 12,
        Modifier::LightningResistance => 13,
        Modifier::WaterResistance => 14,
        Modifier::Accuracy => 15,
        Modifier::Evasion => 16,
        Modifier::Attack => 17,
        Modifier::Defense => 18,
        Modifier::CriticalHitRating => 19,
        Modifier::CriticalHitEvasion => 20,
        Modifier::CriticalHitAttackPower => 21,
        Modifier::CriticalHitResilience => 22,
        Modifier::AttackMagicPotency => 23,
        Modifier::HealingMagicPotency => 24,
        Modifier::EnhancementMagicPotency => 25,
        Modifier::EnfeeblingMagicPotency => 26,
        Modifier::MagicAccuracy => 27,
        Modifier::MagicEvasion => 28,
        Modifier::Craftsmanship => 29,
        Modifier::MagicCraftsmanship => 30,
        Modifier::Control => 31,
        Modifier::Gathering => 32,
        Modifier::Output => 33,
        Modifier::Perception => 34,
        Modifier::MagicCriticalHitRating => 35,
        Modifier::MagicCriticalHitEvasion => 36,
        Modifier::MagicCriticalHitPotency => 37,
        Modifier::MagicCriticalHitResilience => 38,
        Modifier::Parry => 39,
        Modifier::BlockRate => 40,
        Modifier::Block => 41,
        Modifier::FireMagicPotency => 42,
        Modifier::IceMagicPotency => 43,
        Modifier::WindMagicPotency => 44,
        Modifier::EarthMagicPotency => 45,
        Modifier::LightningMagicPotency => 46,
        Modifier::WaterMagicPotency => 47,
        Modifier::Regen => 48,
        Modifier::Refresh => 49,
        Modifier::StoreTp => 50,
        Modifier::Enmity => 51,
        Modifier::Spikes => 52,
        Modifier::Haste => 53,
        Modifier::ReducedDurabilityLoss => 56,
        Modifier::IncreasedSpiritbondGain => 57,
        Modifier::Damage => 58,
        Modifier::Delay => 59,
        Modifier::Fastcast => 60,
        Modifier::MovementSpeed => 61,
        Modifier::Exp => 62,
        Modifier::RestingHp => 63,
        Modifier::RestingMp => 64,
        Modifier::SlashingResistance => 65,
        Modifier::PiercingResistance => 66,
        Modifier::BluntResistance => 67,
        Modifier::ProjectileResistance => 68,
        Modifier::SonicResistance => 69,
        Modifier::BreathResistance => 70,
        Modifier::PhysicalResistance => 71,
        Modifier::MagicResistance => 72,
        Modifier::SlowResistance => 73,
        Modifier::PetrificationResistance => 74,
        Modifier::ParalysisResistance => 75,
        Modifier::SilenceResistance => 76,
        Modifier::BlindResistance => 77,
        Modifier::PoisonResistance => 78,
        Modifier::StunResistance => 79,
        Modifier::SleepResistance => 80,
        Modifier::BindResistance => 81,
        Modifier::HeavyResistance => 82,
        Modifier::DoomResistance => 83,
        Modifier::ConserveMp => 101,
        Modifier::SpellInterruptResistance => 102,
        Modifier::DoubleDownOdds => 103,
        Modifier::HqDiscoveryRate => 104,
        Modifier::NoModifier => 105,
        Modifier::NameplateShown => 106,
        Modifier::Targetable => 107,
        Modifier::NameplateShown2 => 108,
        Modifier::HpPercent => 109,
        Modifier::MpPercent => 110,
        Modifier::TpPercent => 111,
        Modifier::AttackRange => 112,
        Modifier::Raise => 113,
        Modifier::MinimumHpLock => 114,
        Modifier::MinimumMpLock => 115,
        Modifier::MinimumTpLock => 116,
        Modifier::AttackType => 117,
        Modifier::CanBlock => 118,
        Modifier::HitCount => 119,
        Modifier::RawEvadeRate => 120,
        Modifier::RawParryRate => 121,
        Modifier::RawBlockRate => 122,
        Modifier::RawResistRate => 123,
        Modifier::RawHitRate => 124,
        Modifier::RawCritRate => 125,
        Modifier::DamageTakenDown => 126,
        Modifier::Regain => 127,
        Modifier::RegenDown => 128,
        Modifier::Stoneskin => 129,
        Modifier::KnockbackImmune => 130,
        Modifier::Stealth => 131,
    }
}

impl Modifier {
    /// The modifier with wire id `value`; `None` for an unused id.
    pub fn from_u32(value: u32) -> (r: Option<Self>)
        ensures
            match r {
                Some(m) => modifier_id(m) == value,
                None => forall|m: Modifier| modifier_id(m) != value,
            },
    {
        match value {
            0 => Some(Modifier::Hp),
            1 => Some(Modifier::Mp),
            2 => Some(Modifier::Tp),
            3 => Some(Modifier::Strength),
            4 => Some(Modifier::Vitality),
            5 => Some(Modifier::Dexterity),
            6 => Some(Modifier::Intelligence),
            7 => Some(Modifier::Mind),
            8 => Some(Modifier::Piety),
            9 => Some(Modifier::FireResistance),
            10 => Some(Modifier::IceResistance),
            11 => Some(Modifier::WindResistance),
            12 => Some(Modifier::EarthResistance),
            13 => Some(Modifier::LightningResistance),
            14 => Some(Modifier::WaterResistance),
            15 => Some(Modifier::Accuracy),
            16 => Some(Modifier::Evasion),
            17 => Some(Modifier::Attack),
            18 => Some(Modifier::Defense),
            19 => Some(Modifier::CriticalHitRating),
            20 => Some(Modifier::CriticalHitEvasion),
            21 => Some(Modifier::CriticalHitAttackPower),
            22 => Some(Modifier::CriticalHitResilience),
            23 => Some(Modifier::AttackMagicPotency),
            24 => Some(Modifier::HealingMagicPotency),
            25 => Some(Modifier::EnhancementMagicPotency),
            26 => Some(Modifier::EnfeeblingMagicPotency),
            27 => Some(Modifier::MagicAccuracy),
            28 => Some(Modifier::MagicEvasion),
            29 => Some(Modifier::Craftsmanship),
            30 => Some(Modifier::MagicCraftsmanship),
            31 => Some(Modifier::Control),
            32 => Some(Modifier::Gathering),
            33 => Some(Modifier::Output),
            34 => Some(Modifier::Perception),
            35 => Some(Modifier::MagicCriticalHitRating),
            36 => Some(Modifier::MagicCriticalHitEvasion),
            37 => Some(Modifier::MagicCriticalHitPotency),
            38 => Some(Modifier::MagicCriticalHitResilience),
            39 => Some(Modifier::Parry),
            40 => Some(Modifier::BlockRate),
            41 => Some(Modifier::Block),
            42 => Some(Modifier::FireMagicPotency),
            43 => Some(Modifier::IceMagicPotency),
            44 => Some(Modifier::WindMagicPotency),
            45 => Some(Modifier::EarthMagicPotency),
            46 => Some(Modifier::LightningMagicPotency),
            47 => Some(Modifier::WaterMagicPotency),
            48 => Some(Modifier::Regen),
            49 => Some(Modifier::Refresh),
            50 => Some(Modifier::StoreTp),
            51 => Some(Modifier::Enmity),
            52 => Some(Modifier::Spikes),
            53 => Some(Modifier::Haste),
            56 => Some(Modifier::ReducedDurabilityLoss),
            57 => Some(Modifier::IncreasedSpiritbondGain),
            58 => Some(Modifier::Damage),
            59 => Some(Modifier::Delay),
            60 => Some(Modifier::Fastcast),
            61 => Some(Modifier::MovementSpeed),
            62 => Some(Modifier::Exp),
            63 => Some(Modifier::RestingHp),
            64 => Some(Modifier::RestingMp),
            65 => Some(Modifier::SlashingResistance),
            66 => Some(Modifier::PiercingResistance),
            67 => Some(Modifier::BluntResistance),
            68 => Some(Modifier::ProjectileResistance),
            69 => Some(Modifier::SonicResistance),
            70 => Some(Modifier::BreathResistance),
            71 => Some(Modifier::PhysicalResistance),
            72 => Some(Modifier::MagicResistance),
            73 => Some(Modifier::SlowResistance),
            74 => Some(Modifier::PetrificationResistance),
            75 => Some(Modifier::ParalysisResistance),
            76 => Some(Modifier::SilenceResistance),
            77 => Some(Modifier::BlindResistance),
            78 => Some(Modifier::PoisonResistance),
            79 => Some(Modifier::StunResistance),
            80 => Some(Modifier::SleepResistance),
            81 => Some(Modifier::BindResistance),
            82 => Some(Modifier::HeavyResistance),
            83 => Some(Modifier::DoomResistance),
            101 => Some(Modifier::ConserveMp),
            102 => Some(Modifier::SpellInterruptResistance),
            103 => Some(Modifier::DoubleDownOdds),
            104 => Some(Modifier::HqDiscoveryRate),
            105 => Some(Modifier::NoModifier),
            106 => Some(Modifier::NameplateShown),
            107 => Some(Modifier::Targetable),
            108 => Some(Modifier::NameplateShown2),
            109 => Some(Modifier::HpPercent),
            110 => Some(Modifier::MpPercent),
            111 => Some(Modifier::TpPercent),
            112 => Some(Modifier::AttackRange),
            113 => Some(Modifier::Raise),
            114 => Some(Modifier::MinimumHpLock),
            115 => Some(Modifier::MinimumMpLock),
            116 => Some(Modifier::MinimumTpLock),
            117 => Some(Modifier::AttackType),
            118 => Some(Modifier::CanBlock),
            119 => Some(Modifier::HitCount),
            120 => Some(Modifier::RawEvadeRate),
            121 => Some(Modifier::RawParryRate),
            122 => Some(Modifier::RawBlockRate),
            123 => Some(Modifier::RawResistRate),
            124 => Some(Modifier::RawHitRate),
            125 => Some(Modifier::RawCritRate),
            126 => Some(Modifier::DamageTakenDown),
            127 => Some(Modifier::Regain),
            128 => Some(Modifier::RegenDown),
            129 => Some(Modifier::Stoneskin),
            130 => Some(Modifier::KnockbackImmune),
            131 => Some(Modifier::Stealth),
            _ => None,
        }
    }

    /// The wire id.
    pub fn as_u32(self) -> (r: u32)
        ensures
            r == modifier_id(self),
            r < 132,
    {
        match self {
            Modifier::Hp => 0,
            Modifier::Mp => 1,
            Modifier::Tp => 2,
            Modifier::Strength => 3,
            Modifier::Vitality => 4,
            Modifier::Dexterity => 5,
            Modifier::Intelligence => 6,
            Modifier::Mind => 7,
            Modifier::Piety => 8,
            Modifier::FireResistance => 9,
            Modifier::IceResistance => 10,
            Modifier::WindResistance => 11,
            Modifier::EarthResistance => 12,
            Modifier::LightningResistance => 13,
            Modifier::WaterResistance => 14,
            Modifier::Accuracy => 15,
            Modifier::Evasion => 16,
            Modifier::Attack => 17,
            Modifier::Defense => 18,
            Modifier::CriticalHitRating => 19,
            Modifier::CriticalHitEvasion => 20,
            Modifier::CriticalHitAttackPower => 21,
            Modifier::CriticalHitResilience => 22,
            Modifier::AttackMagicPotency => 23,
            Modifier::HealingMagicPotency => 24,
            Modifier::EnhancementMagicPotency => 25,
            Modifier::EnfeeblingMagicPotency => 26,
            Modifier::MagicAccuracy => 27,
            Modifier::MagicEvasion => 28,
            Modifier::Craftsmanship => 29,
            Modifier::MagicCraftsmanship => 30,
            Modifier::Control => 31,
            Modifier::Gathering => 32,
            Modifier::Output => 33,
            Modifier::Perception => 34,
            Modifier::MagicCriticalHitRating => 35,
            Modifier::MagicCriticalHitEvasion => 36,
            Modifier::MagicCriticalHitPotency => 37,
            Modifier::MagicCriticalHitResilience => 38,
            Modifier::Parry => 39,
            Modifier::BlockRate => 40,
            Modifier::Block => 41,
            Modifier::FireMagicPotency => 42,
            Modifier::IceMagicPotency => 43,
            Modifier::WindMagicPotency => 44,
            Modifier::EarthMagicPotency => 45,
            Modifier::LightningMagicPotency => 46,
            Modifier::WaterMagicPotency => 47,
            Modifier::Regen => 48,
            Modifier::Refresh => 49,
            Modifier::StoreTp => 50,
            Modifier::Enmity => 51,
            Modifier::Spikes => 52,
            Modifier::Haste => 53,
            Modifier::ReducedDurabilityLoss => 56,
            Modifier::IncreasedSpiritbondGain => 57,
            Modifier::Damage => 58,
            Modifier::Delay => 59,
            Modifier::Fastcast => 60,
            Modifier::MovementSpeed => 61,
            Modifier::Exp => 62,
            Modifier::RestingHp => 63,
            Modifier::RestingMp => 64,
            Modifier::SlashingResistance => 65,
            Modifier::PiercingResistance => 66,
            Modifier::BluntResistance => 67,
            Modifier::ProjectileResistance => 68,
            Modifier::SonicResistance => 69,
            Modifier::BreathResistance => 70,
            Modifier::PhysicalResistance => 71,
            Modifier::MagicResistance => 72,
            Modifier::SlowResistance => 73,
            Modifier::PetrificationResistance => 74,
            Modifier::ParalysisResistance => 75,
            Modifier::SilenceResistance => 76,
            Modifier::BlindResistance => 77,
            Modifier::PoisonResistance => 78,
            Modifier::StunResistance => 79,
            Modifier::SleepResistance => 80,
            Modifier::BindResistance => 81,
            Modifier::HeavyResistance => 82,
            Modifier::DoomResistance => 83,
            Modifier::ConserveMp => 101,
            Modifier::SpellInterruptResistance => 102,
            Modifier::DoubleDownOdds => 103,
            Modifier::HqDiscoveryRate => 104,
            Modifier::NoModifier => 105,
            Modifier::NameplateShown => 106,
            Modifier::Targetable => 107,
            Modifier::NameplateShown2 => 108,
            Modifier::HpPercent => 109,
            Modifier::MpPercent => 110,
            Modifier::TpPercent => 111,
            Modifier::AttackRange => 112,
            Modifier::Raise => 113,
            Modifier::MinimumHpLock => 114,
            Modifier::MinimumMpLock => 115,
            Modifier::MinimumTpLock => 116,
            Modifier::AttackType => 117,
            Modifier::CanBlock => 118,
            Modifier::HitCount => 119,
            Modifier::RawEvadeRate => 120,
            Modifier::RawParryRate => 121,
            Modifier::RawBlockRate => 122,
            Modifier::RawResistRate => 123,
            Modifier::RawHitRate => 124,
            Modifier::RawCritRate => 125,
            Modifier::DamageTakenDown => 126,
            Modifier::Regain => 127,
            Modifier::RegenDown => 128,
            Modifier::Stoneskin => 129,
            Modifier::KnockbackImmune => 130,
            Modifier::Stealth => 131,
        }
    }
}

/// Wire ids and modifiers correspond one to one: distinct modifiers have
/// distinct ids, all below 132.
pub proof fn lemma_modifier_id_injective(a: Modifier, b: Modifier)
    ensures
        modifier_id(a) < 132,
        modifier_id(a) == modifier_id(b) ==> a == b,
{
}

} // verus!
