//! Actors as the game rules read them: identity and names, the HP/MP/TP
//! pools, class and level, the stat table, and the traits a character can
//! meet. Positions, rotations and the floating-point modifier map stay with
//! the game loop.

use vstd::prelude::*;
use crate::actor::quest::QuestJournal;

verus! {

/// The actor id that means "no actor".
pub const INVALID_ACTORID: u32 = 0xC000_0000;

/// Main state: not fighting.
pub const MAIN_STATE_PASSIVE: u16 = 0x00;
/// Main state: fighting.
pub const MAIN_STATE_ACTIVE: u16 = 0x01;
/// Main state: dead.
pub const MAIN_STATE_DEAD: u16 = 0x02;

/// Length of the stat table, indexed by the wire stat ids.
pub const STAT_COUNT: usize = 36;

/// The most TP a character holds.
pub const MAX_TP: u16 = 3000;

/// A trait as a character holds it: its id and the class and level that
/// grant it.
#[derive(Debug, Clone, Copy, PartialEq, Eq, Structural)]
pub struct TraitRef {
    pub id: u16,
    pub job: u8,
    pub level: u8,
}

/// What every actor has: its id, names, state and zone.
#[derive(Debug, Clone)]
pub struct BaseActor {
    pub actor_id: u32,
    pub actor_name: String,
    pub display_name_id: u32,
    pub custom_display_name: String,
    pub current_main_state: u16,
    pub move_state: u16,
    pub old_move_state: u16,
    pub zone_id: u32,
    pub zone_id2: u32,
    pub private_area: String,
    pub private_area_type: u32,
    pub is_zoning: bool,
    pub spawned_first_time: bool,
    pub class_path: String,
    pub class_name: String,
    pub is_at_spawn: bool,
}

impl Default for BaseActor {
    /// Id 0, empty names and every number zero.
    fn default() -> (r: Self)
        ensures
            r.actor_id == 0,
            r.actor_name@.len() == 0,
            r.custom_display_name@.len() == 0,
            r.display_name_id == 0,
            r.current_main_state == 0,
            r.zone_id == 0,
            !r.is_at_spawn,
    {
        BaseActor {
            actor_id: 0,
            actor_name: String::new(),
            display_name_id: 0,
            custom_display_name: String::new(),
            current_main_state: 0,
            move_state: 0,
            old_move_state: 0,
            zone_id: 0,
            zone_id2: 0,
            private_area: String::new(),
            private_area_type: 0,
            is_zoning: false,
            spawned_first_time: false,
            class_path: String::new(),
            class_name: String::new(),
            is_at_spawn: false,
        }
    }
}

impl BaseActor {
    /// A fresh actor `actor_id`: no display-name id (`0xFFFFFFFF`),
    /// passive, at its spawn point, everything else at its default.
    pub fn new(actor_id: u32) -> (r: Self)
        ensures
            r.actor_id == actor_id,
            r.display_name_id == 0xFFFF_FFFF,
            r.current_main_state == MAIN_STATE_PASSIVE,
            r.is_at_spawn,
            r.actor_name@.len() == 0,
            r.custom_display_name@.len() == 0,
            r.zone_id == 0,
    {
        BaseActor {
            actor_id,
            display_name_id: 0xFFFF_FFFF,
            current_main_state: MAIN_STATE_PASSIVE,
            is_at_spawn: true,
            ..BaseActor::default()
        }
    }

    /// The custom display name when one is set, else the actor name.
    pub fn display_name(&self) -> (r: &str)
        ensures
            r@ == (if self.custom_display_name@.len() > 0 {
                self.custom_display_name@
            } else {
                self.actor_name@
            }),
    {
        if self.custom_display_name.as_str().unicode_len() > 0 {
            self.custom_display_name.as_str()
        } else {
            self.actor_name.as_str()
        }
    }
}

/// `x` limited to `lo..=hi`.
pub open spec fn clamp(x: int, lo: int, hi: int) -> int {
    if x < lo {
        lo
    } else if x > hi {
        hi
    } else {
        x
    }
}

/// Integer division rounding toward zero, as Rust's `/` does.
pub open spec fn div_toward_zero(a: int, b: int) -> int {
    let q = abs(a) / abs(b);
    if (a >= 0) == (b >= 0) {
        q
    } else {
        -q
    }
}

/// The absolute value of `x`.
pub open spec fn abs(x: int) -> int {
    if x < 0 {
        -x
    } else {
        x
    }
}

/// A pool's fill in percent: 0 for an empty maximum, else
/// `cur * 100 / max` (rounded toward zero) limited to `0..=100`.
pub open spec fn percent_of(cur: int, max: int) -> int {
    if max == 0 {
        0
    } else {
        clamp(div_toward_zero(cur * 100, max), 0, 100)
    }
}

/// Whether the HP, MP and TP pools lie within their bounds.
pub open spec fn pools_in_bounds(c: CharaState) -> bool {
    &&& 0 <= c.hp <= c.max_hp
    &&& 0 <= c.mp <= c.max_mp
    &&& c.tp <= MAX_TP
}

/// A character's combat and profile numbers.
#[derive(Debug, Clone)]
pub struct CharaState {
    pub is_static: bool,
    pub is_moving_to_spawn: bool,
    pub is_auto_attack_enabled: bool,
    pub model_id: u32,
    /// Appearance and equipment ids as the client's appearance packet
    /// lists them.
    pub appearance_ids: [u32; 28],
    pub actor_class_id: u32,
    pub property_flags: u32,
    pub tribe: u8,
    pub guardian: u8,
    pub birthday_day: u8,
    pub birthday_month: u8,
    pub initial_town: u8,
    pub rest_bonus_exp_rate: i32,
    pub login_director_actor_id: u32,
    pub animation_id: u32,
    pub current_target: u32,
    pub current_locked_target: u32,
    pub current_actor_icon: u32,
    pub current_job: u16,
    pub new_main_state: u16,
    pub hp: i16,
    pub max_hp: i16,
    pub mp: i16,
    pub max_mp: i16,
    pub tp: u16,
    pub class: i16,
    pub level: i16,
    pub extra_int: i32,
    pub extra_uint: u32,
    /// Indexed by the wire stat ids.
    pub stats: [i16; 36],
}

impl Default for CharaState {
    /// Every flag false and every number zero.
    fn default() -> (r: Self)
        ensures
            !r.is_auto_attack_enabled,
            r.hp == 0 && r.max_hp == 0 && r.mp == 0 && r.max_mp == 0 && r.tp == 0,
            r.class == 0 && r.level == 0 && r.current_job == 0,
            r.current_target == 0,
            r.appearance_ids@ == Seq::new(28, |i: int| 0u32),
            r.stats@ == Seq::new(36, |i: int| 0i16),
    {
        let appearance_ids = [0u32; 28];
        let stats = [0i16; 36];
        assert(appearance_ids@ =~= Seq::new(28, |i: int| 0u32));
        assert(stats@ =~= Seq::new(36, |i: int| 0i16));
        CharaState {
            is_static: false,
            is_moving_to_spawn: false,
            is_auto_attack_enabled: false,
            model_id: 0,
            appearance_ids,
            actor_class_id: 0,
            property_flags: 0,
            tribe: 0,
            guardian: 0,
            birthday_day: 0,
            birthday_month: 0,
            initial_town: 0,
            rest_bonus_exp_rate: 0,
            login_director_actor_id: 0,
            animation_id: 0,
            current_target: 0,
            current_locked_target: 0,
            current_actor_icon: 0,
            current_job: 0,
            new_main_state: 0,
            hp: 0,
            max_hp: 0,
            mp: 0,
            max_mp: 0,
            tp: 0,
            class: 0,
            level: 0,
            extra_int: 0,
            extra_uint: 0,
            stats,
        }
    }
}

/// `cur * 100 / max` limited to `0..=100`, 0 for an empty maximum.
fn percent(cur: i16, max: i16) -> (r: u8)
    ensures
        r as int == percent_of(cur as int, max as int),
        r <= 100,
{
    if max == 0 {
        return 0;
    }
    let n: i32 = cur as i32 * 100;
    let d: i32 = max as i32;
    if (n >= 0) != (d >= 0) {
        // A quotient of mixed signs is at most 0.
        return 0;
    }
    let an: u32 = if n < 0 { (-n) as u32 } else { n as u32 };
    let ad: u32 = if d < 0 { (-d) as u32 } else { d as u32 };
    let q: u32 = an / ad;
    if q > 100 {
        100
    } else {
        q as u8
    }
}

impl CharaState {
    /// Out of HP.
    pub fn is_dead(&self) -> (r: bool)
        ensures
            r == (self.hp <= 0),
    {
        self.hp <= 0
    }

    /// Some HP left.
    pub fn is_alive(&self) -> (r: bool)
        ensures
            r == (self.hp > 0),
    {
        self.hp > 0
    }

    /// HP in percent of the maximum, within `0..=100`.
    pub fn hpp(&self) -> (r: u8)
        ensures
            r as int == percent_of(self.hp as int, self.max_hp as int),
            r <= 100,
    {
        percent(self.hp, self.max_hp)
    }

    /// MP in percent of the maximum, within `0..=100`.
    pub fn mpp(&self) -> (r: u8)
        ensures
            r as int == percent_of(self.mp as int, self.max_mp as int),
            r <= 100,
    {
        percent(self.mp, self.max_mp)
    }

    /// TP in percent of [`MAX_TP`], counting TP above it as full.
    pub fn tpp(&self) -> (r: u8)
        ensures
            r as int == (if self.tp > MAX_TP { MAX_TP as int } else { self.tp as int }) * 100 / 3000,
            r <= 100,
    {
        let t: u32 = if (self.tp as u32) < 3000 { self.tp as u32 } else { 3000 };
        (t * 100 / 3000) as u8
    }

    /// The same state with `stats` as its stat table.
    pub fn with_stats(self, stats: [i16; 36]) -> (r: Self)
        ensures
            r == (CharaState { stats, ..self }),
    {
        let mut s = self;
        s.stats = stats;
        s
    }
}

/// A character: an actor with combat numbers and a quest journal.
#[derive(Debug, Clone)]
pub struct Character {
    pub base: BaseActor,
    pub chara: CharaState,
    pub quest_journal: QuestJournal,
}

impl Character {
    /// A fresh character `actor_id`, auto-attack on, pools empty, journal
    /// empty.
    pub fn new(actor_id: u32) -> (r: Self)
        ensures
            r.base.actor_id == actor_id,
            r.base.display_name_id == 0xFFFF_FFFF,
            r.base.current_main_state == MAIN_STATE_PASSIVE,
            r.base.is_at_spawn,
            r.chara.is_auto_attack_enabled,
            r.chara.hp == 0 && r.chara.max_hp == 0 && r.chara.mp == 0 && r.chara.max_mp == 0,
            r.chara.tp == 0,
            r.chara.class == 0 && r.chara.level == 0 && r.chara.current_job == 0,
            forall|i: int| 0 <= i < 16 ==> #[trigger] r.quest_journal.slots@[i] is None,
            r.quest_journal.completed@ == Seq::new(256, |i: int| 0u8),
    {
        Character {
            base: BaseActor::new(actor_id),
            chara: CharaState { is_auto_attack_enabled: true, ..CharaState::default() },
            quest_journal: QuestJournal::new(),
        }
    }

    /// Out of HP.
    pub fn is_dead(&self) -> (r: bool)
        ensures
            r == (self.chara.hp <= 0),
    {
        self.chara.is_dead()
    }

    /// Some HP left.
    pub fn is_alive(&self) -> (r: bool)
        ensures
            r == (self.chara.hp > 0),
    {
        self.chara.is_alive()
    }

    /// Sets HP to `hp` limited to `0..=max_hp`.
    pub fn set_hp(&mut self, hp: i32)
        requires
            old(self).chara.max_hp >= 0,
        ensures
            final(self).chara.hp as int == clamp(hp as int, 0, old(self).chara.max_hp as int),
            final(self).chara == (CharaState { hp: final(self).chara.hp, ..old(self).chara }),
            final(self).base == old(self).base,
            final(self).quest_journal == old(self).quest_journal,
    {
        let max: i32 = self.chara.max_hp as i32;
        let v: i32 = if hp < 0 {
            0
        } else if hp > max {
            max
        } else {
            hp
        };
        self.chara.hp = v as i16;
    }

    /// Sets the HP maximum to `max_hp` (negative counts as 0, kept to its
    /// low 16 bits) and lowers HP to it if above.
    pub fn set_max_hp(&mut self, max_hp: i32)
        ensures
            final(self).chara.max_hp == (if max_hp < 0 { 0 } else { max_hp }) as i16,
            final(self).chara.hp == (if old(self).chara.hp > final(self).chara.max_hp {
                final(self).chara.max_hp
            } else {
                old(self).chara.hp
            }),
            final(self).chara == (CharaState {
                hp: final(self).chara.hp,
                max_hp: final(self).chara.max_hp,
                ..old(self).chara
            }),
            final(self).base == old(self).base,
            final(self).quest_journal == old(self).quest_journal,
    {
        let clipped: i32 = if max_hp < 0 { 0 } else { max_hp };
        let m: i16 = clipped as i16;
        self.chara.max_hp = m;
        if self.chara.hp > m {
            self.chara.hp = m;
        }
    }

    /// Sets MP to `mp` limited to `0..=max_mp`.
    pub fn set_mp(&mut self, mp: i32)
        requires
            old(self).chara.max_mp >= 0,
        ensures
            final(self).chara.mp as int == clamp(mp as int, 0, old(self).chara.max_mp as int),
            final(self).chara == (CharaState { mp: final(self).chara.mp, ..old(self).chara }),
            final(self).base == old(self).base,
            final(self).quest_journal == old(self).quest_journal,
    {
        let max: i32 = self.chara.max_mp as i32;
        let v: i32 = if mp < 0 {
            0
        } else if mp > max {
            max
        } else {
            mp
        };
        self.chara.mp = v as i16;
    }

    /// Sets the MP maximum to `max_mp` (negative counts as 0, kept to its
    /// low 16 bits) and lowers MP to it if above.
    pub fn set_max_mp(&mut self, max_mp: i32)
        ensures
            final(self).chara.max_mp == (if max_mp < 0 { 0 } else { max_mp }) as i16,
            final(self).chara.mp == (if old(self).chara.mp > final(self).chara.max_mp {
                final(self).chara.max_mp
            } else {
                old(self).chara.mp
            }),
            final(self).chara == (CharaState {
                mp: final(self).chara.mp,
                max_mp: final(self).chara.max_mp,
                ..old(self).chara
            }),
            final(self).base == old(self).base,
            final(self).quest_journal == old(self).quest_journal,
    {
        let clipped: i32 = if max_mp < 0 { 0 } else { max_mp };
        let m: i16 = clipped as i16;
        self.chara.max_mp = m;
        if self.chara.mp > m {
            self.chara.mp = m;
        }
    }

    /// Adds `delta` to HP, limited to `0..=max_hp`.
    pub fn add_hp(&mut self, delta: i32)
        requires
            old(self).chara.max_hp >= 0,
            i32::MIN <= old(self).chara.hp + delta <= i32::MAX,
        ensures
            final(self).chara.hp as int == clamp(
                old(self).chara.hp + delta,
                0,
                old(self).chara.max_hp as int,
            ),
            final(self).chara == (CharaState { hp: final(self).chara.hp, ..old(self).chara }),
            final(self).base == old(self).base,
            final(self).quest_journal == old(self).quest_journal,
    {
        let v: i32 = self.chara.hp as i32 + delta;
        self.set_hp(v);
    }

    /// Adds `delta` to MP, limited to `0..=max_mp`.
    pub fn add_mp(&mut self, delta: i32)
        requires
            old(self).chara.max_mp >= 0,
            i32::MIN <= old(self).chara.mp + delta <= i32::MAX,
        ensures
            final(self).chara.mp as int == clamp(
                old(self).chara.mp + delta,
                0,
                old(self).chara.max_mp as int,
            ),
            final(self).chara == (CharaState { mp: final(self).chara.mp, ..old(self).chara }),
            final(self).base == old(self).base,
            final(self).quest_journal == old(self).quest_journal,
    {
        let v: i32 = self.chara.mp as i32 + delta;
        self.set_mp(v);
    }

    /// Adds `delta` to TP, limited to `0..=MAX_TP`.
    pub fn add_tp(&mut self, delta: i32)
        requires
            old(self).chara.tp + delta <= i32::MAX,
        ensures
            final(self).chara.tp as int == clamp(old(self).chara.tp + delta, 0, MAX_TP as int),
            final(self).chara == (CharaState { tp: final(self).chara.tp, ..old(self).chara }),
            final(self).base == old(self).base,
            final(self).quest_journal == old(self).quest_journal,
    {
        let sum: i32 = self.chara.tp as i32 + delta;
        let v: i32 = if sum < 0 {
            0
        } else if sum > 3000 {
            3000
        } else {
            sum
        };
        self.chara.tp = v as u16;
    }

    /// Takes `amount` from HP, limited to `0..=max_hp`.
    pub fn del_hp(&mut self, amount: i32)
        requires
            old(self).chara.max_hp >= 0,
            amount > i32::MIN,
            i32::MIN <= old(self).chara.hp - amount <= i32::MAX,
        ensures
            final(self).chara.hp as int == clamp(
                old(self).chara.hp - amount,
                0,
                old(self).chara.max_hp as int,
            ),
            final(self).chara == (CharaState { hp: final(self).chara.hp, ..old(self).chara }),
            final(self).base == old(self).base,
            final(self).quest_journal == old(self).quest_journal,
    {
        self.add_hp(-amount);
    }

    /// Takes `amount` from MP, limited to `0..=max_mp`.
    pub fn del_mp(&mut self, amount: i32)
        requires
            old(self).chara.max_mp >= 0,
            amount > i32::MIN,
            i32::MIN <= old(self).chara.mp - amount <= i32::MAX,
        ensures
            final(self).chara.mp as int == clamp(
                old(self).chara.mp - amount,
                0,
                old(self).chara.max_mp as int,
            ),
            final(self).chara == (CharaState { mp: final(self).chara.mp, ..old(self).chara }),
            final(self).base == old(self).base,
            final(self).quest_journal == old(self).quest_journal,
    {
        self.add_mp(-amount);
    }

    /// Takes `amount` from TP, limited to `0..=MAX_TP`.
    pub fn del_tp(&mut self, amount: i32)
        requires
            amount > i32::MIN,
            old(self).chara.tp - amount <= i32::MAX,
        ensures
            final(self).chara.tp as int == clamp(old(self).chara.tp - amount, 0, MAX_TP as int),
            final(self).chara == (CharaState { tp: final(self).chara.tp, ..old(self).chara }),
            final(self).base == old(self).base,
            final(self).quest_journal == old(self).quest_journal,
    {
        self.add_tp(-amount);
    }

    /// The stat `stat_id`, or 0 past the end of the table.
    pub fn get_stat(&self, stat_id: u32) -> (r: i16)
        ensures
            r == (if stat_id < STAT_COUNT { self.chara.stats@[stat_id as int] } else { 0 }),
    {
        if (stat_id as usize) < 36 {
            self.chara.stats[stat_id as usize]
        } else {
            0
        }
    }

    /// Sets the stat `stat_id` to `value` limited to the `i16` range; an id
    /// past the end of the table changes nothing.
    pub fn set_stat(&mut self, stat_id: u32, value: i32)
        ensures
            stat_id < STAT_COUNT ==> final(self).chara.stats@ == old(self).chara.stats@.update(
                stat_id as int,
                clamp(value as int, i16::MIN as int, i16::MAX as int) as i16,
            ),
            stat_id >= STAT_COUNT ==> final(self).chara.stats == old(self).chara.stats,
            final(self).chara == (CharaState { stats: final(self).chara.stats, ..old(self).chara }),
            final(self).base == old(self).base,
            final(self).quest_journal == old(self).quest_journal,
    {
        if (stat_id as usize) < 36 {
            let v: i32 = if value < -32768 {
                -32768
            } else if value > 32767 {
                32767
            } else {
                value
            };
            self.chara.stats[stat_id as usize] = v as i16;
        }
    }

    /// The class id.
    pub fn get_class(&self) -> (r: i16)
        ensures
            r == self.chara.class,
    {
        self.chara.class
    }

    /// The level.
    pub fn get_level(&self) -> (r: i16)
        ensures
            r == self.chara.level,
    {
        self.chara.level
    }

    /// A Disciple of War: class (its low byte) within `2..=8`.
    pub fn is_disciple_of_war(&self) -> (r: bool)
        ensures
            r == (2 <= (self.chara.class as u8) <= 8),
    {
        let c: u8 = self.chara.class as u8;
        2 <= c && c <= 8
    }

    /// A Disciple of Magic: class (its low byte) within `22..=23`.
    pub fn is_disciple_of_magic(&self) -> (r: bool)
        ensures
            r == (22 <= (self.chara.class as u8) <= 23),
    {
        let c: u8 = self.chara.class as u8;
        22 <= c && c <= 23
    }

    /// A Disciple of the Hand: class (its low byte) within `29..=36`.
    pub fn is_disciple_of_hand(&self) -> (r: bool)
        ensures
            r == (29 <= (self.chara.class as u8) <= 36),
    {
        let c: u8 = self.chara.class as u8;
        29 <= c && c <= 36
    }

    /// A Disciple of the Land: class (its low byte) within `39..=41`.
    pub fn is_disciple_of_land(&self) -> (r: bool)
        ensures
            r == (39 <= (self.chara.class as u8) <= 41),
    {
        let c: u8 = self.chara.class as u8;
        39 <= c && c <= 41
    }

    /// Whether a target is set.
    pub fn is_engaged(&self) -> (r: bool)
        ensures
            r == (self.chara.current_target != INVALID_ACTORID),
    {
        self.chara.current_target != INVALID_ACTORID
    }

    /// Whether the character's class (its low byte) is the trait's and its
    /// level reaches the trait's.
    pub fn meets_trait(&self, trait_ref: TraitRef) -> (r: bool)
        ensures
            r == ((self.chara.class as u8) == trait_ref.job && trait_ref.level as i16
                <= self.chara.level),
    {
        self.chara.class as u8 == trait_ref.job && trait_ref.level as i16 <= self.chara.level
    }
}

/// Every pool operation keeps the pools within their bounds: from a state
/// whose pools are in bounds, setting, adding to or taking from HP, MP or
/// TP, or lowering a maximum, leaves them in bounds.
pub proof fn lemma_pools_stay_in_bounds(before: CharaState, after: CharaState)
    requires
        pools_in_bounds(before),
        ({
            ||| exists|v: int|
                after == (CharaState { hp: clamp(v, 0, before.max_hp as int) as i16, ..before })
            ||| exists|v: int|
                after == (CharaState { mp: clamp(v, 0, before.max_mp as int) as i16, ..before })
            ||| exists|v: int|
                after == (CharaState { tp: clamp(v, 0, MAX_TP as int) as u16, ..before })
        }),
    ensures
        pools_in_bounds(after),
{
}

} // verus!
