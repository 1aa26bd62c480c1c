//! Player-side bookkeeping the game loop keeps beside the character:
//! directors, party and linkshell membership, achievements, titles and the
//! spawned retainer.

use std::collections::HashMap;
use std::collections::HashSet;
use vstd::prelude::*;
use crate::achievement::AchievementEvent;
use crate::achievement::AchievementOutbox;
use crate::achievement::COMPLETED_ACHIEVEMENTS_BITS;
use crate::actor::chara::Character;
use crate::actor::chara::TraitRef;
use crate::actor::quest::Quest;
use crate::bitstream::bits_after_write;
use crate::actor::quest::completed_in;
use crate::actor::quest::first_free_slot;
use crate::actor::quest::first_leve_slot;
use crate::actor::quest::first_slot_holding;
use crate::actor::quest::no_slot_holds;
use crate::actor::quest::quest_bit_of;
use crate::actor::quest::slot_named;
use crate::utils::unix_timestamp;
use crate::actor::quest::GuildleveJournal;
use crate::actor::quest::copy_class_set;
use crate::director::DirectorEvent;
use crate::director::DirectorOutbox;

verus! {

broadcast use vstd::std_specs::hash::group_hash_axioms;

/// Per-player helper state.
#[derive(Debug)]
pub struct PlayerHelperState {
    pub guildleve_journal: GuildleveJournal,
    pub unlocked_aetherytes: HashSet<u32>,
    pub traits: Vec<TraitRef>,
    pub equipment_by_slot: HashMap<u16, u32>,
    pub inventory_summary: HashMap<u32, i32>,
    pub in_trade: bool,
    pub trade_accepted: bool,
    pub in_party: bool,
    pub party_leader: bool,
    pub chocobo_rental_until: u64,
    pub owned_directors: Vec<u32>,
    pub login_init_director: Option<u32>,
    pub current_guildleve_director: Option<u32>,
    pub current_party_id: Option<u64>,
    pub current_party_members: Vec<u32>,
    pub current_party_is_leader: bool,
    pub current_content_group_id: Option<u64>,
    pub current_linkshell_ids: Vec<u64>,
    pub earned_achievements: HashSet<u32>,
    pub achievement_points: u32,
    pub latest_achievements: [u32; 5],
    pub current_title_id: u32,
    pub current_spawned_retainer_id: u32,
}

impl Default for PlayerHelperState {
    /// Nothing owned, joined, earned or spawned.
    fn default() -> (r: Self)
        ensures
            r.owned_directors@.len() == 0,
            r.current_linkshell_ids@.len() == 0,
            r.earned_achievements@ == Set::<u32>::empty(),
            r.achievement_points == 0,
            r.latest_achievements@ == Seq::new(5, |i: int| 0u32),
            r.current_title_id == 0,
            r.current_spawned_retainer_id == 0,
            r.current_guildleve_director is None,
            r.login_init_director is None,
            r.current_party_id is None,
            !r.in_party,
            !r.in_trade,
            r.unlocked_aetherytes@ == Set::<u32>::empty(),
            r.inventory_summary@ == Map::<u32, i32>::empty(),
            r.equipment_by_slot@ == Map::<u16, u32>::empty(),
            r.traits@.len() == 0,
            r.guildleve_journal.ids@ == Seq::new(8, |i: int| 0u16),
            r.chocobo_rental_until == 0,
    {
        let latest = [0u32; 5];
        assert(latest@ =~= Seq::new(5, |i: int| 0u32));
        PlayerHelperState {
            guildleve_journal: GuildleveJournal::new(),
            unlocked_aetherytes: HashSet::new(),
            traits: Vec::new(),
            equipment_by_slot: HashMap::new(),
            inventory_summary: HashMap::new(),
            in_trade: false,
            trade_accepted: false,
            in_party: false,
            party_leader: false,
            chocobo_rental_until: 0,
            owned_directors: Vec::new(),
            login_init_director: None,
            current_guildleve_director: None,
            current_party_id: None,
            current_party_members: Vec::new(),
            current_party_is_leader: false,
            current_content_group_id: None,
            current_linkshell_ids: Vec::new(),
            earned_achievements: HashSet::new(),
            achievement_points: 0,
            latest_achievements: latest,
            current_title_id: 0,
            current_spawned_retainer_id: 0,
        }
    }
}

impl Clone for PlayerHelperState {
    /// An independent copy.
    fn clone(&self) -> (r: Self)
        ensures
            r.unlocked_aetherytes@ == self.unlocked_aetherytes@,
            r.earned_achievements@ == self.earned_achievements@,
            r.owned_directors@ == self.owned_directors@,
            r.current_linkshell_ids@ == self.current_linkshell_ids@,
            r.achievement_points == self.achievement_points,
            r.latest_achievements == self.latest_achievements,
    {
        PlayerHelperState {
            guildleve_journal: self.guildleve_journal,
            unlocked_aetherytes: copy_class_set(&self.unlocked_aetherytes),
            traits: self.traits.clone(),
            equipment_by_slot: self.equipment_by_slot.clone(),
            inventory_summary: self.inventory_summary.clone(),
            in_trade: self.in_trade,
            trade_accepted: self.trade_accepted,
            in_party: self.in_party,
            party_leader: self.party_leader,
            chocobo_rental_until: self.chocobo_rental_until,
            owned_directors: self.owned_directors.clone(),
            login_init_director: self.login_init_director,
            current_guildleve_director: self.current_guildleve_director,
            current_party_id: self.current_party_id,
            current_party_members: self.current_party_members.clone(),
            current_party_is_leader: self.current_party_is_leader,
            current_content_group_id: self.current_content_group_id,
            current_linkshell_ids: self.current_linkshell_ids.clone(),
            earned_achievements: copy_class_set(&self.earned_achievements),
            achievement_points: self.achievement_points,
            latest_achievements: self.latest_achievements,
            current_title_id: self.current_title_id,
            current_spawned_retainer_id: self.current_spawned_retainer_id,
        }
    }
}

/// Whether `v` holds `x`.
pub(crate) fn vec_contains_u32(v: &Vec<u32>, x: u32) -> (r: bool)
    ensures
        r == v@.contains(x),
{
    let mut i: usize = 0;
    while i < v.len()
        invariant
            i <= v@.len(),
            forall|j: int| 0 <= j < i ==> v@[j] != x,
        decreases v@.len() - i,
    {
        if v[i] == x {
            return true;
        }
        i = i + 1;
    }
    false
}

/// Whether `v` holds `x`.
fn vec_contains_u64(v: &Vec<u64>, x: u64) -> (r: bool)
    ensures
        r == v@.contains(x),
{
    let mut i: usize = 0;
    while i < v.len()
        invariant
            i <= v@.len(),
            forall|j: int| 0 <= j < i ==> v@[j] != x,
        decreases v@.len() - i,
    {
        if v[i] == x {
            return true;
        }
        i = i + 1;
    }
    false
}

/// `v` without any `x`, order kept.
fn without_u32(v: &Vec<u32>, x: u32) -> (r: Vec<u32>)
    ensures
        r@ == v@.filter(|y: u32| y != x),
{
    let mut r: Vec<u32> = Vec::new();
    let mut i: usize = 0;
    while i < v.len()
        invariant
            i <= v@.len(),
            r@ == v@.take(i as int).filter(|y: u32| y != x),
        decreases v@.len() - i,
    {
        proof {
            reveal_with_fuel(Seq::filter, 1);
            assert(v@.take(i as int + 1).drop_last() =~= v@.take(i as int));
        }
        if v[i] != x {
            r.push(v[i]);
        }
        i = i + 1;
    }
    assert(v@.take(v@.len() as int) =~= v@);
    r
}

/// `v` without any `x`, order kept.
fn without_u64(v: &Vec<u64>, x: u64) -> (r: Vec<u64>)
    ensures
        r@ == v@.filter(|y: u64| y != x),
{
    let mut r: Vec<u64> = Vec::new();
    let mut i: usize = 0;
    while i < v.len()
        invariant
            i <= v@.len(),
            r@ == v@.take(i as int).filter(|y: u64| y != x),
        decreases v@.len() - i,
    {
        proof {
            reveal_with_fuel(Seq::filter, 1);
            assert(v@.take(i as int + 1).drop_last() =~= v@.take(i as int));
        }
        if v[i] != x {
            r.push(v[i]);
        }
        i = i + 1;
    }
    assert(v@.take(v@.len() as int) =~= v@);
    r
}

/// The latest-five list after `id` is earned: `id` first, the oldest
/// entry dropped.
pub open spec fn latest_after(latest: Seq<u32>, id: u32) -> Seq<u32> {
    seq![id, latest[0], latest[1], latest[2], latest[3]]
}

impl PlayerHelperState {
    /// Records membership of a director (once) and, for a guildleve
    /// director, makes it the current one; queues the member-added event.
    pub fn add_director(
        &mut self,
        director_actor_id: u32,
        is_guildleve: bool,
        outbox: &mut DirectorOutbox,
        player_actor_id: u32,
    )
        ensures
            *final(self) == (PlayerHelperState {
                owned_directors: final(self).owned_directors,
                current_guildleve_director: final(self).current_guildleve_director,
                ..*old(self)
            }),
            final(self).owned_directors@ == if old(self).owned_directors@.contains(
                director_actor_id,
            ) {
                old(self).owned_directors@
            } else {
                old(self).owned_directors@.push(director_actor_id)
            },
            final(self).current_guildleve_director == if is_guildleve {
                Some(director_actor_id)
            } else {
                old(self).current_guildleve_director
            },
            final(self).login_init_director == old(self).login_init_director,
            final(outbox).events@ == old(outbox).events@.push(
                DirectorEvent::MemberAdded {
                    director_id: director_actor_id,
                    actor_id: player_actor_id,
                    is_player: true,
                },
            ),
    {
        if !vec_contains_u32(&self.owned_directors, director_actor_id) {
            self.owned_directors.push(director_actor_id);
        }
        if is_guildleve {
            self.current_guildleve_director = Some(director_actor_id);
        }
        outbox.push(
            DirectorEvent::MemberAdded {
                director_id: director_actor_id,
                actor_id: player_actor_id,
                is_player: true,
            },
        );
    }

    /// Forgets a director (clearing it as current guildleve or login
    /// director) and queues the member-removed event.
    pub fn remove_director(
        &mut self,
        director_actor_id: u32,
        outbox: &mut DirectorOutbox,
        player_actor_id: u32,
    )
        ensures
            *final(self) == (PlayerHelperState {
                owned_directors: final(self).owned_directors,
                current_guildleve_director: final(self).current_guildleve_director,
                login_init_director: final(self).login_init_director,
                ..*old(self)
            }),
            final(self).owned_directors@ == old(self).owned_directors@.filter(
                |id: u32| id != director_actor_id,
            ),
            final(self).current_guildleve_director == if old(self).current_guildleve_director
                == Some(director_actor_id) {
                None
            } else {
                old(self).current_guildleve_director
            },
            final(self).login_init_director == if old(self).login_init_director == Some(
                director_actor_id,
            ) {
                None
            } else {
                old(self).login_init_director
            },
            final(outbox).events@ == old(outbox).events@.push(
                DirectorEvent::MemberRemoved {
                    director_id: director_actor_id,
                    actor_id: player_actor_id,
                    is_player: true,
                },
            ),
    {
        self.owned_directors = without_u32(&self.owned_directors, director_actor_id);
        if self.current_guildleve_director == Some(director_actor_id) {
            self.current_guildleve_director = None;
        }
        if self.login_init_director == Some(director_actor_id) {
            self.login_init_director = None;
        }
        outbox.push(
            DirectorEvent::MemberRemoved {
                director_id: director_actor_id,
                actor_id: player_actor_id,
                is_player: true,
            },
        );
    }

    /// The current guildleve director.
    pub fn guildleve_director(&self) -> (r: Option<u32>)
        ensures
            r == self.current_guildleve_director,
    {
        self.current_guildleve_director
    }

    /// Takes the party roster the world server sent.
    pub fn set_party(&mut self, party_id: u64, members: Vec<u32>, is_leader: bool)
        ensures
            *final(self) == (PlayerHelperState {
                current_party_id: Some(party_id),
                current_party_members: final(self).current_party_members,
                current_party_is_leader: is_leader,
                in_party: true,
                party_leader: is_leader,
                ..*old(self)
            }),
            final(self).current_party_id == Some(party_id),
            final(self).current_party_members@ == members@,
            final(self).current_party_is_leader == is_leader,
            final(self).in_party,
            final(self).party_leader == is_leader,
    {
        self.current_party_id = Some(party_id);
        self.current_party_members = members;
        self.current_party_is_leader = is_leader;
        self.in_party = true;
        self.party_leader = is_leader;
    }

    /// Leaves the party.
    pub fn clear_party(&mut self)
        ensures
            *final(self) == (PlayerHelperState {
                current_party_id: None,
                current_party_members: final(self).current_party_members,
                current_party_is_leader: false,
                in_party: false,
                party_leader: false,
                ..*old(self)
            }),
            final(self).current_party_id is None,
            final(self).current_party_members@.len() == 0,
            !final(self).current_party_is_leader,
            !final(self).in_party,
            !final(self).party_leader,
    {
        self.current_party_id = None;
        self.current_party_members.clear();
        self.current_party_is_leader = false;
        self.in_party = false;
        self.party_leader = false;
    }

    /// Enters or leaves a content group.
    pub fn set_content_group(&mut self, content_group_id: Option<u64>)
        ensures
            *final(self) == (PlayerHelperState { current_content_group_id: content_group_id, ..*old(self) }),
            final(self).current_content_group_id == content_group_id,
    {
        self.current_content_group_id = content_group_id;
    }

    /// Joins a linkshell (once).
    pub fn add_linkshell(&mut self, ls_id: u64)
        ensures
            *final(self) == (PlayerHelperState {
                current_linkshell_ids: final(self).current_linkshell_ids,
                ..*old(self)
            }),
            final(self).current_linkshell_ids@ == if old(self).current_linkshell_ids@.contains(
                ls_id,
            ) {
                old(self).current_linkshell_ids@
            } else {
                old(self).current_linkshell_ids@.push(ls_id)
            },
    {
        if !vec_contains_u64(&self.current_linkshell_ids, ls_id) {
            self.current_linkshell_ids.push(ls_id);
        }
    }

    /// Leaves a linkshell.
    pub fn remove_linkshell(&mut self, ls_id: u64)
        ensures
            *final(self) == (PlayerHelperState {
                current_linkshell_ids: final(self).current_linkshell_ids,
                ..*old(self)
            }),
            final(self).current_linkshell_ids@ == old(self).current_linkshell_ids@.filter(
                |id: u64| id != ls_id,
            ),
    {
        self.current_linkshell_ids = without_u64(&self.current_linkshell_ids, ls_id);
    }

    /// Whether the player is in linkshell `ls_id`.
    pub fn is_in_linkshell(&self, ls_id: u64) -> (r: bool)
        ensures
            r == self.current_linkshell_ids@.contains(ls_id),
    {
        vec_contains_u64(&self.current_linkshell_ids, ls_id)
    }

    /// Earns `achievement_id` once: adds the (saturating) points, puts the
    /// id first among the latest five, and queues the earned, points and
    /// latest events. Earning an id already held changes nothing and
    /// returns `false`.
    pub fn earn_achievement(
        &mut self,
        player_actor_id: u32,
        achievement_id: u32,
        points: u32,
        outbox: &mut AchievementOutbox,
    ) -> (r: bool)
        ensures
            *final(self) == (PlayerHelperState {
                earned_achievements: final(self).earned_achievements,
                achievement_points: final(self).achievement_points,
                latest_achievements: final(self).latest_achievements,
                ..*old(self)
            }),
            r == !old(self).earned_achievements@.contains(achievement_id),
            !r ==> final(self).earned_achievements@ == old(self).earned_achievements@
                && final(self).achievement_points == old(self).achievement_points
                && final(self).latest_achievements == old(self).latest_achievements
                && final(outbox).events@ == old(outbox).events@,
            r ==> final(self).earned_achievements@ == old(self).earned_achievements@.insert(
                achievement_id,
            ),
            r ==> final(self).achievement_points == (if old(self).achievement_points + points
                > u32::MAX {
                u32::MAX
            } else {
                (old(self).achievement_points + points) as u32
            }),
            r ==> final(self).latest_achievements@ == latest_after(
                old(self).latest_achievements@,
                achievement_id,
            ),
            r ==> final(outbox).events@ == old(outbox).events@.push(
                AchievementEvent::Earned { player_actor_id, achievement_id },
            ).push(
                AchievementEvent::SetPoints {
                    player_actor_id,
                    points: final(self).achievement_points,
                },
            ).push(
                AchievementEvent::SetLatest {
                    player_actor_id,
                    latest_ids: final(self).latest_achievements,
                },
            ),
    {
        if !self.earned_achievements.insert(achievement_id) {
            return false;
        }
        self.achievement_points = self.achievement_points.saturating_add(points);
        let l = self.latest_achievements;
        self.latest_achievements = [achievement_id, l[0], l[1], l[2], l[3]];
        assert(self.latest_achievements@ =~= latest_after(l@, achievement_id));
        outbox.push(AchievementEvent::Earned { player_actor_id, achievement_id });
        outbox.push(AchievementEvent::SetPoints { player_actor_id, points: self.achievement_points });
        outbox.push(
            AchievementEvent::SetLatest { player_actor_id, latest_ids: self.latest_achievements },
        );
        true
    }

    /// Whether `id` has been earned.
    pub fn has_achievement(&self, id: u32) -> (r: bool)
        ensures
            r == self.earned_achievements@.contains(id),
    {
        self.earned_achievements.contains(&id)
    }

    /// One flag per achievement id below the wire cap: set when earned.
    pub fn completed_achievement_bits(&self) -> (r: Vec<bool>)
        ensures
            r@.len() == COMPLETED_ACHIEVEMENTS_BITS,
            forall|i: int|
                0 <= i < COMPLETED_ACHIEVEMENTS_BITS ==> #[trigger] r@[i]
                    == self.earned_achievements@.contains(i as u32),
    {
        let mut bits: Vec<bool> = Vec::new();
        let mut i: usize = 0;
        while i < COMPLETED_ACHIEVEMENTS_BITS
            invariant
                i <= COMPLETED_ACHIEVEMENTS_BITS,
                bits@.len() == i,
                forall|j: int| 0 <= j < i ==> #[trigger] bits@[j]
                    == self.earned_achievements@.contains(j as u32),
            decreases COMPLETED_ACHIEVEMENTS_BITS - i,
        {
            let id = i as u32;
            bits.push(self.earned_achievements.contains(&id));
            i = i + 1;
        }
        bits
    }

    /// Wears title `title_id` and queues the title event.
    pub fn set_title(&mut self, player_actor_id: u32, title_id: u32, outbox: &mut AchievementOutbox)
        ensures
            *final(self) == (PlayerHelperState { current_title_id: title_id, ..*old(self) }),
            final(self).current_title_id == title_id,
            final(outbox).events@ == old(outbox).events@.push(
                AchievementEvent::SetPlayerTitle { player_actor_id, title_id },
            ),
    {
        self.current_title_id = title_id;
        outbox.push(AchievementEvent::SetPlayerTitle { player_actor_id, title_id });
    }

    /// Records the spawned retainer.
    pub fn set_spawned_retainer(&mut self, actor_id: u32)
        ensures
            *final(self) == (PlayerHelperState { current_spawned_retainer_id: actor_id, ..*old(self) }),
            final(self).current_spawned_retainer_id == actor_id,
    {
        self.current_spawned_retainer_id = actor_id;
    }

    /// Forgets the spawned retainer.
    pub fn clear_spawned_retainer(&mut self)
        ensures
            *final(self) == (PlayerHelperState { current_spawned_retainer_id: 0, ..*old(self) }),
            final(self).current_spawned_retainer_id == 0,
    {
        self.current_spawned_retainer_id = 0;
    }

    /// Whether a retainer is spawned.
    pub fn has_spawned_retainer(&self) -> (r: bool)
        ensures
            r == (self.current_spawned_retainer_id != 0),
    {
        self.current_spawned_retainer_id != 0
    }
}

/// Earning an achievement twice is the same as earning it once: the second
/// earn finds it held.
pub proof fn lemma_earn_idempotent(earned: Set<u32>, id: u32)
    ensures
        earned.insert(id).contains(id),
        earned.insert(id).insert(id) == earned.insert(id),
{
    assert(earned.insert(id).insert(id) =~= earned.insert(id));
}

/// The per-player state saved with the character.
#[derive(Debug, Clone)]
pub struct PlayerState {
    pub current_event_owner: u32,
    pub current_event_name: String,
    pub current_event_type: u8,
    pub destination_zone: u32,
    pub destination_spawn_type: u16,
    pub current_title: u32,
    pub play_time: u32,
    pub last_play_time_update: u32,
    pub is_gm: bool,
    pub is_zone_changing: bool,
    pub gc_current: u8,
    pub gc_rank_limsa: u8,
    pub gc_rank_gridania: u8,
    pub gc_rank_uldah: u8,
    pub has_chocobo: bool,
    pub has_goobbue: bool,
    pub chocobo_name: String,
    pub mount_state: u8,
    pub chocobo_appearance: u8,
    pub rental_expire_time: u32,
    pub rental_min_left: u8,
    pub achievement_points: u32,
    pub homepoint: u32,
    pub homepoint_inn: u8,
    pub current_ls_plate: u32,
    pub repair_type: u8,
    pub sent_retainer_spawn: bool,
    pub rest_bonus_exp_rate: i32,
    pub highest_level_cache: i32,
}

impl Default for PlayerState {
    /// No event, nothing played, no ranks, mounts or home point: every
    /// number zero, every flag false, every name empty.
    fn default() -> (r: Self)
        ensures
            r.current_event_owner == 0,
            r.current_event_name@.len() == 0,
            r.play_time == 0,
            r.last_play_time_update == 0,
            !r.is_gm,
            !r.is_zone_changing,
            r.mount_state == 0,
            r.homepoint == 0,
            r.homepoint_inn == 0,
            r.chocobo_name@.len() == 0,
            r.rest_bonus_exp_rate == 0,
            r.highest_level_cache == 0,
    {
        PlayerState {
            current_event_owner: 0,
            current_event_name: String::new(),
            current_event_type: 0,
            destination_zone: 0,
            destination_spawn_type: 0,
            current_title: 0,
            play_time: 0,
            last_play_time_update: 0,
            is_gm: false,
            is_zone_changing: false,
            gc_current: 0,
            gc_rank_limsa: 0,
            gc_rank_gridania: 0,
            gc_rank_uldah: 0,
            has_chocobo: false,
            has_goobbue: false,
            chocobo_name: String::new(),
            mount_state: 0,
            chocobo_appearance: 0,
            rental_expire_time: 0,
            rental_min_left: 0,
            achievement_points: 0,
            homepoint: 0,
            homepoint_inn: 0,
            current_ls_plate: 0,
            repair_type: 0,
            sent_retainer_spawn: false,
            rest_bonus_exp_rate: 0,
            highest_level_cache: 0,
        }
    }
}

impl PlayerState {
    /// Records the rest-bonus experience rate.
    pub fn set_rest_bonus(&mut self, rate: i32)
        ensures
            *final(self) == (PlayerState { rest_bonus_exp_rate: rate, ..*old(self) }),
            final(self).rest_bonus_exp_rate == rate,
    {
        self.rest_bonus_exp_rate = rate;
    }
}

/// Class id of the Pugilist.
pub const CLASSID_PUG: u8 = 2;
/// Class id of the Gladiator.
pub const CLASSID_GLA: u8 = 3;
/// Class id of the Marauder.
pub const CLASSID_MRD: u8 = 4;
/// Class id of the Archer.
pub const CLASSID_ARC: u8 = 7;
/// Class id of the Lancer.
pub const CLASSID_LNC: u8 = 8;
/// Class id of the Thaumaturge.
pub const CLASSID_THM: u8 = 22;
/// Class id of the Conjurer.
pub const CLASSID_CNJ: u8 = 23;

/// Equipment slot ids.
pub const SLOT_MAINHAND: u16 = 0;
pub const SLOT_OFFHAND: u16 = 1;
pub const SLOT_HEAD: u16 = 4;
pub const SLOT_BODY: u16 = 5;
pub const SLOT_HANDS: u16 = 6;
pub const SLOT_WAIST: u16 = 7;
pub const SLOT_LEGS: u16 = 8;
pub const SLOT_FEET: u16 = 9;
pub const SLOT_UNDERSHIRT: u16 = 11;
pub const SLOT_UNDERGARMENT: u16 = 12;
pub const SLOT_NECK: u16 = 13;
pub const SLOT_EAR_RIGHT: u16 = 14;
pub const SLOT_EAR_LEFT: u16 = 15;
pub const SLOT_FINGER_RIGHT: u16 = 16;
pub const SLOT_FINGER_LEFT: u16 = 17;

/// The catalog id of gil.
pub const GIL_CATALOG_ID: u32 = 1_000_001;

/// The job a class advances to: Pugilist, Gladiator and Marauder add 13,
/// Archer and Lancer add 11, Thaumaturge and Conjurer add 4; any other id
/// is its own.
pub open spec fn job_of_class(class_id: u8) -> u8 {
    if class_id == CLASSID_PUG || class_id == CLASSID_GLA || class_id == CLASSID_MRD {
        (class_id + 13) as u8
    } else if class_id == CLASSID_ARC || class_id == CLASSID_LNC {
        (class_id + 11) as u8
    } else if class_id == CLASSID_THM || class_id == CLASSID_CNJ {
        (class_id + 4) as u8
    } else {
        class_id
    }
}

/// Whether a rental ending at `until` is still running at `now`.
pub open spec fn rental_running(until: u64, now: u32) -> bool {
    until > now as u64
}

/// When a rental of `minutes` minutes started at `now` ends.
pub open spec fn rental_end(now: u32, minutes: u8) -> u64 {
    (now + minutes * 60) as u64
}

/// `a - b`, or 0 when `b` is larger.
pub open spec fn saturating_diff(a: u32, b: u32) -> int {
    if a >= b {
        a - b
    } else {
        0
    }
}

/// The player state after play time is counted up to `now`.
pub open spec fn play_time_counted(s: PlayerState, now: u32) -> PlayerState {
    PlayerState {
        play_time: (s.play_time + saturating_diff(now, s.last_play_time_update)) as u32,
        last_play_time_update: now,
        ..s
    }
}

/// Whether counting play time up to `now` keeps the total within `u32`.
pub open spec fn play_time_fits(s: PlayerState, now: u32) -> bool {
    s.play_time + saturating_diff(now, s.last_play_time_update) <= u32::MAX
}

/// The player state after an update of the play time at `now`: counted
/// up to `now` when the total fits in `u32`, unchanged otherwise.
pub open spec fn play_time_update(s: PlayerState, now: u32) -> PlayerState {
    if play_time_fits(s, now) {
        play_time_counted(s, now)
    } else {
        s
    }
}

/// A value from a map of counts, or 0 when the key is absent.
pub open spec fn count_or_zero(m: Map<u32, i32>, k: u32) -> i32 {
    if m.contains_key(k) {
        m[k]
    } else {
        0
    }
}

impl PlayerState {
    /// Counts the seconds from the last update to `now` into the play time
    /// (none when `now` is earlier) and makes `now` the last update.
    pub fn count_play_time(&mut self, now: u32)
        requires
            play_time_fits(*old(self), now),
        ensures
            *final(self) == play_time_counted(*old(self), now),
    {
        let elapsed: u32 = if now >= self.last_play_time_update {
            now - self.last_play_time_update
        } else {
            0
        };
        self.play_time = self.play_time + elapsed;
        self.last_play_time_update = now;
    }
}

impl PlayerHelperState {
    /// Whether a chocobo rental running until `chocobo_rental_until` is
    /// still running at `now`.
    pub fn rental_active_at(&self, now: u64) -> (r: bool)
        ensures
            r == (self.chocobo_rental_until > now),
    {
        self.chocobo_rental_until > now
    }
}

/// A logged-in player: the character, the saved player state and the
/// helper state.
#[derive(Debug, Clone)]
pub struct Player {
    pub character: Character,
    pub player: PlayerState,
    pub helpers: PlayerHelperState,
}

impl Player {
    /// A fresh player `actor_id`, marked as zoning in.
    pub fn new(actor_id: u32) -> (r: Self)
        ensures
            r.character.base.actor_id == actor_id,
            r.character.chara.is_auto_attack_enabled,
            forall|i: int| 0 <= i < 16 ==> #[trigger] r.character.quest_journal.slots@[i] is None,
            r.character.quest_journal.completed@ == Seq::new(256, |i: int| 0u8),
            r.player.is_zone_changing,
            r.player.play_time == 0,
            r.player.homepoint == 0,
            r.helpers.unlocked_aetherytes@ == Set::<u32>::empty(),
            r.helpers.inventory_summary@ == Map::<u32, i32>::empty(),
            r.helpers.equipment_by_slot@ == Map::<u16, u32>::empty(),
            r.helpers.traits@.len() == 0,
            r.helpers.guildleve_journal.ids@ == Seq::new(8, |i: int| 0u16),
            !r.helpers.in_trade && !r.helpers.in_party,
    {
        Player {
            character: Character::new(actor_id),
            player: PlayerState { is_zone_changing: true, ..PlayerState::default() },
            helpers: PlayerHelperState::default(),
        }
    }

    /// A fresh player with fresh helper state (as [`Player::new`]).
    pub fn with_helpers(actor_id: u32) -> (r: Self)
        ensures
            r.character.base.actor_id == actor_id,
            forall|i: int| 0 <= i < 16 ==> #[trigger] r.character.quest_journal.slots@[i] is None,
            r.character.quest_journal.completed@ == Seq::new(256, |i: int| 0u8),
            r.player.is_zone_changing,
            r.player.play_time == 0,
            r.helpers.unlocked_aetherytes@ == Set::<u32>::empty(),
            r.helpers.inventory_summary@ == Map::<u32, i32>::empty(),
            r.helpers.equipment_by_slot@ == Map::<u16, u32>::empty(),
            r.helpers.traits@.len() == 0,
            r.helpers.guildleve_journal.ids@ == Seq::new(8, |i: int| 0u16),
            !r.helpers.in_trade && !r.helpers.in_party,
    {
        let mut p = Player::new(actor_id);
        p.helpers = PlayerHelperState::default();
        p
    }

    /// Whether `other_actor_id` is this player's own actor.
    pub fn is_my_player(&self, other_actor_id: u32) -> (r: bool)
        ensures
            r == (self.character.base.actor_id == other_actor_id),
    {
        self.character.base.actor_id == other_actor_id
    }

    /// The play time in seconds. With `do_update`, first counts the
    /// seconds since the last update by the system clock (none if the
    /// clock went back) and makes the clock's reading the last update;
    /// a count that would pass `u32::MAX` leaves the state as it was.
    pub fn get_play_time(&mut self, do_update: bool) -> (r: u32)
        ensures
            r == final(self).player.play_time,
            final(self).character == old(self).character,
            final(self).helpers == old(self).helpers,
            !do_update ==> final(self).player == old(self).player,
            do_update ==> exists|now: u32|
                final(self).player == #[trigger] play_time_update(old(self).player, now),
    {
        if do_update {
            let now = unix_timestamp();
            let elapsed: u32 = if now >= self.player.last_play_time_update {
                now - self.player.last_play_time_update
            } else {
                0
            };
            if elapsed <= u32::MAX - self.player.play_time {
                self.player.count_play_time(now);
            }
            assert(self.player == play_time_update(old(self).player, now));
        }
        self.player.play_time
    }

    /// The mount state.
    pub fn get_mount_state(&self) -> (r: u8)
        ensures
            r == self.player.mount_state,
    {
        self.player.mount_state
    }

    /// Sets the mount state.
    pub fn set_mount_state(&mut self, state: u8)
        ensures
            final(self).player == (PlayerState { mount_state: state, ..old(self).player }),
            final(self).character == old(self).character,
            final(self).helpers == old(self).helpers,
    {
        self.player.mount_state = state;
    }

    /// Whether the chocobo rental is still running by the system clock. It
    /// can only be running when an end time is set.
    pub fn is_chocobo_rental_active(&self) -> (r: bool)
        ensures
            r ==> self.helpers.chocobo_rental_until > 0,
            exists|now: u32| #[trigger] rental_running(self.helpers.chocobo_rental_until, now) == r,
    {
        let now = unix_timestamp();
        let r = self.helpers.rental_active_at(now as u64);
        assert(rental_running(self.helpers.chocobo_rental_until, now) == r);
        r
    }

    /// Starts a chocobo rental of `minutes` minutes from the system clock.
    pub fn start_chocobo_rental(&mut self, minutes: u8)
        ensures
            exists|now: u32|
                final(self).helpers.chocobo_rental_until == #[trigger] rental_end(now, minutes),
            final(self).character == old(self).character,
            final(self).player == old(self).player,
    {
        let clock = unix_timestamp();
        let now = clock as u64;
        self.helpers.chocobo_rental_until = now + (minutes as u64) * 60;
        assert(self.helpers.chocobo_rental_until == rental_end(clock, minutes));
    }

    /// The starting town; the player record does not hold it, so 0.
    pub fn get_initial_town(&self) -> (r: u8)
        ensures
            r == 0,
    {
        0
    }

    /// The home-point aetheryte.
    pub fn get_home_point(&self) -> (r: u32)
        ensures
            r == self.player.homepoint,
    {
        self.player.homepoint
    }

    /// The home-point inn.
    pub fn get_home_point_inn(&self) -> (r: u8)
        ensures
            r == self.player.homepoint_inn,
    {
        self.player.homepoint_inn
    }

    /// Makes `aetheryte_id` the home point and unlocks it.
    pub fn set_home_point(&mut self, aetheryte_id: u32)
        ensures
            final(self).player == (PlayerState { homepoint: aetheryte_id, ..old(self).player }),
            final(self).helpers.unlocked_aetherytes@ == old(self).helpers.unlocked_aetherytes@.insert(
                aetheryte_id,
            ),
            final(self).character == old(self).character,
    {
        self.player.homepoint = aetheryte_id;
        self.helpers.unlocked_aetherytes.insert(aetheryte_id);
    }

    /// Sets the home-point inn.
    pub fn set_home_point_inn(&mut self, town_id: u8)
        ensures
            final(self).player == (PlayerState { homepoint_inn: town_id, ..old(self).player }),
            final(self).character == old(self).character,
            final(self).helpers == old(self).helpers,
    {
        self.player.homepoint_inn = town_id;
    }

    /// Whether `aetheryte_id` is unlocked.
    pub fn has_aetheryte_node_unlocked(&self, aetheryte_id: u32) -> (r: bool)
        ensures
            r == self.helpers.unlocked_aetherytes@.contains(aetheryte_id),
    {
        self.helpers.unlocked_aetherytes.contains(&aetheryte_id)
    }

    /// Whether the player holds a trait with id `id` that its class and
    /// level meet.
    pub fn has_trait(&self, id: u16) -> (r: bool)
        ensures
            r == exists|i: int|
                0 <= i < self.helpers.traits@.len() && #[trigger] self.helpers.traits@[i].id == id
                    && self.character.chara.class as u8 == self.helpers.traits@[i].job
                    && self.helpers.traits@[i].level as i16 <= self.character.chara.level,
    {
        let mut i: usize = 0;
        while i < self.helpers.traits.len()
            invariant
                i <= self.helpers.traits@.len(),
                forall|j: int|
                    0 <= j < i ==> !(#[trigger] self.helpers.traits@[j].id == id
                        && self.character.chara.class as u8 == self.helpers.traits@[j].job
                        && self.helpers.traits@[j].level as i16 <= self.character.chara.level),
            decreases self.helpers.traits@.len() - i,
        {
            let t = self.helpers.traits[i];
            if t.id == id && self.character.meets_trait(t) {
                return true;
            }
            i = i + 1;
        }
        false
    }

    /// Whether the character meets `trait_ref`.
    pub fn has_trait_ref(&self, trait_ref: TraitRef) -> (r: bool)
        ensures
            r == ((self.character.chara.class as u8) == trait_ref.job && trait_ref.level as i16
                <= self.character.chara.level),
    {
        self.character.meets_trait(trait_ref)
    }

    /// The first free quest slot, or -1 when all are taken.
    pub fn get_free_quest_slot(&self) -> (r: i32)
        ensures
            r >= 0 ==> first_free_slot(self.character.quest_journal.slots@, r as int),
            r < 0 ==> r == -1 && forall|j: int|
                0 <= j < 16 ==> #[trigger] self.character.quest_journal.slots@[j] is Some,
    {
        match self.character.quest_journal.get_free_slot() {
            Some(s) => s as i32,
            None => -1,
        }
    }

    /// Whether quest `id` is active.
    pub fn has_quest(&self, id: u32) -> (r: bool)
        ensures
            r == !no_slot_holds(self.character.quest_journal.slots@, id),
    {
        self.character.quest_journal.has(id)
    }

    /// Whether a quest named `name` is active.
    pub fn has_quest_by_name(&self, name: &str) -> (r: bool)
        ensures
            r == exists|j: int|
                0 <= j < 16 && slot_named(#[trigger] self.character.quest_journal.slots@[j], name@),
    {
        self.character.quest_journal.has_by_name(name)
    }

    /// Whether quest `id` is recorded as completed.
    pub fn is_quest_completed(&self, id: u32) -> (r: bool)
        ensures
            r == completed_in(self.character.quest_journal.completed@, id),
    {
        self.character.quest_journal.is_completed(id)
    }

    /// Whether quest `id` could be taken on.
    pub fn can_accept_quest(&self, id: u32) -> (r: bool)
        ensures
            r == (no_slot_holds(self.character.quest_journal.slots@, id) && !completed_in(
                self.character.quest_journal.completed@,
                id,
            ) && exists|j: int| 0 <= j < 16 && #[trigger] self.character.quest_journal.slots@[j] is None),
    {
        self.character.quest_journal.can_accept(id)
    }

    /// The active quest `id`, if any.
    pub fn get_quest(&self, id: u32) -> (r: Option<&Quest>)
        ensures
            match r {
                Some(q) => exists|i: int|
                    first_slot_holding(self.character.quest_journal.slots@, id, i)
                        && #[trigger] self.character.quest_journal.slots@[i] == Some(*q),
                None => no_slot_holds(self.character.quest_journal.slots@, id),
            },
    {
        self.character.quest_journal.get(id)
    }

    /// The active quest `id`, for changing in place.
    pub fn get_quest_mut(&mut self, id: u32) -> (r: Option<&mut Quest>)
        ensures
            final(self).player == old(self).player,
            final(self).helpers == old(self).helpers,
            final(self).character.base == old(self).character.base,
            final(self).character.chara == old(self).character.chara,
            final(self).character.quest_journal.completed == old(self).character.quest_journal.completed,
            match r {
                Some(q) => exists|i: int|
                    first_slot_holding(old(self).character.quest_journal.slots@, id, i) && old(self).character.quest_journal.slots@[i] == Some(*q) && #[trigger] final(self).character.quest_journal.slots@ == old(self).character.quest_journal.slots@.update(i, Some(*final(q))),
                None => no_slot_holds(old(self).character.quest_journal.slots@, id) && final(self).character.quest_journal.slots@ == old(self).character.quest_journal.slots@,
            },
    {
        self.character.quest_journal.get_mut(id)
    }

    /// The slot of the active quest `id`, if any.
    pub fn get_quest_slot(&self, id: u32) -> (r: Option<usize>)
        ensures
            match r {
                Some(i) => first_slot_holding(self.character.quest_journal.slots@, id, i as int),
                None => no_slot_holds(self.character.quest_journal.slots@, id),
            },
    {
        self.character.quest_journal.slot_of(id)
    }

    /// Puts `quest` in the first free slot, returning the slot; with none
    /// free nothing changes.
    pub fn add_quest(&mut self, quest: Quest) -> (r: Option<usize>)
        ensures
            final(self).player == old(self).player,
            final(self).helpers == old(self).helpers,
            final(self).character.base == old(self).character.base,
            final(self).character.chara == old(self).character.chara,
            final(self).character.quest_journal.completed == old(self).character.quest_journal.completed,
            match r {
                Some(i) => first_free_slot(old(self).character.quest_journal.slots@, i as int)
                    && final(self).character.quest_journal.slots@ == old(self).character.quest_journal.slots@.update(i as int, Some(quest)),
                None => final(self).character.quest_journal.slots@ == old(self).character.quest_journal.slots@ && forall|j: int|
                    0 <= j < 16 ==> #[trigger] old(self).character.quest_journal.slots@[j] is Some,
            },
    {
        self.character.quest_journal.add(quest)
    }

    /// Takes quest `id` out of its slot and records it as completed.
    pub fn complete_quest(&mut self, id: u32)
        ensures
            final(self).player == old(self).player,
            final(self).helpers == old(self).helpers,
            final(self).character.base == old(self).character.base,
            final(self).character.chara == old(self).character.chara,
            no_slot_holds(old(self).character.quest_journal.slots@, id) ==> final(self).character.quest_journal.slots@ == old(self).character.quest_journal.slots@,
            forall|i: int|
                first_slot_holding(old(self).character.quest_journal.slots@, id, i) ==> #[trigger] final(self).character.quest_journal.slots@ == old(self).character.quest_journal.slots@.update(
                    i,
                    None,
                ),
            match quest_bit_of(id) {
                Some(b) => bits_after_write(
                    old(self).character.quest_journal.completed@,
                    final(self).character.quest_journal.completed@,
                    b as int,
                    true,
                ),
                None => final(self).character.quest_journal.completed == old(self).character.quest_journal.completed,
            },
    {
        self.character.quest_journal.complete(id);
    }

    /// Takes quest `id` out of its slot without completing it.
    pub fn abandon_quest(&mut self, id: u32) -> (r: Option<Quest>)
        ensures
            final(self).player == old(self).player,
            final(self).helpers == old(self).helpers,
            final(self).character.base == old(self).character.base,
            final(self).character.chara == old(self).character.chara,
            final(self).character.quest_journal.completed == old(self).character.quest_journal.completed,
            match r {
                Some(q) => exists|i: int|
                    first_slot_holding(old(self).character.quest_journal.slots@, id, i) && old(self).character.quest_journal.slots@[i] == Some(q) && #[trigger] final(self).character.quest_journal.slots@ == old(self).character.quest_journal.slots@.update(i, None),
                None => no_slot_holds(old(self).character.quest_journal.slots@, id) && final(self).character.quest_journal.slots@ == old(self).character.quest_journal.slots@,
            },
    {
        self.character.quest_journal.remove(id)
    }

    /// The first free guildleve slot, or -1 when all are taken.
    pub fn get_free_guildleve_slot(&self) -> (r: i32)
        ensures
            r >= 0 ==> first_leve_slot(self.helpers.guildleve_journal.ids@, 0, r as int),
            r < 0 ==> r == -1 && !self.helpers.guildleve_journal.ids@.contains(0),
    {
        match self.helpers.guildleve_journal.get_free_slot() {
            Some(s) => s as i32,
            None => -1,
        }
    }

    /// Whether guildleve `id` (its low 16 bits) is held.
    pub fn has_guildleve(&self, id: u32) -> (r: bool)
        ensures
            r == self.helpers.guildleve_journal.ids@.contains(id as u16),
    {
        self.helpers.guildleve_journal.has(id)
    }

    /// Puts guildleve `id` in the first free slot, returning the slot.
    pub fn add_guildleve(&mut self, id: u16) -> (r: Option<usize>)
        ensures
            final(self).player == old(self).player,
            final(self).character == old(self).character,
            match r {
                Some(i) => first_leve_slot(old(self).helpers.guildleve_journal.ids@, 0, i as int)
                    && final(self).helpers.guildleve_journal.ids@ == old(self).helpers.guildleve_journal.ids@.update(i as int, id),
                None => !old(self).helpers.guildleve_journal.ids@.contains(0) && final(self).helpers.guildleve_journal.ids@ == old(self).helpers.guildleve_journal.ids@,
            },
    {
        self.helpers.guildleve_journal.add(id)
    }

    /// Empties the slot of guildleve `id` (its low 16 bits); `false` when
    /// none holds it.
    pub fn remove_guildleve(&mut self, id: u32) -> (r: bool)
        ensures
            final(self).player == old(self).player,
            final(self).character == old(self).character,
            r == old(self).helpers.guildleve_journal.ids@.contains(id as u16),
            r ==> exists|i: int|
                first_leve_slot(old(self).helpers.guildleve_journal.ids@, id as u16, i)
                    && #[trigger] final(self).helpers.guildleve_journal.ids@ == old(self).helpers.guildleve_journal.ids@.update(i, 0),
            !r ==> final(self).helpers.guildleve_journal.ids@ == old(self).helpers.guildleve_journal.ids@,
    {
        self.helpers.guildleve_journal.remove(id)
    }

    /// The job a class advances to (see [`job_of_class`]).
    pub fn convert_class_id_to_job_id(class_id: u8) -> (r: u8)
        ensures
            r == job_of_class(class_id),
    {
        if class_id == CLASSID_PUG || class_id == CLASSID_GLA || class_id == CLASSID_MRD {
            class_id + 13
        } else if class_id == CLASSID_ARC || class_id == CLASSID_LNC {
            class_id + 11
        } else if class_id == CLASSID_THM || class_id == CLASSID_CNJ {
            class_id + 4
        } else {
            class_id
        }
    }

    /// The current job when one is set, else the class (low bytes).
    pub fn get_current_class_or_job(&self) -> (r: u8)
        ensures
            r == (if self.character.chara.current_job != 0 {
                self.character.chara.current_job as u8
            } else {
                self.character.chara.class as u8
            }),
    {
        if self.character.chara.current_job != 0 {
            self.character.chara.current_job as u8
        } else {
            self.character.chara.class as u8
        }
    }

    /// The highest class level recorded, never below 0.
    pub fn get_highest_level(&self) -> (r: i32)
        ensures
            r == (if self.player.highest_level_cache < 0 {
                0
            } else {
                self.player.highest_level_cache
            }),
    {
        if self.player.highest_level_cache < 0 {
            0
        } else {
            self.player.highest_level_cache
        }
    }

    /// Records the highest class level.
    pub fn set_highest_level(&mut self, level: i32)
        ensures
            final(self).player == (PlayerState { highest_level_cache: level, ..old(self).player }),
            final(self).character == old(self).character,
            final(self).helpers == old(self).helpers,
    {
        self.player.highest_level_cache = level;
    }

    /// Whether a trade is open.
    pub fn is_trading(&self) -> (r: bool)
        ensures
            r == self.helpers.in_trade,
    {
        self.helpers.in_trade
    }

    /// Whether an open trade has been accepted.
    pub fn is_trade_accepted(&self) -> (r: bool)
        ensures
            r == (self.helpers.in_trade && self.helpers.trade_accepted),
    {
        self.helpers.in_trade && self.helpers.trade_accepted
    }

    /// Whether the player is in a party.
    pub fn is_in_party(&self) -> (r: bool)
        ensures
            r == self.helpers.in_party,
    {
        self.helpers.in_party
    }

    /// Whether the player leads its party.
    pub fn is_party_leader(&self) -> (r: bool)
        ensures
            r == (self.helpers.in_party && self.helpers.party_leader),
    {
        self.helpers.in_party && self.helpers.party_leader
    }

    /// Whether `item_id` is equipped in `slot`.
    pub fn has_item_equipped_in_slot(&self, item_id: u32, slot: u16) -> (r: bool)
        ensures
            r == (self.helpers.equipment_by_slot@.contains_key(slot)
                && self.helpers.equipment_by_slot@[slot] == item_id),
    {
        match self.helpers.equipment_by_slot.get(&slot) {
            Some(id) => *id == item_id,
            None => false,
        }
    }

    /// The item equipped in `slot`, if any.
    pub fn get_equipped_item(&self, slot: u16) -> (r: Option<u32>)
        ensures
            r == (if self.helpers.equipment_by_slot@.contains_key(slot) {
                Some(self.helpers.equipment_by_slot@[slot])
            } else {
                None::<u32>
            }),
    {
        match self.helpers.equipment_by_slot.get(&slot) {
            Some(id) => Some(*id),
            None => None,
        }
    }

    /// Whether the player carries at least `min_quantity` of `catalog_id`
    /// (an absent item counts as 0).
    pub fn has_item(&self, catalog_id: u32, min_quantity: i32) -> (r: bool)
        ensures
            r == (count_or_zero(self.helpers.inventory_summary@, catalog_id) >= min_quantity),
    {
        let have: i32 = match self.helpers.inventory_summary.get(&catalog_id) {
            Some(n) => *n,
            None => 0,
        };
        have >= min_quantity
    }

    /// The gil carried (0 when none is listed).
    pub fn get_current_gil(&self) -> (r: i32)
        ensures
            r == count_or_zero(self.helpers.inventory_summary@, GIL_CATALOG_ID),
    {
        match self.helpers.inventory_summary.get(&GIL_CATALOG_ID) {
            Some(n) => *n,
            None => 0,
        }
    }

    /// Whether the player is changing zones.
    pub fn is_in_zone_change(&self) -> (r: bool)
        ensures
            r == self.player.is_zone_changing,
    {
        self.player.is_zone_changing
    }

    /// Marks the player as changing zones or not.
    pub fn set_zone_changing(&mut self, flag: bool)
        ensures
            final(self).player == (PlayerState { is_zone_changing: flag, ..old(self).player }),
            final(self).character == old(self).character,
            final(self).helpers == old(self).helpers,
    {
        self.player.is_zone_changing = flag;
    }

    /// A Disciple of War (see [`Character::is_disciple_of_war`]).
    pub fn is_disciple_of_war(&self) -> (r: bool)
        ensures
            r == (2 <= (self.character.chara.class as u8) <= 8),
    {
        self.character.is_disciple_of_war()
    }

    /// A Disciple of Magic (see [`Character::is_disciple_of_magic`]).
    pub fn is_disciple_of_magic(&self) -> (r: bool)
        ensures
            r == (22 <= (self.character.chara.class as u8) <= 23),
    {
        self.character.is_disciple_of_magic()
    }

    /// A Disciple of the Hand (see [`Character::is_disciple_of_hand`]).
    pub fn is_disciple_of_hand(&self) -> (r: bool)
        ensures
            r == (29 <= (self.character.chara.class as u8) <= 36),
    {
        self.character.is_disciple_of_hand()
    }

    /// A Disciple of the Land (see [`Character::is_disciple_of_land`]).
    pub fn is_disciple_of_land(&self) -> (r: bool)
        ensures
            r == (39 <= (self.character.chara.class as u8) <= 41),
    {
        self.character.is_disciple_of_land()
    }
}

/// Setting a home point unlocks it: afterwards the aetheryte reads as
/// unlocked, and every aetheryte unlocked before still is.
pub proof fn lemma_home_point_unlocks(before: Set<u32>, after: Set<u32>, aetheryte_id: u32, other: u32)
    requires
        after == before.insert(aetheryte_id),
    ensures
        after.contains(aetheryte_id),
        before.contains(other) ==> after.contains(other),
        after.contains(other) ==> other == aetheryte_id || before.contains(other),
{
}

} // verus!
