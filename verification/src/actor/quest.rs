//! Quest journal state: per-slot flags and counters, the ENPCs each quest
//! sequence activates, the sixteen active journal slots and the 2048-bit
//! completion field, and the guildleve journal.
//!
//! Quest actors live in actor-id space under the `0xA0F0_xxxx` prefix; the
//! low 20 bits are the quest id. Completed quests `110_001..=112_048` map to
//! bits `0..=2047` of the completion field.

use std::collections::HashMap;
use std::collections::HashSet;
use vstd::prelude::*;
use crate::bitstream::Bitstream2048;
use crate::bitstream::bit_at;
use crate::bitstream::bits_after_write;
use crate::bitstream::popcount;

verus! {

broadcast use vstd::std_specs::hash::group_hash_axioms;

/// Actor-id prefix of quest actors.
pub const QUEST_ACTOR_ID_PREFIX: u32 = 0xA0F0_0000;

/// Mask selecting the quest id inside a quest actor id.
pub const QUEST_ID_MASK: u32 = 0x000F_FFFF;

/// Quest id stored at bit 0 of the completion field.
pub const QUEST_ID_BITSTREAM_BASE: u32 = 110_001;

/// Highest usable completion bit.
pub const QUEST_BIT_MAX: usize = 2047;

/// The actor id of quest `quest_id`.
pub fn quest_actor_id(quest_id: u32) -> (r: u32)
    ensures
        r == QUEST_ACTOR_ID_PREFIX | (quest_id & QUEST_ID_MASK),
{
    QUEST_ACTOR_ID_PREFIX | (quest_id & QUEST_ID_MASK)
}

/// The quest id carried by a quest actor id.
pub fn quest_id_from_actor(actor_id: u32) -> (r: u32)
    ensures
        r == actor_id & QUEST_ID_MASK,
{
    actor_id & QUEST_ID_MASK
}

/// A quest id that fits in the id mask survives the trip through its actor
/// id.
pub proof fn lemma_quest_actor_id_roundtrip(quest_id: u32)
    requires
        quest_id <= QUEST_ID_MASK,
    ensures
        (QUEST_ACTOR_ID_PREFIX | (quest_id & QUEST_ID_MASK)) & QUEST_ID_MASK == quest_id,
{
    assert((0xA0F0_0000u32 | (quest_id & 0x000F_FFFFu32)) & 0x000F_FFFFu32 == quest_id)
        by (bit_vector)
        requires
            quest_id <= 0x000F_FFFFu32,
    ;
}

/// The completion bit of a quest id: ids `110_001..=112_048` map to
/// `0..=2047`, every other id has none.
pub open spec fn quest_bit_of(quest_id: u32) -> Option<usize> {
    if QUEST_ID_BITSTREAM_BASE <= quest_id && quest_id - QUEST_ID_BITSTREAM_BASE <= QUEST_BIT_MAX {
        Some((quest_id - QUEST_ID_BITSTREAM_BASE) as usize)
    } else {
        None
    }
}

/// The completion bit of `quest_id` (see [`quest_bit_of`]).
pub fn quest_id_to_bit(quest_id: u32) -> (r: Option<usize>)
    ensures
        r == quest_bit_of(quest_id),
{
    if quest_id < QUEST_ID_BITSTREAM_BASE {
        return None;
    }
    let bit = (quest_id - QUEST_ID_BITSTREAM_BASE) as usize;
    if bit > QUEST_BIT_MAX {
        return None;
    }
    Some(bit)
}

/// Whether flag `index` is set in a flag word: indices past 31 never are.
pub open spec fn flag_is_set(flags: u32, index: u8) -> bool {
    index < 32 && flags & (1u32 << index) != 0
}

/// The flag word after setting flag `index` (unchanged past 31).
pub open spec fn flags_with(flags: u32, index: u8) -> u32 {
    if index < 32 { flags | (1u32 << index) } else { flags }
}

/// The flag word after clearing flag `index` (unchanged past 31).
pub open spec fn flags_without(flags: u32, index: u8) -> u32 {
    if index < 32 { flags & !(1u32 << index) } else { flags }
}

/// Setting a flag makes it read as set and leaves every other flag as it
/// was; clearing it makes it read as clear, again touching no other flag.
pub proof fn lemma_flag_write_read(flags: u32, index: u8, other: u8)
    requires
        index < 32,
        other != index,
    ensures
        flag_is_set(flags_with(flags, index), index),
        !flag_is_set(flags_without(flags, index), index),
        flag_is_set(flags_with(flags, index), other) == flag_is_set(flags, other),
        flag_is_set(flags_without(flags, index), other) == flag_is_set(flags, other),
{
    assert((flags | (1u32 << index)) & (1u32 << index) != 0) by (bit_vector)
        requires
            index < 32,
    ;
    assert((flags & !(1u32 << index)) & (1u32 << index) == 0) by (bit_vector)
        requires
            index < 32,
    ;
    if other < 32 {
        assert(((flags | (1u32 << index)) & (1u32 << other) != 0) == (flags & (1u32 << other)
            != 0)) by (bit_vector)
            requires
                index < 32,
                other < 32,
                other != index,
        ;
        assert(((flags & !(1u32 << index)) & (1u32 << other) != 0) == (flags & (1u32 << other)
            != 0)) by (bit_vector)
            requires
                index < 32,
                other < 32,
                other != index,
        ;
    }
}

/// What a [`QuestData`] holds: the flag word, three counters, the NPC
/// linkshell scratchpad and the dirty bit.
pub struct QuestDataModel {
    pub flags: u32,
    pub counter1: u16,
    pub counter2: u16,
    pub counter3: u16,
    pub npc_ls_from: u32,
    pub npc_ls_msg_step: u8,
    pub dirty: bool,
}

impl QuestDataModel {
    /// Counter `idx` (0-based); indices past 2 read as 0.
    pub open spec fn counter(self, idx: int) -> u16 {
        if idx == 0 {
            self.counter1
        } else if idx == 1 {
            self.counter2
        } else if idx == 2 {
            self.counter3
        } else {
            0
        }
    }

    /// The model with counter `idx` (0..3) replaced by `value`.
    pub open spec fn with_counter(self, idx: int, value: u16) -> QuestDataModel {
        QuestDataModel {
            counter1: if idx == 0 { value } else { self.counter1 },
            counter2: if idx == 1 { value } else { self.counter2 },
            counter3: if idx == 2 { value } else { self.counter3 },
            ..self
        }
    }

    /// The model with its dirty bit set.
    pub open spec fn touched(self) -> QuestDataModel {
        QuestDataModel { dirty: true, ..self }
    }
}

/// One quest's runtime state: a 32-bit flag word addressed by bit index,
/// three 16-bit counters, the NPC linkshell scratchpad, and a dirty bit
/// that every mutation sets so the client and the database get resynced.
#[derive(Debug, Clone, Copy, PartialEq, Eq)]
pub struct QuestData {
    flags: u32,
    counters: [u16; 3],
    npc_ls_from: u32,
    npc_ls_msg_step: u8,
    dirty: bool,
}

impl View for QuestData {
    type V = QuestDataModel;

    closed spec fn view(&self) -> QuestDataModel {
        QuestDataModel {
            flags: self.flags,
            counter1: self.counters@[0],
            counter2: self.counters@[1],
            counter3: self.counters@[2],
            npc_ls_from: self.npc_ls_from,
            npc_ls_msg_step: self.npc_ls_msg_step,
            dirty: self.dirty,
        }
    }
}

impl Default for QuestData {
    /// Fresh state, as [`QuestData::new`].
    fn default() -> (r: Self)
        ensures
            r@ == QuestDataModel::zero(),
    {
        QuestData::new()
    }
}

impl QuestDataModel {
    /// All zero and not dirty.
    pub open spec fn zero() -> QuestDataModel {
        QuestDataModel {
            flags: 0,
            counter1: 0,
            counter2: 0,
            counter3: 0,
            npc_ls_from: 0,
            npc_ls_msg_step: 0,
            dirty: false,
        }
    }
}

impl QuestData {
    /// Fresh state: all zero, not dirty.
    pub fn new() -> (r: Self)
        ensures
            r@ == QuestDataModel::zero(),
    {
        QuestData { flags: 0, counters: [0u16; 3], npc_ls_from: 0, npc_ls_msg_step: 0, dirty: false }
    }

    /// Loads the flag word and the three counters; loading is no mutation,
    /// so the result is not dirty.
    pub fn from_parts(flags: u32, counter1: u16, counter2: u16, counter3: u16) -> (r: Self)
        ensures
            r@ == (QuestDataModel { flags, counter1, counter2, counter3, ..QuestDataModel::zero() }),
    {
        QuestData {
            flags,
            counters: [counter1, counter2, counter3],
            npc_ls_from: 0,
            npc_ls_msg_step: 0,
            dirty: false,
        }
    }

    /// Loads a full row, NPC linkshell scratchpad included; not dirty.
    pub fn from_parts_with_npc_ls(
        flags: u32,
        counter1: u16,
        counter2: u16,
        counter3: u16,
        npc_ls_from: u32,
        npc_ls_msg_step: u8,
    ) -> (r: Self)
        ensures
            r@ == (QuestDataModel {
                flags,
                counter1,
                counter2,
                counter3,
                npc_ls_from,
                npc_ls_msg_step,
                dirty: false,
            }),
    {
        QuestData {
            flags,
            counters: [counter1, counter2, counter3],
            npc_ls_from,
            npc_ls_msg_step,
            dirty: false,
        }
    }

    /// The NPC linkshell driving this quest's message chain (0: none).
    pub fn npc_ls_from(self) -> (r: u32)
        ensures
            r == self@.npc_ls_from,
    {
        self.npc_ls_from
    }

    /// The message step of the active NPC linkshell chain.
    pub fn npc_ls_msg_step(self) -> (r: u8)
        ensures
            r == self@.npc_ls_msg_step,
    {
        self.npc_ls_msg_step
    }

    /// Records the NPC linkshell driving the chain; marks the data dirty.
    pub fn set_npc_ls_from(&mut self, from: u32)
        ensures
            final(self)@ == (QuestDataModel { npc_ls_from: from, dirty: true, ..old(self)@ }),
    {
        self.npc_ls_from = from;
        self.dirty = true;
    }

    /// Advances the message step, saturating at 255; marks the data dirty
    /// and returns the new step.
    pub fn inc_npc_ls_msg_step(&mut self) -> (r: u8)
        ensures
            r == (if old(self)@.npc_ls_msg_step == 255 { 255 } else { old(self)@.npc_ls_msg_step
                + 1 }),
            final(self)@ == (QuestDataModel { npc_ls_msg_step: r, dirty: true, ..old(self)@ }),
    {
        self.npc_ls_msg_step = self.npc_ls_msg_step.saturating_add(1);
        self.dirty = true;
        self.npc_ls_msg_step
    }

    /// Zeroes the NPC linkshell scratchpad; marks the data dirty.
    pub fn clear_npc_ls(&mut self)
        ensures
            final(self)@ == (QuestDataModel {
                npc_ls_from: 0,
                npc_ls_msg_step: 0,
                dirty: true,
                ..old(self)@
            }),
    {
        self.npc_ls_from = 0;
        self.npc_ls_msg_step = 0;
        self.dirty = true;
    }

    /// The flag word.
    pub fn flags(self) -> (r: u32)
        ensures
            r == self@.flags,
    {
        self.flags
    }

    /// Counter `idx`; indices past 2 read as 0.
    pub fn counter(self, idx: usize) -> (r: u16)
        ensures
            r == self@.counter(idx as int),
    {
        if idx < 3 {
            self.counters[idx]
        } else {
            0
        }
    }

    /// The first counter.
    pub fn counter1(self) -> (r: u16)
        ensures
            r == self@.counter1,
    {
        self.counters[0]
    }

    /// The second counter.
    pub fn counter2(self) -> (r: u16)
        ensures
            r == self@.counter2,
    {
        self.counters[1]
    }

    /// The third counter.
    pub fn counter3(self) -> (r: u16)
        ensures
            r == self@.counter3,
    {
        self.counters[2]
    }

    /// Whether anything changed since the last [`QuestData::clear_dirty`].
    pub fn is_dirty(self) -> (r: bool)
        ensures
            r == self@.dirty,
    {
        self.dirty
    }

    /// Clears the dirty bit.
    pub fn clear_dirty(&mut self)
        ensures
            final(self)@ == (QuestDataModel { dirty: false, ..old(self)@ }),
    {
        self.dirty = false;
    }

    /// Flag `index`; indices past 31 read as clear.
    pub fn get_flag(self, index: u8) -> (r: bool)
        ensures
            r == flag_is_set(self@.flags, index),
    {
        if index >= 32 {
            return false;
        }
        (self.flags & (1u32 << index)) != 0
    }

    /// Sets flag `index` and marks the data dirty; a no-op past 31.
    pub fn set_flag(&mut self, index: u8)
        ensures
            index >= 32 ==> final(self)@ == old(self)@,
            index < 32 ==> final(self)@ == (QuestDataModel {
                flags: flags_with(old(self)@.flags, index),
                dirty: true,
                ..old(self)@
            }),
    {
        if index >= 32 {
            return;
        }
        self.flags = self.flags | (1u32 << index);
        self.dirty = true;
    }

    /// Clears flag `index` and marks the data dirty; a no-op past 31.
    pub fn clear_flag(&mut self, index: u8)
        ensures
            index >= 32 ==> final(self)@ == old(self)@,
            index < 32 ==> final(self)@ == (QuestDataModel {
                flags: flags_without(old(self)@.flags, index),
                dirty: true,
                ..old(self)@
            }),
    {
        if index >= 32 {
            return;
        }
        self.flags = self.flags & !(1u32 << index);
        self.dirty = true;
    }

    /// Adds one to counter `idx`, wrapping at 65536, marks the data dirty
    /// and returns the new value; past index 2 returns 0 and changes
    /// nothing.
    pub fn inc_counter(&mut self, idx: usize) -> (r: u16)
        ensures
            idx >= 3 ==> r == 0 && final(self)@ == old(self)@,
            idx < 3 ==> r == (if old(self)@.counter(idx as int) == 0xFFFF { 0 } else { old(
                self,
            )@.counter(idx as int) + 1 }),
            idx < 3 ==> final(self)@ == old(self)@.with_counter(idx as int, r).touched(),
    {
        if idx >= 3 {
            return 0;
        }
        let v = self.counters[idx].wrapping_add(1);
        self.counters[idx] = v;
        self.dirty = true;
        self.counters[idx]
    }

    /// Subtracts one from counter `idx`, wrapping at 0, marks the data
    /// dirty and returns the new value; past index 2 returns 0 and changes
    /// nothing.
    pub fn dec_counter(&mut self, idx: usize) -> (r: u16)
        ensures
            idx >= 3 ==> r == 0 && final(self)@ == old(self)@,
            idx < 3 ==> r == (if old(self)@.counter(idx as int) == 0 { 0xFFFF } else { old(
                self,
            )@.counter(idx as int) - 1 }),
            idx < 3 ==> final(self)@ == old(self)@.with_counter(idx as int, r).touched(),
    {
        if idx >= 3 {
            return 0;
        }
        let v = self.counters[idx].wrapping_sub(1);
        self.counters[idx] = v;
        self.dirty = true;
        self.counters[idx]
    }

    /// Sets counter `idx` and marks the data dirty; a no-op past index 2.
    pub fn set_counter(&mut self, idx: usize, value: u16)
        ensures
            idx >= 3 ==> final(self)@ == old(self)@,
            idx < 3 ==> final(self)@ == old(self)@.with_counter(idx as int, value).touched(),
    {
        if idx >= 3 {
            return;
        }
        self.counters[idx] = value;
        self.dirty = true;
    }

    /// Zeroes every flag, counter and the scratchpad; marks the data dirty.
    pub fn clear(&mut self)
        ensures
            final(self)@ == QuestDataModel::zero().touched(),
    {
        self.flags = 0;
        self.counters = [0u16; 3];
        self.npc_ls_from = 0;
        self.npc_ls_msg_step = 0;
        self.dirty = true;
    }
}


/// The coloured marker on a quest-active NPC.
#[derive(Debug, Clone, Copy, PartialEq, Eq, Structural)]
pub enum QuestFlagGraphic {
    NoGraphic,
    MapGraphic,
    PlateGraphic,
}

impl Default for QuestFlagGraphic {
    /// No marker.
    fn default() -> (r: Self)
        ensures
            r == QuestFlagGraphic::NoGraphic,
    {
        QuestFlagGraphic::NoGraphic
    }
}

/// The wire value of a marker.
pub open spec fn quest_flag_graphic_value(g: QuestFlagGraphic) -> u8 {
    match g {
        QuestFlagGraphic::NoGraphic => 0,
        QuestFlagGraphic::MapGraphic => 1,
        QuestFlagGraphic::PlateGraphic => 2,
    }
}

/// The marker for a wire value: 1 and 2 name markers, anything else none.
pub open spec fn quest_flag_graphic_of(v: u8) -> QuestFlagGraphic {
    if v == 1 {
        QuestFlagGraphic::MapGraphic
    } else if v == 2 {
        QuestFlagGraphic::PlateGraphic
    } else {
        QuestFlagGraphic::NoGraphic
    }
}

impl QuestFlagGraphic {
    /// The wire value: no graphic 0, map 1, plate 2.
    pub fn as_u8(self) -> (r: u8)
        ensures
            r == quest_flag_graphic_value(self),
    {
        match self {
            QuestFlagGraphic::NoGraphic => 0,
            QuestFlagGraphic::MapGraphic => 1,
            QuestFlagGraphic::PlateGraphic => 2,
        }
    }

    /// The marker for a wire value; unknown values give no graphic.
    pub fn from_u8(v: u8) -> (r: Self)
        ensures
            r == quest_flag_graphic_of(v),
    {
        match v {
            1 => QuestFlagGraphic::MapGraphic,
            2 => QuestFlagGraphic::PlateGraphic,
            _ => QuestFlagGraphic::NoGraphic,
        }
    }
}

/// Every marker survives the trip through its wire value, and every wire
/// value below 3 survives the trip through its marker.
pub proof fn lemma_quest_flag_graphic_roundtrip(g: QuestFlagGraphic, v: u8)
    ensures
        quest_flag_graphic_of(quest_flag_graphic_value(g)) == g,
        v < 3 ==> quest_flag_graphic_value(quest_flag_graphic_of(v)) == v,
{
}

/// One ENPC a quest sequence has activated.
#[derive(Debug, Clone, Copy, PartialEq, Eq, Structural)]
pub struct QuestEnpc {
    pub actor_class_id: u32,
    pub quest_flag_type: u8,
    pub is_spawned: bool,
    pub is_talk_enabled: bool,
    pub is_emote_enabled: bool,
    pub is_push_enabled: bool,
}

/// Whether two ENPC entries differ in a field the client is told about
/// (the actor class is not one of them).
pub open spec fn enpc_changed(a: QuestEnpc, b: QuestEnpc) -> bool {
    a.quest_flag_type != b.quest_flag_type || a.is_spawned != b.is_spawned || a.is_talk_enabled
        != b.is_talk_enabled || a.is_emote_enabled != b.is_emote_enabled || a.is_push_enabled
        != b.is_push_enabled
}

impl QuestEnpc {
    pub fn new(
        actor_class_id: u32,
        quest_flag_type: u8,
        is_spawned: bool,
        is_talk_enabled: bool,
        is_emote_enabled: bool,
        is_push_enabled: bool,
    ) -> (r: Self)
        ensures
            r == (QuestEnpc {
                actor_class_id,
                quest_flag_type,
                is_spawned,
                is_talk_enabled,
                is_emote_enabled,
                is_push_enabled,
            }),
    {
        QuestEnpc {
            actor_class_id,
            quest_flag_type,
            is_spawned,
            is_talk_enabled,
            is_emote_enabled,
            is_push_enabled,
        }
    }

    /// Whether `other` differs from this entry in a broadcast field.
    pub fn is_changed(&self, other: &Self) -> (r: bool)
        ensures
            r == enpc_changed(*self, *other),
    {
        self.quest_flag_type != other.quest_flag_type || self.is_spawned != other.is_spawned
            || self.is_talk_enabled != other.is_talk_enabled || self.is_emote_enabled
            != other.is_emote_enabled || self.is_push_enabled != other.is_push_enabled
    }
}

/// What [`QuestState::add_enpc`] tells the caller to broadcast.
#[derive(Debug, Clone, Copy, PartialEq, Eq, Structural)]
pub enum AddEnpcOutcome {
    /// The previous sequence had the same entry: nothing to send.
    Unchanged,
    /// The previous sequence had the ENPC in another state: resync it.
    Updated(QuestEnpc),
    /// The ENPC is new to this sequence: activate it.
    New(QuestEnpc),
}

/// The ENPCs the current quest sequence activated (`current`, keyed by
/// actor class), those the previous sequence had (`old`), and the actor
/// classes whose push hook already fired in this sequence.
#[derive(Debug)]
pub struct QuestState {
    pub current: HashMap<u32, QuestEnpc>,
    pub old: HashMap<u32, QuestEnpc>,
    pub recently_pushed: HashSet<u32>,
}

/// A copy of a set of actor classes.
pub(crate) fn copy_class_set(s: &HashSet<u32>) -> (r: HashSet<u32>)
    ensures
        r@ == s@,
{
    let mut r: HashSet<u32> = HashSet::new();
    let ghost m = s@;
    for k in it: s.iter()
        invariant
            m == s@,
            it.seq().unref().to_set() == m,
            forall|i: int| 0 <= i < it.index() ==> r@.contains(*it.seq()[i]),
            forall|x: u32| r@.contains(x) ==> m.contains(x),
            it.index() == it.seq().len() ==> r@ == m,
    {
        r.insert(*k);
        proof {
            assert(m.contains(*k)) by {
                assert(it.seq().unref()[it.index() as int] == *k);
            }
            assert forall|x: u32| m.contains(x) && it.index() + 1 == it.seq().len() implies r@.contains(
                x,
            ) by {
                let i = choose|i: int| 0 <= i < it.seq().len() && it.seq().unref()[i] == x;
                assert(it.seq().unref()[i] == *it.seq()[i]);
            }
            assert(it.index() + 1 == it.seq().len() ==> r@ =~= m);
        }
    }
    r
}

impl Clone for QuestState {
    /// An independent copy with the same maps and set.
    fn clone(&self) -> (r: Self)
        ensures
            r.current@ == self.current@,
            r.old@ == self.old@,
            r.recently_pushed@ == self.recently_pushed@,
    {
        QuestState {
            current: self.current.clone(),
            old: self.old.clone(),
            recently_pushed: copy_class_set(&self.recently_pushed),
        }
    }
}

impl Default for QuestState {
    /// Empty, as [`QuestState::new`].
    fn default() -> (r: Self)
        ensures
            r.current@ == Map::<u32, QuestEnpc>::empty(),
            r.old@ == Map::<u32, QuestEnpc>::empty(),
            r.recently_pushed@ == Set::<u32>::empty(),
    {
        QuestState::new()
    }
}

impl QuestState {
    /// No ENPCs, nothing pushed.
    pub fn new() -> (r: Self)
        ensures
            r.current@ == Map::<u32, QuestEnpc>::empty(),
            r.old@ == Map::<u32, QuestEnpc>::empty(),
            r.recently_pushed@ == Set::<u32>::empty(),
    {
        QuestState { current: HashMap::new(), old: HashMap::new(), recently_pushed: HashSet::new() }
    }

    /// Registers `enpc` in the current sequence, taking it out of `old` if
    /// the previous sequence had it: `New` when it had not, `Unchanged`
    /// when it had the same broadcast state, `Updated` otherwise.
    pub fn add_enpc(&mut self, enpc: QuestEnpc) -> (r: AddEnpcOutcome)
        ensures
            final(self).current@ == old(self).current@.insert(enpc.actor_class_id, enpc),
            final(self).recently_pushed@ == old(self).recently_pushed@,
            old(self).old@.contains_key(enpc.actor_class_id) ==> {
                &&& final(self).old@ == old(self).old@.remove(enpc.actor_class_id)
                &&& r == if enpc_changed(old(self).old@[enpc.actor_class_id], enpc) {
                    AddEnpcOutcome::Updated(enpc)
                } else {
                    AddEnpcOutcome::Unchanged
                }
            },
            !old(self).old@.contains_key(enpc.actor_class_id) ==> {
                &&& final(self).old@ == old(self).old@
                &&& r == AddEnpcOutcome::New(enpc)
            },
    {
        let class_id = enpc.actor_class_id;
        match self.old.remove(&class_id) {
            Some(existing) => {
                let changed = existing.is_changed(&enpc);
                self.current.insert(class_id, enpc);
                if changed {
                    AddEnpcOutcome::Updated(enpc)
                } else {
                    AddEnpcOutcome::Unchanged
                }
            },
            None => {
                self.current.insert(class_id, enpc);
                AddEnpcOutcome::New(enpc)
            },
        }
    }

    /// The current sequence's entry for `class_id`.
    pub fn get_enpc(&self, class_id: u32) -> (r: Option<&QuestEnpc>)
        ensures
            match r {
                Some(e) => self.current@.contains_key(class_id) && *e == self.current@[class_id],
                None => !self.current@.contains_key(class_id),
            },
    {
        self.current.get(&class_id)
    }

    /// Whether the current sequence activated `class_id`.
    pub fn has_enpc(&self, class_id: u32) -> (r: bool)
        ensures
            r == self.current@.contains_key(class_id),
    {
        self.current.contains_key(&class_id)
    }

    /// Starts a new sequence: the current ENPCs become `old`, `current`
    /// starts empty, and push hooks may fire again.
    pub fn begin_sequence_swap(&mut self)
        ensures
            final(self).old@ == old(self).current@,
            final(self).current@ == Map::<u32, QuestEnpc>::empty(),
            final(self).recently_pushed@ == Set::<u32>::empty(),
    {
        let mut taken: HashMap<u32, QuestEnpc> = HashMap::new();
        std::mem::swap(&mut taken, &mut self.current);
        self.old = taken;
        self.recently_pushed.clear();
    }

    /// Hands out (in no particular order) and forgets every ENPC the new
    /// sequence did not re-register.
    pub fn drain_stale_enpcs(&mut self) -> (r: Vec<QuestEnpc>)
        ensures
            r@.len() == old(self).old@.len(),
            r@.to_set() == old(self).old@.values(),
            final(self).old@ == Map::<u32, QuestEnpc>::empty(),
            final(self).current@ == old(self).current@,
            final(self).recently_pushed@ == old(self).recently_pushed@,
    {
        let mut r: Vec<QuestEnpc> = Vec::new();
        let ghost m = self.old@;
        for e in it: self.old.values()
            invariant
                m == self.old@,
                r@.len() == it.index(),
                it.seq().unref().to_set() == m.values(),
                it.seq().len() == m.len(),
                forall|i: int| 0 <= i < r@.len() ==> r@[i] == *it.seq()[i],
                r@.len() == it.seq().len() ==> r@.to_set() == m.values() && r@.len() == m.len(),
        {
            r.push(*e);
            proof {
                assert(r@.len() == it.seq().len() ==> r@ =~= it.seq().unref());
            }
        }
        self.old.clear();
        r
    }

    /// Forgets every current and old ENPC.
    pub fn clear(&mut self)
        ensures
            final(self).current@ == Map::<u32, QuestEnpc>::empty(),
            final(self).old@ == Map::<u32, QuestEnpc>::empty(),
            final(self).recently_pushed@ == old(self).recently_pushed@,
    {
        self.current.clear();
        self.old.clear();
    }
}


/// One journal slot: the quest actor, its script name, its current
/// sequence, its flags and counters, and the ENPCs its sequence activated.
#[derive(Debug, Clone)]
pub struct Quest {
    pub actor_id: u32,
    pub name: String,
    pub sequence: u32,
    pub data: QuestData,
    pub state: QuestState,
}

/// A quest state with no ENPCs and nothing pushed.
pub open spec fn quest_state_is_empty(s: QuestState) -> bool {
    &&& s.current@ == Map::<u32, QuestEnpc>::empty()
    &&& s.old@ == Map::<u32, QuestEnpc>::empty()
    &&& s.recently_pushed@ == Set::<u32>::empty()
}

impl Quest {
    /// A fresh quest at sequence 0 with clear data.
    pub fn new(actor_id: u32, name: &str) -> (r: Self)
        ensures
            r.actor_id == actor_id,
            r.name@ == name@,
            r.sequence == 0,
            r.data@ == QuestDataModel::zero(),
            quest_state_is_empty(r.state),
    {
        Quest {
            actor_id,
            name: name.to_owned(),
            sequence: 0,
            data: QuestData::new(),
            state: QuestState::new(),
        }
    }

    /// Loads a stored quest row; the ENPC state starts empty and the data
    /// is not dirty.
    pub fn from_db_row(
        actor_id: u32,
        name: &str,
        sequence: u32,
        flags: u32,
        counter1: u16,
        counter2: u16,
        counter3: u16,
    ) -> (r: Self)
        ensures
            r.actor_id == actor_id,
            r.name@ == name@,
            r.sequence == sequence,
            r.data@ == (QuestDataModel { flags, counter1, counter2, counter3, ..QuestDataModel::zero() }),
            quest_state_is_empty(r.state),
    {
        Self::from_db_row_with_npc_ls(
            actor_id,
            name,
            sequence,
            flags,
            counter1,
            counter2,
            counter3,
            0,
            0,
        )
    }

    /// Loads a stored quest row including the NPC linkshell scratchpad.
    pub fn from_db_row_with_npc_ls(
        actor_id: u32,
        name: &str,
        sequence: u32,
        flags: u32,
        counter1: u16,
        counter2: u16,
        counter3: u16,
        npc_ls_from: u32,
        npc_ls_msg_step: u8,
    ) -> (r: Self)
        ensures
            r.actor_id == actor_id,
            r.name@ == name@,
            r.sequence == sequence,
            r.data@ == (QuestDataModel {
                flags,
                counter1,
                counter2,
                counter3,
                npc_ls_from,
                npc_ls_msg_step,
                dirty: false,
            }),
            quest_state_is_empty(r.state),
    {
        Quest {
            actor_id,
            name: name.to_owned(),
            sequence,
            data: QuestData::from_parts_with_npc_ls(
                flags,
                counter1,
                counter2,
                counter3,
                npc_ls_from,
                npc_ls_msg_step,
            ),
            state: QuestState::new(),
        }
    }

    /// The quest id carried by the actor id.
    pub fn quest_id(&self) -> (r: u32)
        ensures
            r == self.actor_id & QUEST_ID_MASK,
    {
        quest_id_from_actor(self.actor_id)
    }

    pub fn get_sequence(&self) -> (r: u32)
        ensures
            r == self.sequence,
    {
        self.sequence
    }

    /// Moves to `sequence` and marks the data dirty.
    pub fn start_sequence(&mut self, sequence: u32)
        ensures
            final(self).sequence == sequence,
            final(self).data@ == old(self).data@.touched(),
            final(self).actor_id == old(self).actor_id,
            final(self).name == old(self).name,
            final(self).state == old(self).state,
    {
        self.sequence = sequence;
        self.data.dirty = true;
    }

    /// See [`QuestData::set_flag`].
    pub fn set_flag(&mut self, index: u8)
        ensures
            index >= 32 ==> final(self).data@ == old(self).data@,
            index < 32 ==> final(self).data@ == (QuestDataModel {
                flags: flags_with(old(self).data@.flags, index),
                dirty: true,
                ..old(self).data@
            }),
            final(self).actor_id == old(self).actor_id,
            final(self).name == old(self).name,
            final(self).sequence == old(self).sequence,
            final(self).state == old(self).state,
    {
        self.data.set_flag(index);
    }

    /// See [`QuestData::clear_flag`].
    pub fn clear_flag(&mut self, index: u8)
        ensures
            index >= 32 ==> final(self).data@ == old(self).data@,
            index < 32 ==> final(self).data@ == (QuestDataModel {
                flags: flags_without(old(self).data@.flags, index),
                dirty: true,
                ..old(self).data@
            }),
            final(self).actor_id == old(self).actor_id,
            final(self).name == old(self).name,
            final(self).sequence == old(self).sequence,
            final(self).state == old(self).state,
    {
        self.data.clear_flag(index);
    }

    /// See [`QuestData::get_flag`].
    pub fn get_flag(&self, index: u8) -> (r: bool)
        ensures
            r == flag_is_set(self.data@.flags, index),
    {
        self.data.get_flag(index)
    }

    /// The flag word.
    pub fn get_flags(&self) -> (r: u32)
        ensures
            r == self.data@.flags,
    {
        self.data.flags()
    }

    /// See [`QuestData::counter`].
    pub fn get_counter(&self, idx: usize) -> (r: u16)
        ensures
            r == self.data@.counter(idx as int),
    {
        self.data.counter(idx)
    }

    /// See [`QuestData::set_counter`].
    pub fn set_counter(&mut self, idx: usize, value: u16)
        ensures
            idx >= 3 ==> final(self).data@ == old(self).data@,
            idx < 3 ==> final(self).data@ == old(self).data@.with_counter(idx as int, value).touched(),
            final(self).actor_id == old(self).actor_id,
            final(self).name == old(self).name,
            final(self).sequence == old(self).sequence,
            final(self).state == old(self).state,
    {
        self.data.set_counter(idx, value);
    }

    /// See [`QuestData::inc_counter`].
    pub fn inc_counter(&mut self, idx: usize) -> (r: u16)
        ensures
            idx >= 3 ==> r == 0 && final(self).data@ == old(self).data@,
            idx < 3 ==> r == (if old(self).data@.counter(idx as int) == 0xFFFF { 0 } else { old(
                self,
            ).data@.counter(idx as int) + 1 }),
            idx < 3 ==> final(self).data@ == old(self).data@.with_counter(idx as int, r).touched(),
            final(self).actor_id == old(self).actor_id,
            final(self).name == old(self).name,
            final(self).sequence == old(self).sequence,
            final(self).state == old(self).state,
    {
        self.data.inc_counter(idx)
    }

    /// See [`QuestData::dec_counter`].
    pub fn dec_counter(&mut self, idx: usize) -> (r: u16)
        ensures
            idx >= 3 ==> r == 0 && final(self).data@ == old(self).data@,
            idx < 3 ==> r == (if old(self).data@.counter(idx as int) == 0 { 0xFFFF } else { old(
                self,
            ).data@.counter(idx as int) - 1 }),
            idx < 3 ==> final(self).data@ == old(self).data@.with_counter(idx as int, r).touched(),
            final(self).actor_id == old(self).actor_id,
            final(self).name == old(self).name,
            final(self).sequence == old(self).sequence,
            final(self).state == old(self).state,
    {
        self.data.dec_counter(idx)
    }

    pub fn get_npc_ls_from(&self) -> (r: u32)
        ensures
            r == self.data@.npc_ls_from,
    {
        self.data.npc_ls_from()
    }

    pub fn get_npc_ls_msg_step(&self) -> (r: u8)
        ensures
            r == self.data@.npc_ls_msg_step,
    {
        self.data.npc_ls_msg_step()
    }

    /// See [`QuestData::set_npc_ls_from`].
    pub fn set_npc_ls_from(&mut self, from: u32)
        ensures
            final(self).data@ == (QuestDataModel { npc_ls_from: from, dirty: true, ..old(self).data@ }),
            final(self).actor_id == old(self).actor_id,
            final(self).name == old(self).name,
            final(self).sequence == old(self).sequence,
            final(self).state == old(self).state,
    {
        self.data.set_npc_ls_from(from);
    }

    /// See [`QuestData::inc_npc_ls_msg_step`].
    pub fn inc_npc_ls_msg_step(&mut self) -> (r: u8)
        ensures
            r == (if old(self).data@.npc_ls_msg_step == 255 { 255 } else { old(
                self,
            ).data@.npc_ls_msg_step + 1 }),
            final(self).data@ == (QuestDataModel { npc_ls_msg_step: r, dirty: true, ..old(self).data@ }),
            final(self).actor_id == old(self).actor_id,
            final(self).name == old(self).name,
            final(self).sequence == old(self).sequence,
            final(self).state == old(self).state,
    {
        self.data.inc_npc_ls_msg_step()
    }

    /// See [`QuestData::clear_npc_ls`].
    pub fn clear_npc_ls(&mut self)
        ensures
            final(self).data@ == (QuestDataModel {
                npc_ls_from: 0,
                npc_ls_msg_step: 0,
                dirty: true,
                ..old(self).data@
            }),
            final(self).actor_id == old(self).actor_id,
            final(self).name == old(self).name,
            final(self).sequence == old(self).sequence,
            final(self).state == old(self).state,
    {
        self.data.clear_npc_ls();
    }

    /// See [`QuestData::clear`].
    pub fn clear_data(&mut self)
        ensures
            final(self).data@ == QuestDataModel::zero().touched(),
            final(self).actor_id == old(self).actor_id,
            final(self).name == old(self).name,
            final(self).sequence == old(self).sequence,
            final(self).state == old(self).state,
    {
        self.data.clear();
    }

    /// Clears every flag (counters and scratchpad stay) and marks the data
    /// dirty.
    pub fn clear_flags(&mut self)
        ensures
            final(self).data@ == (QuestDataModel { flags: 0, dirty: true, ..old(self).data@ }),
            final(self).actor_id == old(self).actor_id,
            final(self).name == old(self).name,
            final(self).sequence == old(self).sequence,
            final(self).state == old(self).state,
    {
        self.data.flags = 0;
        self.data.dirty = true;
    }

    pub fn is_dirty(&self) -> (r: bool)
        ensures
            r == self.data@.dirty,
    {
        self.data.is_dirty()
    }

    pub fn clear_dirty(&mut self)
        ensures
            final(self).data@ == (QuestDataModel { dirty: false, ..old(self).data@ }),
            final(self).actor_id == old(self).actor_id,
            final(self).name == old(self).name,
            final(self).sequence == old(self).sequence,
            final(self).state == old(self).state,
    {
        self.data.clear_dirty();
    }
}


/// Whether a journal slot holds the quest `quest_id`.
pub open spec fn slot_holds(slot: Option<Quest>, quest_id: u32) -> bool {
    slot matches Some(q) && q.actor_id & QUEST_ID_MASK == quest_id
}

/// Whether a journal slot holds a quest named `name`.
pub open spec fn slot_named(slot: Option<Quest>, name: Seq<char>) -> bool {
    slot matches Some(q) && q.name@ == name
}

/// `i` is the first slot holding `quest_id`.
pub open spec fn first_slot_holding(slots: Seq<Option<Quest>>, quest_id: u32, i: int) -> bool {
    &&& 0 <= i < slots.len()
    &&& slot_holds(slots[i], quest_id)
    &&& forall|j: int| 0 <= j < i ==> !slot_holds(#[trigger] slots[j], quest_id)
}

/// No slot holds `quest_id`.
pub open spec fn no_slot_holds(slots: Seq<Option<Quest>>, quest_id: u32) -> bool {
    forall|j: int| 0 <= j < slots.len() ==> !slot_holds(#[trigger] slots[j], quest_id)
}

/// `i` is the first empty slot.
pub open spec fn first_free_slot(slots: Seq<Option<Quest>>, i: int) -> bool {
    &&& 0 <= i < slots.len()
    &&& slots[i] is None
    &&& forall|j: int| 0 <= j < i ==> #[trigger] slots[j] is Some
}

/// The completion state of `quest_id` in a completion field: ids without a
/// completion bit never count as completed.
pub open spec fn completed_in(bits: Seq<u8>, quest_id: u32) -> bool {
    match quest_bit_of(quest_id) {
        Some(b) => bit_at(bits, b as int),
        None => false,
    }
}

/// Sixteen active quest slots and the 2048-bit field of completed quests.
#[derive(Debug, Clone)]
pub struct QuestJournal {
    pub slots: [Option<Quest>; 16],
    pub completed: Bitstream2048,
}

impl Default for QuestJournal {
    /// Empty, as [`QuestJournal::new`].
    fn default() -> (r: Self)
        ensures
            forall|i: int| 0 <= i < 16 ==> #[trigger] r.slots@[i] is None,
            r.completed@ == Seq::new(256, |i: int| 0u8),
    {
        QuestJournal::new()
    }
}

impl QuestJournal {
    /// No active quests, nothing completed.
    pub fn new() -> (r: Self)
        ensures
            forall|i: int| 0 <= i < 16 ==> #[trigger] r.slots@[i] is None,
            r.completed@ == Seq::new(256, |i: int| 0u8),
    {
        QuestJournal {
            slots: [
                None,
                None,
                None,
                None,
                None,
                None,
                None,
                None,
                None,
                None,
                None,
                None,
                None,
                None,
                None,
                None,
            ],
            completed: Bitstream2048::new(),
        }
    }

    /// The first empty slot, if any.
    pub fn get_free_slot(&self) -> (r: Option<usize>)
        ensures
            match r {
                Some(i) => first_free_slot(self.slots@, i as int),
                None => forall|j: int| 0 <= j < 16 ==> #[trigger] self.slots@[j] is Some,
            },
    {
        let mut i: usize = 0;
        while i < 16
            invariant
                i <= 16,
                forall|j: int| 0 <= j < i ==> #[trigger] self.slots@[j] is Some,
            decreases 16 - i,
        {
            if self.slots[i].is_none() {
                return Some(i);
            }
            i = i + 1;
        }
        None
    }

    /// The first slot holding `quest_id`, if any.
    pub fn slot_of(&self, quest_id: u32) -> (r: Option<usize>)
        ensures
            match r {
                Some(i) => first_slot_holding(self.slots@, quest_id, i as int),
                None => no_slot_holds(self.slots@, quest_id),
            },
    {
        let mut i: usize = 0;
        while i < 16
            invariant
                i <= 16,
                forall|j: int| 0 <= j < i ==> !slot_holds(#[trigger] self.slots@[j], quest_id),
            decreases 16 - i,
        {
            match &self.slots[i] {
                Some(q) => {
                    if q.quest_id() == quest_id {
                        return Some(i);
                    }
                },
                None => {},
            }
            i = i + 1;
        }
        None
    }

    /// Whether some slot holds `quest_id`.
    pub fn has(&self, quest_id: u32) -> (r: bool)
        ensures
            r == !no_slot_holds(self.slots@, quest_id),
    {
        self.slot_of(quest_id).is_some()
    }

    /// Whether some slot holds a quest named `name`.
    pub fn has_by_name(&self, name: &str) -> (r: bool)
        ensures
            r == exists|j: int| 0 <= j < 16 && slot_named(#[trigger] self.slots@[j], name@),
    {
        let wanted = name.to_owned();
        let mut i: usize = 0;
        while i < 16
            invariant
                i <= 16,
                wanted@ == name@,
                forall|j: int| 0 <= j < i ==> !slot_named(#[trigger] self.slots@[j], name@),
            decreases 16 - i,
        {
            match &self.slots[i] {
                Some(q) => {
                    if q.name == wanted {
                        assert(slot_named(self.slots@[i as int], name@));
                        return true;
                    }
                },
                None => {},
            }
            i = i + 1;
        }
        false
    }

    /// The quest `quest_id` in its first slot, if any.
    pub fn get(&self, quest_id: u32) -> (r: Option<&Quest>)
        ensures
            match r {
                Some(q) => exists|i: int|
                    first_slot_holding(self.slots@, quest_id, i) && #[trigger] self.slots@[i] == Some(
                        *q,
                    ),
                None => no_slot_holds(self.slots@, quest_id),
            },
    {
        match self.slot_of(quest_id) {
            Some(i) => self.slots[i].as_ref(),
            None => None,
        }
    }

    /// Puts `quest` in the first empty slot and returns that slot; with no
    /// empty slot the journal is unchanged and the quest is dropped.
    pub fn add(&mut self, quest: Quest) -> (r: Option<usize>)
        ensures
            final(self).completed == old(self).completed,
            match r {
                Some(i) => first_free_slot(old(self).slots@, i as int) && final(self).slots@ == old(
                    self,
                ).slots@.update(i as int, Some(quest)),
                None => final(self).slots@ == old(self).slots@ && forall|j: int|
                    0 <= j < 16 ==> #[trigger] old(self).slots@[j] is Some,
            },
    {
        match self.get_free_slot() {
            Some(slot) => {
                self.slots[slot] = Some(quest);
                Some(slot)
            },
            None => None,
        }
    }

    /// Takes the quest `quest_id` out of its first slot, leaving the slot
    /// empty.
    pub fn remove(&mut self, quest_id: u32) -> (r: Option<Quest>)
        ensures
            final(self).completed == old(self).completed,
            match r {
                Some(q) => exists|i: int|
                    first_slot_holding(old(self).slots@, quest_id, i) && old(self).slots@[i] == Some(
                        q,
                    ) && #[trigger] final(self).slots@ == old(self).slots@.update(i, None),
                None => no_slot_holds(old(self).slots@, quest_id) && final(self).slots@ == old(
                    self,
                ).slots@,
            },
    {
        match self.slot_of(quest_id) {
            Some(slot) => {
                let mut taken: Option<Quest> = None;
                std::mem::swap(&mut taken, &mut self.slots[slot]);
                assert(self.slots@ == old(self).slots@.update(slot as int, None));
                taken
            },
            None => None,
        }
    }

    /// The quest `quest_id` in its first slot, for changing in place.
    pub fn get_mut(&mut self, quest_id: u32) -> (r: Option<&mut Quest>)
        ensures
            final(self).completed == old(self).completed,
            match r {
                Some(q) => exists|i: int|
                    first_slot_holding(old(self).slots@, quest_id, i) && old(self).slots@[i] == Some(
                        *q,
                    ) && #[trigger] final(self).slots@ == old(self).slots@.update(i, Some(*final(q))),
                None => no_slot_holds(old(self).slots@, quest_id) && final(self).slots@ == old(
                    self,
                ).slots@,
            },
    {
        match self.slot_of(quest_id) {
            Some(slot) => self.slots[slot].as_mut(),
            None => None,
        }
    }

    /// Removes `quest_id` from its first slot (if there) and records it as
    /// completed (if it has a completion bit).
    pub fn complete(&mut self, quest_id: u32)
        ensures
            no_slot_holds(old(self).slots@, quest_id) ==> final(self).slots@ == old(self).slots@,
            forall|i: int|
                first_slot_holding(old(self).slots@, quest_id, i) ==> #[trigger] final(self).slots@
                    == old(self).slots@.update(i, None),
            match quest_bit_of(quest_id) {
                Some(b) => bits_after_write(old(self).completed@, final(self).completed@, b as int, true),
                None => final(self).completed == old(self).completed,
            },
    {
        self.remove(quest_id);
        match quest_id_to_bit(quest_id) {
            Some(bit) => self.completed.set(bit),
            None => {},
        }
    }

    /// Records `quest_id` as completed or not; ids without a completion bit
    /// change nothing.
    pub fn set_completed(&mut self, quest_id: u32, done: bool)
        ensures
            final(self).slots == old(self).slots,
            match quest_bit_of(quest_id) {
                Some(b) => bits_after_write(old(self).completed@, final(self).completed@, b as int, done),
                None => final(self).completed == old(self).completed,
            },
    {
        match quest_id_to_bit(quest_id) {
            Some(bit) => {
                if done {
                    self.completed.set(bit);
                } else {
                    self.completed.clear(bit);
                }
            },
            None => {},
        }
    }

    /// Whether `quest_id` is recorded as completed.
    pub fn is_completed(&self, quest_id: u32) -> (r: bool)
        ensures
            r == completed_in(self.completed@, quest_id),
    {
        match quest_id_to_bit(quest_id) {
            Some(bit) => self.completed.get(bit),
            None => false,
        }
    }

    /// Whether `quest_id` could be taken on: not active, not completed, and
    /// a slot is free.
    pub fn can_accept(&self, quest_id: u32) -> (r: bool)
        ensures
            r == (no_slot_holds(self.slots@, quest_id) && !completed_in(self.completed@, quest_id)
                && exists|j: int| 0 <= j < 16 && #[trigger] self.slots@[j] is None),
    {
        let free = self.get_free_slot();
        proof {
            if let Some(i) = free {
                assert(self.slots@[i as int] is None);
            }
        }
        !self.has(quest_id) && !self.is_completed(quest_id) && free.is_some()
    }

    /// Every completed quest id, in increasing order.
    pub fn iter_completed(&self) -> (r: Vec<u32>)
        ensures
            forall|j: int, k: int| 0 <= j < k < r@.len() ==> r@[j] < r@[k],
            forall|j: int| 0 <= j < r@.len() ==> completed_in(self.completed@, #[trigger] r@[j]),
            forall|id: u32| #[trigger] completed_in(self.completed@, id) ==> r@.contains(id),
    {
        let bits = self.completed.iter_set();
        proof {
            self.completed.lemma_len();
        }
        let mut r: Vec<u32> = Vec::new();
        let mut i: usize = 0;
        while i < bits.len()
            invariant
                i <= bits@.len(),
                r@.len() == i,
                self.completed@.len() == 256,
                forall|j: int, k: int| 0 <= j < k < bits@.len() ==> bits@[j] < bits@[k],
                forall|j: int| 0 <= j < bits@.len() ==> bit_at(self.completed@, bits@[j] as int),
                forall|j: int| 0 <= j < i ==> #[trigger] r@[j] == QUEST_ID_BITSTREAM_BASE + bits@[j],
            decreases bits@.len() - i,
        {
            assert(bits@[i as int] < 2048);
            r.push(QUEST_ID_BITSTREAM_BASE + bits[i] as u32);
            i = i + 1;
        }
        assert forall|j: int| 0 <= j < r@.len() implies completed_in(
            self.completed@,
            #[trigger] r@[j],
        ) by {
            assert(bits@[j] < 2048);
            assert(quest_bit_of(r@[j]) == Some(bits@[j]));
        }
        assert forall|id: u32| #[trigger] completed_in(self.completed@, id) implies r@.contains(id) by {
            let b = quest_bit_of(id)->0;
            assert(bit_at(self.completed@, b as int));
            let j = choose|j: int| 0 <= j < bits@.len() && bits@[j] == b;
            assert(r@[j] == id);
        }
        r
    }
}


/// Writing a quest's completion bit makes it read back as written and
/// leaves every other quest's completion as it was.
pub proof fn lemma_completion_write_read(
    old_bits: Seq<u8>,
    new_bits: Seq<u8>,
    quest_id: u32,
    other: u32,
    done: bool,
)
    requires
        old_bits.len() == 256,
        quest_bit_of(quest_id) is Some,
        bits_after_write(old_bits, new_bits, quest_bit_of(quest_id)->0 as int, done),
    ensures
        completed_in(new_bits, quest_id) == done,
        other != quest_id ==> completed_in(new_bits, other) == completed_in(old_bits, other),
{
    let b = quest_bit_of(quest_id)->0 as int;
    assert(bit_at(new_bits, b) == done);
    if other != quest_id {
        if let Some(ob) = quest_bit_of(other) {
            assert(bit_at(new_bits, ob as int) == bit_at(old_bits, ob as int));
        }
    }
}

/// Emptying the slot that holds a quest leaves no slot holding it, when no
/// other slot held the same quest.
pub proof fn lemma_remove_unique(slots: Seq<Option<Quest>>, quest_id: u32, i: int)
    requires
        first_slot_holding(slots, quest_id, i),
        forall|j: int| 0 <= j < slots.len() && j != i ==> !slot_holds(#[trigger] slots[j], quest_id),
    ensures
        no_slot_holds(slots.update(i, None), quest_id),
{
    assert forall|j: int| 0 <= j < slots.len() implies !slot_holds(
        #[trigger] slots.update(i, None)[j],
        quest_id,
    ) by {
        if j != i {
            assert(slots.update(i, None)[j] == slots[j]);
        }
    }
}

/// The first index of `id` among guildleve slots.
pub open spec fn first_leve_slot(ids: Seq<u16>, id: u16, i: int) -> bool {
    &&& 0 <= i < ids.len()
    &&& ids[i] == id
    &&& forall|j: int| 0 <= j < i ==> #[trigger] ids[j] != id
}

/// Eight guildleve slots; an empty slot holds 0.
#[derive(Debug, Clone, Copy, PartialEq, Eq)]
pub struct GuildleveJournal {
    pub ids: [u16; 8],
}

impl Default for GuildleveJournal {
    /// All slots empty, as [`GuildleveJournal::new`].
    fn default() -> (r: Self)
        ensures
            r.ids@ == Seq::new(8, |i: int| 0u16),
    {
        GuildleveJournal::new()
    }
}

impl GuildleveJournal {
    /// All slots empty.
    pub fn new() -> (r: Self)
        ensures
            r.ids@ == Seq::new(8, |i: int| 0u16),
    {
        let r = GuildleveJournal { ids: [0u16; 8] };
        assert(r.ids@ =~= Seq::new(8, |i: int| 0u16));
        r
    }

    /// The index of the first slot holding `id`.
    fn position_of(&self, id: u16) -> (r: Option<usize>)
        ensures
            match r {
                Some(i) => first_leve_slot(self.ids@, id, i as int),
                None => !self.ids@.contains(id),
            },
    {
        let mut i: usize = 0;
        while i < 8
            invariant
                i <= 8,
                forall|j: int| 0 <= j < i ==> #[trigger] self.ids@[j] != id,
            decreases 8 - i,
        {
            if self.ids[i] == id {
                return Some(i);
            }
            i = i + 1;
        }
        None
    }

    /// The first empty slot, if any.
    pub fn get_free_slot(&self) -> (r: Option<usize>)
        ensures
            match r {
                Some(i) => first_leve_slot(self.ids@, 0, i as int),
                None => !self.ids@.contains(0),
            },
    {
        self.position_of(0)
    }

    /// Whether a slot holds `id` truncated to 16 bits.
    pub fn has(&self, id: u32) -> (r: bool)
        ensures
            r == self.ids@.contains(id as u16),
    {
        self.position_of(id as u16).is_some()
    }

    /// Puts `id` in the first empty slot and returns it; with no empty slot
    /// nothing changes.
    pub fn add(&mut self, id: u16) -> (r: Option<usize>)
        ensures
            match r {
                Some(i) => first_leve_slot(old(self).ids@, 0, i as int) && final(self).ids@ == old(
                    self,
                ).ids@.update(i as int, id),
                None => !old(self).ids@.contains(0) && final(self).ids@ == old(self).ids@,
            },
    {
        match self.get_free_slot() {
            Some(slot) => {
                self.ids[slot] = id;
                Some(slot)
            },
            None => None,
        }
    }

    /// Empties the first slot holding `id` truncated to 16 bits; `false`
    /// when none does.
    pub fn remove(&mut self, id: u32) -> (r: bool)
        ensures
            r == old(self).ids@.contains(id as u16),
            r ==> exists|i: int|
                first_leve_slot(old(self).ids@, id as u16, i) && #[trigger] final(self).ids@ == old(
                    self,
                ).ids@.update(i, 0),
            !r ==> final(self).ids@ == old(self).ids@,
    {
        match self.position_of(id as u16) {
            Some(slot) => {
                self.ids[slot] = 0;
                assert(self.ids@ == old(self).ids@.update(slot as int, 0));
                true
            },
            None => false,
        }
    }
}

} // verus!
