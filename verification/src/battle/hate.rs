//! Enmity bookkeeping: which actors an enemy hates and how much, and which
//! of them it attacks next.

use std::collections::HashMap;
use std::collections::hash_map::Entry;
use vstd::prelude::*;

verus! {

broadcast use vstd::std_specs::hash::group_hash_axioms;

/// One hated actor: its accumulated enmity, volatile enmity, and whether it
/// is currently a valid target.
#[derive(Debug, Clone, Copy, PartialEq, Eq, Structural)]
pub struct HateEntry {
    pub actor_id: u32,
    pub cumulative_enmity: u32,
    pub volatile_enmity: u32,
    pub is_active: bool,
}

/// A freshly hated actor: base enmity 1, active.
pub open spec fn base_hate(actor_id: u32) -> HateEntry {
    HateEntry { actor_id, cumulative_enmity: 1, volatile_enmity: 0, is_active: true }
}

impl HateEntry {
    /// A new entry with the base enmity of 1, active.
    pub fn new(actor_id: u32) -> (r: Self)
        ensures
            r == base_hate(actor_id),
    {
        HateEntry { actor_id, cumulative_enmity: 1, volatile_enmity: 0, is_active: true }
    }
}

/// Whether entry `a` outranks entry `b` as a target: more cumulative
/// enmity, or the same enmity and a lower actor id.
pub open spec fn outranks(a: HateEntry, b: HateEntry) -> bool {
    a.cumulative_enmity > b.cumulative_enmity || (a.cumulative_enmity == b.cumulative_enmity
        && a.actor_id < b.actor_id)
}

/// The enmity `damage` adds: negative damage adds nothing.
pub open spec fn damage_enmity(damage: i32) -> u32 {
    if damage < 0 {
        0
    } else {
        damage as u32
    }
}

/// `a + b`, saturating at `u32::MAX`.
pub open spec fn saturating_sum(a: u32, b: u32) -> u32 {
    if a + b > u32::MAX {
        u32::MAX
    } else {
        (a + b) as u32
    }
}

/// The hate table of one actor, keyed by the hated actor's id.
#[derive(Debug, Clone)]
pub struct HateContainer {
    pub owner_actor_id: u32,
    entries: HashMap<u32, HateEntry>,
}

impl View for HateContainer {
    type V = Map<u32, HateEntry>;

    closed spec fn view(&self) -> Map<u32, HateEntry> {
        self.entries@
    }
}

impl HateContainer {
    /// The actor whose table this is.
    pub closed spec fn owner(&self) -> u32 {
        self.owner_actor_id
    }
}

impl Default for HateContainer {
    /// No owner (0) and no entries.
    fn default() -> (r: Self)
        ensures
            r.owner() == 0,
            r@ == Map::<u32, HateEntry>::empty(),
    {
        HateContainer::new(0)
    }
}

/// `winner` is the entry [`HateContainer::most_hated`] picks in `m`: an
/// active entry that no other active entry outranks.
pub open spec fn is_most_hated(m: Map<u32, HateEntry>, winner: HateEntry) -> bool {
    &&& m.values().contains(winner)
    &&& winner.is_active
    &&& forall|e: HateEntry| #[trigger] m.values().contains(e) && e.is_active ==> !outranks(e, winner)
}

/// The pick is deterministic, ties included: any two entries that both
/// qualify as most hated have the same actor id and the same enmity.
pub proof fn lemma_most_hated_unique(m: Map<u32, HateEntry>, a: HateEntry, b: HateEntry)
    requires
        is_most_hated(m, a),
        is_most_hated(m, b),
    ensures
        a.actor_id == b.actor_id,
        a.cumulative_enmity == b.cumulative_enmity,
{
    assert(!outranks(a, b));
    assert(!outranks(b, a));
}

/// No entry `x` is preferred over the pick `best`: with no pick, `x` is
/// inactive; otherwise an active `x` does not outrank it.
pub open spec fn best_beats(best: Option<HateEntry>, x: HateEntry) -> bool {
    match best {
        None => !x.is_active,
        Some(b) => x.is_active ==> !outranks(x, b),
    }
}

impl HateContainer {
    /// An empty table owned by `owner_actor_id`.
    pub fn new(owner_actor_id: u32) -> (r: Self)
        ensures
            r.owner() == owner_actor_id,
            r@ == Map::<u32, HateEntry>::empty(),
    {
        HateContainer { owner_actor_id, entries: HashMap::new() }
    }

    /// Starts hating `target_actor_id` with base enmity, unless it is
    /// already hated.
    pub fn add_base_hate(&mut self, target_actor_id: u32)
        ensures
            final(self).owner() == old(self).owner(),
            final(self)@ == if old(self)@.contains_key(target_actor_id) {
                old(self)@
            } else {
                old(self)@.insert(target_actor_id, base_hate(target_actor_id))
            },
    {
        if !self.entries.contains_key(&target_actor_id) {
            self.entries.insert(target_actor_id, HateEntry::new(target_actor_id));
        }
    }

    /// Adds the enmity of `damage` (none for negative damage, saturating)
    /// to `target_actor_id`, which starts with base enmity if it was not
    /// hated yet.
    pub fn update_hate(&mut self, target_actor_id: u32, damage: i32)
        ensures
            final(self).owner() == old(self).owner(),
            ({
                let before = if old(self)@.contains_key(target_actor_id) {
                    old(self)@[target_actor_id]
                } else {
                    base_hate(target_actor_id)
                };
                final(self)@ == old(self)@.insert(
                    target_actor_id,
                    HateEntry {
                        cumulative_enmity: saturating_sum(
                            before.cumulative_enmity,
                            damage_enmity(damage),
                        ),
                        ..before
                    },
                )
            }),
    {
        self.add_base_hate(target_actor_id);
        let delta: u32 = if damage < 0 {
            0
        } else {
            damage as u32
        };
        match self.entries.get(&target_actor_id) {
            Some(e) => {
                let mut entry = *e;
                entry.cumulative_enmity = entry.cumulative_enmity.saturating_add(delta);
                self.entries.insert(target_actor_id, entry);
            },
            None => {},
        }
    }

    /// Forgets `target_actor_id`, or every entry when `None`.
    pub fn clear_hate(&mut self, target_actor_id: Option<u32>)
        ensures
            final(self).owner() == old(self).owner(),
            final(self)@ == match target_actor_id {
                Some(id) => old(self)@.remove(id),
                None => Map::<u32, HateEntry>::empty(),
            },
    {
        match target_actor_id {
            Some(id) => {
                self.entries.remove(&id);
            },
            None => self.entries.clear(),
        }
    }

    /// Whether `target_actor_id` is hated.
    pub fn has_hate_for(&self, target_actor_id: u32) -> (r: bool)
        ensures
            r == self@.contains_key(target_actor_id),
    {
        self.entries.contains_key(&target_actor_id)
    }

    /// The entry for `target_actor_id`.
    pub fn get(&self, target_actor_id: u32) -> (r: Option<&HateEntry>)
        ensures
            match r {
                Some(e) => self@.contains_key(target_actor_id) && *e == self@[target_actor_id],
                None => !self@.contains_key(target_actor_id),
            },
    {
        self.entries.get(&target_actor_id)
    }

    /// The entry for `target_actor_id`, for changing in place.
    pub fn get_mut(&mut self, target_actor_id: u32) -> (r: Option<&mut HateEntry>)
        ensures
            final(self).owner() == old(self).owner(),
            match r {
                Some(e) => old(self)@.contains_key(target_actor_id) && *e == old(
                    self,
                )@[target_actor_id] && final(self)@ == old(self)@.insert(target_actor_id, *final(e)),
                None => !old(self)@.contains_key(target_actor_id) && final(self)@ == old(self)@,
            },
    {
        match self.entries.entry(target_actor_id) {
            Entry::Occupied(o) => Some(o.into_mut()),
            Entry::Vacant(_) => None,
        }
    }

    /// Every entry, in no particular order.
    pub fn entries(&self) -> (r: Vec<HateEntry>)
        ensures
            r@.len() == self@.len(),
            r@.to_set() == self@.values(),
    {
        let mut r: Vec<HateEntry> = Vec::new();
        let ghost m = self.entries@;
        for e in it: self.entries.values()
            invariant
                m == self.entries@,
                r@.len() == it.index(),
                it.seq().unref().to_set() == m.values(),
                it.seq().len() == m.len(),
                forall|i: int| 0 <= i < r@.len() ==> r@[i] == *it.seq()[i],
                r@.len() == it.seq().len() ==> r@.to_set() == m.values() && r@.len() == m.len(),
        {
            r.push(*e);
            proof {
                assert(r@.len() == it.seq().len() ==> r@ =~= it.seq().unref());
            }
        }
        r
    }

    /// Number of hated actors.
    pub fn len(&self) -> (r: usize)
        ensures
            r == self@.len(),
    {
        self.entries.len()
    }

    /// Whether no actor is hated.
    pub fn is_empty(&self) -> (r: bool)
        ensures
            r == (self@.len() == 0),
    {
        self.entries.len() == 0
    }

    /// The actor id of the active entry with the most cumulative enmity,
    /// ties going to the lowest actor id; `None` when no entry is active.
    pub fn most_hated(&self) -> (r: Option<u32>)
        ensures
            match r {
                None => forall|e: HateEntry| #[trigger] self@.values().contains(e) ==> !e.is_active,
                Some(id) => exists|w: HateEntry| is_most_hated(self@, w) && w.actor_id == id,
            },
    {
        let mut best: Option<HateEntry> = None;
        let ghost m = self.entries@;
        for e in it: self.entries.values()
            invariant
                m == self.entries@,
                it.seq().unref().to_set() == m.values(),
                match best {
                    None => forall|i: int| 0 <= i < it.index() ==> !(#[trigger] it.seq()[i]).is_active,
                    Some(b) => {
                        &&& b.is_active
                        &&& m.values().contains(b)
                        &&& forall|i: int|
                            0 <= i < it.index() && (#[trigger] it.seq()[i]).is_active ==> !outranks(
                                *it.seq()[i],
                                b,
                            )
                    },
                },
                it.index() == it.seq().len() ==> forall|x: HateEntry| #[trigger]
                    m.values().contains(x) ==> best_beats(best, x),
        {
            proof {
                assert(it.seq().unref()[it.index() as int] == *e);
                assert(m.values().contains(*e));
            }
            if e.is_active {
                match best {
                    None => {
                        best = Some(*e);
                    },
                    Some(b) => {
                        if e.cumulative_enmity > b.cumulative_enmity || (e.cumulative_enmity
                            == b.cumulative_enmity && e.actor_id < b.actor_id) {
                            best = Some(*e);
                        }
                    },
                }
            }
            proof {
                assert forall|x: HateEntry|
                    #[trigger] m.values().contains(x) && it.index() + 1 == it.seq().len() implies best_beats(
                    best,
                    x,
                ) by {
                    let i = choose|i: int| 0 <= i < it.seq().len() && it.seq().unref()[i] == x;
                    assert(it.seq().unref()[i] == *it.seq()[i]);
                }
            }
        }
        match best {
            Some(b) => {
                assert forall|x: HateEntry| #[trigger]
                    self@.values().contains(x) && x.is_active implies !outranks(x, b) by {
                    assert(best_beats(best, x));
                }
                assert(is_most_hated(self@, b));
                Some(b.actor_id)
            },
            None => {
                assert forall|x: HateEntry| #[trigger] self@.values().contains(x) implies !x.is_active by {
                    assert(best_beats(best, x));
                }
                None
            },
        }
    }

    /// Marks `target_actor_id` as a valid target or not, keeping its
    /// enmity; a no-op when it is not hated.
    pub fn set_active(&mut self, target_actor_id: u32, active: bool)
        ensures
            final(self).owner() == old(self).owner(),
            final(self)@ == if old(self)@.contains_key(target_actor_id) {
                old(self)@.insert(
                    target_actor_id,
                    HateEntry { is_active: active, ..old(self)@[target_actor_id] },
                )
            } else {
                old(self)@
            },
    {
        match self.entries.get(&target_actor_id) {
            Some(e) => {
                let mut entry = *e;
                entry.is_active = active;
                self.entries.insert(target_actor_id, entry);
            },
            None => {},
        }
    }
}

} // verus!
