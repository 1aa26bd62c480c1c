//! Achievements: the size of the completed-achievement bit array and the
//! outbox of achievement events.

use vstd::prelude::*;

verus! {

/// Number of achievement ids the completed-bits array covers.
pub const COMPLETED_ACHIEVEMENTS_BITS: usize = 4608;

/// An achievement change to send to a client.
#[derive(Debug, Clone)]
pub enum AchievementEvent {
    /// A first-time earn: toast and record it.
    Earned { player_actor_id: u32, achievement_id: u32 },
    /// The new points total.
    SetPoints { player_actor_id: u32, points: u32 },
    /// The five most recently earned ids, newest first.
    SetLatest { player_actor_id: u32, latest_ids: [u32; 5] },
    /// Every earned id, as a bit per id.
    SetCompleted { player_actor_id: u32, bits: Vec<bool> },
    /// Progress on one achievement.
    SendRate {
        player_actor_id: u32,
        achievement_id: u32,
        progress_count: u32,
        progress_flags: u32,
    },
    /// The title the player wears (0: none).
    SetPlayerTitle { player_actor_id: u32, title_id: u32 },
}

/// Achievement events queued for the game loop, oldest first.
#[derive(Debug)]
pub struct AchievementOutbox {
    pub events: Vec<AchievementEvent>,
}

impl Default for AchievementOutbox {
    fn default() -> (r: Self)
        ensures
            r.events@ == Seq::<AchievementEvent>::empty(),
    {
        AchievementOutbox::new()
    }
}

impl AchievementOutbox {
    /// An empty outbox.
    pub fn new() -> (r: Self)
        ensures
            r.events@ == Seq::<AchievementEvent>::empty(),
    {
        AchievementOutbox { events: Vec::new() }
    }

    /// Queues `event` last.
    pub fn push(&mut self, event: AchievementEvent)
        ensures
            final(self).events@ == old(self).events@.push(event),
    {
        self.events.push(event);
    }

    /// Hands out every queued event, oldest first, and empties the outbox.
    pub fn drain(&mut self) -> (r: Vec<AchievementEvent>)
        ensures
            r@ == old(self).events@,
            final(self).events@ == Seq::<AchievementEvent>::empty(),
    {
        let mut taken: Vec<AchievementEvent> = Vec::new();
        std::mem::swap(&mut taken, &mut self.events);
        taken
    }

    /// Whether nothing is queued.
    pub fn is_empty(&self) -> (r: bool)
        ensures
            r == (self.events@.len() == 0),
    {
        self.events.len() == 0
    }

    /// Number of queued events.
    pub fn len(&self) -> (r: usize)
        ensures
            r == self.events@.len(),
    {
        self.events.len()
    }
}

} // verus!
