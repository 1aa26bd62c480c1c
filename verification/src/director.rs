//! Events for directors (the actors that run guildleves and duties).

use vstd::prelude::*;

verus! {

/// A change in a director's membership.
#[derive(Debug, Clone, Copy, PartialEq, Eq, Structural)]
pub enum DirectorEvent {
    MemberAdded { director_id: u32, actor_id: u32, is_player: bool },
    MemberRemoved { director_id: u32, actor_id: u32, is_player: bool },
}

/// Director events queued for the game loop, oldest first.
#[derive(Debug, Clone)]
pub struct DirectorOutbox {
    pub events: Vec<DirectorEvent>,
}

impl DirectorOutbox {
    /// An empty outbox.
    pub fn new() -> (r: Self)
        ensures
            r.events@ == Seq::<DirectorEvent>::empty(),
    {
        DirectorOutbox { events: Vec::new() }
    }

    /// Queues `event` last.
    pub fn push(&mut self, event: DirectorEvent)
        ensures
            final(self).events@ == old(self).events@.push(event),
    {
        self.events.push(event);
    }
}

} // verus!
