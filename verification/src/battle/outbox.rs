//! What the combat state machines ask the game loop to do, queued in order.

use vstd::prelude::*;
use crate::battle::command::BattleCommand;
use crate::battle::command::CommandResult;
use crate::battle::effects::HitEffect;
use crate::battle::target_find::ValidTarget;

verus! {

/// One request from the combat logic to the game loop.
#[derive(Debug, Clone)]
pub enum BattleEvent {
    Engage { owner_actor_id: u32, target_actor_id: u32 },
    Disengage { owner_actor_id: u32 },
    TargetChange { owner_actor_id: u32, new_target_actor_id: Option<u32> },
    DoBattleAction {
        owner_actor_id: u32,
        skill_handler: u32,
        battle_animation: u32,
        results: Vec<CommandResult>,
    },
    PlayAnimation { owner_actor_id: u32, animation: u32 },
    ResolveAutoAttack { attacker_actor_id: u32, defender_actor_id: u32 },
    ResolveAction { attacker_actor_id: u32, defender_actor_id: u32, command: BattleCommand },
    CastStart { owner_actor_id: u32, command_id: u16, cast_time_ms: u32 },
    CastComplete { owner_actor_id: u32, command_id: u16 },
    CastInterrupted { owner_actor_id: u32, command_id: u16 },
    HateAdd { owner_actor_id: u32, target_actor_id: u32, amount: i32 },
    HateClear { owner_actor_id: u32, target_actor_id: Option<u32> },
    QueryTargets {
        owner_actor_id: u32,
        main_target_actor_id: u32,
        valid_target: ValidTarget,
        hit_effect: HitEffect,
    },
    Die { owner_actor_id: u32 },
    Revive { owner_actor_id: u32 },
    Despawn { owner_actor_id: u32 },
    Spawn { owner_actor_id: u32 },
    RecalcStats { owner_actor_id: u32 },
    LuaCall {
        owner_actor_id: u32,
        function_name: &'static str,
        command_id: u16,
        target_actor_id: Option<u32>,
    },
    WorldMasterText { owner_actor_id: u32, text_id: u16 },
}

/// The queue of battle events, oldest first.
#[derive(Debug)]
pub struct BattleOutbox {
    pub events: Vec<BattleEvent>,
}

impl Default for BattleOutbox {
    /// Empty.
    fn default() -> (r: Self)
        ensures
            r.events@.len() == 0,
    {
        BattleOutbox { events: Vec::new() }
    }
}

impl BattleOutbox {
    /// Empty.
    pub fn new() -> (r: Self)
        ensures
            r.events@.len() == 0,
    {
        BattleOutbox::default()
    }

    /// Queues `event` last.
    pub fn push(&mut self, event: BattleEvent)
        ensures
            final(self).events@ == old(self).events@.push(event),
    {
        self.events.push(event);
    }

    /// Hands out every queued event, oldest first, leaving the queue empty.
    pub fn drain(&mut self) -> (r: Vec<BattleEvent>)
        ensures
            r@ == old(self).events@,
            final(self).events@.len() == 0,
    {
        let mut out: Vec<BattleEvent> = Vec::new();
        std::mem::swap(&mut out, &mut self.events);
        out
    }

    /// Whether nothing is queued.
    pub fn is_empty(&self) -> (r: bool)
        ensures
            r == (self.events@.len() == 0),
    {
        self.events.len() == 0
    }

    /// How many events are queued.
    pub fn len(&self) -> (r: usize)
        ensures
            r == self.events@.len(),
    {
        self.events.len()
    }
}

} // verus!
