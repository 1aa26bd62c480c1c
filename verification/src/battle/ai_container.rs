//! An actor's AI: its controller, its stack of battle states and the
//! queue of delayed actions it runs once their time comes. The path
//! follower works in floating point and stays with the game loop.

use vstd::prelude::*;
use crate::battle::command::BattleCommand;
use crate::battle::controller::AggroCandidate;
use crate::battle::controller::Controller;
use crate::battle::controller::ControllerDecision;
use crate::battle::controller::ControllerOwnerView;
use crate::battle::controller::tick_decision;
use crate::battle::controller::tick_in_range;
use crate::battle::controller::tick_state;
use crate::battle::outbox::BattleEvent;
use crate::battle::outbox::BattleOutbox;
use crate::battle::state::BattleState;
use crate::battle::state::BattleStateKind;
use crate::battle::state::MAX_STATE_STACK;
use crate::battle::state::StateTickResult;
use crate::battle::state::fresh_state;
use crate::battle::state::lets_others_push;
use crate::battle::state::tick_result;
use crate::battle::state::BattleStateBody;

verus! {

/// A delayed action: when it fires, whether the AI must be free to change
/// state first, and a tag the game loop interprets.
#[derive(Debug, Clone)]
pub struct Action {
    pub fire_at_ms: u64,
    pub check_state: bool,
    pub tag: u32,
}

/// Whether actions are in firing order.
pub open spec fn fires_in_order(s: Seq<Action>) -> bool {
    forall|i: int, j: int| 0 <= i <= j < s.len() ==> s[i].fire_at_ms <= s[j].fire_at_ms
}

/// The number of leading actions that fire at or before `now_ms`.
pub open spec fn due_prefix(s: Seq<Action>, now_ms: u64) -> int
    decreases s.len(),
{
    if s.len() == 0 || s[0].fire_at_ms > now_ms {
        0
    } else {
        1 + due_prefix(s.drop_first(), now_ms)
    }
}

proof fn lemma_due_prefix_bounds(s: Seq<Action>, now_ms: u64)
    ensures
        0 <= due_prefix(s, now_ms) <= s.len(),
        forall|i: int| 0 <= i < due_prefix(s, now_ms) ==> s[i].fire_at_ms <= now_ms,
        due_prefix(s, now_ms) < s.len() ==> s[due_prefix(s, now_ms)].fire_at_ms > now_ms,
    decreases s.len(),
{
    if s.len() > 0 && s[0].fire_at_ms <= now_ms {
        let t = s.drop_first();
        lemma_due_prefix_bounds(t, now_ms);
        assert forall|i: int| 0 <= i < due_prefix(s, now_ms) implies s[i].fire_at_ms <= now_ms by {
            if i > 0 {
                assert(s[i] == t[i - 1]);
            }
        }
    }
}

/// Delayed actions, kept in firing order; actions with the same time keep
/// the order they were queued in.
#[derive(Debug, Clone)]
pub struct ActionQueue {
    pub entries: Vec<Action>,
}

impl Default for ActionQueue {
    /// An empty queue.
    fn default() -> (r: Self)
        ensures
            r.entries@ == Seq::<Action>::empty(),
    {
        ActionQueue::new()
    }
}

impl ActionQueue {
    /// An empty queue.
    pub fn new() -> (r: Self)
        ensures
            r.entries@ == Seq::<Action>::empty(),
    {
        ActionQueue { entries: Vec::new() }
    }

    /// Queues `action` after every action that fires no later than it.
    pub fn push(&mut self, action: Action)
        requires
            fires_in_order(old(self).entries@),
        ensures
            fires_in_order(final(self).entries@),
            exists|p: int|
                0 <= p <= old(self).entries@.len() && final(self).entries@ == old(
                    self,
                ).entries@.insert(p, action) && (forall|i: int|
                    0 <= i < p ==> #[trigger] old(self).entries@[i].fire_at_ms <= action.fire_at_ms)
                    && (forall|i: int|
                    p <= i < old(self).entries@.len() ==> #[trigger] old(
                        self,
                    ).entries@[i].fire_at_ms > action.fire_at_ms),
    {
        let n = self.entries.len();
        let mut p: usize = n;
        while p > 0 && self.entries[p - 1].fire_at_ms > action.fire_at_ms
            invariant
                n == self.entries@.len(),
                p <= n,
                self.entries@ == old(self).entries@,
                forall|i: int| p <= i < n ==> #[trigger] self.entries@[i].fire_at_ms > action.fire_at_ms,
            decreases p,
        {
            p = p - 1;
        }
        let ghost before = self.entries@;
        self.entries.insert(p, action);
        assert(self.entries@ == before.insert(p as int, action));
    }

    /// Whether nothing is queued.
    pub fn is_empty(&self) -> (r: bool)
        ensures
            r == (self.entries@.len() == 0),
    {
        self.entries.len() == 0
    }

    /// Takes every leading action whose time has come (`fire_at_ms` at or
    /// before `now_ms`), in queue order.
    pub fn drain_due(&mut self, now_ms: u64) -> (r: Vec<Action>)
        ensures
            r@ == old(self).entries@.take(due_prefix(old(self).entries@, now_ms)),
            final(self).entries@ == old(self).entries@.skip(due_prefix(old(self).entries@, now_ms)),
    {
        let ghost orig = self.entries@;
        let mut ready: Vec<Action> = Vec::new();
        proof {
            lemma_due_prefix_bounds(orig, now_ms);
        }
        while self.entries.len() > 0 && self.entries[0].fire_at_ms <= now_ms
            invariant
                ready@.len() <= due_prefix(orig, now_ms),
                0 <= due_prefix(orig, now_ms) <= orig.len(),
                forall|i: int| 0 <= i < due_prefix(orig, now_ms) ==> orig[i].fire_at_ms <= now_ms,
                due_prefix(orig, now_ms) < orig.len() ==> orig[due_prefix(orig, now_ms)].fire_at_ms
                    > now_ms,
                ready@ == orig.take(ready@.len() as int),
                self.entries@ == orig.skip(ready@.len() as int),
            decreases self.entries@.len(),
        {
            let a = self.entries.remove(0);
            ready.push(a);
            assert(ready@ =~= orig.take(ready@.len() as int));
            assert(self.entries@ =~= orig.skip(ready@.len() as int));
        }
        ready
    }
}

/// Queueing keeps the queue in firing order, and what is due comes off the
/// front: draining at any time leaves a queue in firing order.
pub proof fn lemma_drain_keeps_order(s: Seq<Action>, now_ms: u64)
    requires
        fires_in_order(s),
    ensures
        fires_in_order(s.skip(due_prefix(s, now_ms))),
        fires_in_order(s.take(due_prefix(s, now_ms))),
{
    lemma_due_prefix_bounds(s, now_ms);
}

/// The stack without its completed states on top.
pub open spec fn drop_completed(s: Seq<BattleState>) -> Seq<BattleState>
    decreases s.len(),
{
    if s.len() > 0 && s.last().is_completed {
        drop_completed(s.drop_last())
    } else {
        s
    }
}

/// The stack without its interruptible states on top.
pub open spec fn drop_interruptible(s: Seq<BattleState>) -> Seq<BattleState>
    decreases s.len(),
{
    if s.len() > 0 && s.last().can_interrupt {
        drop_interruptible(s.drop_last())
    } else {
        s
    }
}

/// The stack after a tick at `now_ms`: top states that complete or are
/// interrupted come off until one continues.
pub open spec fn settle(s: Seq<BattleState>, now_ms: u64) -> Seq<BattleState>
    decreases s.len(),
{
    if s.len() > 0 && tick_result(s.last(), now_ms) != StateTickResult::Continue {
        settle(s.drop_last(), now_ms)
    } else {
        s
    }
}

/// Whether a state may go on top of stack `s`: it is empty or its top
/// lets others push.
pub open spec fn stack_accepts(s: Seq<BattleState>) -> bool {
    s.len() == 0 || lets_others_push(s.last().kind)
}

/// Whether the top of `s` is of `kind`.
pub open spec fn top_is(s: Seq<BattleState>, kind: BattleStateKind) -> bool {
    s.len() > 0 && s.last().kind == kind
}

/// The event an action-queue entry fires.
pub open spec fn queue_fire_event(owner: u32, a: Action) -> BattleEvent {
    BattleEvent::LuaCall {
        owner_actor_id: owner,
        function_name: "onActionQueueFire",
        command_id: a.tag as u16,
        target_actor_id: None,
    }
}

proof fn lemma_drop_completed_len(s: Seq<BattleState>)
    ensures
        drop_completed(s).len() <= s.len(),
    decreases s.len(),
{
    if s.len() > 0 && s.last().is_completed {
        lemma_drop_completed_len(s.drop_last());
    }
}

proof fn lemma_drop_completed_prefix(s: Seq<BattleState>)
    ensures
        drop_completed(s) == s.take(drop_completed(s).len() as int),
    decreases s.len(),
{
    if s.len() > 0 && s.last().is_completed {
        lemma_drop_completed_prefix(s.drop_last());
        lemma_drop_completed_len(s.drop_last());
        assert(s.drop_last().take(drop_completed(s).len() as int) =~= s.take(
            drop_completed(s).len() as int,
        ));
    } else {
        assert(s.take(s.len() as int) =~= s);
    }
}

proof fn lemma_drop_interruptible_len(s: Seq<BattleState>)
    ensures
        drop_interruptible(s).len() <= s.len(),
    decreases s.len(),
{
    if s.len() > 0 && s.last().can_interrupt {
        lemma_drop_interruptible_len(s.drop_last());
    }
}

proof fn lemma_settle_len(s: Seq<BattleState>, now_ms: u64)
    ensures
        settle(s, now_ms).len() <= s.len(),
    decreases s.len(),
{
    if s.len() > 0 && tick_result(s.last(), now_ms) != StateTickResult::Continue {
        lemma_settle_len(s.drop_last(), now_ms);
    }
}

/// The events a controller decision asks for: engaging, disengaging,
/// changing target and the combat-tick script each make one; the rest
/// make none.
pub open spec fn decision_events(owner: u32, d: ControllerDecision) -> Seq<BattleEvent> {
    match d {
        ControllerDecision::Engage { target_actor_id } => seq![
            BattleEvent::Engage { owner_actor_id: owner, target_actor_id },
        ],
        ControllerDecision::Disengage => seq![BattleEvent::Disengage { owner_actor_id: owner }],
        ControllerDecision::ChangeTarget { target_actor_id } => seq![
            BattleEvent::TargetChange { owner_actor_id: owner, new_target_actor_id: target_actor_id },
        ],
        ControllerDecision::LuaCombatTick { target_actor_id } => seq![
            BattleEvent::LuaCall {
                owner_actor_id: owner,
                function_name: "onCombatTick",
                command_id: 0,
                target_actor_id,
            },
        ],
        _ => Seq::<BattleEvent>::empty(),
    }
}

/// What the controller decides on a tick; no controller decides nothing.
pub open spec fn controller_decision(
    ctrl: Option<Controller>,
    now_ms: u64,
    owner: ControllerOwnerView,
    cands: Seq<AggroCandidate>,
) -> ControllerDecision {
    match ctrl {
        Some(c) => tick_decision(c, now_ms, owner, cands),
        None => ControllerDecision::Idle,
    }
}

/// The controller after a tick.
pub open spec fn controller_after(
    ctrl: Option<Controller>,
    now_ms: u64,
    owner: ControllerOwnerView,
    cands: Seq<AggroCandidate>,
) -> Option<Controller> {
    match ctrl {
        Some(c) => Some(tick_state(c, now_ms, owner, cands)),
        None => None,
    }
}

/// Whether a controller's tick stays in range (see [`tick_in_range`]).
pub open spec fn controller_in_range(
    ctrl: Option<Controller>,
    now_ms: u64,
    owner: ControllerOwnerView,
    cands: Seq<AggroCandidate>,
) -> bool {
    match ctrl {
        Some(c) => tick_in_range(c, now_ms, owner, cands),
        None => true,
    }
}

/// An actor's AI: whose it is, its controller, its delayed actions, its
/// state stack and its clocks.
#[derive(Debug, Clone)]
pub struct AIContainer {
    pub owner_actor_id: u32,
    pub controller: Option<Controller>,
    pub action_queue: ActionQueue,
    states: Vec<BattleState>,
    last_action_time_ms: u64,
    latest_update_ms: u64,
    prev_update_ms: u64,
}

impl AIContainer {
    /// Whose AI this is.
    pub closed spec fn owner(&self) -> u32 {
        self.owner_actor_id
    }

    /// The controller, if the actor has one.
    pub closed spec fn controller_of(&self) -> Option<Controller> {
        self.controller
    }

    /// The queued actions, in firing order.
    pub closed spec fn queued(&self) -> Seq<Action> {
        self.action_queue.entries@
    }

    /// The state stack, bottom first.
    pub closed spec fn stack(&self) -> Seq<BattleState> {
        self.states@
    }

    /// The time before which the actor takes no new action.
    pub closed spec fn last_action_time_spec(&self) -> u64 {
        self.last_action_time_ms
    }

    /// The times of the latest and the previous update.
    pub closed spec fn update_times(&self) -> (u64, u64) {
        (self.latest_update_ms, self.prev_update_ms)
    }

    /// An AI for `owner_actor_id` driven by `controller`, with no states,
    /// no queued actions and every clock at 0.
    pub fn new(owner_actor_id: u32, controller: Option<Controller>) -> (r: Self)
        ensures
            r.owner() == owner_actor_id,
            r.controller_of() == controller,
            r.stack() == Seq::<BattleState>::empty(),
            r.queued() == Seq::<Action>::empty(),
            r.last_action_time_spec() == 0,
            r.update_times() == (0u64, 0u64),
    {
        AIContainer {
            owner_actor_id,
            controller,
            action_queue: ActionQueue::new(),
            states: Vec::new(),
            last_action_time_ms: 0,
            latest_update_ms: 0,
            prev_update_ms: 0,
        }
    }

    /// The state on top of the stack.
    pub fn current_state(&self) -> (r: Option<&BattleState>)
        ensures
            match r {
                Some(s) => self.stack().len() > 0 && *s == self.stack().last(),
                None => self.stack().len() == 0,
            },
    {
        let n = self.states.len();
        if n == 0 {
            None
        } else {
            Some(&self.states[n - 1])
        }
    }

    /// The state stack, bottom first.
    pub fn state_stack(&self) -> (r: &[BattleState])
        ensures
            r@ == self.stack(),
    {
        self.states.as_slice()
    }

    /// Whether the top state is of `kind`.
    pub fn is_current(&self, kind: BattleStateKind) -> (r: bool)
        ensures
            r == top_is(self.stack(), kind),
    {
        match self.current_state() {
            Some(s) => s.kind == kind,
            None => false,
        }
    }

    /// Whether a new state may go on top (see [`stack_accepts`]).
    pub fn can_change_state(&self) -> (r: bool)
        ensures
            r == stack_accepts(self.stack()),
    {
        match self.current_state() {
            Some(s) => s.can_change_state(),
            None => true,
        }
    }

    /// Whether the actor is attacking: the top state is an attack.
    pub fn is_engaged(&self) -> (r: bool)
        ensures
            r == top_is(self.stack(), BattleStateKind::Attack),
    {
        self.is_current(BattleStateKind::Attack)
    }

    /// Whether the actor is dead: the top state is a death.
    pub fn is_dead(&self) -> (r: bool)
        ensures
            r == top_is(self.stack(), BattleStateKind::Death),
    {
        self.is_current(BattleStateKind::Death)
    }

    /// Whether the actor is not dead.
    pub fn is_spawned(&self) -> (r: bool)
        ensures
            r == !top_is(self.stack(), BattleStateKind::Death),
    {
        !self.is_dead()
    }

    /// The time before which the actor takes no new action.
    pub fn last_action_time_ms(&self) -> (r: u64)
        ensures
            r == self.last_action_time_spec(),
    {
        self.last_action_time_ms
    }

    /// The time of the latest update.
    pub fn latest_update_ms(&self) -> (r: u64)
        ensures
            r == self.update_times().0,
    {
        self.latest_update_ms
    }

    /// Holds off new actions until `delay_seconds` after `now_ms`.
    pub fn update_last_action_time(&mut self, now_ms: u64, delay_seconds: u32)
        requires
            now_ms + delay_seconds * 1000 <= u64::MAX,
        ensures
            final(self).last_action_time_spec() == now_ms + delay_seconds * 1000,
            final(self).stack() == old(self).stack(),
            final(self).owner() == old(self).owner(),
            final(self).queued() == old(self).queued(),
            final(self).update_times() == old(self).update_times(),
    {
        self.last_action_time_ms = now_ms + (delay_seconds as u64) * 1000;
    }

    /// Takes completed states off the top of the stack.
    pub fn check_completed_states(&mut self)
        ensures
            final(self).stack() == drop_completed(old(self).stack()),
            final(self).owner() == old(self).owner(),
            final(self).queued() == old(self).queued(),
            final(self).last_action_time_spec() == old(self).last_action_time_spec(),
            final(self).update_times() == old(self).update_times(),
    {
        while self.states.len() > 0 && self.states[self.states.len() - 1].is_completed
            invariant
                drop_completed(self.states@) == drop_completed(old(self).states@),
                self.owner_actor_id == old(self).owner_actor_id,
                self.action_queue == old(self).action_queue,
                self.last_action_time_ms == old(self).last_action_time_ms,
                self.latest_update_ms == old(self).latest_update_ms,
                self.prev_update_ms == old(self).prev_update_ms,
            decreases self.states@.len(),
        {
            let ghost before = self.states@;
            self.states.pop();
            assert(self.states@ =~= before.drop_last());
        }
    }

    /// Pushes `state` if the top lets it and the stack is not full, first
    /// taking completed states off; `false` (and no change) otherwise.
    pub fn change_state(&mut self, state: BattleState) -> (r: bool)
        ensures
            r == (stack_accepts(old(self).stack()) && old(self).stack().len() < MAX_STATE_STACK),
            r ==> final(self).stack() == drop_completed(old(self).stack()).push(state),
            !r ==> final(self).stack() == old(self).stack(),
            final(self).owner() == old(self).owner(),
            final(self).queued() == old(self).queued(),
            final(self).last_action_time_spec() == old(self).last_action_time_spec(),
            final(self).update_times() == old(self).update_times(),
    {
        if !self.can_change_state() {
            return false;
        }
        if self.states.len() >= MAX_STATE_STACK {
            return false;
        }
        self.check_completed_states();
        self.states.push(state);
        true
    }

    /// Pushes `state` unless the stack is full, first taking completed
    /// states off; `false` (and no change) when full.
    pub fn force_change_state(&mut self, state: BattleState) -> (r: bool)
        ensures
            r == (old(self).stack().len() < MAX_STATE_STACK),
            r ==> final(self).stack() == drop_completed(old(self).stack()).push(state),
            !r ==> final(self).stack() == old(self).stack(),
            final(self).owner() == old(self).owner(),
            final(self).queued() == old(self).queued(),
            final(self).last_action_time_spec() == old(self).last_action_time_spec(),
            final(self).update_times() == old(self).update_times(),
    {
        if self.states.len() >= MAX_STATE_STACK {
            return false;
        }
        self.check_completed_states();
        self.states.push(state);
        true
    }

    /// Takes every interruptible state off the top of the stack.
    pub fn interrupt_states(&mut self)
        ensures
            final(self).stack() == drop_interruptible(old(self).stack()),
            final(self).owner() == old(self).owner(),
            final(self).queued() == old(self).queued(),
            final(self).last_action_time_spec() == old(self).last_action_time_spec(),
            final(self).update_times() == old(self).update_times(),
    {
        while self.states.len() > 0 && self.states[self.states.len() - 1].can_interrupt
            invariant
                drop_interruptible(self.states@) == drop_interruptible(old(self).states@),
                self.owner_actor_id == old(self).owner_actor_id,
                self.action_queue == old(self).action_queue,
                self.last_action_time_ms == old(self).last_action_time_ms,
                self.latest_update_ms == old(self).latest_update_ms,
                self.prev_update_ms == old(self).prev_update_ms,
            decreases self.states@.len(),
        {
            let ghost before = self.states@;
            let popped = self.states.pop();
            if let Some(mut top) = popped {
                top.set_interrupted(true);
            }
            assert(self.states@ =~= before.drop_last());
        }
    }

    /// Empties the stack.
    pub fn clear_states(&mut self)
        ensures
            final(self).stack() == Seq::<BattleState>::empty(),
            final(self).owner() == old(self).owner(),
            final(self).queued() == old(self).queued(),
            final(self).last_action_time_spec() == old(self).last_action_time_spec(),
            final(self).update_times() == old(self).update_times(),
    {
        self.states.clear();
    }

    /// Starts attacking `target_actor_id` unless already attacking: pushes
    /// an attack state (as [`AIContainer::force_change_state`]).
    pub fn internal_engage(&mut self, target_actor_id: u32, now_ms: u64, attack_delay_ms: u32) -> (r: bool)
        requires
            now_ms + attack_delay_ms <= u64::MAX,
        ensures
            top_is(old(self).stack(), BattleStateKind::Attack) ==> !r && final(self).stack() == old(
                self,
            ).stack(),
            !top_is(old(self).stack(), BattleStateKind::Attack) ==> {
                &&& r == (old(self).stack().len() < MAX_STATE_STACK)
                &&& r ==> final(self).stack() == drop_completed(old(self).stack()).push(
                    fresh_state(
                        BattleStateKind::Attack,
                        BattleStateBody::Attack { next_swing_ms: (now_ms + attack_delay_ms) as u64 },
                        old(self).owner(),
                        target_actor_id,
                        now_ms,
                        false,
                    ),
                )
                &&& !r ==> final(self).stack() == old(self).stack()
            },
            final(self).owner() == old(self).owner(),
            final(self).queued() == old(self).queued(),
    {
        if self.is_engaged() {
            return false;
        }
        let state = BattleState::attack(self.owner_actor_id, target_actor_id, now_ms, attack_delay_ms);
        self.force_change_state(state)
    }

    /// Stops fighting: empties the stack and queues a disengage event.
    pub fn internal_disengage(&mut self, outbox: &mut BattleOutbox)
        ensures
            final(self).stack() == Seq::<BattleState>::empty(),
            final(outbox).events@ == old(outbox).events@.push(
                BattleEvent::Disengage { owner_actor_id: old(self).owner() },
            ),
            final(self).owner() == old(self).owner(),
            final(self).queued() == old(self).queued(),
    {
        self.clear_states();
        outbox.push(BattleEvent::Disengage { owner_actor_id: self.owner_actor_id });
    }

    /// Starts casting `cmd` at `target_actor_id` (as
    /// [`AIContainer::change_state`]).
    pub fn internal_cast(&mut self, target_actor_id: u32, cmd: BattleCommand, now_ms: u64) -> (r: bool)
        requires
            now_ms + cmd.cast_time_ms <= u64::MAX,
        ensures
            r == (stack_accepts(old(self).stack()) && old(self).stack().len() < MAX_STATE_STACK),
            r ==> final(self).stack() == drop_completed(old(self).stack()).push(
                fresh_state(
                    BattleStateKind::Magic,
                    BattleStateBody::Magic {
                        command: cmd,
                        cast_finish_ms: (now_ms + cmd.cast_time_ms) as u64,
                        cast_started: false,
                    },
                    old(self).owner(),
                    target_actor_id,
                    now_ms,
                    true,
                ),
            ),
            !r ==> final(self).stack() == old(self).stack(),
            final(self).owner() == old(self).owner(),
            final(self).queued() == old(self).queued(),
    {
        let state = BattleState::magic(self.owner_actor_id, target_actor_id, cmd, now_ms);
        self.change_state(state)
    }

    /// Starts the ability `cmd` on `target_actor_id` (as
    /// [`AIContainer::change_state`]).
    pub fn internal_ability(&mut self, target_actor_id: u32, cmd: BattleCommand, now_ms: u64) -> (r: bool)
        requires
            now_ms + cmd.cast_time_ms <= u64::MAX,
        ensures
            r == (stack_accepts(old(self).stack()) && old(self).stack().len() < MAX_STATE_STACK),
            r ==> final(self).stack() == drop_completed(old(self).stack()).push(
                fresh_state(
                    BattleStateKind::Ability,
                    BattleStateBody::Ability {
                        command: cmd,
                        cast_finish_ms: (now_ms + cmd.cast_time_ms) as u64,
                    },
                    old(self).owner(),
                    target_actor_id,
                    now_ms,
                    true,
                ),
            ),
            !r ==> final(self).stack() == old(self).stack(),
            final(self).owner() == old(self).owner(),
            final(self).queued() == old(self).queued(),
    {
        let state = BattleState::ability(self.owner_actor_id, target_actor_id, cmd, now_ms);
        self.change_state(state)
    }

    /// Starts the weapon skill `cmd` on `target_actor_id` (as
    /// [`AIContainer::change_state`]).
    pub fn internal_weapon_skill(&mut self, target_actor_id: u32, cmd: BattleCommand, now_ms: u64) -> (r: bool)
        requires
            now_ms + cmd.cast_time_ms <= u64::MAX,
        ensures
            r == (stack_accepts(old(self).stack()) && old(self).stack().len() < MAX_STATE_STACK),
            r ==> final(self).stack() == drop_completed(old(self).stack()).push(
                fresh_state(
                    BattleStateKind::WeaponSkill,
                    BattleStateBody::WeaponSkill {
                        command: cmd,
                        cast_finish_ms: (now_ms + cmd.cast_time_ms) as u64,
                    },
                    old(self).owner(),
                    target_actor_id,
                    now_ms,
                    true,
                ),
            ),
            !r ==> final(self).stack() == old(self).stack(),
            final(self).owner() == old(self).owner(),
            final(self).queued() == old(self).queued(),
    {
        let state = BattleState::weapon_skill(self.owner_actor_id, target_actor_id, cmd, now_ms);
        self.change_state(state)
    }

    /// Starts using item `item_id` on `target_actor_id` (as
    /// [`AIContainer::change_state`]).
    pub fn internal_use_item(
        &mut self,
        target_actor_id: u32,
        item_id: u32,
        cast_time_ms: u32,
        now_ms: u64,
    ) -> (r: bool)
        requires
            now_ms + cast_time_ms <= u64::MAX,
        ensures
            r == (stack_accepts(old(self).stack()) && old(self).stack().len() < MAX_STATE_STACK),
            r ==> final(self).stack() == drop_completed(old(self).stack()).push(
                fresh_state(
                    BattleStateKind::Item,
                    BattleStateBody::Item { item_id, cast_finish_ms: (now_ms + cast_time_ms) as u64 },
                    old(self).owner(),
                    target_actor_id,
                    now_ms,
                    true,
                ),
            ),
            !r ==> final(self).stack() == old(self).stack(),
            final(self).owner() == old(self).owner(),
            final(self).queued() == old(self).queued(),
    {
        let state = BattleState::item(self.owner_actor_id, target_actor_id, item_id, cast_time_ms, now_ms);
        self.change_state(state)
    }

    /// Dies: the stack becomes a single death state fading out after
    /// `fadeout_ms`, and a death event is queued.
    pub fn internal_die(&mut self, now_ms: u64, fadeout_ms: u64, outbox: &mut BattleOutbox)
        requires
            now_ms + fadeout_ms <= u64::MAX,
        ensures
            final(self).stack() == seq![
                fresh_state(
                    BattleStateKind::Death,
                    BattleStateBody::Death { despawn_at_ms: (now_ms + fadeout_ms) as u64 },
                    old(self).owner(),
                    0,
                    now_ms,
                    false,
                ),
            ],
            final(outbox).events@ == old(outbox).events@.push(
                BattleEvent::Die { owner_actor_id: old(self).owner() },
            ),
            final(self).owner() == old(self).owner(),
            final(self).queued() == old(self).queued(),
    {
        self.clear_states();
        let state = BattleState::death(self.owner_actor_id, now_ms, fadeout_ms);
        self.force_change_state(state);
        assert(drop_completed(Seq::<BattleState>::empty()) == Seq::<BattleState>::empty());
        outbox.push(BattleEvent::Die { owner_actor_id: self.owner_actor_id });
    }

    /// Despawns: the stack becomes a single despawn state respawning after
    /// `respawn_ms`, and a despawn event is queued.
    pub fn internal_despawn(&mut self, now_ms: u64, respawn_ms: u64, outbox: &mut BattleOutbox)
        requires
            now_ms + respawn_ms <= u64::MAX,
        ensures
            final(self).stack() == seq![
                fresh_state(
                    BattleStateKind::Despawn,
                    BattleStateBody::Despawn { respawn_at_ms: (now_ms + respawn_ms) as u64 },
                    old(self).owner(),
                    0,
                    now_ms,
                    false,
                ),
            ],
            final(outbox).events@ == old(outbox).events@.push(
                BattleEvent::Despawn { owner_actor_id: old(self).owner() },
            ),
            final(self).owner() == old(self).owner(),
            final(self).queued() == old(self).queued(),
    {
        self.clear_states();
        let state = BattleState::despawn(self.owner_actor_id, now_ms, respawn_ms);
        self.force_change_state(state);
        assert(drop_completed(Seq::<BattleState>::empty()) == Seq::<BattleState>::empty());
        outbox.push(BattleEvent::Despawn { owner_actor_id: self.owner_actor_id });
    }

    /// Queues the events `decision` asks for.
    fn apply_decision(owner_id: u32, decision: ControllerDecision, outbox: &mut BattleOutbox)
        ensures
            final(outbox).events@ == old(outbox).events@ + decision_events(owner_id, decision),
    {
        match decision {
            ControllerDecision::Idle => {},
            ControllerDecision::Engage { target_actor_id } => {
                outbox.push(BattleEvent::Engage { owner_actor_id: owner_id, target_actor_id });
            },
            ControllerDecision::Disengage => {
                outbox.push(BattleEvent::Disengage { owner_actor_id: owner_id });
            },
            ControllerDecision::FaceTarget => {},
            ControllerDecision::Roam => {},
            ControllerDecision::ChangeTarget { target_actor_id } => {
                outbox.push(
                    BattleEvent::TargetChange {
                        owner_actor_id: owner_id,
                        new_target_actor_id: target_actor_id,
                    },
                );
            },
            ControllerDecision::LuaCombatTick { target_actor_id } => {
                outbox.push(
                    BattleEvent::LuaCall {
                        owner_actor_id: owner_id,
                        function_name: "onCombatTick",
                        command_id: 0,
                        target_actor_id,
                    },
                );
            },
        }
        assert(old(outbox).events@ + decision_events(owner_id, decision) =~= outbox.events@);
    }

    /// One tick at `now_ms`: records the update time, lets the controller
    /// tick on the owner's view and the aggro candidates and queues the
    /// events its decision asks for (see [`decision_events`]), ticks the
    /// top states off the stack until one continues (see [`settle`]), then
    /// fires every due queued action as a script call.
    pub fn update(
        &mut self,
        now_ms: u64,
        owner_view: ControllerOwnerView,
        candidates: &Vec<AggroCandidate>,
        outbox: &mut BattleOutbox,
    )
        requires
            controller_in_range(old(self).controller_of(), now_ms, owner_view, candidates@),
        ensures
            final(self).update_times() == (now_ms, old(self).update_times().0),
            final(self).controller_of() == controller_after(
                old(self).controller_of(),
                now_ms,
                owner_view,
                candidates@,
            ),
            final(self).stack() == settle(old(self).stack(), now_ms),
            final(self).queued() == old(self).queued().skip(
                due_prefix(old(self).queued(), now_ms),
            ),
            final(outbox).events@ == old(outbox).events@ + decision_events(
                old(self).owner(),
                controller_decision(old(self).controller_of(), now_ms, owner_view, candidates@),
            ) + old(self).queued().take(due_prefix(old(self).queued(), now_ms)).map_values(
                |a: Action| queue_fire_event(old(self).owner(), a),
            ),
            final(self).owner() == old(self).owner(),
            final(self).last_action_time_spec() == old(self).last_action_time_spec(),
    {
        self.prev_update_ms = self.latest_update_ms;
        self.latest_update_ms = now_ms;
        let owner_id = self.owner_actor_id;
        let ctrl_opt = self.controller.take();
        if let Some(mut ctrl) = ctrl_opt {
            if ctrl.can_update {
                let decision = ctrl.tick(now_ms, owner_view, candidates);
                Self::apply_decision(owner_id, decision, outbox);
            }
            self.controller = Some(ctrl);
        }
        assert(self.controller == controller_after(
            old(self).controller,
            now_ms,
            owner_view,
            candidates@,
        ));
        assert(outbox.events@ == old(outbox).events@ + decision_events(
            owner_id,
            controller_decision(old(self).controller, now_ms, owner_view, candidates@),
        ));
        let mut settled: bool = false;
        while !settled && self.states.len() > 0
            invariant
                settle(self.states@, now_ms) == settle(old(self).states@, now_ms),
                settled ==> settle(self.states@, now_ms) == self.states@,
                self.owner_actor_id == old(self).owner_actor_id,
                self.controller == controller_after(
                    old(self).controller,
                    now_ms,
                    owner_view,
                    candidates@,
                ),
                self.action_queue == old(self).action_queue,
                self.last_action_time_ms == old(self).last_action_time_ms,
                self.latest_update_ms == now_ms,
                self.prev_update_ms == old(self).latest_update_ms,
            decreases self.states@.len() + if settled {
                0int
            } else {
                1int
            },
        {
            let n = self.states.len();
            let ghost before = self.states@;
            let mut top = self.states.pop().unwrap();
            let result = top.update(now_ms);
            match result {
                StateTickResult::Continue => {
                    self.states.push(top);
                    assert(self.states@ =~= before);
                    settled = true;
                },
                _ => {
                    assert(self.states@ =~= before.drop_last());
                },
            }
        }
        let due = self.action_queue.drain_due(now_ms);
        let ghost start = outbox.events@;
        let owner = self.owner_actor_id;
        let mut k: usize = 0;
        while k < due.len()
            invariant
                k <= due@.len(),
                owner == self.owner_actor_id,
                outbox.events@ == start + due@.take(k as int).map_values(
                    |a: Action| queue_fire_event(owner, a),
                ),
            decreases due@.len() - k,
        {
            let a = &due[k];
            outbox.push(
                BattleEvent::LuaCall {
                    owner_actor_id: owner,
                    function_name: "onActionQueueFire",
                    command_id: a.tag as u16,
                    target_actor_id: None,
                },
            );
            k = k + 1;
            assert(due@.take(k as int).map_values(|a: Action| queue_fire_event(owner, a)) =~= due@.take(
                (k - 1) as int,
            ).map_values(|a: Action| queue_fire_event(owner, a)).push(queue_fire_event(owner, due@[k - 1])));
        }
        assert(due@.take(due@.len() as int) =~= due@);
    }
}

/// The stack never outgrows its limit: pushing, by either rule, onto a
/// stack within [`MAX_STATE_STACK`] leaves it within the limit, and taking
/// states off, ticking or clearing only shrinks it.
pub proof fn lemma_stack_stays_bounded(s: Seq<BattleState>, state: BattleState, now_ms: u64)
    requires
        s.len() <= MAX_STATE_STACK,
    ensures
        s.len() < MAX_STATE_STACK ==> drop_completed(s).push(state).len() <= MAX_STATE_STACK,
        drop_completed(s).len() <= MAX_STATE_STACK,
        drop_interruptible(s).len() <= MAX_STATE_STACK,
        settle(s, now_ms).len() <= MAX_STATE_STACK,
{
    lemma_drop_completed_len(s);
    lemma_drop_interruptible_len(s);
    lemma_settle_len(s, now_ms);
}

} // verus!
