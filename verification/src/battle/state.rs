//! Battle states: attacking, casting, using an item, dying, despawned or
//! locked; their timers, and what a state tick reports.

use vstd::prelude::*;
use crate::battle::command::BattleCommand;

verus! {

/// Deepest the battle state stack gets.
pub const MAX_STATE_STACK: usize = 10;

/// The kind of a battle state.
#[derive(Debug, Clone, Copy, PartialEq, Eq, Structural)]
pub enum BattleStateKind {
    Attack,
    Magic,
    Ability,
    WeaponSkill,
    Item,
    Death,
    Despawn,
    Inactive,
}

/// What a state tick reports: stay, finish, or interrupted.
#[derive(Debug, Clone, Copy, PartialEq, Eq, Structural)]
pub enum StateTickResult {
    Continue,
    Complete,
    Interrupted,
}


/// What a state of each kind tracks.
#[derive(Debug, Clone)]
pub enum BattleStateBody {
    /// The time of the next swing.
    Attack { next_swing_ms: u64 },
    /// The spell, when its cast finishes, and whether the cast start has
    /// been sent.
    Magic { command: BattleCommand, cast_finish_ms: u64, cast_started: bool },
    Ability { command: BattleCommand, cast_finish_ms: u64 },
    WeaponSkill { command: BattleCommand, cast_finish_ms: u64 },
    Item { item_id: u32, cast_finish_ms: u64 },
    /// When the corpse despawns unless raised.
    Death { despawn_at_ms: u64 },
    /// When the actor respawns.
    Despawn { respawn_at_ms: u64 },
    /// When the lock ends; 0 means never.
    Inactive { end_ms: u64 },
}

/// One entry of an actor's state stack.
#[derive(Debug, Clone)]
pub struct BattleState {
    pub kind: BattleStateKind,
    pub body: BattleStateBody,
    pub owner_actor_id: u32,
    /// 0 when the state has no target.
    pub target_actor_id: u32,
    pub start_time_ms: u64,
    pub can_interrupt: bool,
    pub interrupt: bool,
    pub is_completed: bool,
    /// The text shown on an error, 0 when none.
    pub error_text_id: u16,
}

/// When a state ends by itself: a cast, item use, death fade-out or
/// respawn at its time, a lock at its end unless that is 0; an attack
/// never does.
pub open spec fn deadline(body: BattleStateBody) -> Option<u64> {
    match body {
        BattleStateBody::Attack { .. } => None,
        BattleStateBody::Magic { cast_finish_ms, .. } => Some(cast_finish_ms),
        BattleStateBody::Ability { cast_finish_ms, .. } => Some(cast_finish_ms),
        BattleStateBody::WeaponSkill { cast_finish_ms, .. } => Some(cast_finish_ms),
        BattleStateBody::Item { cast_finish_ms, .. } => Some(cast_finish_ms),
        BattleStateBody::Death { despawn_at_ms } => Some(despawn_at_ms),
        BattleStateBody::Despawn { respawn_at_ms } => Some(respawn_at_ms),
        BattleStateBody::Inactive { end_ms } => if end_ms == 0 {
            None
        } else {
            Some(end_ms)
        },
    }
}

/// What a tick at `now_ms` reports for `s`: interrupted when flagged and
/// interruptible, complete once the deadline has come, else continue.
pub open spec fn tick_result(s: BattleState, now_ms: u64) -> StateTickResult {
    if s.interrupt && s.can_interrupt {
        StateTickResult::Interrupted
    } else {
        match deadline(s.body) {
            Some(d) => if now_ms >= d {
                StateTickResult::Complete
            } else {
                StateTickResult::Continue
            },
            None => StateTickResult::Continue,
        }
    }
}

/// A fresh state of `kind` with `body`, started at `now_ms`.
pub open spec fn fresh_state(
    kind: BattleStateKind,
    body: BattleStateBody,
    owner: u32,
    target: u32,
    now_ms: u64,
    can_interrupt: bool,
) -> BattleState {
    BattleState {
        kind,
        body,
        owner_actor_id: owner,
        target_actor_id: target,
        start_time_ms: now_ms,
        can_interrupt,
        interrupt: false,
        is_completed: false,
        error_text_id: 0,
    }
}

/// The command a state carries, if any.
pub open spec fn command_of(body: BattleStateBody) -> Option<BattleCommand> {
    match body {
        BattleStateBody::Magic { command, .. } => Some(command),
        BattleStateBody::Ability { command, .. } => Some(command),
        BattleStateBody::WeaponSkill { command, .. } => Some(command),
        _ => None,
    }
}

/// `s` with the command of its casting body replaced by `c`.
pub open spec fn with_command(s: BattleState, c: BattleCommand) -> BattleState {
    BattleState {
        body: match s.body {
            BattleStateBody::Magic { cast_finish_ms, cast_started, .. } => BattleStateBody::Magic {
                command: c,
                cast_finish_ms,
                cast_started,
            },
            BattleStateBody::Ability { cast_finish_ms, .. } => BattleStateBody::Ability {
                command: c,
                cast_finish_ms,
            },
            BattleStateBody::WeaponSkill { cast_finish_ms, .. } => BattleStateBody::WeaponSkill {
                command: c,
                cast_finish_ms,
            },
            other => other,
        },
        ..s
    }
}

/// Whether states of `kind` let another state go on top of them.
pub open spec fn lets_others_push(kind: BattleStateKind) -> bool {
    kind == BattleStateKind::Attack || kind == BattleStateKind::Death || kind
        == BattleStateKind::Despawn
}

impl BattleState {
    /// Auto-attacking `target`; the first swing after `attack_delay_ms`.
    pub fn attack(owner: u32, target: u32, now_ms: u64, attack_delay_ms: u32) -> (r: Self)
        requires
            now_ms + attack_delay_ms <= u64::MAX,
        ensures
            r == fresh_state(
                BattleStateKind::Attack,
                BattleStateBody::Attack { next_swing_ms: (now_ms + attack_delay_ms) as u64 },
                owner,
                target,
                now_ms,
                false,
            ),
    {
        BattleState {
            kind: BattleStateKind::Attack,
            body: BattleStateBody::Attack { next_swing_ms: now_ms + attack_delay_ms as u64 },
            owner_actor_id: owner,
            target_actor_id: target,
            start_time_ms: now_ms,
            can_interrupt: false,
            interrupt: false,
            is_completed: false,
            error_text_id: 0,
        }
    }

    /// Casting `cmd` at `target`, finishing after its cast time.
    pub fn magic(owner: u32, target: u32, cmd: BattleCommand, now_ms: u64) -> (r: Self)
        requires
            now_ms + cmd.cast_time_ms <= u64::MAX,
        ensures
            r == fresh_state(
                BattleStateKind::Magic,
                BattleStateBody::Magic {
                    command: cmd,
                    cast_finish_ms: (now_ms + cmd.cast_time_ms) as u64,
                    cast_started: false,
                },
                owner,
                target,
                now_ms,
                true,
            ),
    {
        let cast_finish_ms = now_ms + cmd.cast_time_ms as u64;
        BattleState {
            kind: BattleStateKind::Magic,
            body: BattleStateBody::Magic { command: cmd, cast_finish_ms, cast_started: false },
            owner_actor_id: owner,
            target_actor_id: target,
            start_time_ms: now_ms,
            can_interrupt: true,
            interrupt: false,
            is_completed: false,
            error_text_id: 0,
        }
    }

    /// Using the ability `cmd` on `target`, finishing after its cast time.
    pub fn ability(owner: u32, target: u32, cmd: BattleCommand, now_ms: u64) -> (r: Self)
        requires
            now_ms + cmd.cast_time_ms <= u64::MAX,
        ensures
            r == fresh_state(
                BattleStateKind::Ability,
                BattleStateBody::Ability {
                    command: cmd,
                    cast_finish_ms: (now_ms + cmd.cast_time_ms) as u64,
                },
                owner,
                target,
                now_ms,
                true,
            ),
    {
        let cast_finish_ms = now_ms + cmd.cast_time_ms as u64;
        BattleState {
            kind: BattleStateKind::Ability,
            body: BattleStateBody::Ability { command: cmd, cast_finish_ms },
            owner_actor_id: owner,
            target_actor_id: target,
            start_time_ms: now_ms,
            can_interrupt: true,
            interrupt: false,
            is_completed: false,
            error_text_id: 0,
        }
    }

    /// Using the weapon skill `cmd` on `target`, finishing after its cast
    /// time.
    pub fn weapon_skill(owner: u32, target: u32, cmd: BattleCommand, now_ms: u64) -> (r: Self)
        requires
            now_ms + cmd.cast_time_ms <= u64::MAX,
        ensures
            r == fresh_state(
                BattleStateKind::WeaponSkill,
                BattleStateBody::WeaponSkill {
                    command: cmd,
                    cast_finish_ms: (now_ms + cmd.cast_time_ms) as u64,
                },
                owner,
                target,
                now_ms,
                true,
            ),
    {
        let cast_finish_ms = now_ms + cmd.cast_time_ms as u64;
        BattleState {
            kind: BattleStateKind::WeaponSkill,
            body: BattleStateBody::WeaponSkill { command: cmd, cast_finish_ms },
            owner_actor_id: owner,
            target_actor_id: target,
            start_time_ms: now_ms,
            can_interrupt: true,
            interrupt: false,
            is_completed: false,
            error_text_id: 0,
        }
    }

    /// Using item `item_id` on `target`, finishing after `cast_time_ms`.
    pub fn item(owner: u32, target: u32, item_id: u32, cast_time_ms: u32, now_ms: u64) -> (r: Self)
        requires
            now_ms + cast_time_ms <= u64::MAX,
        ensures
            r == fresh_state(
                BattleStateKind::Item,
                BattleStateBody::Item { item_id, cast_finish_ms: (now_ms + cast_time_ms) as u64 },
                owner,
                target,
                now_ms,
                true,
            ),
    {
        BattleState {
            kind: BattleStateKind::Item,
            body: BattleStateBody::Item { item_id, cast_finish_ms: now_ms + cast_time_ms as u64 },
            owner_actor_id: owner,
            target_actor_id: target,
            start_time_ms: now_ms,
            can_interrupt: true,
            interrupt: false,
            is_completed: false,
            error_text_id: 0,
        }
    }

    /// Dead, the corpse fading out after `fadeout_ms`.
    pub fn death(owner: u32, now_ms: u64, fadeout_ms: u64) -> (r: Self)
        requires
            now_ms + fadeout_ms <= u64::MAX,
        ensures
            r == fresh_state(
                BattleStateKind::Death,
                BattleStateBody::Death { despawn_at_ms: (now_ms + fadeout_ms) as u64 },
                owner,
                0,
                now_ms,
                false,
            ),
    {
        BattleState {
            kind: BattleStateKind::Death,
            body: BattleStateBody::Death { despawn_at_ms: now_ms + fadeout_ms },
            owner_actor_id: owner,
            target_actor_id: 0,
            start_time_ms: now_ms,
            can_interrupt: false,
            interrupt: false,
            is_completed: false,
            error_text_id: 0,
        }
    }

    /// Despawned, respawning after `respawn_ms`.
    pub fn despawn(owner: u32, now_ms: u64, respawn_ms: u64) -> (r: Self)
        requires
            now_ms + respawn_ms <= u64::MAX,
        ensures
            r == fresh_state(
                BattleStateKind::Despawn,
                BattleStateBody::Despawn { respawn_at_ms: (now_ms + respawn_ms) as u64 },
                owner,
                0,
                now_ms,
                false,
            ),
    {
        BattleState {
            kind: BattleStateKind::Despawn,
            body: BattleStateBody::Despawn { respawn_at_ms: now_ms + respawn_ms },
            owner_actor_id: owner,
            target_actor_id: 0,
            start_time_ms: now_ms,
            can_interrupt: false,
            interrupt: false,
            is_completed: false,
            error_text_id: 0,
        }
    }

    /// Locked for `duration_ms`; a duration of 0 locks until cleared.
    pub fn inactive(owner: u32, now_ms: u64, duration_ms: u64) -> (r: Self)
        requires
            now_ms + duration_ms <= u64::MAX,
        ensures
            r == fresh_state(
                BattleStateKind::Inactive,
                BattleStateBody::Inactive {
                    end_ms: if duration_ms == 0 {
                        0
                    } else {
                        (now_ms + duration_ms) as u64
                    },
                },
                owner,
                0,
                now_ms,
                false,
            ),
    {
        BattleState {
            kind: BattleStateKind::Inactive,
            body: BattleStateBody::Inactive {
                end_ms: if duration_ms == 0 {
                    0
                } else {
                    now_ms + duration_ms
                },
            },
            owner_actor_id: owner,
            target_actor_id: 0,
            start_time_ms: now_ms,
            can_interrupt: false,
            interrupt: false,
            is_completed: false,
            error_text_id: 0,
        }
    }

    /// Whether another state may go on top: attacks, deaths and despawns
    /// let one; casts, item use and locks do not.
    pub fn can_change_state(&self) -> (r: bool)
        ensures
            r == lets_others_push(self.kind),
    {
        match self.kind {
            BattleStateKind::Attack => true,
            BattleStateKind::Death => true,
            BattleStateKind::Despawn => true,
            _ => false,
        }
    }

    /// Flags the state as interrupted or not.
    pub fn set_interrupted(&mut self, flag: bool)
        ensures
            *final(self) == (BattleState { interrupt: flag, ..*old(self) }),
    {
        self.interrupt = flag;
    }

    /// One tick at `now_ms` (see [`tick_result`]); a state that completes is
    /// marked completed, otherwise nothing changes.
    pub fn update(&mut self, now_ms: u64) -> (r: StateTickResult)
        ensures
            r == tick_result(*old(self), now_ms),
            r == StateTickResult::Complete ==> *final(self) == (BattleState {
                is_completed: true,
                ..*old(self)
            }),
            r != StateTickResult::Complete ==> *final(self) == *old(self),
    {
        if self.interrupt && self.can_interrupt {
            return StateTickResult::Interrupted;
        }
        let due: Option<u64> = match &self.body {
            BattleStateBody::Attack { .. } => None,
            BattleStateBody::Magic { cast_finish_ms, .. } => Some(*cast_finish_ms),
            BattleStateBody::Ability { cast_finish_ms, .. } => Some(*cast_finish_ms),
            BattleStateBody::WeaponSkill { cast_finish_ms, .. } => Some(*cast_finish_ms),
            BattleStateBody::Item { cast_finish_ms, .. } => Some(*cast_finish_ms),
            BattleStateBody::Death { despawn_at_ms } => Some(*despawn_at_ms),
            BattleStateBody::Despawn { respawn_at_ms } => Some(*respawn_at_ms),
            BattleStateBody::Inactive { end_ms } => if *end_ms == 0 {
                None
            } else {
                Some(*end_ms)
            },
        };
        match due {
            Some(d) => {
                if now_ms >= d {
                    self.is_completed = true;
                    StateTickResult::Complete
                } else {
                    StateTickResult::Continue
                }
            },
            None => StateTickResult::Continue,
        }
    }

    /// Whether an attack's next swing is due at `now_ms`; never for other
    /// states.
    pub fn is_attack_ready(&self, now_ms: u64) -> (r: bool)
        ensures
            r == (self.body matches BattleStateBody::Attack { next_swing_ms } && now_ms
                >= next_swing_ms),
    {
        match &self.body {
            BattleStateBody::Attack { next_swing_ms } => now_ms >= *next_swing_ms,
            _ => false,
        }
    }

    /// Times an attack's next swing `delay_ms` after `now_ms`; other states
    /// are left alone.
    pub fn schedule_next_swing(&mut self, now_ms: u64, delay_ms: u32)
        requires
            now_ms + delay_ms <= u64::MAX,
        ensures
            old(self).body is Attack ==> *final(self) == (BattleState {
                body: BattleStateBody::Attack { next_swing_ms: (now_ms + delay_ms) as u64 },
                ..*old(self)
            }),
            !(old(self).body is Attack) ==> *final(self) == *old(self),
    {
        if let BattleStateBody::Attack { .. } = &self.body {
            self.body = BattleStateBody::Attack { next_swing_ms: now_ms + delay_ms as u64 };
        }
    }

    /// The command a casting state carries.
    pub fn command(&self) -> (r: Option<&BattleCommand>)
        ensures
            match r {
                Some(c) => command_of(self.body) == Some(*c),
                None => command_of(self.body) is None,
            },
    {
        match &self.body {
            BattleStateBody::Magic { command, .. } => Some(command),
            BattleStateBody::Ability { command, .. } => Some(command),
            BattleStateBody::WeaponSkill { command, .. } => Some(command),
            _ => None,
        }
    }

    /// The command a casting state carries, for changing in place.
    pub fn command_mut(&mut self) -> (r: Option<&mut BattleCommand>)
        ensures
            match r {
                Some(c) => command_of(old(self).body) == Some(*c) && *final(self) == with_command(
                    *old(self),
                    *final(c),
                ),
                None => command_of(old(self).body) is None && *final(self) == *old(self),
            },
    {
        match &mut self.body {
            BattleStateBody::Magic { command, .. } => Some(command),
            BattleStateBody::Ability { command, .. } => Some(command),
            BattleStateBody::WeaponSkill { command, .. } => Some(command),
            _ => None,
        }
    }

    /// Whether the state is a cast: magic, an ability or a weapon skill.
    pub fn is_casting(&self) -> (r: bool)
        ensures
            r == (self.kind == BattleStateKind::Magic || self.kind == BattleStateKind::Ability
                || self.kind == BattleStateKind::WeaponSkill),
    {
        match self.kind {
            BattleStateKind::Magic => true,
            BattleStateKind::Ability => true,
            BattleStateKind::WeaponSkill => true,
            _ => false,
        }
    }
}

} // verus!
