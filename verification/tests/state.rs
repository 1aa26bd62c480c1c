use garlemald::battle::ai_container::{AIContainer, Action};
use garlemald::battle::command::BattleCommand;
use garlemald::battle::controller::{ControllerOwnerView, PlayerController};
use garlemald::battle::target_find::ActorView;
use garlemald::battle::outbox::{BattleEvent, BattleOutbox};
use garlemald::battle::state::{BattleState, BattleStateKind, StateTickResult, MAX_STATE_STACK};

fn idle_owner() -> ControllerOwnerView {
    ControllerOwnerView {
        actor: ActorView {
            actor_id: 1,
            is_alive: true,
            is_static: false,
            allegiance: 1,
            party_id: 0,
            zone_id: 1,
            is_updates_locked: false,
            is_player: true,
            is_battle_npc: false,
        },
        is_engaged: false,
        is_spawned: true,
        is_following_path: false,
        at_path_end: true,
        most_hated_actor_id: None,
        current_target_actor_id: None,
        has_prevent_movement: false,
        max_hp: 1000,
        current_hp: 1000,
        target_hpp: None,
        target_has_stealth: false,
        is_close_to_spawn: true,
        target_is_locked: false,
        attack_delay_ms: 2500,
    }
}

#[test]
fn attack_state_update_is_noop() {
    let mut s = BattleState::attack(1, 2, 0, 2000);
    assert_eq!(s.update(1500), StateTickResult::Continue);
    assert!(!s.is_attack_ready(1500));
    assert!(s.is_attack_ready(2500));
}

#[test]
fn magic_state_completes_when_cast_time_elapses() {
    let mut cmd = BattleCommand::new(100, "stone");
    cmd.cast_time_ms = 3000;
    let mut s = BattleState::magic(1, 2, cmd, 0);
    assert_eq!(s.update(1000), StateTickResult::Continue);
    assert_eq!(s.update(3500), StateTickResult::Complete);
    assert!(s.is_completed);
}

#[test]
fn interrupt_flag_short_circuits() {
    let mut cmd = BattleCommand::new(100, "stone");
    cmd.cast_time_ms = 3000;
    let mut s = BattleState::magic(1, 2, cmd, 0);
    s.set_interrupted(true);
    assert_eq!(s.update(100), StateTickResult::Interrupted);
}

#[test]
fn death_state_fades_out() {
    let mut s = BattleState::death(1, 0, 5000);
    assert_eq!(s.update(1000), StateTickResult::Continue);
    assert_eq!(s.update(5000), StateTickResult::Complete);
}

#[test]
fn inactive_zero_duration_never_ends() {
    let mut s = BattleState::inactive(1, 0, 0);
    assert_eq!(s.update(1_000_000), StateTickResult::Continue);
}

#[test]
fn attack_state_allows_other_states_to_push() {
    let s = BattleState::attack(1, 2, 0, 2000);
    assert!(s.can_change_state());
    let mut cmd = BattleCommand::new(100, "stone");
    cmd.cast_time_ms = 3000;
    let casting = BattleState::magic(1, 2, cmd, 0);
    assert!(!casting.can_change_state());
}

#[test]
fn change_state_respects_stack_depth() {
    let mut ai = AIContainer::new(1, Some(PlayerController::new_for(1)));
    assert!(ai.internal_engage(2, 0, 2000));
    let mut cmd = BattleCommand::new(100, "stone");
    cmd.cast_time_ms = 3000;
    assert!(ai.internal_cast(2, cmd.clone(), 0));
    assert!(!ai.internal_cast(2, cmd, 0));
    assert_eq!(ai.state_stack().len(), 2);
}

#[test]
fn internal_disengage_clears_stack() {
    let mut ai = AIContainer::new(1, Some(PlayerController::new_for(1)));
    ai.internal_engage(2, 0, 2000);
    assert_eq!(ai.state_stack().len(), 1);
    let mut ob = BattleOutbox::new();
    ai.internal_disengage(&mut ob);
    assert!(ai.state_stack().is_empty());
    assert!(ob.events.iter().any(|e| matches!(e, BattleEvent::Disengage { .. })));
}

#[test]
fn update_pops_completed_casting_states() {
    let mut ai = AIContainer::new(1, Some(PlayerController::new_for(1)));
    let mut cmd = BattleCommand::new(100, "stone");
    cmd.cast_time_ms = 1000;
    ai.internal_cast(2, cmd, 0);
    let mut ob = BattleOutbox::new();
    ai.update(1500, idle_owner(), &Vec::new(), &mut ob);
    assert!(ai.state_stack().is_empty());
}

#[test]
fn die_force_pushes_death_state() {
    let mut ai = AIContainer::new(1, Some(PlayerController::new_for(1)));
    let mut ob = BattleOutbox::new();
    ai.internal_die(0, 5000, &mut ob);
    assert_eq!(ai.current_state().unwrap().kind, BattleStateKind::Death);
    assert!(ob.events.iter().any(|e| matches!(e, BattleEvent::Die { .. })));
}

#[test]
fn stack_never_passes_its_limit() {
    let mut ai = AIContainer::new(1, Some(PlayerController::new_for(1)));
    for i in 0..20u32 {
        ai.force_change_state(BattleState::attack(1, i, 0, 100));
    }
    assert_eq!(ai.state_stack().len(), MAX_STATE_STACK);
    assert!(ai.is_engaged());
    ai.interrupt_states();
    assert_eq!(ai.state_stack().len(), MAX_STATE_STACK);
    ai.clear_states();
    assert!(ai.can_change_state());
    assert!(ai.is_spawned());
}

#[test]
fn update_fires_due_actions_and_keeps_running_states() {
    let mut ai = AIContainer::new(7, Some(PlayerController::new_for(7)));
    ai.internal_engage(2, 0, 2000);
    ai.action_queue.push(Action { fire_at_ms: 500, check_state: false, tag: 11 });
    ai.action_queue.push(Action { fire_at_ms: 5000, check_state: false, tag: 12 });
    let mut ob = BattleOutbox::new();
    ai.update(1000, idle_owner(), &Vec::new(), &mut ob);
    assert_eq!(ai.state_stack().len(), 1);
    assert_eq!(ob.len(), 1);
    match &ob.events[0] {
        BattleEvent::LuaCall { owner_actor_id, function_name, command_id, target_actor_id } => {
            assert_eq!((*owner_actor_id, *function_name, *command_id), (7, "onActionQueueFire", 11));
            assert!(target_actor_id.is_none());
        }
        _ => panic!("expected a script call"),
    }
    assert_eq!(ai.action_queue.entries.len(), 1);
    ai.update_last_action_time(1000, 3);
    assert_eq!(ai.last_action_time_ms(), 4000);
}

#[test]
fn completed_states_come_off_before_a_push() {
    let mut ai = AIContainer::new(1, Some(PlayerController::new_for(1)));
    let mut cmd = BattleCommand::new(100, "stone");
    cmd.cast_time_ms = 10;
    assert!(ai.internal_cast(2, cmd.clone(), 0));
    assert!(ai.is_current(BattleStateKind::Magic));
    assert!(!ai.internal_ability(2, cmd.clone(), 0));
    let mut ob = BattleOutbox::new();
    ai.internal_despawn(0, 100, &mut ob);
    assert!(ai.is_current(BattleStateKind::Despawn));
    assert!(ai.internal_weapon_skill(2, cmd, 0));
    assert_eq!(ai.state_stack().len(), 2);
    assert!(ai.current_state().unwrap().is_casting());
    assert!(ai.current_state().unwrap().command().is_some());
}

#[test]
fn update_triggers_controller_decisions() {
    let controller = PlayerController::new_for(1);
    let mut ai = AIContainer::new(1, Some(controller));
    let mut ob = BattleOutbox::new();
    ai.update(1000, idle_owner(), &Vec::new(), &mut ob);
    // A player controller is idle: no events.
    assert!(ob.events.is_empty());
    assert_eq!(ai.latest_update_ms(), 1000);
}
