use garlemald::battle::ai_container::AIContainer;
use garlemald::battle::controller::{
    AggroCandidate, AllyController, BattleNpcController, ControllerDecision, ControllerOwnerView,
    DetectionType, PetController, PlayerController,
};
use garlemald::battle::outbox::{BattleEvent, BattleOutbox};
use garlemald::battle::target_find::ActorView;

fn view(id: u32, allegiance: u32, alive: bool) -> ActorView {
    ActorView {
        actor_id: id,
        is_alive: alive,
        is_static: false,
        allegiance,
        party_id: 0,
        zone_id: 1,
        is_updates_locked: false,
        is_player: allegiance == 1,
        is_battle_npc: allegiance != 1,
    }
}

fn owner_view(
    alive: bool,
    engaged: bool,
    most_hated: Option<u32>,
    current: Option<u32>,
) -> ControllerOwnerView {
    ControllerOwnerView {
        actor: view(1, 2, alive),
        is_engaged: engaged,
        is_spawned: true,
        is_following_path: false,
        at_path_end: true,
        most_hated_actor_id: most_hated,
        current_target_actor_id: current,
        has_prevent_movement: false,
        max_hp: 1000,
        current_hp: 1000,
        target_hpp: Some(100),
        target_has_stealth: false,
        is_close_to_spawn: true,
        target_is_locked: false,
        attack_delay_ms: 2500,
    }
}

/// A candidate as the game loop reports it for an actor standing next to
/// the owner, in front of it.
fn near(actor: ActorView) -> AggroCandidate {
    AggroCandidate { actor, in_detect_range: true, in_sight: true, in_hearing: true }
}

/// The owner itself, as the arena lists it among the actors around it.
fn owner_only() -> Vec<AggroCandidate> {
    vec![near(view(1, 2, true))]
}

#[test]
fn player_controller_is_idle_each_tick() {
    let mut c = PlayerController::new_for(1);
    let out = c.tick(1_000, owner_view(true, false, None, None), &vec![near(view(1, 1, true))]);
    assert_eq!(out, ControllerDecision::Idle);
}

#[test]
fn battle_npc_engages_most_hated_target() {
    let mut c = BattleNpcController::new_for(1);
    c.battle.detection_type = DetectionType(DetectionType::SIGHT);
    // The player three units to the side is within sight range 50.
    let cands = vec![near(view(1, 2, true)), near(view(10, 1, true))];
    let out = c.tick(1_000, owner_view(true, false, None, None), &cands);
    match out {
        ControllerDecision::Engage { target_actor_id } => assert_eq!(target_actor_id, 10),
        other => panic!("unexpected: {:?}", other),
    }
}

#[test]
fn battle_npc_retargets_on_hate_change() {
    let mut c = BattleNpcController::new_for(1);
    let out = c.tick(1_000, owner_view(true, true, Some(20), Some(10)), &owner_only());
    assert_eq!(out, ControllerDecision::ChangeTarget { target_actor_id: Some(20) });
}

#[test]
fn battle_npc_disengages_on_no_hate() {
    let mut c = BattleNpcController::new_for(1);
    let out = c.tick(1_000, owner_view(true, true, None, Some(10)), &owner_only());
    assert_eq!(out, ControllerDecision::Disengage);
}

#[test]
fn battle_npc_disengages_if_roamed_too_far() {
    let mut c = BattleNpcController::new_for(1);
    let mut v = owner_view(true, true, Some(20), Some(20));
    v.is_close_to_spawn = false;
    let out = c.tick(1_000, v, &owner_only());
    assert_eq!(out, ControllerDecision::Disengage);
}

#[test]
fn pet_controller_is_idle() {
    let mut c = PetController::new_for(1);
    let out = c.tick(1_000, owner_view(true, false, None, None), &owner_only());
    assert_eq!(out, ControllerDecision::Idle);
}

#[test]
fn combat_tick_fires_lua_hook_every_3s() {
    let mut c = BattleNpcController::new_for(1);
    let v = owner_view(true, true, Some(10), Some(10));
    let t1 = c.tick(3_000, v, &owner_only());
    assert!(matches!(t1, ControllerDecision::LuaCombatTick { .. }));
    let t2 = c.tick(3_500, v, &owner_only());
    assert_eq!(t2, ControllerDecision::Idle);
    let t3 = c.tick(6_500, v, &owner_only());
    assert!(matches!(t3, ControllerDecision::LuaCombatTick { .. }));
}

#[test]
fn fresh_controller_defaults() {
    let c = AllyController::new_for(4);
    assert_eq!(c.owner_actor_id, 4);
    assert!(c.can_update && c.is_auto_attack_enabled() && c.is_casting_enabled());
    assert!(c.is_weapon_skill_enabled());
    assert_eq!(c.battle.roam_delay_seconds, 5);
    assert!(c.battle.first_spell);
    assert_eq!(c.last_update_ms, 0);
}

#[test]
fn setters_flip_only_their_flag() {
    let mut c = PlayerController::new_for(1);
    c.set_casting_enabled(false);
    c.set_weapon_skill_enabled(false);
    assert!(!c.is_casting_enabled());
    assert!(!c.is_weapon_skill_enabled());
    assert!(c.is_auto_attack_enabled());
    c.set_auto_attack_enabled(false);
    assert!(!c.is_auto_attack_enabled());
}

#[test]
fn frozen_controller_keeps_its_clock() {
    let mut c = BattleNpcController::new_for(1);
    c.can_update = false;
    let out = c.tick(9_000, owner_view(true, true, None, None), &owner_only());
    assert_eq!(out, ControllerDecision::Idle);
    assert_eq!(c.last_update_ms, 0);
}

#[test]
fn idle_monster_roams_then_waits() {
    let mut c = BattleNpcController::new_for(1);
    // No detection: nothing to aggro, so it roams on its five-second delay.
    let out = c.tick(1_000, owner_view(true, false, None, None), &owner_only());
    assert_eq!(out, ControllerDecision::Roam);
    assert_eq!(c.battle.neutral_time_ms, 6_000);
    assert_eq!(c.battle.wait_time_ms, 6_000);
    assert_eq!(c.last_update_ms, 1_000);
    let again = c.tick(5_999, owner_view(true, false, None, None), &owner_only());
    assert_eq!(again, ControllerDecision::Idle);
    c.battle.roam_delay_seconds = 12;
    let later = c.tick(6_000, owner_view(true, false, None, None), &owner_only());
    assert_eq!(later, ControllerDecision::Roam);
    assert_eq!(c.battle.wait_time_ms, 18_000);
}

#[test]
fn aggro_respects_level_gap_and_hearing() {
    let mut c = BattleNpcController::new_for(1);
    c.battle.detection_type = DetectionType(DetectionType::SOUND);
    c.battle.level = 30;
    let heard = near(view(10, 1, true));
    let out = c.tick(1_000, owner_view(true, false, None, None), &vec![heard]);
    assert_ne!(out, ControllerDecision::Engage { target_actor_id: 10 });
    c.battle.detection_type = DetectionType(
        DetectionType::SOUND | DetectionType::IGNORE_LEVEL_DIFFERENCE,
    );
    // That tick roamed; clear its neutral period and hold off the next roam.
    c.battle.neutral_time_ms = 0;
    c.battle.wait_time_ms = u64::MAX;
    let out = c.tick(1_000, owner_view(true, false, None, None), &vec![heard]);
    assert_eq!(out, ControllerDecision::Engage { target_actor_id: 10 });
    // Out of hearing and out of sight: not noticed.
    let far = AggroCandidate { actor: view(11, 1, true), in_detect_range: true, in_sight: true, in_hearing: false };
    let out = c.tick(1_000, owner_view(true, false, None, None), &vec![far]);
    assert_eq!(out, ControllerDecision::Idle);
}

#[test]
fn ally_aggroes_only_its_group() {
    let mut c = AllyController::new_for(1);
    c.battle.detection_type = DetectionType(DetectionType::SIGHT);
    c.battle.wait_time_ms = u64::MAX;
    let cands = vec![near(view(10, 1, true)), near(view(11, 1, true))];
    let out = c.tick(1_000, owner_view(true, false, None, None), &cands);
    assert_eq!(out, ControllerDecision::Idle);
    c.battle.content_group_ids = vec![11];
    let out = c.tick(1_000, owner_view(true, false, None, None), &cands);
    assert_eq!(out, ControllerDecision::Engage { target_actor_id: 11 });
}

#[test]
fn container_queues_controller_events() {
    let mut ai = AIContainer::new(5, Some(BattleNpcController::new_for(5)));
    let mut ob = BattleOutbox::new();
    ai.update(3_000, owner_view(true, true, Some(8), Some(8)), &owner_only(), &mut ob);
    assert_eq!(ob.len(), 1);
    match &ob.events[0] {
        BattleEvent::LuaCall { owner_actor_id, function_name, command_id, target_actor_id } => {
            assert_eq!((*owner_actor_id, *function_name, *command_id), (5, "onCombatTick", 0));
            assert_eq!(*target_actor_id, Some(8));
        }
        _ => panic!("expected the combat tick"),
    }
    ai.update(3_100, owner_view(true, true, Some(9), Some(8)), &owner_only(), &mut ob);
    assert!(matches!(
        ob.events[1],
        BattleEvent::TargetChange { owner_actor_id: 5, new_target_actor_id: Some(9) }
    ));
    assert_eq!(ai.latest_update_ms(), 3_100);
}
