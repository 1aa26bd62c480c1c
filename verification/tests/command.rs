use garlemald::battle::command::{
    ActorSnapshot, BattleCommand, CommandResult, CommandResultContainer, TargetValidationError,
};
use garlemald::battle::effects::{ActionType, HitType};
use garlemald::battle::target_find::ValidTarget;

fn stub_command(id: u16) -> BattleCommand {
    let mut c = BattleCommand::new(id, "stub");
    c.main_target = ValidTarget(ValidTarget::ENEMY);
    c.valid_target = ValidTarget(ValidTarget::ENEMY);
    c
}

fn user_snap() -> ActorSnapshot {
    ActorSnapshot {
        actor_id: 1,
        is_alive: true,
        is_static: false,
        allegiance: 1,
        party_id: 0,
        zone_id: 100,
        is_updates_locked: false,
    }
}

fn target_snap() -> ActorSnapshot {
    ActorSnapshot {
        actor_id: 2,
        is_alive: true,
        is_static: false,
        allegiance: 2,
        party_id: 0,
        zone_id: 100,
        is_updates_locked: false,
    }
}

#[test]
fn validate_enemy_target_on_enemy_ok() {
    let c = stub_command(1);
    assert!(c.validate_main_target(&user_snap(), Some(&target_snap())).is_ok());
}

#[test]
fn validate_rejects_dead_target() {
    let c = stub_command(1);
    let mut t = target_snap();
    t.is_alive = false;
    assert_eq!(
        c.validate_main_target(&user_snap(), Some(&t)),
        Err(TargetValidationError::CannotTargetKoTarget)
    );
}

#[test]
fn validate_rejects_missing_target() {
    let c = stub_command(1);
    assert_eq!(
        c.validate_main_target(&user_snap(), None),
        Err(TargetValidationError::TargetDoesNotExist)
    );
}

#[test]
fn validate_rejects_zoned_target() {
    let c = stub_command(1);
    let mut t = target_snap();
    t.zone_id = 999;
    assert_eq!(
        c.validate_main_target(&user_snap(), Some(&t)),
        Err(TargetValidationError::OutOfZone)
    );
}

#[test]
fn validate_follows_the_rule_order() {
    let c = stub_command(1);
    let user = user_snap();
    assert_eq!(
        c.validate_main_target(&user, Some(&user)),
        Err(TargetValidationError::CannotTargetSelf)
    );
    let mut ally = target_snap();
    ally.allegiance = 1;
    assert_eq!(
        c.validate_main_target(&user, Some(&ally)),
        Err(TargetValidationError::CannotTargetAlly)
    );
    let mut npc = target_snap();
    npc.is_static = true;
    assert_eq!(c.validate_main_target(&user, Some(&npc)), Err(TargetValidationError::InvalidTarget));
    let mut locked = target_snap();
    locked.is_updates_locked = true;
    assert_eq!(c.validate_main_target(&user, Some(&locked)), Err(TargetValidationError::InvalidTarget));
    let mut heal = BattleCommand::new(2, "cure");
    heal.main_target = ValidTarget(ValidTarget::SELF | ValidTarget::ALLY | ValidTarget::PARTY);
    assert!(heal.validate_main_target(&user, Some(&user)).is_ok());
    assert_eq!(
        heal.validate_main_target(&user, Some(&target_snap())),
        Err(TargetValidationError::CannotTargetEnemy)
    );
    let mut raise = BattleCommand::new(3, "raise");
    raise.main_target = ValidTarget(ValidTarget::CORPSE_ONLY | ValidTarget::ALLY);
    let mut dead_ally = ally;
    dead_ally.is_alive = false;
    assert_eq!(
        raise.validate_main_target(&user, Some(&ally)),
        Err(TargetValidationError::MustTargetKoTarget)
    );
    assert_eq!(
        raise.validate_main_target(&user, Some(&dead_ally)),
        Err(TargetValidationError::CannotTargetKoTarget)
    );
}

#[test]
fn command_basics() {
    let mut c = BattleCommand::new(5, "fire");
    assert!(!c.is_spell());
    assert!(c.is_instant_cast());
    c.mp_cost = 10;
    assert!(c.is_spell());
    c.cast_time_ms = 2000;
    assert!(!c.is_instant_cast());
    c.combo_next_command_id = [27, 28];
    assert!(c.combo_matches(28));
    assert!(!c.combo_matches(29));
    c.action_type = ActionType::Magic;
    assert_eq!(c.get_action_type(), 2);
    assert_eq!(c.get_command_type(), 0);
}

#[test]
fn results_combine_main_then_additional() {
    let mut c = CommandResultContainer::new();
    assert!(c.is_empty());
    let cmd = BattleCommand::new(9, "slash");
    c.add_additional(CommandResult::for_target(3, 30, 7));
    c.add_action(CommandResult::from_command(2, &cmd, 1));
    c.add_action(CommandResult::from_command(4, &cmd, 2));
    assert!(!c.is_empty());
    let all = c.combine_lists();
    let ids: Vec<u32> = all.iter().map(|r| r.target_actor_id).collect();
    assert_eq!(ids, vec![2, 4, 3]);
    assert!(c.is_empty());
    let mut r = CommandResult::default();
    assert_eq!(r.hit_type, HitType::Hit);
    assert!(r.action_landed());
    r.hit_type = HitType::Evade;
    assert!(!r.action_landed());
    r.set_text_id(30001);
    assert_eq!(r.world_master_text_id, 30001);
}
