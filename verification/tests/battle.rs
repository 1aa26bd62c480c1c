use garlemald::battle::ai_container::{Action, ActionQueue};
use garlemald::battle::command::{BattleCommandPositionBonus, BattleCommandRequirements, CommandType, TargetValidationError};
use garlemald::battle::effects::{ActionProperty, ActionType, HitDirection, HitEffect, HitType};
use garlemald::battle::hate::HateContainer;
use garlemald::battle::target_find::ValidTarget;
use garlemald::battle::utils::{
    get_chain_bonus, get_chain_time_limit, get_link_bonus, hit_dir_to_position,
    magical_hit_effect, magical_hit_text_id, multi_hit_text_id, physical_hit_effect,
    physical_hit_text_id,
};

#[test]
fn add_and_update_hate() {
    let mut h = HateContainer::new(1);
    h.update_hate(100, 50);
    h.update_hate(100, 25);
    h.update_hate(200, 10);

    assert_eq!(h.most_hated(), Some(100));
    assert_eq!(h.get(100).unwrap().cumulative_enmity, 50 + 25 + 1);
}

#[test]
fn clear_hate_targeted_vs_all() {
    let mut h = HateContainer::new(1);
    h.update_hate(100, 50);
    h.update_hate(200, 10);
    h.clear_hate(Some(100));
    assert!(!h.has_hate_for(100));
    assert!(h.has_hate_for(200));
    h.clear_hate(None);
    assert!(h.is_empty());
}

#[test]
fn inactive_entries_excluded_from_most_hated() {
    let mut h = HateContainer::new(1);
    h.update_hate(100, 100);
    h.update_hate(200, 10);
    h.set_active(100, false);
    assert_eq!(h.most_hated(), Some(200));
}

#[test]
fn most_hated_stable_on_tie() {
    let mut h = HateContainer::new(1);
    h.update_hate(200, 10);
    h.update_hate(100, 10);
    assert_eq!(h.most_hated(), Some(100));
}

#[test]
fn negative_damage_adds_no_enmity_and_saturates() {
    let mut h = HateContainer::new(1);
    h.update_hate(5, -40);
    assert_eq!(h.get(5).unwrap().cumulative_enmity, 1);
    h.update_hate(5, i32::MAX);
    h.update_hate(5, i32::MAX);
    h.update_hate(5, i32::MAX);
    assert_eq!(h.get(5).unwrap().cumulative_enmity, u32::MAX);
    h.add_base_hate(6);
    assert_eq!(h.len(), 2);
    assert_eq!(h.entries().len(), 2);
    h.get_mut(6).unwrap().volatile_enmity = 9;
    assert_eq!(h.get(6).unwrap().volatile_enmity, 9);
    h.set_active(5, false);
    h.set_active(6, false);
    assert_eq!(h.most_hated(), None);
}

#[test]
fn suppress_hate_unused() {
    let _ = HateContainer::new(1);
}

#[test]
fn action_queue_fires_in_order() {
    let mut q = ActionQueue::new();
    q.push(Action { fire_at_ms: 3000, check_state: false, tag: 2 });
    q.push(Action { fire_at_ms: 1000, check_state: false, tag: 1 });
    q.push(Action { fire_at_ms: 5000, check_state: false, tag: 3 });
    let due = q.drain_due(3000);
    assert_eq!(due.iter().map(|a| a.tag).collect::<Vec<_>>(), vec![1, 2]);
    assert_eq!(q.entries.len(), 1);
}

#[test]
fn action_queue_keeps_queue_order_for_equal_times() {
    let mut q = ActionQueue::new();
    q.push(Action { fire_at_ms: 10, check_state: true, tag: 1 });
    q.push(Action { fire_at_ms: 10, check_state: false, tag: 2 });
    q.push(Action { fire_at_ms: 5, check_state: false, tag: 3 });
    assert!(!q.is_empty());
    let tags: Vec<u32> = q.entries.iter().map(|a| a.tag).collect();
    assert_eq!(tags, vec![3, 1, 2]);
    assert!(q.drain_due(4).is_empty());
    assert_eq!(q.drain_due(100).len(), 3);
    assert!(q.is_empty());
}

#[test]
fn link_and_chain_bonus_tables() {
    assert_eq!(get_link_bonus(0), 0);
    assert_eq!(get_link_bonus(2), 50);
    assert_eq!(get_link_bonus(99), 100);

    assert_eq!(get_chain_bonus(0), 0);
    assert_eq!(get_chain_bonus(2), 25);
    assert_eq!(get_chain_bonus(99), 50);

    assert_eq!(get_chain_time_limit(0), 100);
    assert_eq!(get_chain_time_limit(2), 60);
    assert_eq!(get_chain_time_limit(99), 10);
}

#[test]
fn hit_text_and_effect_tables() {
    assert_eq!(physical_hit_text_id(HitType::Crit), 30302);
    assert_eq!(physical_hit_text_id(HitType::FullResist), 0);
    assert_eq!(magical_hit_text_id(HitType::FullResist), 30316);
    assert_eq!(multi_hit_text_id(HitType::Evade), 0);
    assert_eq!(physical_hit_effect(HitType::Crit).bits(), HitEffect::CRIT | HitEffect::CRITICAL_HIT);
    assert_eq!(physical_hit_effect(HitType::Hit).bits(), 0x600);
    assert_eq!(magical_hit_effect(HitType::DoubleResist).bits(), HitEffect::WEAK_RESIST);
    assert!(HitType::TripleResist.landed());
    assert!(!HitType::DoubleResist.landed());
    assert_eq!(HitType::Crit.as_u16(), 9);
    assert_eq!(ActionType::from_u16(3), ActionType::Heal);
    assert_eq!(ActionType::from_u16(9), ActionType::NoAction);
    assert_eq!(ActionProperty::from_u16(13), ActionProperty::Heal);
    assert_eq!(ActionProperty::from_u16(14), ActionProperty::NoProperty);
}

#[test]
fn hit_direction_picks_position_bonus() {
    let front_and_rear = HitDirection(HitDirection::FRONT | HitDirection::REAR);
    assert_eq!(hit_dir_to_position(front_and_rear), BattleCommandPositionBonus::Front);
    assert_eq!(hit_dir_to_position(HitDirection(HitDirection::LEFT)), BattleCommandPositionBonus::Flank);
    assert_eq!(hit_dir_to_position(HitDirection(HitDirection::REAR)), BattleCommandPositionBonus::Rear);
    assert_eq!(hit_dir_to_position(HitDirection(0)), BattleCommandPositionBonus::NoBonus);
}

#[test]
fn flag_types_test_bits() {
    let t = ValidTarget(ValidTarget::ENEMY | ValidTarget::CORPSE);
    assert!(t.contains(ValidTarget(ValidTarget::ENEMY)));
    assert!(!t.contains(ValidTarget(ValidTarget::ENEMY | ValidTarget::ALLY)));
    assert!(t.intersects(ValidTarget(ValidTarget::ENEMY | ValidTarget::ALLY)));
    assert!(HitEffect(HitEffect::HIT).intersects(HitEffect(HitEffect::EVADE)));
    let r = BattleCommandRequirements(BattleCommandRequirements::SWORD | BattleCommandRequirements::SHIELD);
    assert!(r.contains(BattleCommandRequirements(BattleCommandRequirements::SHIELD)));
    assert_eq!(CommandType(CommandType::SPELL).bits(), 4);
    assert_eq!(TargetValidationError::OutOfZone.text_id(), 32540);
}
