use garlemald::battle::target_find::{passes_target_filters, ActorView, TargetFindAOEType, ValidTarget};

fn actor(id: u32, allegiance: u32, party: u64) -> ActorView {
    ActorView {
        actor_id: id,
        is_alive: true,
        is_static: false,
        allegiance,
        party_id: party,
        zone_id: 1,
        is_updates_locked: false,
        is_player: allegiance == 1,
        is_battle_npc: allegiance != 1,
    }
}

#[test]
fn enemy_flag_admits_enemies_only() {
    let owner = actor(1, 1, 0);
    let enemy = actor(2, 2, 0);
    let ally = actor(3, 1, 0);
    let v = ValidTarget(ValidTarget::ENEMY);
    assert!(passes_target_filters(v, TargetFindAOEType::NoArea, owner, enemy, &[], enemy));
    assert!(!passes_target_filters(v, TargetFindAOEType::NoArea, owner, enemy, &[], ally));
    // Already chosen: not again.
    assert!(!passes_target_filters(v, TargetFindAOEType::NoArea, owner, enemy, &[enemy], enemy));
}

#[test]
fn corpse_and_zone_rules() {
    let owner = actor(1, 1, 0);
    let mut dead = actor(2, 2, 0);
    dead.is_alive = false;
    let v = ValidTarget(ValidTarget::ENEMY);
    assert!(!passes_target_filters(v, TargetFindAOEType::Circle, owner, dead, &[], dead));
    let v = ValidTarget(ValidTarget::ENEMY | ValidTarget::CORPSE_ONLY | ValidTarget::CORPSE);
    assert!(passes_target_filters(v, TargetFindAOEType::Circle, owner, dead, &[], dead));
    let mut far = actor(3, 2, 0);
    far.zone_id = 2;
    let v = ValidTarget(ValidTarget::ENEMY);
    assert!(!passes_target_filters(v, TargetFindAOEType::Circle, owner, far, &[], far));
    let mut zoning = actor(4, 2, 0);
    zoning.is_updates_locked = true;
    assert!(!passes_target_filters(v, TargetFindAOEType::Circle, owner, zoning, &[], zoning));
}

#[test]
fn self_and_party_rules() {
    let solo = actor(1, 1, 0);
    let self_only = ValidTarget(ValidTarget::SELF);
    assert!(passes_target_filters(self_only, TargetFindAOEType::NoArea, solo, solo, &[], solo));
    assert!(!passes_target_filters(self_only, TargetFindAOEType::NoArea, solo, solo, &[], actor(2, 1, 0)));
    let owner = actor(1, 1, 9);
    let friend = actor(2, 1, 9);
    let party = ValidTarget(
        ValidTarget::SELF | ValidTarget::ALLY | ValidTarget::PARTY | ValidTarget::MAIN_TARGET_PARTY,
    );
    assert!(passes_target_filters(party, TargetFindAOEType::Circle, owner, owner, &[], friend));
    let no_party = ValidTarget(ValidTarget::SELF | ValidTarget::ALLY | ValidTarget::MAIN_TARGET_PARTY);
    assert!(!passes_target_filters(no_party, TargetFindAOEType::Circle, owner, owner, &[], friend));
}
