use garlemald::achievement::{AchievementEvent, AchievementOutbox, COMPLETED_ACHIEVEMENTS_BITS};
use garlemald::actor::gc::{
    is_valid_gc, rank_seal_cap, seal_item_id, GC_IMMORTAL_FLAMES, GC_MAELSTROM, GC_NONE,
    GC_TWIN_ADDER, SEAL_FLAME, SEAL_SERPENT, SEAL_STORM,
};
use garlemald::actor::modifier::Modifier;
use garlemald::actor::player::{PlayerHelperState, PlayerState};
use garlemald::director::{DirectorEvent, DirectorOutbox};

#[test]
fn seal_id_maps_each_gc() {
    assert_eq!(seal_item_id(GC_MAELSTROM), Some(SEAL_STORM));
    assert_eq!(seal_item_id(GC_TWIN_ADDER), Some(SEAL_SERPENT));
    assert_eq!(seal_item_id(GC_IMMORTAL_FLAMES), Some(SEAL_FLAME));
    assert_eq!(seal_item_id(GC_NONE), None);
    assert_eq!(seal_item_id(99), None);
}

#[test]
fn is_valid_gc_accepts_only_three() {
    for gc in [1u8, 2, 3] {
        assert!(is_valid_gc(gc));
    }
    for gc in [0u8, 4, 5, 127, 255] {
        assert!(!is_valid_gc(gc));
    }
}

#[test]
fn rank_cap_known_ranks() {
    assert_eq!(rank_seal_cap(11), 10_000);
    assert_eq!(rank_seal_cap(31), 50_000);
    assert_eq!(rank_seal_cap(127), 10_000);
    assert_eq!(rank_seal_cap(0), 0);
    assert_eq!(rank_seal_cap(111), 0);
    assert_eq!(rank_seal_cap(42), 0);
}

#[test]
fn completed_bits_encode_earned_ids() {
    let mut helper = PlayerHelperState::default();
    let mut ob = AchievementOutbox::new();
    helper.earn_achievement(1, 5, 1, &mut ob);
    helper.earn_achievement(1, 100, 1, &mut ob);
    let bits = helper.completed_achievement_bits();
    assert_eq!(bits.len(), COMPLETED_ACHIEVEMENTS_BITS);
    assert!(bits[5]);
    assert!(bits[100]);
    assert!(!bits[6]);
}

#[test]
fn retainer_slot_tracking_round_trip() {
    let mut helper = PlayerHelperState::default();
    assert!(!helper.has_spawned_retainer());
    helper.set_spawned_retainer(0x4000_0099);
    assert!(helper.has_spawned_retainer());
    assert_eq!(helper.current_spawned_retainer_id, 0x4000_0099);
    helper.clear_spawned_retainer();
    assert!(!helper.has_spawned_retainer());
}

#[test]
fn earning_twice_is_a_no_op() {
    let mut helper = PlayerHelperState::default();
    let mut ob = AchievementOutbox::new();
    assert!(helper.earn_achievement(1, 42, 10, &mut ob));
    assert_eq!(ob.len(), 3);
    assert!(!helper.earn_achievement(1, 42, 10, &mut ob));
    assert_eq!(ob.len(), 3);
    assert_eq!(helper.achievement_points, 10);
    assert_eq!(helper.latest_achievements, [42, 0, 0, 0, 0]);
    assert!(helper.earn_achievement(1, 43, u32::MAX, &mut ob));
    assert_eq!(helper.achievement_points, u32::MAX);
    assert_eq!(helper.latest_achievements, [43, 42, 0, 0, 0]);
    let events = ob.drain();
    assert_eq!(events.len(), 6);
    assert!(ob.is_empty());
    assert!(matches!(events[0], AchievementEvent::Earned { player_actor_id: 1, achievement_id: 42 }));
    helper.set_title(1, 777, &mut ob);
    assert_eq!(helper.current_title_id, 777);
    assert_eq!(ob.len(), 1);
}

#[test]
fn directors_parties_and_linkshells() {
    let mut helper = PlayerHelperState::default();
    let mut ob = DirectorOutbox::new();
    helper.add_director(0x6000_0001, true, &mut ob, 7);
    helper.add_director(0x6000_0001, false, &mut ob, 7);
    assert_eq!(helper.owned_directors, vec![0x6000_0001]);
    assert_eq!(helper.guildleve_director(), Some(0x6000_0001));
    helper.remove_director(0x6000_0001, &mut ob, 7);
    assert!(helper.owned_directors.is_empty());
    assert_eq!(helper.guildleve_director(), None);
    assert_eq!(ob.events.len(), 3);
    assert_eq!(
        ob.events[2],
        DirectorEvent::MemberRemoved { director_id: 0x6000_0001, actor_id: 7, is_player: true }
    );

    helper.set_party(9, vec![1, 2], true);
    assert!(helper.in_party && helper.party_leader);
    helper.clear_party();
    assert!(!helper.in_party && helper.current_party_members.is_empty());

    helper.add_linkshell(5);
    helper.add_linkshell(5);
    helper.add_linkshell(6);
    assert_eq!(helper.current_linkshell_ids, vec![5, 6]);
    helper.remove_linkshell(5);
    assert!(!helper.is_in_linkshell(5));
    assert!(helper.is_in_linkshell(6));
    helper.set_content_group(Some(3));
    assert_eq!(helper.current_content_group_id, Some(3));
}

#[test]
fn rest_bonus_is_recorded() {
    let mut p = PlayerState::default();
    p.set_rest_bonus(25);
    assert_eq!(p.rest_bonus_exp_rate, 25);
}

#[test]
fn modifier_ids_round_trip() {
    assert_eq!(Modifier::Hp.as_u32(), 0);
    assert_eq!(Modifier::from_u32(0), Some(Modifier::Hp));
    assert_eq!(Modifier::from_u32(Modifier::Haste.as_u32()), Some(Modifier::Haste));
    for v in 0u32..200 {
        if let Some(m) = Modifier::from_u32(v) {
            assert_eq!(m.as_u32(), v);
        }
    }
    assert_eq!(Modifier::from_u32(1000), None);
}
