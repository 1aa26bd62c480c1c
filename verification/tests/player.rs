use garlemald::actor::chara::{CharaState, Character, TraitRef, MAX_TP};
use garlemald::actor::player::{Player, CLASSID_GLA, CLASSID_THM, SLOT_HEAD};
use garlemald::actor::quest::{quest_actor_id, Quest};

fn fresh_player() -> Player {
    Player::with_helpers(1)
}

#[test]
fn quest_flow() {
    let mut p = fresh_player();
    assert_eq!(p.get_free_quest_slot(), 0);
    let q = Quest::new(quest_actor_id(110_001), "man0l0");
    p.add_quest(q);
    assert!(p.has_quest(110_001));
    assert_eq!(p.get_quest_slot(110_001), Some(0));
    assert!(!p.can_accept_quest(110_001));
    p.complete_quest(110_001);
    assert!(!p.has_quest(110_001));
    assert!(p.is_quest_completed(110_001));
}

#[test]
fn aetheryte_unlocked_only_when_set() {
    let mut p = fresh_player();
    assert!(!p.has_aetheryte_node_unlocked(1_280_001));
    p.set_home_point(1_280_001);
    assert!(p.has_aetheryte_node_unlocked(1_280_001));
}

#[test]
fn convert_class_to_job() {
    assert_eq!(Player::convert_class_id_to_job_id(CLASSID_GLA), 16); // PLD
    assert_eq!(Player::convert_class_id_to_job_id(CLASSID_THM), 26); // BLM
    assert_eq!(Player::convert_class_id_to_job_id(200), 200); // unknown passthrough
}

#[test]
fn current_class_or_job_prefers_job() {
    let mut p = fresh_player();
    p.character.chara.class = 3;
    p.character.chara.current_job = 0;
    assert_eq!(p.get_current_class_or_job(), 3);
    p.character.chara.current_job = 16;
    assert_eq!(p.get_current_class_or_job(), 16);
}

#[test]
fn gil_lookup_falls_through_inventory_summary() {
    let mut p = fresh_player();
    assert_eq!(p.get_current_gil(), 0);
    p.helpers.inventory_summary.insert(1_000_001, 42);
    assert_eq!(p.get_current_gil(), 42);
}

#[test]
fn hpp_math_is_clamped() {
    let mut state = CharaState {
        hp: 50,
        max_hp: 100,
        ..Default::default()
    };
    assert_eq!(state.hpp(), 50);
    state.hp = 200;
    assert_eq!(state.hpp(), 100);
    state.hp = -10;
    assert_eq!(state.hpp(), 0);
}

#[test]
fn percent_rounds_toward_zero_and_handles_empty_pools() {
    let state = CharaState { mp: 1, max_mp: 3, ..Default::default() };
    assert_eq!(state.mpp(), 33);
    let empty = CharaState::default();
    assert_eq!(empty.hpp(), 0);
    assert_eq!(empty.mpp(), 0);
    let negative_max = CharaState { hp: -50, max_hp: -100, ..Default::default() };
    assert_eq!(negative_max.hpp(), 50);
    let tp = CharaState { tp: 1500, ..Default::default() };
    assert_eq!(tp.tpp(), 50);
    let over = CharaState { tp: 4000, ..Default::default() };
    assert_eq!(over.tpp(), 100);
}

#[test]
fn pools_clamp_to_their_bounds() {
    let mut c = Character::new(7);
    assert!(c.chara.is_auto_attack_enabled);
    c.set_max_hp(100);
    c.set_hp(150);
    assert_eq!(c.chara.hp, 100);
    c.del_hp(30);
    assert_eq!(c.chara.hp, 70);
    c.del_hp(500);
    assert_eq!(c.chara.hp, 0);
    assert!(c.is_dead());
    c.add_hp(10);
    assert!(c.is_alive());
    c.set_max_hp(5);
    assert_eq!((c.chara.hp, c.chara.max_hp), (5, 5));
    c.set_max_hp(-3);
    assert_eq!((c.chara.hp, c.chara.max_hp), (0, 0));
    c.set_max_mp(40);
    c.add_mp(100);
    assert_eq!(c.chara.mp, 40);
    c.del_mp(15);
    assert_eq!(c.chara.mp, 25);
    c.add_tp(5000);
    assert_eq!(c.chara.tp, MAX_TP);
    c.del_tp(4000);
    assert_eq!(c.chara.tp, 0);
}

#[test]
fn stats_clamp_and_ignore_unknown_ids() {
    let mut c = Character::new(1);
    c.set_stat(3, 100_000);
    assert_eq!(c.get_stat(3), i16::MAX);
    c.set_stat(4, -100_000);
    assert_eq!(c.get_stat(4), i16::MIN);
    c.set_stat(36, 5);
    assert_eq!(c.get_stat(36), 0);
}

#[test]
fn disciples_and_traits_follow_class_and_level() {
    let mut p = fresh_player();
    p.character.chara.class = 3;
    p.character.chara.level = 20;
    assert!(p.is_disciple_of_war());
    assert!(!p.is_disciple_of_magic());
    p.helpers.traits.push(TraitRef { id: 27, job: 3, level: 10 });
    p.helpers.traits.push(TraitRef { id: 28, job: 3, level: 30 });
    assert!(p.has_trait(27));
    assert!(!p.has_trait(28));
    assert!(!p.has_trait(99));
    p.character.chara.class = 22;
    assert!(p.is_disciple_of_magic());
    assert!(!p.has_trait(27));
}

#[test]
fn equipment_and_inventory_lookups() {
    let mut p = fresh_player();
    assert_eq!(p.get_equipped_item(SLOT_HEAD), None);
    p.helpers.equipment_by_slot.insert(SLOT_HEAD, 8_030_001);
    assert!(p.has_item_equipped_in_slot(8_030_001, SLOT_HEAD));
    assert!(!p.has_item_equipped_in_slot(8_030_002, SLOT_HEAD));
    assert_eq!(p.get_equipped_item(SLOT_HEAD), Some(8_030_001));
    assert!(p.has_item(5, 0));
    assert!(!p.has_item(5, 1));
    p.helpers.inventory_summary.insert(5, 3);
    assert!(p.has_item(5, 3));
    assert!(!p.has_item(5, 4));
}

#[test]
fn guildleves_fill_free_slots() {
    let mut p = fresh_player();
    assert_eq!(p.get_free_guildleve_slot(), 0);
    assert_eq!(p.add_guildleve(120), Some(0));
    assert!(p.has_guildleve(120));
    assert_eq!(p.get_free_guildleve_slot(), 1);
    assert!(p.remove_guildleve(120));
    assert!(!p.remove_guildleve(120));
}

#[test]
fn play_time_accumulates_from_the_clock() {
    let mut p = fresh_player();
    assert_eq!(p.get_play_time(false), 0);
    p.player.last_play_time_update = 100;
    let t = p.get_play_time(true);
    assert!(t > 0);
    assert_eq!(p.player.play_time, t);
    let mut s = p.player.clone();
    s.play_time = 10;
    s.last_play_time_update = 50;
    s.count_play_time(80);
    assert_eq!((s.play_time, s.last_play_time_update), (40, 80));
    s.count_play_time(20);
    assert_eq!((s.play_time, s.last_play_time_update), (40, 20));
}

#[test]
fn chocobo_rental_runs_until_its_end() {
    let mut p = fresh_player();
    assert!(!p.is_chocobo_rental_active());
    p.start_chocobo_rental(30);
    assert!(p.is_chocobo_rental_active());
    assert!(p.helpers.rental_active_at(0));
    assert!(!p.helpers.rental_active_at(p.helpers.chocobo_rental_until));
}

#[test]
fn display_name_prefers_custom() {
    let mut c = Character::new(9);
    c.base.actor_name = "Papalymo".to_string();
    assert_eq!(c.base.display_name(), "Papalymo");
    c.base.custom_display_name = "Papa".to_string();
    assert_eq!(c.base.display_name(), "Papa");
    assert_eq!(c.base.display_name_id, 0xFFFF_FFFF);
}
