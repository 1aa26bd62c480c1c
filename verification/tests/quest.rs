use garlemald::actor::quest::{
    quest_actor_id, quest_id_from_actor, quest_id_to_bit, AddEnpcOutcome, GuildleveJournal, Quest,
    QuestData, QuestEnpc, QuestFlagGraphic, QuestJournal, QuestState,
};

#[test]
fn quest_actor_id_roundtrip() {
    let id = 110_001u32;
    let aid = quest_actor_id(id);
    assert_eq!(quest_id_from_actor(aid), id);
}

#[test]
fn quest_id_bit_mapping() {
    assert_eq!(quest_id_to_bit(110_001), Some(0));
    assert_eq!(quest_id_to_bit(110_002), Some(1));
    assert_eq!(quest_id_to_bit(112_048), Some(2047));
    assert_eq!(quest_id_to_bit(110_000), None);
    assert_eq!(quest_id_to_bit(112_049), None);
}

#[test]
fn questdata_flag_set_clear_flips_dirty() {
    let mut d = QuestData::new();
    assert!(!d.is_dirty());
    d.set_flag(3);
    assert!(d.get_flag(3));
    assert!(d.is_dirty());

    d.clear_dirty();
    d.clear_flag(3);
    assert!(!d.get_flag(3));
    assert!(d.is_dirty());
}

#[test]
fn questdata_out_of_range_flag_is_noop() {
    let mut d = QuestData::new();
    d.set_flag(40);
    assert_eq!(d.flags(), 0);
    assert!(!d.is_dirty());
}

#[test]
fn questdata_counter_operations() {
    let mut d = QuestData::new();
    assert_eq!(d.inc_counter(0), 1);
    assert_eq!(d.inc_counter(0), 2);
    assert_eq!(d.inc_counter(2), 1);
    d.set_counter(1, 99);
    assert_eq!(d.counter(0), 2);
    assert_eq!(d.counter(1), 99);
    assert_eq!(d.counter(2), 1);
    assert!(d.is_dirty());
}

#[test]
fn questdata_counter_wraps_on_overflow() {
    let mut d = QuestData::from_parts(0, 0xFFFF, 0, 0);
    assert_eq!(d.inc_counter(0), 0);
    assert_eq!(d.dec_counter(1), 0xFFFF);
}

#[test]
fn questdata_counter_out_of_range_is_noop() {
    let mut d = QuestData::new();
    assert_eq!(d.inc_counter(3), 0);
    d.set_counter(5, 42);
    assert_eq!(d.counter(0), 0);
    assert!(!d.is_dirty());
}

#[test]
fn queststate_add_enpc_reports_outcome() {
    let mut s = QuestState::new();
    let a = QuestEnpc::new(1001, 0, true, true, false, false);
    assert_eq!(s.add_enpc(a), AddEnpcOutcome::New(a));
    assert!(s.has_enpc(1001));

    s.begin_sequence_swap();
    assert!(!s.has_enpc(1001));

    assert_eq!(s.add_enpc(a), AddEnpcOutcome::Unchanged);

    s.begin_sequence_swap();
    let b = QuestEnpc::new(1001, 1, true, true, false, false);
    assert_eq!(s.add_enpc(b), AddEnpcOutcome::Updated(b));
}

#[test]
fn queststate_stale_enpcs_drainable_after_swap() {
    let mut s = QuestState::new();
    s.add_enpc(QuestEnpc::new(1001, 0, true, true, false, false));
    s.add_enpc(QuestEnpc::new(1002, 0, true, true, false, false));

    s.begin_sequence_swap();
    s.add_enpc(QuestEnpc::new(1001, 0, true, true, false, false));

    let stale: Vec<u32> = s.drain_stale_enpcs().iter().map(|e| e.actor_class_id).collect();
    assert_eq!(stale, vec![1002]);
}

#[test]
fn quest_start_sequence_flips_dirty() {
    let mut q = Quest::new(quest_actor_id(110_001), "man0l0");
    assert!(!q.is_dirty());
    q.start_sequence(10);
    assert_eq!(q.get_sequence(), 10);
    assert!(q.is_dirty());
}

#[test]
fn journal_add_remove_complete_via_bitstream() {
    let mut j = QuestJournal::new();
    let quest = Quest::new(quest_actor_id(110_001), "man0l0");
    let slot = j.add(quest).expect("slot");
    assert_eq!(slot, 0);
    assert!(j.has(110_001));

    j.complete(110_001);
    assert!(!j.has(110_001));
    assert!(j.is_completed(110_001));
    assert!(!j.can_accept(110_001));

    assert_eq!(j.completed.count_ones(), 1);
    assert!(j.completed.get(0));

    let ids: Vec<u32> = j.iter_completed();
    assert_eq!(ids, vec![110_001]);
}

#[test]
fn journal_set_completed_idempotent() {
    let mut j = QuestJournal::new();
    j.set_completed(110_050, true);
    j.set_completed(110_050, true);
    assert_eq!(j.completed.count_ones(), 1);
    j.set_completed(110_050, false);
    assert_eq!(j.completed.count_ones(), 0);
}

#[test]
fn journal_completed_ignores_out_of_range_ids() {
    let mut j = QuestJournal::new();
    j.set_completed(50_000, true);
    assert!(!j.is_completed(50_000));
    assert_eq!(j.completed.count_ones(), 0);
}

#[test]
fn flag_graphic_wire_values_round_trip() {
    for v in 0u8..3 {
        assert_eq!(QuestFlagGraphic::from_u8(v).as_u8(), v);
    }
    assert_eq!(QuestFlagGraphic::from_u8(7), QuestFlagGraphic::NoGraphic);
    assert_eq!(QuestFlagGraphic::MapGraphic.as_u8(), 1);
    assert_eq!(QuestFlagGraphic::PlateGraphic.as_u8(), 2);
}

#[test]
fn flag_write_leaves_other_flags() {
    let mut d = QuestData::from_parts(0b1010, 0, 0, 0);
    d.set_flag(0);
    assert_eq!(d.flags(), 0b1011);
    d.clear_flag(3);
    assert_eq!(d.flags(), 0b0011);
    assert!(d.get_flag(1));
    assert!(!d.get_flag(32));
}

#[test]
fn npc_ls_scratchpad_saturates_and_clears() {
    let mut d = QuestData::from_parts_with_npc_ls(0, 0, 0, 0, 7, 254);
    assert!(!d.is_dirty());
    assert_eq!(d.npc_ls_from(), 7);
    assert_eq!(d.inc_npc_ls_msg_step(), 255);
    assert_eq!(d.inc_npc_ls_msg_step(), 255);
    d.set_npc_ls_from(9);
    assert_eq!(d.npc_ls_from(), 9);
    d.clear_npc_ls();
    assert_eq!(d.npc_ls_from(), 0);
    assert_eq!(d.npc_ls_msg_step(), 0);
    assert!(d.is_dirty());
}

#[test]
fn clear_data_zeroes_everything_and_marks_dirty() {
    let mut q = Quest::from_db_row(quest_actor_id(110_005), "q", 3, 0xFF, 1, 2, 3);
    assert_eq!(q.quest_id(), 110_005);
    assert_eq!(q.get_counter(1), 2);
    assert_eq!(q.data.counter3(), 3);
    q.clear_flags();
    assert_eq!(q.get_flags(), 0);
    assert_eq!(q.get_counter(0), 1);
    q.clear_data();
    assert_eq!(q.get_counter(2), 0);
    assert!(q.is_dirty());
}

#[test]
fn journal_fills_sixteen_slots_then_refuses() {
    let mut j = QuestJournal::new();
    for k in 0..16u32 {
        assert_eq!(j.add(Quest::new(quest_actor_id(110_001 + k), "q")), Some(k as usize));
    }
    assert_eq!(j.get_free_slot(), None);
    assert_eq!(j.add(Quest::new(quest_actor_id(111_000), "q")), None);
    assert!(!j.can_accept(111_000));
    assert_eq!(j.slot_of(110_003), Some(2));
    assert!(j.has_by_name("q"));
    assert!(!j.has_by_name("other"));
    let removed = j.remove(110_003).expect("quest");
    assert_eq!(removed.quest_id(), 110_003);
    assert_eq!(j.get_free_slot(), Some(2));
    j.get_mut(110_004).expect("quest").set_flag(5);
    assert!(j.get(110_004).expect("quest").get_flag(5));
}

#[test]
fn guildleve_journal_slots() {
    let mut g = GuildleveJournal::new();
    assert_eq!(g.add(12), Some(0));
    assert_eq!(g.add(34), Some(1));
    assert!(g.has(12));
    assert!(g.has(0x1_0000 + 12));
    assert!(g.remove(12));
    assert!(!g.remove(12));
    assert_eq!(g.get_free_slot(), Some(0));
}
