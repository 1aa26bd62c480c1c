use garlemald::lobby::chara_info::starting_zone_id;
use base64::engine::general_purpose::STANDARD as BASE64;
use base64::Engine;
use garlemald::lobby::data::{Character, World};
use garlemald::lobby::processor::{
    is_start_session, request_for_opcode, select_character_reply, session_ack_replies,
    world_names_for, LobbyRequest, LobbySession, ModifyAction, ModifyEvent, ModifyFlow,
    ModifyStage,
};
use garlemald::lobby::receive::{CharacterModifyPacket, SelectCharacterPacket, SessionPacket};
use garlemald::lobby::send::{chara_creator_packet, error_packet, select_character_confirm_packet};

fn world(id: u16, name: &str) -> World {
    World {
        id,
        address: "10.0.0.2".into(),
        port: 54992,
        list_position: 1,
        population: 0,
        name: name.into(),
        is_active: true,
    }
}

fn request(command: u8, world_id: u16, character_id: u32) -> CharacterModifyPacket {
    CharacterModifyPacket {
        sequence: 9,
        character_id,
        person_type: 0,
        slot: 2,
        command,
        world_id,
        character_name: "Alyx Wren".into(),
        character_info_encoded: String::new(),
    }
}

fn only_reply(a: ModifyAction) -> Vec<u8> {
    match a {
        ModifyAction::Reply(mut v) => {
            assert_eq!(v.len(), 1);
            v.pop().unwrap().data
        }
        _ => panic!("expected a reply"),
    }
}

#[test]
fn opening_packet_is_recognised() {
    let mut data = vec![0u8; 0x288 - 0x10];
    data[0x34] = b'T';
    assert!(is_start_session(0x288, &data));
    assert!(!is_start_session(0x289, &data));
    data[0x34] = b'X';
    assert!(!is_start_session(0x288, &data));
    assert!(!is_start_session(0x288, &[0u8; 0x10]));
}

#[test]
fn opcodes_route_to_requests() {
    assert_eq!(request_for_opcode(0x03), Some(LobbyRequest::GetCharacters));
    assert_eq!(request_for_opcode(0x04), Some(LobbyRequest::SelectCharacter));
    assert_eq!(request_for_opcode(0x05), Some(LobbyRequest::SessionAck));
    assert_eq!(request_for_opcode(0x0B), Some(LobbyRequest::ModifyCharacter));
    assert_eq!(request_for_opcode(0x06), None);
}

#[test]
fn session_ack_kicks_unknown_sessions() {
    let mut session = LobbySession::default();
    let req = SessionPacket { sequence: 4, session: "abc".into(), version: "v".into() };
    let r = session_ack_replies(&mut session, &req, 0);
    assert_eq!(r.len(), 1);
    let want = error_packet(4, 0, 0, 13001, "Your session has expired, please login again.");
    assert_eq!(r[0].data, want.data);
    assert_eq!(session.current_session_token, "abc");
    let r = session_ack_replies(&mut session, &req, 77);
    assert_eq!(session.current_user_id, 77);
    assert_eq!(r.len(), 1);
    assert_eq!(r[0].game_message.opcode, 0x0C);
    assert_eq!(&r[0].data[0x10..0x14], &1u32.to_le_bytes());
    assert_eq!(&r[0].data[0x18..0x29], b"FINAL FANTASY XIV");
}

#[test]
fn select_character_confirms_or_refuses() {
    let req = SelectCharacterPacket { sequence: 3, character_id: 11, unknown_id: 0, ticket: 99 };
    let refused = select_character_reply(&req, "tok", None);
    let want = error_packet(3, 0, 0, 13001, "World Does not exist or is inactive.");
    assert_eq!(refused.data, want.data);
    let w = world(1, "Fernehalwes");
    let ok = select_character_reply(&req, "tok", Some(&w));
    let want = select_character_confirm_packet(3, 11, "tok", "10.0.0.2", 54992, 99);
    assert_eq!(ok.data, want.data);
    assert_eq!(ok.game_message.opcode, 0x0F);
}

#[test]
fn reserve_records_the_new_character() {
    let mut session = LobbySession { current_user_id: 5, ..Default::default() };
    let (mut flow, action) = ModifyFlow::start(&session, request(CharacterModifyPacket::CMD_RESERVE, 3, 0));
    assert!(matches!(action, ModifyAction::FindWorld { world_id: 3 }));
    let action = flow.step(&mut session, ModifyEvent::World(Some(world(3, "Cornelia"))));
    match action {
        ModifyAction::Reserve { user_id, slot, world_id, name } => {
            assert_eq!((user_id, slot, world_id, name.as_str()), (5, 2, 3, "Alyx Wren"));
        }
        _ => panic!("expected a reservation"),
    }
    let data = only_reply(flow.step(&mut session, ModifyEvent::Reserved { taken: false, cid: 42 }));
    let want = chara_creator_packet(9, 1, 0, 42, 1, "Alyx Wren", "Cornelia");
    assert_eq!(data, want.data);
    assert_eq!(flow.stage, ModifyStage::Finished);
    assert_eq!(
        (session.new_chara_cid, session.new_chara_slot, session.new_chara_world_id),
        (42, 2, 3)
    );
    assert_eq!(session.new_chara_name, "Alyx Wren");
}

#[test]
fn taken_names_are_refused() {
    let mut session = LobbySession::default();
    let (mut flow, _) = ModifyFlow::start(&session, request(CharacterModifyPacket::CMD_RENAME, 3, 8));
    let action = flow.step(&mut session, ModifyEvent::World(Some(world(3, "Cornelia"))));
    assert!(matches!(action, ModifyAction::Rename { character_id: 8, world_id: 3, .. }));
    let data = only_reply(flow.step(&mut session, ModifyEvent::Renamed { taken: true }));
    assert_eq!(data, error_packet(9, 1003, 0, 13005, "").data);
}

#[test]
fn missing_world_ends_the_change() {
    let mut session = LobbySession::default();
    let (mut flow, action) = ModifyFlow::start(&session, request(CharacterModifyPacket::CMD_DELETE, 0, 8));
    assert!(matches!(action, ModifyAction::FindCharacterWorld { character_id: 8, .. }));
    let action = flow.step(&mut session, ModifyEvent::CharacterWorld(None));
    assert!(matches!(action, ModifyAction::FindWorld { world_id: 0 }));
    let data = only_reply(flow.step(&mut session, ModifyEvent::World(None)));
    assert_eq!(data, error_packet(9, 0, 0, 13001, "World Does not exist or is inactive.").data);
}

#[test]
fn make_uses_the_reserved_character() {
    let mut session = LobbySession {
        current_user_id: 5,
        new_chara_cid: 42,
        new_chara_world_id: 3,
        new_chara_name: "Alyx Wren".into(),
        ..Default::default()
    };
    let mut req = request(CharacterModifyPacket::CMD_MAKE, 0, 0);
    let mut info = vec![0u8; 73];
    info[72] = 2;
    req.character_info_encoded = BASE64.encode(&info);
    let (mut flow, action) = ModifyFlow::start(&session, req);
    assert!(matches!(action, ModifyAction::FindWorld { world_id: 3 }));
    match flow.step(&mut session, ModifyEvent::World(Some(world(3, "Cornelia")))) {
        ModifyAction::Make { user_id, cid, request } => {
            assert_eq!((user_id, cid, request.initial_town), (5, 42, 2));
        }
        _ => panic!("expected a write"),
    }
    let data = only_reply(flow.step(&mut session, ModifyEvent::Done));
    assert_eq!(data, chara_creator_packet(9, 2, 1, 42, 1, "Alyx Wren", "Cornelia").data);
}

#[test]
fn unreadable_description_fails_the_make() {
    let mut session = LobbySession::default();
    let mut req = request(CharacterModifyPacket::CMD_MAKE, 3, 0);
    req.character_info_encoded = "!!!".into();
    let (mut flow, _) = ModifyFlow::start(&session, req);
    let action = flow.step(&mut session, ModifyEvent::World(Some(world(3, "Cornelia"))));
    assert!(matches!(action, ModifyAction::Fail(_)));
}

#[test]
fn retainer_rename_is_answered_at_once() {
    let mut session = LobbySession::default();
    let (mut flow, _) =
        ModifyFlow::start(&session, request(CharacterModifyPacket::CMD_RENAME_RETAINER, 3, 0));
    let data = only_reply(flow.step(&mut session, ModifyEvent::World(Some(world(3, "Cornelia")))));
    assert_eq!(data, chara_creator_packet(9, 6, 0, 0, 1, "Alyx Wren", "Cornelia").data);
}

#[test]
fn world_names_follow_the_last_matching_world() {
    let characters = vec![
        Character { server_id: 1, ..Default::default() },
        Character { server_id: 2, ..Default::default() },
        Character { server_id: 9, ..Default::default() },
    ];
    let worlds = vec![world(1, "A"), world(2, "B"), world(1, "C")];
    let names = world_names_for(&characters, &worlds);
    assert_eq!(names, vec![Some("C".to_string()), Some("B".to_string()), None]);
}

#[test]
fn starting_towns_map_to_their_zones() {
    assert_eq!(starting_zone_id(1), Some(193));
    assert_eq!(starting_zone_id(2), Some(166));
    assert_eq!(starting_zone_id(3), Some(184));
    assert_eq!(starting_zone_id(0), None);
    assert_eq!(starting_zone_id(4), None);
}
