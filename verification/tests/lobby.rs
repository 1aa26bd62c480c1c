use base64::engine::general_purpose::STANDARD as BASE64;
use base64::Engine;
use garlemald::lobby::chara_info::{build_for_chara_list, parse_new_char_request, to_url_safe, CharaRequestError};
use garlemald::lobby::data::{get_tribe_model, Account, Appearance, Character, FaceInfo, Retainer, World};
use garlemald::lobby::processor::generate_blowfish_key;
use garlemald::lobby::receive::{CharacterModifyPacket, SecurityHandshakePacket, SelectCharacterPacket, SessionPacket};
use garlemald::lobby::send::{
    account_list_packets, chara_creator_packet, character_list_packets, error_packet,
    import_list_packets, retainer_list_packets, select_character_confirm_packet,
    world_list_packets, LOBBY_TARGET_ID,
};
use md5::{Digest, Md5};

fn world(i: u16) -> World {
    World {
        id: i,
        address: "127.0.0.1".into(),
        port: 54991,
        list_position: i,
        population: 0,
        name: format!("w{i}"),
        is_active: true,
    }
}

#[test]
fn build_for_chara_list_is_stable_shape() {
    let chara = Character { name: "Test".to_string(), tribe: 2, ..Default::default() };
    let out = build_for_chara_list(&chara, &Appearance::default());
    assert_eq!(out.len(), 344);
    assert!(!out.contains('+'));
    assert!(!out.contains('/'));
}

#[test]
fn chara_blob_layout() {
    let chara = Character { name: "Test".to_string(), tribe: 2, initial_town: 3, ..Default::default() };
    let out = build_for_chara_list(&chara, &Appearance::default());
    let standard = out.replace('-', "+").replace('_', "/");
    let blob = BASE64.decode(standard.as_bytes()).unwrap();
    assert_eq!(blob.len(), 256);
    assert_eq!(&blob[0..8], &[0xc0, 0x04, 0, 0, 0xea, 0x27, 0x23, 0x23]);
    assert_eq!(&blob[8..12], &[5, 0, 0, 0]);
    assert_eq!(&blob[12..17], b"Test\0");
    assert_eq!(&blob[25..29], &[2, 0, 0, 0]);
    assert_eq!(&blob[220..228], &[3, 0, 0, 0, 3, 0, 0, 0]);
    assert!(blob[228..].iter().all(|b| *b == 0));
}

#[test]
fn parse_accepts_url_safe_base64() {
    let mut buf = vec![0u8; 0x60];
    buf[0..4].copy_from_slice(&1u32.to_le_bytes());
    buf[8] = 2;
    buf[9] = 5;
    let raw = BASE64.encode(&buf).replace('+', "-").replace('/', "_");
    let info = parse_new_char_request(&raw).unwrap();
    assert_eq!(info.tribe, 2);
    assert_eq!(info.appearance.size, 5);
}

#[test]
fn parse_rejects_bad_and_short_requests() {
    assert!(matches!(parse_new_char_request("!!!"), Err(CharaRequestError::BadBase64(_))));
    let short = BASE64.encode([0u8; 10]);
    assert!(matches!(parse_new_char_request(&short), Err(CharaRequestError::Truncated { have: 10 })));
    let mut buf = vec![0u8; 73];
    buf[42] = 0x34;
    buf[43] = 0x12;
    buf[72] = 9;
    let text = format!("{}\0\0", BASE64.encode(&buf));
    let info = parse_new_char_request(&text).unwrap();
    assert_eq!(info.current_class, 0x1234);
    assert_eq!(info.initial_town, 9);
    assert_eq!(to_url_safe("a+b/c="), "a-b_c=");
}

#[test]
fn parses_select_character() {
    let mut buf = Vec::new();
    buf.extend_from_slice(&0xdeadbeefu64.to_le_bytes());
    buf.extend_from_slice(&42u32.to_le_bytes());
    buf.extend_from_slice(&0u32.to_le_bytes());
    buf.extend_from_slice(&0x1234u64.to_le_bytes());
    let packet = SelectCharacterPacket::parse(&buf).unwrap();
    assert_eq!(packet.sequence, 0xdeadbeef);
    assert_eq!(packet.character_id, 42);
    assert_eq!(packet.ticket, 0x1234);
}

#[test]
fn parses_session_packet_trims_nulls() {
    let mut buf = Vec::new();
    buf.extend_from_slice(&1u64.to_le_bytes());
    buf.extend_from_slice(&0u32.to_le_bytes());
    buf.extend_from_slice(&0u32.to_le_bytes());
    let mut session_field = b"abc".to_vec();
    session_field.resize(0x40, 0);
    buf.extend_from_slice(&session_field);
    let mut version_field = b"1.23b".to_vec();
    version_field.resize(0x20, 0);
    buf.extend_from_slice(&version_field);

    let pkt = SessionPacket::parse(&buf).unwrap();
    assert_eq!(pkt.session, "abc");
    assert_eq!(pkt.version, "1.23b");
}

#[test]
fn short_requests_are_refused() {
    assert!(SessionPacket::parse(&[0u8; 0x6F]).is_err());
    assert!(SelectCharacterPacket::parse(&[0u8; 23]).is_err());
    assert!(SecurityHandshakePacket::parse(&[0u8; 0x77]).is_err());
    assert!(CharacterModifyPacket::parse(&[0u8; 0x1CF]).is_err());
    let mut hs = vec![0u8; 0x78];
    hs[0x34..0x37].copy_from_slice(b"key");
    hs[0x74] = 9;
    let p = SecurityHandshakePacket::parse(&hs).unwrap();
    assert_eq!(p.ticket_phrase, "key");
    assert_eq!(p.client_number, 9);
    let mut cm = vec![0u8; 0x1D0];
    cm[17] = CharacterModifyPacket::CMD_RENAME;
    cm[0x14..0x17].copy_from_slice(b"Bob");
    let c = CharacterModifyPacket::parse(&cm).unwrap();
    assert_eq!(c.command, 3);
    assert_eq!(c.character_name, "Bob");
    assert_eq!(c.character_info_encoded, "");
}

#[test]
fn key_is_stable_for_same_input() {
    let a = generate_blowfish_key("hello", 0x12345678);
    let b = generate_blowfish_key("hello", 0x12345678);
    assert_eq!(a, b);
}

#[test]
fn key_changes_with_client_number() {
    let a = generate_blowfish_key("hello", 0x1);
    let b = generate_blowfish_key("hello", 0x2);
    assert_ne!(a, b);
}

#[test]
fn key_is_md5_of_the_padded_material() {
    let mut raw = vec![0x78, 0x56, 0x34, 0x12, 0x78, 0x56, 0x34, 0x12, 0xE8, 0x03, 0x00, 0x00];
    raw.extend_from_slice(b"hello");
    raw.resize(0x2C, 0);
    let mut hasher = Md5::new();
    hasher.update(&raw);
    let expected: [u8; 16] = hasher.finalize().into();
    assert_eq!(generate_blowfish_key("hello", 0x12345678), expected);
}

#[test]
fn select_character_confirm_is_exact_size() {
    let sub = select_character_confirm_packet(0x1, 0x2, "tok", "127.0.0.1", 54991, 0x3);
    assert_eq!(sub.data.len(), 0x98);
    assert_eq!(sub.header.target_id, LOBBY_TARGET_ID);
    assert_eq!(sub.game_message.opcode, 0x0F);
}

#[test]
fn world_list_empty_emits_one_chunk() {
    let pkts = world_list_packets(0, &[]);
    assert_eq!(pkts.len(), 1);
    assert_eq!(pkts[0].data.len(), 0x210);
}

#[test]
fn world_list_fits_within_a_chunk() {
    let worlds: Vec<World> = (0..3u16).map(world).collect();
    let pkts = world_list_packets(0, &worlds);
    assert_eq!(pkts.len(), 1);
}

#[test]
fn world_list_splits_across_chunks() {
    let worlds: Vec<World> = (0..7u16).map(world).collect();
    let pkts = world_list_packets(0, &worlds);
    assert_eq!(pkts.len(), 2);
    assert_eq!(pkts[0].data[8], 0);
    assert_eq!(&pkts[0].data[9..13], &[6, 0, 0, 0]);
    assert_eq!(pkts[1].data[8], 13);
    assert_eq!(&pkts[1].data[9..13], &[1, 0, 0, 0]);
    assert_eq!(&pkts[1].data[0x10..0x12], &[6, 0]);
    assert_eq!(&pkts[1].data[0x20..0x22], b"w6");
}

#[test]
fn error_packet_ok() {
    let sub = error_packet(0xFF, 1003, 0, 13005, "hi");
    assert_eq!(sub.data.len(), 0x210);
    assert_eq!(&sub.data[20..22], b"hi");
    assert_eq!(sub.game_message.opcode, 0x02);
}

#[test]
fn other_lists_page_as_expected() {
    let accounts: Vec<Account> = (0..9u32).map(|i| Account { id: i, name: format!("a{i}") }).collect();
    let pkts = account_list_packets(5, &accounts);
    assert_eq!(pkts.len(), 2);
    assert_eq!(pkts[0].data.len(), 0x280);
    assert_eq!(account_list_packets(5, &[])[0].data.len(), 0x210);

    let retainers = vec![Retainer { id: 1, character_id: 2, name: "R".into(), do_rename: true }];
    let r = retainer_list_packets(0, &retainers);
    assert_eq!(r.len(), 1);
    assert_eq!(&r[0].data[0x1C..0x20], &[1, 0, 0, 0]);
    assert_eq!(&r[0].data[0x26..0x28], &[4, 0]);

    let names = vec!["Solo".to_string(), "Two Part".to_string()];
    let i = import_list_packets(0, &names);
    assert_eq!(&i[0].data[0x18..0x21], b"Solo Last");
    assert_eq!(&i[0].data[0x40..0x48], b"Two Part");

    let c = chara_creator_packet(1, 2, 3, 4, 5, "Name", "World");
    assert_eq!(c.data.len(), 0x1F0);
    assert_eq!(&c.data[0x1C..0x20], &[5, 0, 0, 0]);
}

#[test]
fn character_list_adds_a_new_slot() {
    let chars = vec![Character { id: 7, name: "Test".into(), tribe: 2, ..Default::default() }];
    let apps = vec![Appearance::default()];
    let pkts = character_list_packets(0, &chars, &apps, &[None]);
    assert_eq!(pkts.len(), 1);
    assert_eq!(pkts[0].data.len(), 0x3B0);
    assert_eq!(&pkts[0].data[0x14..0x18], &[7, 0, 0, 0]);
    assert_eq!(&pkts[0].data[0x40..0x47], b"Unknown");
    assert_eq!(pkts[0].data[0x10 + 0x1D0 + 8], 1);
    assert_eq!(pkts[0].data[9], 2);
}

#[test]
fn face_and_tribe() {
    let f = FaceInfo { characteristics: 0xFF, face_type: 1, unknown: 3, ..Default::default() };
    assert_eq!(f.to_u32(), 0x1F | (1 << 8) | (3 << 30));
    assert_eq!(get_tribe_model(2), 2);
    assert_eq!(get_tribe_model(15), 7);
    assert_eq!(get_tribe_model(200), 1);
}

#[test]
fn long_name_in_first_slot_spills_past_the_new_slot() {
    let name = "b".repeat(100);
    let chars = vec![Character { id: 7, name: name.clone(), ..Default::default() }];
    let apps = vec![Appearance::default()];
    let pkts = character_list_packets(0, &chars, &apps, &[None]);
    assert_eq!(pkts.len(), 1);
    let d = &pkts[0].data;
    assert_eq!(d.len(), 0x3B0);
    // The name field keeps its first 32 bytes.
    assert_eq!(&d[0x20..0x40], "b".repeat(32).as_bytes());
    // The NEW entry sits at the second slot with index 1...
    assert_eq!(&d[0x1E0..0x1E8], &[0u8; 8]);
    assert_eq!(d[0x1E8], 1);
    // ...and after its 16 bytes the first entry's text runs on, up to its
    // 62 + 684 bytes; the rest of the page is zero.
    assert!(d[0x1F0..0x10 + 746].iter().all(|&b| b != 0));
    assert!(d[0x10 + 746..].iter().all(|&b| b == 0));
}
