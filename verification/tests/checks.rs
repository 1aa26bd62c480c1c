use garlemald::blowfish::Blowfish;
use garlemald::lobby::chara_info::chara_blob_fits;
use garlemald::lobby::data::{Appearance, Character};
use garlemald::packet::{cipher_walk_sound, frame_overruns_at, subpackets_walk_sound, BasePacket};
use garlemald::packet_log::{log_file_name, log_record, Direction};
use garlemald::subpacket::SubPacket;

fn sub_header(size: u16, kind: u16) -> Vec<u8> {
    let mut v = Vec::new();
    v.extend_from_slice(&size.to_le_bytes());
    v.extend_from_slice(&kind.to_le_bytes());
    v.extend_from_slice(&[0u8; 12]);
    v
}

#[test]
fn cipher_walk_rejects_short_subpackets() {
    let mut good = sub_header(24, 3);
    good.extend_from_slice(&[0u8; 8]);
    assert!(cipher_walk_sound(&good));
    let mut bad = good.clone();
    bad.extend_from_slice(&sub_header(8, 3));
    assert!(!cipher_walk_sound(&bad));
    // A misaligned body ends the walk with an error, not an overrun.
    let mut odd = sub_header(20, 3);
    odd.extend_from_slice(&[0u8; 4]);
    odd.extend_from_slice(&sub_header(8, 3));
    assert!(cipher_walk_sound(&odd));
    assert!(cipher_walk_sound(&[]));
}

#[test]
fn subpacket_walk_needs_room_for_game_message_header() {
    let mut game = sub_header(32, 3);
    game.extend_from_slice(&[0u8; 16]);
    assert!(subpackets_walk_sound(&game));
    let mut short_game = sub_header(24, 3);
    short_game.extend_from_slice(&[0u8; 8]);
    assert!(!subpackets_walk_sound(&short_game));
    let mut plain = sub_header(24, 2);
    plain.extend_from_slice(&[0u8; 8]);
    assert!(subpackets_walk_sound(&plain));
}

#[test]
fn frame_overrun_is_a_size_below_the_header() {
    let mut bytes = vec![0u8; 16];
    bytes[4] = 8;
    assert!(frame_overruns_at(&bytes, 0));
    bytes[4] = 16;
    assert!(!frame_overruns_at(&bytes, 0));
    bytes[4] = 40;
    assert!(!frame_overruns_at(&bytes, 0));
    assert!(!frame_overruns_at(&bytes, 4));
}

#[test]
fn checked_packets_encrypt_and_decrypt() {
    let sub = SubPacket::new(0x10, 7, vec![1, 2, 3, 4, 5, 6, 7, 8]);
    assert!(sub.fits_declared_size());
    let mut packet = BasePacket::create_from_subpackets(&[sub], true, false).unwrap();
    let plain = packet.data.clone();
    let bf = Blowfish::new(b"0123456789abcdef");
    assert!(cipher_walk_sound(&packet.data));
    packet.encrypt(&bf).unwrap();
    assert_ne!(packet.data, plain);
    packet.decrypt(&bf).unwrap();
    assert_eq!(packet.data, plain);
}

#[test]
fn character_blob_fits_depend_on_the_slot() {
    let a = Appearance::default();
    let c = Character { name: "a".repeat(32), ..Default::default() };
    assert!(chara_blob_fits(&c, &a, 1));
    let c = Character { name: "a".repeat(33), ..Default::default() };
    assert!(!chara_blob_fits(&c, &a, 1));
    assert!(chara_blob_fits(&c, &a, 0));
    let c = Character { name: "a".repeat(288), ..Default::default() };
    assert!(chara_blob_fits(&c, &a, 2));
    let c = Character { name: "a".repeat(289), ..Default::default() };
    assert!(!chara_blob_fits(&c, &a, 4));
}

#[test]
fn log_records_and_file_names() {
    assert!(log_record("[LOBBY]", "t", Direction::Inbound, "1.2.3.4:5", &[]).is_none());
    let r = log_record("[LOBBY]", "t", Direction::Outbound, "peer", b"abc").unwrap();
    assert!(r.starts_with("[LOBBY] t -> peer (3 bytes)\n"));
    assert!(r.contains("61 62 63"));
    assert!(r.ends_with("|abc|\n"));
    assert_eq!(log_file_name("[MAP]  "), "map-packets.log");
    assert_eq!(Direction::Inbound.arrow(), "<-");
}
