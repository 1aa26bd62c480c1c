use garlemald::error::PacketError;
use garlemald::packet::{BasePacket, BasePacketHeader, BASEPACKET_SIZE};
use garlemald::subpacket::{SubPacket, SUBPACKET_TYPE_GAMEMESSAGE};
use garlemald::blowfish::Blowfish;

#[test]
fn game_message_roundtrip() {
    let sub = SubPacket::new(0xBEEF, 0xDEADBEEF, vec![1, 2, 3, 4]);
    let bytes = sub.to_bytes();
    assert_eq!(bytes.len(), sub.header.subpacket_size as usize);

    let mut off = 0;
    let parsed = SubPacket::parse(&bytes, &mut off).unwrap();
    assert_eq!(parsed.header.source_id, 0xDEADBEEF);
    assert_eq!(parsed.header.subpacket_type, SUBPACKET_TYPE_GAMEMESSAGE);
    assert_eq!(parsed.game_message.opcode, 0xBEEF);
    assert_eq!(parsed.data, vec![1, 2, 3, 4]);
    assert_eq!(off, bytes.len());
}

#[test]
fn raw_subpacket_roundtrip() {
    let sub = SubPacket::new_with_flag(false, 0x01, 0x11, vec![9, 8, 7]);
    let bytes = sub.to_bytes();
    let mut off = 0;
    let parsed = SubPacket::parse(&bytes, &mut off).unwrap();
    assert_eq!(parsed.header.subpacket_type, 0x01);
    assert_eq!(parsed.data, vec![9, 8, 7]);
}

#[test]
fn subpacket_roundtrip_through_base() {
    let sub = SubPacket::new_with_flag(false, 0x02, 0xDEAD, vec![0xAA, 0xBB, 0xCC, 0xDD]);
    let packet = BasePacket::create_from_subpacket(&sub, true, false).unwrap();
    let bytes = packet.to_bytes();

    let parsed = BasePacket::from_bytes(&bytes).unwrap();
    let subs = parsed.get_subpackets().unwrap();
    assert_eq!(subs.len(), 1);
    assert_eq!(subs[0].header.source_id, 0xDEAD);
    assert_eq!(subs[0].data, vec![0xAA, 0xBB, 0xCC, 0xDD]);
}

#[test]
fn header_roundtrip() {
    let h = BasePacketHeader {
        is_authenticated: 1,
        is_compressed: 0,
        connection_type: 2,
        packet_size: 0x30,
        num_subpackets: 2,
        timestamp: 0x0123456789abcdef,
    };
    let mut buf = [0u8; BASEPACKET_SIZE];
    h.write(&mut buf);
    let parsed = BasePacketHeader::read(&buf).unwrap();
    assert_eq!(parsed.is_authenticated, 1);
    assert_eq!(parsed.packet_size, 0x30);
    assert_eq!(parsed.timestamp, 0x0123456789abcdef);
}

#[test]
fn subpacket_header_wire_layout_is_little_endian() {
    let sub = SubPacket::new_with_flag(false, 0x0102, 0x0A0B0C0D, vec![0xEE]);
    let bytes = sub.to_bytes();
    assert_eq!(&bytes[..8], &[0x11, 0x00, 0x02, 0x01, 0x0D, 0x0C, 0x0B, 0x0A]);
    assert_eq!(bytes[16], 0xEE);
}

#[test]
fn parse_reports_short_buffers() {
    let mut off = 0;
    match SubPacket::parse(&[0u8; 8], &mut off) {
        Err(PacketError::TooSmall { needed, have }) => {
            assert_eq!((needed, have), (16, 8));
        }
        _ => panic!("expected TooSmall"),
    }
    assert_eq!(off, 0);
    let mut bytes = vec![0u8; 16];
    bytes[0] = 0x40;
    match SubPacket::parse(&bytes, &mut off) {
        Err(PacketError::SizeMismatch { declared, available }) => {
            assert_eq!((declared, available), (0x40, 16));
        }
        _ => panic!("expected SizeMismatch"),
    }
}

#[test]
fn base_packet_from_bytes_errors() {
    assert!(matches!(BasePacket::from_bytes(&[0u8; 4]), Err(PacketError::TooSmall { needed: 16, have: 4 })));
    let mut bytes = vec![0u8; 16];
    bytes[4] = 0x20;
    assert!(matches!(
        BasePacket::from_bytes(&bytes),
        Err(PacketError::SizeMismatch { declared: 0x20, available: 16 })
    ));
}

#[test]
fn from_buffer_advances_offset_over_consecutive_packets() {
    let a = BasePacket::create_from_data(&[1, 2, 3], false, false).unwrap().to_bytes();
    let b = BasePacket::create_from_data(&[4, 5], true, false).unwrap().to_bytes();
    let mut stream = a.clone();
    stream.extend_from_slice(&b);
    let mut off = 0;
    let p1 = BasePacket::from_buffer(&stream, &mut off).unwrap();
    assert_eq!(p1.data, vec![1, 2, 3]);
    assert_eq!(off, a.len());
    let p2 = BasePacket::try_from_buffer(&stream, &mut off, stream.len()).unwrap();
    assert_eq!(p2.data, vec![4, 5]);
    assert_eq!(p2.header.is_authenticated, 1);
    assert_eq!(off, stream.len());
    assert!(BasePacket::try_from_buffer(&stream, &mut off, stream.len()).is_none());
}

#[test]
fn replace_actor_id_examines_every_word() {
    let mut pk = BasePacket::create_from_data(&[0x6c, 0, 0, 0, 0x6c, 0, 0, 0], false, false).unwrap();
    pk.replace_actor_id(7);
    assert_eq!(pk.data, vec![7, 0, 0, 0, 7, 0, 0, 0]);
    pk.replace_actor_id_from(7, 0x11223344);
    assert_eq!(pk.data, vec![0x44, 0x33, 0x22, 0x11, 0x44, 0x33, 0x22, 0x11]);
    // A trailing partial word is left alone.
    let mut short = BasePacket::create_from_data(&[0x6c, 0, 0, 0, 0x6c, 0, 0], false, false).unwrap();
    short.replace_actor_id(9);
    assert_eq!(short.data, vec![9, 0, 0, 0, 0x6c, 0, 0]);
}

#[test]
fn encrypt_then_decrypt_restores_bodies() {
    let bf = Blowfish::new(b"session-key");
    let subs = vec![
        SubPacket::new_with_flag(false, 1, 2, vec![1, 2, 3, 4, 5, 6, 7, 8]),
        SubPacket::new_with_flag(false, 1, 3, vec![9; 16]),
    ];
    let mut pk = BasePacket::create_from_subpackets(&subs, true, false).unwrap();
    let plain = pk.data.clone();
    pk.encrypt(&bf).unwrap();
    assert_eq!(&pk.data[..16], &plain[..16]);
    assert_ne!(pk.data, plain);
    pk.decrypt(&bf).unwrap();
    assert_eq!(pk.data, plain);
}

#[test]
fn encrypt_rejects_misaligned_body() {
    let bf = Blowfish::new(b"k");
    let subs = vec![SubPacket::new_with_flag(false, 1, 2, vec![1, 2, 3])];
    let mut pk = BasePacket::create_from_subpackets(&subs, true, false).unwrap();
    assert!(matches!(pk.encrypt(&bf), Err(PacketError::BlowfishBlockMisaligned(3))));
}

#[test]
fn compress_and_decompress_body() {
    let pk = BasePacket::create_from_data(&[5u8; 64], false, true).unwrap();
    assert_eq!(pk.header.is_compressed, 1);
    let mut copy = BasePacket { header: pk.header, data: pk.data.clone() };
    copy.decompress().unwrap();
    assert_eq!(copy.data, vec![5u8; 64]);
    assert_eq!(copy.header.is_compressed, 0);
    assert_eq!(copy.header.packet_size, 16 + 64);
    let mut junk = BasePacket { header: pk.header, data: vec![1, 2, 3] };
    assert!(matches!(junk.decompress(), Err(PacketError::Io(_))));
    assert_eq!(junk.data, vec![1, 2, 3]);
}
