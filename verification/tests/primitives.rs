use garlemald::bitfield::{pack_u32, pack_u64};
use garlemald::bitstream::{Bitstream2048, BITSTREAM_BITS, BITSTREAM_BYTES};
use garlemald::blowfish::Blowfish;
use garlemald::error::PacketError;

#[test]
fn packs_sequential() {
    assert_eq!(pack_u32(&[(0b101, 3), (0b11, 2)]), 0b11_101);
}

#[test]
fn truncates_to_length() {
    assert_eq!(pack_u32(&[(0xFF, 4)]), 0x0F);
}

#[test]
fn pack_u64_spans_high_bits() {
    assert_eq!(pack_u64(&[(0xFFFF_FFFF, 32), (0x3, 2)]), 0x3_FFFF_FFFF);
    assert_eq!(pack_u64(&[]), 0);
}

#[test]
fn new_is_all_zero() {
    let b = Bitstream2048::new();
    assert_eq!(b.count_ones(), 0);
    assert!(!b.get(0));
    assert!(!b.get(BITSTREAM_BITS - 1));
}

#[test]
fn set_and_get_roundtrip() {
    let mut b = Bitstream2048::new();
    b.set(0);
    b.set(7);
    b.set(8);
    b.set(2047);
    assert!(b.get(0));
    assert!(b.get(7));
    assert!(b.get(8));
    assert!(b.get(2047));
    assert!(!b.get(1));
    assert!(!b.get(2046));
    assert_eq!(b.count_ones(), 4);
}

#[test]
fn clear_clears_only_target_bit() {
    let mut b = Bitstream2048::all_set();
    b.clear(100);
    assert!(!b.get(100));
    assert!(b.get(99));
    assert!(b.get(101));
    assert_eq!(b.count_ones(), (BITSTREAM_BITS - 1) as u32);
}

#[test]
fn out_of_range_is_noop() {
    let mut b = Bitstream2048::new();
    b.set(BITSTREAM_BITS);
    b.set(BITSTREAM_BITS + 1);
    assert_eq!(b.count_ones(), 0);
    assert!(!b.get(BITSTREAM_BITS));
    b.clear(BITSTREAM_BITS + 100);
}

#[test]
fn wire_layout_matches_csharp() {
    let mut b = Bitstream2048::new();
    b.set(0);
    b.set(1);
    b.set(9);
    let bytes = b.as_bytes();
    assert_eq!(bytes[0], 0x03);
    assert_eq!(bytes[1], 0x02);
    assert!(bytes[2..].iter().all(|&x| x == 0));
}

#[test]
fn from_slice_accepts_short_and_full() {
    let short = [0x81u8, 0x02];
    let b = Bitstream2048::from_slice(&short);
    assert!(b.get(0));
    assert!(b.get(7));
    assert!(b.get(9));
    assert!(!b.get(1));

    let full = [0xAAu8; BITSTREAM_BYTES];
    let b2 = Bitstream2048::from_slice(&full);
    for i in 0..BITSTREAM_BITS {
        assert_eq!(b2.get(i), i % 2 == 1, "bit {i} mismatch");
    }
}

#[test]
fn iter_set_yields_bit_indices() {
    let mut b = Bitstream2048::new();
    for idx in [0, 3, 9, 100, 2047] {
        b.set(idx);
    }
    let collected: Vec<usize> = b.iter_set();
    assert_eq!(collected, vec![0, 3, 9, 100, 2047]);
}

#[test]
fn set_all_toggles_every_bit() {
    let mut b = Bitstream2048::new();
    b.set_all(true);
    assert_eq!(b.count_ones(), BITSTREAM_BITS as u32);
    b.set_all(false);
    assert_eq!(b.count_ones(), 0);
}

#[test]
fn round_trip_simple_key() {
    let bf = Blowfish::new(b"deadbeef");
    let mut buf = b"abcdefgh_ABCDEFGH".to_vec();
    buf.extend_from_slice(&[0u8; 7]);
    let len = 16;
    let original = buf[..len].to_vec();
    bf.encipher(&mut buf, 0, len).unwrap();
    assert_ne!(&buf[..len], &original[..]);
    bf.decipher(&mut buf, 0, len).unwrap();
    assert_eq!(&buf[..len], &original[..]);
}

#[test]
fn round_trip_high_bit_key() {
    let bf = Blowfish::new(&[0x80, 0xFF, 0x7F, 0x01, 0x00, 0xAA, 0x55, 0xCC]);
    let original: [u8; 16] = [1, 2, 3, 4, 5, 6, 7, 8, 9, 10, 11, 12, 13, 14, 15, 16];
    let mut buf = original.to_vec();
    bf.encipher(&mut buf, 0, 16).unwrap();
    assert_ne!(buf, original);
    bf.decipher(&mut buf, 0, 16).unwrap();
    assert_eq!(buf, original);
}

#[test]
fn rejects_misaligned_length() {
    let bf = Blowfish::new(b"xxxxxxxx");
    let mut buf = vec![0u8; 16];
    assert!(bf.encipher(&mut buf, 0, 7).is_err());
}

#[test]
fn misaligned_length_reports_the_length_and_leaves_data() {
    let bf = Blowfish::new(b"k");
    let mut buf = vec![7u8; 16];
    match bf.decipher(&mut buf, 0, 9) {
        Err(PacketError::BlowfishBlockMisaligned(n)) => assert_eq!(n, 9),
        _ => panic!("expected misaligned error"),
    }
    assert_eq!(buf, vec![7u8; 16]);
}

#[test]
fn encipher_leaves_bytes_outside_the_range() {
    let bf = Blowfish::new(b"range");
    let mut buf: Vec<u8> = (0u8..24).collect();
    bf.encipher(&mut buf, 8, 8).unwrap();
    assert_eq!(&buf[..8], &(0u8..8).collect::<Vec<u8>>()[..]);
    assert_eq!(&buf[16..], &(16u8..24).collect::<Vec<u8>>()[..]);
    assert_ne!(&buf[8..16], &(8u8..16).collect::<Vec<u8>>()[..]);
}

#[test]
fn standard_blowfish_vector_with_ascii_key() {
    // With key bytes below 0x80 the schedule is stock Blowfish, whose
    // published vector for an all-zero key and block is 4EF99745 6198DD78;
    // this variant loads blocks little-endian, so the words are byte-swapped.
    let bf = Blowfish::new(&[0u8; 8]);
    let mut block = vec![0u8; 8];
    bf.encipher(&mut block, 0, 8).unwrap();
    assert_eq!(block, vec![0x45, 0x97, 0xF9, 0x4E, 0x78, 0xDD, 0x98, 0x61]);
}
