use garlemald::packet_log::{append_hex_dump, format_log_header, slug, Direction};
use garlemald::utils::{
    bool_array_to_binary_stream, byte_array_to_hex, ffxiv_login_string_decode,
    ffxiv_login_string_encode, murmur_hash2, null_term_bytes, null_term_string, rotate_left,
    rotate_right, to_string_base63, SwapEndian,
};

#[test]
fn base63_roundtrip_zero() {
    assert_eq!(to_string_base63(0), "00");
}

#[test]
fn base63_two_digits() {
    assert_eq!(to_string_base63(62 * 62 - 1), "ZZ");
    assert_eq!(to_string_base63(63), "11");
}

#[test]
fn login_string_roundtrip() {
    let key = 0x1234;
    let encoded = ffxiv_login_string_encode(key, "hello");
    let decoded = ffxiv_login_string_decode(&encoded);
    assert_eq!(decoded, "hello");
}

#[test]
fn login_string_exact_bytes() {
    let encoded = ffxiv_login_string_encode(0x1234, "hello");
    assert_eq!(encoded, vec![0x83, 0xcd, 0x37, 0xe9, 0xaf, 0x51, 0x87, 0xaa, 0x5b]);
    assert_eq!(ffxiv_login_string_encode(0xABCD_1234, "hello"), encoded);
}

#[test]
fn login_string_decoder_does_not_undo_a_wrapped_key() {
    let encoded = ffxiv_login_string_encode(0x34, "abcdefgh");
    assert_eq!(ffxiv_login_string_decode(&encoded), "abcdefg\u{e8}");
}

#[test]
fn murmur_exact_values() {
    assert_eq!(murmur_hash2("", 0), 0);
    assert_eq!(murmur_hash2("a", 0), 0x9268_5f5e);
    assert_eq!(murmur_hash2("abc", 0x1234), 0xa332_aa5d);
    assert_eq!(murmur_hash2("hello", 0), 0xe586_96be);
    assert_eq!(murmur_hash2("garlemald", 0x1234), 0x94c9_9de6);
}

#[test]
fn rotates_within_sixteen_bits() {
    assert_eq!(rotate_left(0x8001, 1) & 0xFFFF, 0x0003);
    assert_eq!(rotate_right(0x0003, 1) & 0xFFFF, 0x8001);
}

#[test]
fn bools_pack_msb_first() {
    assert_eq!(bool_array_to_binary_stream(&[true, false, true]), vec![0b1010_0000]);
    assert_eq!(
        bool_array_to_binary_stream(&[false, false, false, false, false, false, false, true, true]),
        vec![0x01, 0x80]
    );
    assert!(bool_array_to_binary_stream(&[]).is_empty());
}

#[test]
fn hex_dump_full_row() {
    let mut s = String::new();
    append_hex_dump(&mut s, b"Hello, world!\x00\x01\x02");
    assert!(s.contains("Hello, world!"));
    assert!(s.contains("48 65 6c 6c 6f"));
}

#[test]
fn hex_dump_short_row() {
    let mut s = String::new();
    append_hex_dump(&mut s, b"abc");
    assert!(s.contains("61 62 63"));
    assert!(s.contains("|abc|"));
}

#[test]
fn hex_dump_exact_rows() {
    let mut s = String::from("x");
    append_hex_dump(&mut s, b"abc");
    assert_eq!(s, "x  00000000: 61 62 63                                          |abc|\n");
    let mut t = String::new();
    append_hex_dump(&mut t, b"Hello, world!\x00\x01\x02");
    assert_eq!(t, "  00000000: 48 65 6c 6c 6f 2c 20 77  6f 72 6c 64 21 00 01 02  |Hello, world!...|\n");
    let mut e = String::new();
    append_hex_dump(&mut e, b"");
    assert_eq!(e, "");
}

#[test]
fn slug_strips_brackets() {
    assert_eq!(slug("[LOBBY]"), "lobby");
    assert_eq!(slug("[MAP]  "), "map");
    assert_eq!(slug("[WORLD]"), "world");
}

#[test]
fn slug_keeps_inner_brackets_and_spaces() {
    assert_eq!(slug("  [[Zone A]] "), "zone a");
    assert_eq!(slug("[ x ]"), "x");
    assert_eq!(slug(""), "");
}

#[test]
fn log_header_line() {
    let h = format_log_header("[LOBBY]", "2024-01-01T00:00:00.000Z", Direction::Inbound, "1.2.3.4:5", 16);
    assert_eq!(h, "[LOBBY] 2024-01-01T00:00:00.000Z <- 1.2.3.4:5 (16 bytes)\n");
    let o = format_log_header("t", "ts", Direction::Outbound, "p", 0);
    assert_eq!(o, "t ts -> p (0 bytes)\n");
}

#[test]
fn byte_array_hex_trims_trailing_space() {
    assert_eq!(byte_array_to_hex(b"Hi\x00", 0x10, 4), "00000010   48 69 00     Hi.");
    assert_eq!(
        byte_array_to_hex(b"ABCDEFGHIJ", 0, 8),
        "00000000   41 42 43 44 45 46 47 48  ABCDEFGH\n00000008   49 4A                    IJ"
    );
    assert_eq!(byte_array_to_hex(b"", 0, 16), "");
    assert_eq!(byte_array_to_hex(b"", 5, 0), "");
}

#[test]
fn null_terminated_fields() {
    assert_eq!(null_term_string(b"abc\0def"), "abc");
    assert_eq!(null_term_string(b"abc"), "abc");
    assert_eq!(null_term_string(b"\0abc"), "");
    assert_eq!(null_term_string(&[0x61, 0xFF, 0x00]), "a\u{FFFD}");
    assert_eq!(null_term_bytes("hello", 3), b"hel".to_vec());
    assert_eq!(null_term_bytes("hi", 8), b"hi".to_vec());
}

#[test]
fn swap_endian_reverses_bytes() {
    assert_eq!(0x1234u16.swap_endian(), 0x3412);
    assert_eq!(0x1234_5678u32.swap_endian(), 0x7856_3412);
    assert_eq!(0x0102_0304_0506_0708u64.swap_endian(), 0x0807_0605_0403_0201);
    assert_eq!((-2i32).swap_endian(), 0xFEFF_FFFFu32 as i32);
    assert_eq!(0x1234_5678u32.swap_endian().swap_endian(), 0x1234_5678);
}
