//! How the lobby's Blowfish variant folds key bytes into the words it
//! XORs into the P-array.

use vstd::prelude::*;
use crate::blowfish::{schedule, sign_extend};
use crate::blowfish_tables::P_INIT;

verus! {

/// How four key bytes fold into a 32-bit word as the lobby's client does
/// it: each byte is sign-extended before it is OR-ed in, so a byte of 0x80
/// or more fills every bit above it with ones. The word is the four bytes
/// big-endian when none is that high; otherwise, from the last high byte
/// on, the bytes stand in their places and every bit above is set.
pub open spec fn client_key_word(b0: u8, b1: u8, b2: u8, b3: u8) -> u32 {
    if b3 >= 0x80 {
        0xFFFF_FF00u32 | (b3 as u32)
    } else if b2 >= 0x80 {
        0xFFFF_0000u32 | ((b2 as u32) << 8u32) | (b3 as u32)
    } else if b1 >= 0x80 {
        0xFF00_0000u32 | ((b1 as u32) << 16u32) | ((b2 as u32) << 8u32) | (b3 as u32)
    } else {
        ((b0 as u32) << 24u32) | ((b1 as u32) << 16u32) | ((b2 as u32) << 8u32) | (b3 as u32)
    }
}

proof fn lemma_fold_bytes(b0: u8, b1: u8, b2: u8, b3: u8, d0: u32, d1: u32, d2: u32, d3: u32)
    requires
        d0 == (if b0 >= 0x80 { 0xFFFF_FF00u32 | (b0 as u32) } else { b0 as u32 }),
        d1 == (if b1 >= 0x80 { 0xFFFF_FF00u32 | (b1 as u32) } else { b1 as u32 }),
        d2 == (if b2 >= 0x80 { 0xFFFF_FF00u32 | (b2 as u32) } else { b2 as u32 }),
        d3 == (if b3 >= 0x80 { 0xFFFF_FF00u32 | (b3 as u32) } else { b3 as u32 }),
    ensures
        (((((d0 << 8u32) | d1) << 8u32) | d2) << 8u32) | d3 == client_key_word(b0, b1, b2, b3),
{
    assert((((((d0 << 8u32) | d1) << 8u32) | d2) << 8u32) | d3 == (if b3 >= 0x80 {
        0xFFFF_FF00u32 | (b3 as u32)
    } else if b2 >= 0x80 {
        0xFFFF_0000u32 | ((b2 as u32) << 8u32) | (b3 as u32)
    } else if b1 >= 0x80 {
        0xFF00_0000u32 | ((b1 as u32) << 16u32) | ((b2 as u32) << 8u32) | (b3 as u32)
    } else {
        ((b0 as u32) << 24u32) | ((b1 as u32) << 16u32) | ((b2 as u32) << 8u32) | (b3 as u32)
    })) by (bit_vector)
        requires
            d0 == (if b0 >= 0x80 { 0xFFFF_FF00u32 | (b0 as u32) } else { b0 as u32 }),
            d1 == (if b1 >= 0x80 { 0xFFFF_FF00u32 | (b1 as u32) } else { b1 as u32 }),
            d2 == (if b2 >= 0x80 { 0xFFFF_FF00u32 | (b2 as u32) } else { b2 as u32 }),
            d3 == (if b3 >= 0x80 { 0xFFFF_FF00u32 | (b3 as u32) } else { b3 as u32 }),
    ;
}

/// The key schedule starts from the standard P-array with key word `i`
/// XOR-ed into entry `i`, where word `i` folds key bytes `4i .. 4i + 3`
/// (the key repeating as needed) the client's way, sign-extending each
/// byte (see [`client_key_word`]); for a key starting 80 FF 7F 01 the
/// first word is 0xFFFF7F01, where stock Blowfish would use 0x80FF7F01.
pub proof fn lemma_key_words_sign_extend(key: Seq<u8>, i: int)
    requires
        key.len() >= 1,
        0 <= i < 18,
    ensures
        schedule(key, 0).0.len() == 18,
        schedule(key, 0).0[i] == P_INIT@[i] ^ client_key_word(
            key[(4 * i) % (key.len() as int)],
            key[(4 * i + 1) % (key.len() as int)],
            key[(4 * i + 2) % (key.len() as int)],
            key[(4 * i + 3) % (key.len() as int)],
        ),
        key.len() >= 4 && key[0] == 0x80 && key[1] == 0xFF && key[2] == 0x7F && key[3] == 0x01 ==>
            schedule(key, 0).0[0] == P_INIT@[0] ^ 0xFFFF_7F01u32,
{
    let n = key.len() as int;
    lemma_fold_bytes(
        key[(4 * i) % n],
        key[(4 * i + 1) % n],
        key[(4 * i + 2) % n],
        key[(4 * i + 3) % n],
        sign_extend(key[(4 * i) % n]),
        sign_extend(key[(4 * i + 1) % n]),
        sign_extend(key[(4 * i + 2) % n]),
        sign_extend(key[(4 * i + 3) % n]),
    );
    if key.len() >= 4 && key[0] == 0x80 && key[1] == 0xFF && key[2] == 0x7F && key[3] == 0x01 {
        vstd::arithmetic::div_mod::lemma_small_mod(0, n as nat);
        vstd::arithmetic::div_mod::lemma_small_mod(1, n as nat);
        vstd::arithmetic::div_mod::lemma_small_mod(2, n as nat);
        vstd::arithmetic::div_mod::lemma_small_mod(3, n as nat);
        lemma_fold_bytes(
            key[0],
            key[1],
            key[2],
            key[3],
            sign_extend(key[0]),
            sign_extend(key[1]),
            sign_extend(key[2]),
            sign_extend(key[3]),
        );
        assert(client_key_word(0x80, 0xFF, 0x7F, 0x01) == 0xFFFF_7F01u32) by (bit_vector);
    }
}

} // verus!
