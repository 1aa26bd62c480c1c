//! Assorted helpers: clocks, string codecs, hashing and hex dumps.

use vstd::prelude::*;
use vstd::wrapping::u32_specs;
use vstd::string::StringSliceAdditionalSpecFns;
use crate::bytes::word_at;
use vstd::utf8::decode_utf8;
use vstd::utf8::valid_utf8;

use crate::text::char_is_whitespace;
use crate::text::hex_digit_char;
use crate::text::hex_padded;
use crate::text::hex_upper_digit;
use crate::text::is_whitespace;
use crate::text::lemma_trim_end_take;
use crate::text::push_chars;
use crate::text::push_hex;
use crate::text::trim_end_by;

verus! {

/// Seconds since the Unix epoch from the system clock (0 if the clock is
/// before the epoch). `SystemTime::now` reads the machine clock, so nothing
/// is stated of the value.
#[verifier::external_body]
pub fn unix_timestamp() -> u32 {
    std::time::SystemTime::now()
        .duration_since(std::time::UNIX_EPOCH)
        .map(|d| d.as_secs() as u32)
        .unwrap_or(0)
}

/// Milliseconds since the Unix epoch from the system clock (0 if the clock is
/// before the epoch). `SystemTime::now` reads the machine clock, so nothing
/// is stated of the value.
#[verifier::external_body]
pub fn millis_unix_timestamp() -> u64 {
    std::time::SystemTime::now()
        .duration_since(std::time::UNIX_EPOCH)
        .map(|d| d.as_millis() as u64)
        .unwrap_or(0)
}

/// The 62 digit characters used by [`to_string_base63`].
pub open spec fn base63_lookup() -> Seq<char> {
    seq![
        '0', '1', '2', '3', '4', '5', '6', '7', '8', '9', 'a', 'b', 'c', 'd', 'e', 'f', 'g', 'h',
        'i', 'j', 'k', 'l', 'm', 'n', 'o', 'p', 'q', 'r', 's', 't', 'u', 'v', 'w', 'x', 'y', 'z',
        'A', 'B', 'C', 'D', 'E', 'F', 'G', 'H', 'I', 'J', 'K', 'L', 'M', 'N', 'O', 'P', 'Q', 'R',
        'S', 'T', 'U', 'V', 'W', 'X', 'Y', 'Z',
    ]
}

fn base63_char(d: u8) -> (c: char)
    requires
        d < 62,
    ensures
        c == base63_lookup()[d as int],
{
    if d < 10 {
        (48u8 + d) as char
    } else if d < 36 {
        (87u8 + d) as char
    } else {
        (29u8 + d) as char
    }
}

/// Two base-62 digits of `number` (most significant first); the digit
/// table has 62 entries, so `number` must lie in `0 .. 62 * 62`.
pub fn to_string_base63(number: i32) -> (s: String)
    requires
        0 <= number < 62 * 62,
    ensures
        s@ == seq![base63_lookup()[number as int / 62], base63_lookup()[number as int % 62]],
{
    let second = base63_char((number / 62) as u8);
    let first = base63_char((number % 62) as u8);
    let mut s = String::new();
    s.push(second);
    s.push(first);
    s
}

/// Bit `b` (0 = most significant) of byte `j` of the packed stream of `bits`.
pub open spec fn packed_bit(byte: u8, b: int) -> bool {
    (byte >> ((7 - b) as u8)) & 1u8 == 1u8
}

/// Packs booleans eight to a byte, most significant bit first; the unused
/// low bits of the last byte are zero.
pub fn bool_array_to_binary_stream(array: &[bool]) -> (data: Vec<u8>)
    ensures
        data@.len() == (array@.len() + 7) / 8,
        forall|j: int, b: int|
            0 <= j < data@.len() && 0 <= b < 8 ==> #[trigger] packed_bit(data@[j], b) == (8 * j + b
                < array@.len() && array@[8 * j + b]),
{
    let len = array.len();
    let out_len = len / 8 + if len % 8 != 0 { 1 } else { 0 };
    let mut data: Vec<u8> = Vec::new();
    let mut j: usize = 0;
    while j < out_len
        invariant
            len == array@.len(),
            out_len == (len + 7) / 8,
            j <= out_len,
            data@.len() == j,
            forall|jj: int, b: int|
                0 <= jj < data@.len() && 0 <= b < 8 ==> #[trigger] packed_bit(data@[jj], b) == (8 * jj
                    + b < array@.len() && array@[8 * jj + b]),
        decreases out_len - j,
    {
        let i = j * 8;
        let mut byte: u8 = 0;
        proof {
            assert forall|b: int| 0 <= b < 8 implies !packed_bit(0u8, b) by {
                let s2 = (7 - b) as u8;
                assert((0u8 >> s2) & 1u8 != 1u8) by (bit_vector);
            }
        }
        let mut bit: usize = 0;
        while bit < 8
            invariant
                0 <= bit <= 8,
                i < len,
                i == 8 * j,
                len == array@.len(),
                forall|b: int|
                    0 <= b < 8 ==> packed_bit(byte, b) == (b < bit && i + b < len && array@[i + b]),
            decreases 8 - bit,
        {
            if bit < len - i {
                let v: u8 = if array[i + bit] { 1 } else { 0 };
                let ghost old_byte = byte;
                let sh = (7 - bit) as u8;
                byte = byte | (v << sh);
                proof {
                    assert forall|b: int| 0 <= b < 8 implies packed_bit(byte, b) == (b < bit + 1 && i + b < len
                        && array@[i + b]) by {
                        let s2 = (7 - b) as u8;
                        assert(s2 as int == 7 - b);
                        assert(packed_bit(byte, b) == (((old_byte | (v << sh)) >> s2) & 1u8 == 1u8));
                        assert(packed_bit(old_byte, b) == ((old_byte >> s2) & 1u8 == 1u8));
                        assert(((old_byte | (v << sh)) >> s2) & 1u8 == 1u8 <==> (((old_byte >> s2)
                            & 1u8 == 1u8) || (v == 1u8 && sh == s2))) by (bit_vector)
                            requires
                                v <= 1,
                                sh < 8,
                                s2 < 8,
                        ;
                        assert((sh == s2) == (b == bit));
                    }
                }
            }
            bit = bit + 1;
        }
        let ghost before = data@;
        data.push(byte);
        proof {
            assert forall|jj: int, b: int|
                0 <= jj < data@.len() && 0 <= b < 8 implies #[trigger] packed_bit(data@[jj], b) == (8 * jj + b
                    < array@.len() && array@[8 * jj + b]) by {
                if jj < before.len() {
                    assert(data@[jj] == before[jj]);
                } else {
                    assert(jj == j);
                }
            }
        }
        j = j + 1;
    }
    data
}

/// `(value << bits) | (value >> (16 - bits))`: the 16-bit rotate used by the
/// login-string codec (bits above 15 are kept, as in the client).
pub open spec fn spec_rotate_left(value: u32, bits: u32) -> u32 {
    (value << bits) | (value >> ((16 - bits) as u32))
}

/// `(value >> bits) | (value << (16 - bits))`.
pub open spec fn spec_rotate_right(value: u32, bits: u32) -> u32 {
    (value >> bits) | (value << ((16 - bits) as u32))
}

/// Rotate left within 16 bits (see [`spec_rotate_left`]); `bits` at most 16.
pub fn rotate_left(value: u32, bits: u32) -> (r: u32)
    requires
        bits <= 16,
    ensures
        r == spec_rotate_left(value, bits),
{
    (value << bits) | (value >> (16 - bits))
}

/// Rotate right within 16 bits (see [`spec_rotate_right`]); `bits` at most 16.
pub fn rotate_right(value: u32, bits: u32) -> (r: u32)
    requires
        bits <= 16,
    ensures
        r == spec_rotate_right(value, bits),
{
    (value >> bits) | (value << (16 - bits))
}


/// One 4-byte block of the client's MurmurHash2 variant: the block at
/// `i` is read little-endian and byte-swapped before mixing.
pub open spec fn murmur_block(h: u32, bytes: Seq<u8>, i: int) -> u32 {
    let k_raw = word_at(bytes, i);
    let k0 = ((k_raw >> 24u32) & 0xffu32) | ((k_raw << 8u32) & 0x00ff_0000u32) | ((k_raw >> 8u32)
        & 0x0000_ff00u32) | ((k_raw << 24u32) & 0xff00_0000u32);
    let k1 = u32_specs::wrapping_mul(k0, 0x5bd1e995u32);
    let k2 = k1 ^ (k1 >> 24u32);
    let k3 = u32_specs::wrapping_mul(k2, 0x5bd1e995u32);
    u32_specs::wrapping_mul(h, 0x5bd1e995u32) ^ k3
}

/// The hash state after consuming 4-byte blocks from the end while at
/// least 4 of the first `rem` bytes remain (the block read is
/// `bytes[rem - 4 .. rem]`).
pub open spec fn murmur_blocks(bytes: Seq<u8>, h: u32, rem: int) -> u32
    decreases rem,
{
    if rem < 4 {
        h
    } else {
        murmur_blocks(bytes, murmur_block(h, bytes, rem - 4), rem - 4)
    }
}

/// The client's MurmurHash2 variant of `bytes`: blocks are consumed from
/// the end, and the tail mixes in the first byte and the last two bytes.
pub open spec fn murmur_spec(bytes: Seq<u8>, seed: u32) -> u32 {
    let n = bytes.len() as int;
    let h0 = seed ^ (n as u32);
    let h1 = murmur_blocks(bytes, h0, n);
    let tail = n % 4;
    let h2 = if tail == 3 {
        u32_specs::wrapping_mul(h1 ^ ((bytes[0] as u32) << 16u32) ^ ((bytes[n - 2] as u32) << 8u32) ^ (bytes[n - 1] as u32), 0x5bd1e995u32)
    } else if tail == 2 {
        u32_specs::wrapping_mul(h1 ^ ((bytes[n - 2] as u32) << 8u32) ^ (bytes[n - 1] as u32), 0x5bd1e995u32)
    } else if tail == 1 {
        u32_specs::wrapping_mul(h1 ^ (bytes[n - 1] as u32), 0x5bd1e995u32)
    } else {
        h1
    };
    let h3 = h2 ^ (h2 >> 13u32);
    let h4 = u32_specs::wrapping_mul(h3, 0x5bd1e995u32);
    h4 ^ (h4 >> 15u32)
}

proof fn lemma_murmur_tail(rem: int)
    requires
        rem >= 0,
    ensures
        murmur_blocks_rem(rem) == rem % 4,
    decreases rem,
{
    if rem >= 4 {
        lemma_murmur_tail(rem - 4);
    }
}

/// What remains after taking 4 at a time while at least 4 remain.
spec fn murmur_blocks_rem(rem: int) -> int
    decreases rem,
{
    if rem < 4 {
        rem
    } else {
        murmur_blocks_rem(rem - 4)
    }
}

fn murmur_block_exec(h: u32, data: &[u8], di: usize) -> (r: u32)
    requires
        di + 4 <= data@.len(),
    ensures
        r == murmur_block(h, data@, di as int),
{
    let _n = data.len();
    let k_raw = (data[di] as u32) | ((data[di + 1] as u32) << 8) | ((data[di + 2] as u32) << 16)
        | ((data[di + 3] as u32) << 24);
    let k0 = ((k_raw >> 24) & 0xff) | ((k_raw << 8) & 0x00ff_0000) | ((k_raw >> 8) & 0x0000_ff00)
        | ((k_raw << 24) & 0xff00_0000);
    let k1 = k0.wrapping_mul(0x5bd1e995);
    let k2 = k1 ^ (k1 >> 24);
    let k3 = k2.wrapping_mul(0x5bd1e995);
    h.wrapping_mul(0x5bd1e995) ^ k3
}

/// The client's MurmurHash2 variant over the UTF-8 bytes of `key`.
pub fn murmur_hash2(key: &str, seed: u32) -> (h: u32)
    requires
        key.spec_bytes().len() <= u32::MAX,
    ensures
        h == murmur_spec(key.spec_bytes(), seed),
{
    let data = key.as_bytes();
    let n = data.len();
    let mut h: u32 = seed ^ (n as u32);
    let mut rem: usize = n;
    while rem >= 4
        invariant
            rem <= n,
            n == data@.len(),
            murmur_blocks(data@, seed ^ (n as u32), n as int) == murmur_blocks(data@, h, rem as int),
            murmur_blocks_rem(n as int) == murmur_blocks_rem(rem as int),
        decreases rem,
    {
        let di = rem - 4;
        h = murmur_block_exec(h, data, di);
        rem = rem - 4;
    }
    proof {
        lemma_murmur_tail(n as int);
    }
    if rem == 3 {
        h = h ^ ((data[0] as u32) << 16);
        h = h ^ ((data[n - 2] as u32) << 8);
        h = h ^ (data[n - 1] as u32);
        h = h.wrapping_mul(0x5bd1e995);
    } else if rem == 2 {
        h = h ^ ((data[n - 2] as u32) << 8);
        h = h ^ (data[n - 1] as u32);
        h = h.wrapping_mul(0x5bd1e995);
    } else if rem == 1 {
        h = h ^ (data[n - 1] as u32);
        h = h.wrapping_mul(0x5bd1e995);
    }
    h = h ^ (h >> 13);
    h = h.wrapping_mul(0x5bd1e995);
    h = h ^ (h >> 15);
    h
}

/// One forward step of the login-string key: add 0x22AF and rotate left
/// by one within 16 bits.
pub open spec fn login_key_step(k: u32) -> u32 {
    spec_rotate_left(u32_specs::wrapping_add(k, 0x22AFu32) & 0xFFFFu32, 1) & 0xFFFFu32
}

/// The decoder's backward step: rotate right by one within 16 bits, then
/// subtract 0x22AF (without masking the result back to 16 bits).
pub open spec fn login_key_back(k: u32) -> u32 {
    u32_specs::wrapping_sub(spec_rotate_right(k, 1) & 0xFFFFu32, 0x22AFu32)
}

/// The key after `n` forward steps from `k`.
pub open spec fn login_key_after(k: u32, n: nat) -> u32
    decreases n,
{
    if n == 0 {
        k
    } else {
        login_key_step(login_key_after(k, (n - 1) as nat))
    }
}

/// The key after `n` backward steps from `k`.
pub open spec fn login_key_before(k: u32, n: nat) -> u32
    decreases n,
{
    if n == 0 {
        k
    } else {
        login_key_back(login_key_before(k, (n - 1) as nat))
    }
}

/// The encoded login string for `key` and the text bytes `text`: a 4-byte
/// prefix carrying the final key and the length, then each byte XOR-ed with
/// the low byte of a key that advances from the last byte backwards.
pub open spec fn login_encoded(key: u32, text: Seq<u8>) -> Seq<u8> {
    let l = text.len() as nat;
    let k0 = key & 0xFFFFu32;
    let kl = login_key_after(k0, l);
    let k1 = login_key_after(k0, l + 1);
    let k2 = login_key_after(k0, l + 2);
    Seq::new(
        l + 4,
        |i: int|
            if i == 0 {
                ((k2 >> 8u32) & 0xFFu32) as u8
            } else if i == 1 {
                (k2 & 0xFFu32) as u8
            } else if i == 2 {
                (k1 & 0xFFu32) as u8
            } else if i == 3 {
                (((l as u32) ^ kl) & 0xFFu32) as u8
            } else {
                text[i - 4] ^ ((login_key_after(k0, (l + 3 - i) as nat) & 0xFFu32) as u8)
            },
    )
}

/// The key the decoder reaches before reading characters.
pub open spec fn login_decode_key(data: Seq<u8>) -> u32 {
    login_key_back(login_key_back(((data[0] as u32) << 8u32) | (data[1] as u32)))
}

/// The character count the decoder reads from the prefix.
pub open spec fn login_decode_count(data: Seq<u8>) -> u32 {
    let ka = ((data[0] as u32) << 8u32) | (data[1] as u32);
    let kb = login_key_back(ka);
    let key2 = (data[2] as u32) ^ kb;
    let kc = login_key_back(kb);
    ((key2 & 0xFFu32) << 8u32) | (((data[3] as u32) ^ kc) & 0xFFu32)
}

/// The characters the decoder produces for `data`.
pub open spec fn login_decoded(data: Seq<u8>) -> Seq<char> {
    let kc = login_decode_key(data);
    Seq::new(
        login_decode_count(data) as nat,
        |i: int| ((((data[4 + i] as u32) ^ (login_key_before(kc, (i + 1) as nat) & 0xFFu32)) as u8) as char),
    )
}

/// Decodes a login string (see [`login_decoded`]); the buffer must hold the
/// 4-byte prefix and as many bytes as the count it encodes.
pub fn ffxiv_login_string_decode(data: &[u8]) -> (result: String)
    requires
        data@.len() >= 4,
        data@.len() >= 4 + login_decode_count(data@),
    ensures
        result@ == login_decoded(data@),
{
    let mut result = String::new();
    let mut key = ((data[0] as u32) << 8) | data[1] as u32;
    let key2 = data[2] as u32;
    key = rotate_right(key, 1) & 0xFFFF;
    key = key.wrapping_sub(0x22AF);
    let key2 = key2 ^ key;
    key = rotate_right(key, 1) & 0xFFFF;
    key = key.wrapping_sub(0x22AF);
    let mut final_key = key;
    let k3 = data[3] as u32;
    let mut count = (key2 & 0xFF) << 8;
    let k3 = k3 ^ final_key;
    let k3 = k3 & 0xFF;
    count = count | k3;
    assert(count == login_decode_count(data@));
    assert(final_key == login_decode_key(data@));
    let ghost total = count;
    let n = data.len();
    let mut idx: usize = 0;
    while count != 0
        invariant
            n == data@.len(),
            total == login_decode_count(data@),
            data@.len() >= 4 + total,
            idx + count == total,
            final_key == login_key_before(login_decode_key(data@), idx as nat),
            result@ == login_decoded(data@).subrange(0, idx as int),
        decreases count,
    {
        let encrypted = data[4 + idx] as u32;
        final_key = rotate_right(final_key, 1) & 0xFFFF;
        final_key = final_key.wrapping_sub(0x22AF);
        let ch = encrypted ^ (final_key & 0xFF);
        result.push(ch as u8 as char);
        count = count - 1;
        idx = idx + 1;
        assert(result@ =~= login_decoded(data@).subrange(0, idx as int));
    }
    assert(login_decoded(data@).subrange(0, idx as int) =~= login_decoded(data@));
    result
}

/// Encodes `text` under `key` (see [`login_encoded`]).
pub fn ffxiv_login_string_encode(key: u32, text: &str) -> (result: Vec<u8>)
    requires
        text.spec_bytes().len() + 4 <= u32::MAX,
    ensures
        result@ == login_encoded(key, text.spec_bytes()),
        result@.len() == 4 + text.spec_bytes().len(),
{
    let ghost key_in = key;
    let mut key = key & 0xFFFF;
    let ghost k0 = key;
    assert(k0 < 0x10000 && k0 == key_in & 0xFFFFu32) by (bit_vector)
        requires
            k0 == key_in & 0xFFFFu32,
    ;
    let ascii = text.as_bytes();
    let l = ascii.len();
    let mut result: Vec<u8> = Vec::new();
    let mut z: usize = 0;
    while z < l + 4
        invariant
            l + 4 <= u32::MAX,
            z <= l + 4,
            result@ == Seq::new(z as nat, |i: int| 0u8),
        decreases l + 4 - z,
    {
        result.push(0u8);
        z = z + 1;
        assert(result@ =~= Seq::new(z as nat, |i: int| 0u8));
    }
    let mut count: u32 = 0;
    while (count as usize) < l
        invariant
            l == ascii@.len(),
            l + 4 <= u32::MAX,
            count <= l,
            result@.len() == l + 4,
            key == login_key_after(k0, count as nat),
            k0 < 0x10000,
            forall|i: int| 0 <= i < 4 + l - count ==> result@[i] == 0u8,
            forall|i: int|
                4 + l - count <= i < 4 + l ==> result@[i] == ascii@[i - 4] ^ ((login_key_after(
                    k0,
                    (l + 3 - i) as nat,
                ) & 0xFFu32) as u8),
        decreases l - count,
    {
        let idx = result.len() - count as usize - 1;
        let src_idx = ascii.len() - count as usize - 1;
        result.set(idx, ascii[src_idx] ^ (key & 0xFF) as u8);
        key = key.wrapping_add(0x22AF) & 0xFFFF;
        key = rotate_left(key, 1) & 0xFFFF;
        count = count + 1;
    }
    let count = count ^ key;
    let ghost kl = key;
    result.set(3, (count & 0xFF) as u8);
    key = key.wrapping_add(0x22AF) & 0xFFFF;
    key = rotate_left(key, 1) & 0xFFFF;
    result.set(2, (key & 0xFF) as u8);
    key = key.wrapping_add(0x22AF) & 0xFFFF;
    key = rotate_left(key, 1) & 0xFFFF;
    result.set(1, (key & 0xFF) as u8);
    result.set(0, ((key >> 8) & 0xFF) as u8);
    assert(result@ =~= login_encoded(key_in, ascii@));
    result
}


/// A forward key step whose addition does not leave 16 bits is undone by
/// the decoder's backward step.
proof fn lemma_login_step_back(k: u32)
    requires
        k < 0x10000,
        k + 0x22AF < 0x10000,
    ensures
        login_key_back(login_key_step(k)) == k,
{
    let a: u32 = (k + 0x22AF) as u32;
    assert(u32_specs::wrapping_add(k, 0x22AFu32) == a);
    assert(a & 0xFFFFu32 == a && spec_rotate_right(spec_rotate_left(a, 1) & 0xFFFFu32, 1)
        & 0xFFFFu32 == a) by (bit_vector)
        requires
            a < 0x10000,
    ;
}

/// Every key after at least one step, and every masked start key, fits in
/// 16 bits.
proof fn lemma_login_after_bound(k: u32, n: nat)
    requires
        k < 0x10000,
    ensures
        login_key_after(k, n) < 0x10000,
    decreases n,
{
    if n > 0 {
        let prev = login_key_after(k, (n - 1) as nat);
        let x = spec_rotate_left(u32_specs::wrapping_add(prev, 0x22AFu32) & 0xFFFFu32, 1);
        assert(x & 0xFFFFu32 < 0x10000) by (bit_vector);
    }
}

/// Walking back `n` steps from the key reached after `m` forward steps gives
/// the key after `m - n` steps, when no forward step before `m` wrapped.
proof fn lemma_login_before_after(k0: u32, m: nat, n: nat)
    requires
        k0 < 0x10000,
        n <= m,
        forall|j: nat| j < m ==> #[trigger] login_key_after(k0, j) + 0x22AF < 0x10000,
    ensures
        login_key_before(login_key_after(k0, m), n) == login_key_after(k0, (m - n) as nat),
    decreases n,
{
    if n > 0 {
        lemma_login_before_after(k0, m, (n - 1) as nat);
        let j = (m - n) as nat;
        lemma_login_after_bound(k0, j);
        assert(login_key_after(k0, j) + 0x22AF < 0x10000);
        lemma_login_step_back(login_key_after(k0, j));
        assert(login_key_after(k0, (j + 1) as nat) == login_key_step(login_key_after(k0, j)));
    }
}

/// Decoding an encoded login string gives back its bytes as characters,
/// for texts shorter than 256 bytes whose key never wraps past 16 bits while
/// it advances (the client's decoder does not undo a wrapped step).
pub proof fn lemma_login_string_roundtrip(key: u32, text: Seq<u8>)
    requires
        text.len() < 256,
        forall|j: nat|
            j <= text.len() + 1 ==> #[trigger] login_key_after(key & 0xFFFFu32, j) + 0x22AF
                < 0x10000,
    ensures
        login_encoded(key, text).len() >= 4 + login_decode_count(login_encoded(key, text)),
        login_decoded(login_encoded(key, text)) == text.map_values(|b: u8| b as char),
{
    let data = login_encoded(key, text);
    let l = text.len();
    let k0 = key & 0xFFFFu32;
    assert(k0 < 0x10000) by (bit_vector)
        requires
            k0 == key & 0xFFFFu32,
    ;
    let kl = login_key_after(k0, l);
    let k1 = login_key_after(k0, l + 1);
    let k2 = login_key_after(k0, l + 2);
    lemma_login_after_bound(k0, l + 2);
    assert(((((((k2 >> 8u32) & 0xFFu32) as u8) as u32) << 8u32) | (((k2 & 0xFFu32) as u8) as u32))
        == k2) by (bit_vector)
        requires
            k2 < 0x10000,
    ;
    lemma_login_before_after(k0, l + 2, 1);
    lemma_login_before_after(k0, l + 2, 2);
    assert(login_key_before(k2, 0) == k2);
    assert(login_key_before(k2, 1) == login_key_back(k2));
    assert(login_key_before(k2, 2) == login_key_back(login_key_back(k2)));
    assert(login_decode_key(data) == kl);
    let lu = l as u32;
    assert(((((((k1 & 0xFFu32) as u8) as u32) ^ k1) & 0xFFu32) << 8u32) | ((((((lu ^ kl)
        & 0xFFu32) as u8) as u32) ^ kl) & 0xFFu32) == lu) by (bit_vector)
        requires
            lu < 256,
    ;
    assert(login_decode_count(data) == l);
    let dec = login_decoded(data);
    assert forall|i: int| 0 <= i < l implies dec[i] == text[i] as char by {
        lemma_login_before_after(k0, l, (i + 1) as nat);
        let a = login_key_after(k0, (l - 1 - i) as nat);
        assert((l + 3 - (4 + i)) as nat == (l - 1 - i) as nat);
        let t = text[i];
        assert((((((t ^ ((a & 0xFFu32) as u8)) as u32) ^ (a & 0xFFu32)) as u8) == t)) by (bit_vector);
    }
    assert(dec =~= text.map_values(|b: u8| b as char));
}


/// The hex column of one byte-array dump row at byte `i`: for each of the
/// first `j` columns an extra space before every eighth, then either two
/// uppercase digits and a space or three spaces past the end.
pub open spec fn hex_row_cells(bytes: Seq<u8>, i: int, j: nat) -> Seq<char>
    decreases j,
{
    if j == 0 {
        Seq::empty()
    } else {
        let k = (j - 1) as int;
        hex_row_cells(bytes, i, (j - 1) as nat) + (if k > 0 && k % 8 == 0 {
            seq![' ']
        } else {
            Seq::empty()
        }) + (if i + k >= bytes.len() {
            seq![' ', ' ', ' ']
        } else {
            seq![
                hex_upper_digit((bytes[i + k] / 16) as int),
                hex_upper_digit((bytes[i + k] % 16) as int),
                ' ',
            ]
        })
    }
}

/// The text column of a dump row: each byte as a character, control bytes
/// (below 32) as dots, spaces past the end.
pub open spec fn text_row_cells(bytes: Seq<u8>, i: int, j: nat) -> Seq<char>
    decreases j,
{
    if j == 0 {
        Seq::empty()
    } else {
        let k = (j - 1) as int;
        text_row_cells(bytes, i, (j - 1) as nat).push(
            if i + k >= bytes.len() {
                ' '
            } else if bytes[i + k] < 32 {
                '.'
            } else {
                bytes[i + k] as char
            },
        )
    }
}

/// One dump row at byte `i`: the offset in 8 uppercase hex digits, three
/// spaces, the hex column, a space, the text column, a newline.
pub open spec fn hex_row(bytes: Seq<u8>, offset: nat, per_line: nat, i: nat) -> Seq<char> {
    hex_padded(i + offset, 8, true) + seq![' ', ' ', ' '] + hex_row_cells(bytes, i as int, per_line)
        + seq![' '] + text_row_cells(bytes, i as int, per_line) + seq!['\n']
}

/// The first `r` rows of the dump.
pub open spec fn hex_rows(bytes: Seq<u8>, offset: nat, per_line: nat, r: nat) -> Seq<char>
    decreases r,
{
    if r == 0 {
        Seq::empty()
    } else {
        let k = (r - 1) as nat;
        hex_rows(bytes, offset, per_line, k) + hex_row(bytes, offset, per_line, k * per_line)
    }
}

/// The byte-array dump: one row per `per_line` bytes, with trailing
/// whitespace removed; nothing for no bytes.
pub open spec fn byte_array_hex(bytes: Seq<u8>, offset: nat, per_line: nat) -> Seq<char> {
    if bytes.len() == 0 {
        Seq::empty()
    } else {
        trim_end_by(
            hex_rows(bytes, offset, per_line, ((bytes.len() + per_line - 1) / per_line as int) as nat),
            |c: char| is_whitespace(c),
        )
    }
}

fn push_hex_row(out: &mut Vec<char>, bytes: &[u8], offset: usize, per_line: usize, i: usize)
    requires
        i < bytes@.len(),
        bytes@.len() + per_line <= usize::MAX,
        bytes@.len() + offset <= usize::MAX,
    ensures
        final(out)@ == old(out)@ + hex_row(bytes@, offset as nat, per_line as nat, i as nat),
{
    let ghost base = old(out)@;
    let len = bytes.len();
    push_hex(out, (i + offset) as u64, 8, true);
    out.push(' ');
    out.push(' ');
    out.push(' ');
    let ghost pre = out@;
    let mut j: usize = 0;
    while j < per_line
        invariant
            j <= per_line,
            len == bytes@.len(),
            i < len,
            len + per_line <= usize::MAX,
            out@ == pre + hex_row_cells(bytes@, i as int, j as nat),
        decreases per_line - j,
    {
        if j > 0 && j % 8 == 0 {
            out.push(' ');
        }
        if i + j >= len {
            out.push(' ');
            out.push(' ');
            out.push(' ');
        } else {
            let b = bytes[i + j];
            assert(b >> 4 == b / 16 && b & 0xF == b % 16 && b >> 4 < 16 && b & 0xF < 16)
                by (bit_vector);
            out.push(hex_digit_char(b >> 4, true));
            out.push(hex_digit_char(b & 0xF, true));
            out.push(' ');
        }
        j = j + 1;
        assert(out@ =~= pre + hex_row_cells(bytes@, i as int, j as nat));
    }
    out.push(' ');
    let ghost pre2 = out@;
    let mut j: usize = 0;
    while j < per_line
        invariant
            j <= per_line,
            len == bytes@.len(),
            i < len,
            len + per_line <= usize::MAX,
            out@ == pre2 + text_row_cells(bytes@, i as int, j as nat),
        decreases per_line - j,
    {
        if i + j >= len {
            out.push(' ');
        } else {
            let b = bytes[i + j];
            out.push(if b < 32 { '.' } else { b as char });
        }
        j = j + 1;
        assert(out@ =~= pre2 + text_row_cells(bytes@, i as int, j as nat));
    }
    out.push('\n');
    assert(out@ =~= base + hex_row(bytes@, offset as nat, per_line as nat, i as nat));
}

/// A hex dump of `bytes` with `bytes_per_line` bytes per row and row
/// offsets starting at `offset` (see [`byte_array_hex`]); empty input gives
/// an empty string, whatever the row width.
pub fn byte_array_to_hex(bytes: &[u8], offset: usize, bytes_per_line: usize) -> (r: String)
    requires
        bytes_per_line > 0 || bytes@.len() == 0,
        bytes@.len() + bytes_per_line <= usize::MAX,
        bytes@.len() + offset <= usize::MAX,
    ensures
        r@ == byte_array_hex(bytes@, offset as nat, bytes_per_line as nat),
{
    let len = bytes.len();
    if len == 0 {
        return String::new();
    }
    let mut v: Vec<char> = Vec::new();
    let mut i: usize = 0;
    let mut r: usize = 0;
    while i < len
        invariant
            len == bytes@.len(),
            bytes_per_line > 0,
            len + bytes_per_line <= usize::MAX,
            len + offset <= usize::MAX,
            i == r * bytes_per_line,
            i < len + bytes_per_line,
            r * bytes_per_line < len + bytes_per_line,
            (r - 1) * bytes_per_line < len || r == 0,
            r <= i,
            v@ == hex_rows(bytes@, offset as nat, bytes_per_line as nat, r as nat),
        decreases len + bytes_per_line - i,
    {
        push_hex_row(&mut v, bytes, offset, bytes_per_line, i);
        proof {
            assert((r + 1) * bytes_per_line == r * bytes_per_line + bytes_per_line) by (nonlinear_arith);
            assert(r + 1 <= (r + 1) * bytes_per_line) by (nonlinear_arith)
                requires
                    bytes_per_line > 0,
            ;
        }
        i = i + bytes_per_line;
        r = r + 1;
        assert(v@ =~= hex_rows(bytes@, offset as nat, bytes_per_line as nat, r as nat));
    }
    proof {
        let n = bytes_per_line as int;
        let l = len as int;
        assert(r == (l + n - 1) / n) by (nonlinear_arith)
            requires
                n > 0,
                r * n >= l,
                r == 0 || (r - 1) * n < l,
                l >= 0,
                r >= 0,
        ;
    }
    let mut m: usize = v.len();
    while m > 0 && char_is_whitespace(v[m - 1])
        invariant
            m <= v@.len(),
            forall|k: int| m <= k < v@.len() ==> is_whitespace(#[trigger] v@[k]),
        decreases m,
    {
        m = m - 1;
    }
    proof {
        lemma_trim_end_take(v@, |c: char| is_whitespace(c), m as int);
    }
    let mut out = String::new();
    push_chars(&mut out, &v, m);
    out
}

/// The characters of `bytes` before the first zero byte (all of them if
/// there is none).
pub open spec fn before_nul(bytes: Seq<u8>) -> Seq<u8>
    decreases bytes.len(),
{
    if bytes.len() == 0 || bytes[0] == 0 {
        Seq::empty()
    } else {
        seq![bytes[0]] + before_nul(bytes.drop_first())
    }
}

/// What `String::from_utf8_lossy` decodes `bytes` to.
pub uninterp spec fn utf8_lossy(bytes: Seq<u8>) -> Seq<char>;

/// `String::from_utf8_lossy`: decodes UTF-8, replacing invalid sequences
/// with U+FFFD; valid UTF-8 decodes to exactly its characters.
#[verifier::external_body]
pub(crate) fn decode_utf8_lossy(bytes: &[u8]) -> (r: String)
    ensures
        r@ == utf8_lossy(bytes@),
        valid_utf8(bytes@) ==> r@ == decode_utf8(bytes@),
{
    String::from_utf8_lossy(bytes).into_owned()
}

proof fn lemma_before_nul_prefix(bytes: Seq<u8>, k: int)
    requires
        0 <= k <= bytes.len(),
        forall|i: int| 0 <= i < k ==> bytes[i] != 0,
        k == bytes.len() || bytes[k] == 0,
    ensures
        before_nul(bytes) == bytes.take(k),
    decreases k,
{
    if k > 0 {
        lemma_before_nul_prefix(bytes.drop_first(), k - 1);
        assert(seq![bytes[0]] + bytes.drop_first().take(k - 1) =~= bytes.take(k));
    } else {
        assert(bytes.take(0) =~= Seq::<u8>::empty());
    }
}

/// The string a fixed-size, NUL-padded field holds: the bytes before the
/// first zero, decoded leniently as UTF-8.
pub fn null_term_string(buf: &[u8]) -> (r: String)
    ensures
        r@ == utf8_lossy(before_nul(buf@)),
{
    let n = buf.len();
    let mut end: usize = 0;
    while end < n && buf[end] != 0
        invariant
            n == buf@.len(),
            end <= n,
            forall|i: int| 0 <= i < end ==> buf@[i] != 0,
        decreases n - end,
    {
        end = end + 1;
    }
    proof {
        lemma_before_nul_prefix(buf@, end as int);
    }
    let mut head: Vec<u8> = Vec::new();
    let mut k: usize = 0;
    while k < end
        invariant
            k <= end <= n,
            n == buf@.len(),
            head@ == buf@.take(k as int),
        decreases end - k,
    {
        head.push(buf[k]);
        k = k + 1;
        assert(head@ =~= buf@.take(k as int));
    }
    decode_utf8_lossy(head.as_slice())
}

/// The bytes a fixed-size string field of `max_size` bytes carries: the
/// UTF-8 bytes of `value`, cut at `max_size`.
pub fn null_term_bytes(value: &str, max_size: usize) -> (r: Vec<u8>)
    ensures
        r@ == value.spec_bytes().take(
            if value.spec_bytes().len() < max_size {
                value.spec_bytes().len() as int
            } else {
                max_size as int
            },
        ),
{
    let bytes = value.as_bytes();
    let n = if bytes.len() < max_size {
        bytes.len()
    } else {
        max_size
    };
    let mut r: Vec<u8> = Vec::new();
    let mut k: usize = 0;
    while k < n
        invariant
            k <= n <= bytes@.len(),
            bytes@ == value.spec_bytes(),
            r@ == bytes@.take(k as int),
        decreases n - k,
    {
        r.push(bytes[k]);
        k = k + 1;
        assert(r@ =~= bytes@.take(k as int));
    }
    r
}

/// `v` with its two bytes in the other order.
pub open spec fn swapped16(v: u16) -> u16 {
    ((v & 0xFF) << 8u16) | (v >> 8u16)
}

/// `v` with its four bytes in the other order.
pub open spec fn swapped32(v: u32) -> u32 {
    ((v & 0xFF) << 24u32) | (((v >> 8u32) & 0xFF) << 16u32) | (((v >> 16u32) & 0xFF) << 8u32) | (v
        >> 24u32)
}

/// `v` with its eight bytes in the other order.
pub open spec fn swapped64(v: u64) -> u64 {
    ((v & 0xFF) << 56u64) | (((v >> 8u64) & 0xFF) << 48u64) | (((v >> 16u64) & 0xFF) << 40u64) | ((
    (v >> 24u64) & 0xFF) << 32u64) | (((v >> 32u64) & 0xFF) << 24u64) | (((v >> 40u64) & 0xFF)
        << 16u64) | (((v >> 48u64) & 0xFF) << 8u64) | (v >> 56u64)
}

/// Reversing the byte order of an integer.
pub trait SwapEndian: Copy + Sized {
    /// The value with its bytes reversed.
    spec fn swapped(self) -> Self;

    /// Reverses the byte order.
    fn swap_endian(self) -> (r: Self)
        ensures
            r == self.swapped(),
    ;
}

impl SwapEndian for u16 {
    open spec fn swapped(self) -> u16 {
        swapped16(self)
    }

    fn swap_endian(self) -> (r: u16) {
        ((self & 0xFF) << 8) | (self >> 8)
    }
}

impl SwapEndian for u32 {
    open spec fn swapped(self) -> u32 {
        swapped32(self)
    }

    fn swap_endian(self) -> (r: u32) {
        ((self & 0xFF) << 24) | (((self >> 8) & 0xFF) << 16) | (((self >> 16) & 0xFF) << 8) | (self
            >> 24)
    }
}

impl SwapEndian for u64 {
    open spec fn swapped(self) -> u64 {
        swapped64(self)
    }

    fn swap_endian(self) -> (r: u64) {
        ((self & 0xFF) << 56) | (((self >> 8) & 0xFF) << 48) | (((self >> 16) & 0xFF) << 40) | (((
        self >> 24) & 0xFF) << 32) | (((self >> 32) & 0xFF) << 24) | (((self >> 40) & 0xFF) << 16)
            | (((self >> 48) & 0xFF) << 8) | (self >> 56)
    }
}

impl SwapEndian for i32 {
    open spec fn swapped(self) -> i32 {
        swapped32(self as u32) as i32
    }

    fn swap_endian(self) -> (r: i32) {
        let u = self as u32;
        (((u & 0xFF) << 24) | (((u >> 8) & 0xFF) << 16) | (((u >> 16) & 0xFF) << 8) | (u >> 24))
            as i32
    }
}

/// Swapping the byte order twice gives the value back.
pub proof fn lemma_swap_twice(a: u16, b: u32, c: u64)
    ensures
        swapped16(swapped16(a)) == a,
        swapped32(swapped32(b)) == b,
        swapped64(swapped64(c)) == c,
{
    assert(swapped16(swapped16(a)) == a) by (bit_vector);
    assert(swapped32(swapped32(b)) == b) by (bit_vector);
    assert(swapped64(swapped64(c)) == c) by (bit_vector);
}
} // verus!
