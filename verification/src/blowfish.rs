//! The lobby's Blowfish variant. The P and S tables start from the standard
//! pi-derived constants; the key schedule sign-extends every key byte to 32
//! bits before OR-ing it into the accumulator, so keys with bytes >= 0x80
//! produce a schedule that differs from stock Blowfish.

use vstd::prelude::*;
use vstd::wrapping::u32_specs;
use crate::blowfish_tables::{P_INIT, S_INIT};
use crate::error::PacketError;
use crate::bytes::{le_byte, le_u32, word_at, lemma_le_bytes, lemma_le_u32_of_bytes, lemma_bytes_of_le_u32, read_word, write_word};

verus! {

/// The round function F over the flat S-box table (box `k` at `256 * k`).
pub open spec fn bf_f(s: Seq<u32>, x: u32) -> u32 {
    let a = ((x >> 24u32) & 0xFFu32) as int;
    let b = ((x >> 16u32) & 0xFFu32) as int;
    let c = ((x >> 8u32) & 0xFFu32) as int;
    let d = (x & 0xFFu32) as int;
    u32_specs::wrapping_add(u32_specs::wrapping_add(s[a], s[256 + b]) ^ s[512 + c], s[768 + d])
}

/// One Feistel round with sub-key `k`: `L ^= k; R ^= F(L); swap`.
pub open spec fn bf_round(s: Seq<u32>, k: u32, st: (u32, u32)) -> (u32, u32) {
    (st.1 ^ bf_f(s, st.0 ^ k), st.0 ^ k)
}

/// State after the first `i` encryption rounds (sub-keys `p[0], p[1], ...`).
pub open spec fn enc_rounds(p: Seq<u32>, s: Seq<u32>, l: u32, r: u32, i: int) -> (u32, u32)
    decreases i,
{
    if i <= 0 {
        (l, r)
    } else {
        bf_round(s, p[i - 1], enc_rounds(p, s, l, r, i - 1))
    }
}

/// State after the first `i` decryption rounds (sub-keys `p[17], p[16], ...`).
pub open spec fn dec_rounds(p: Seq<u32>, s: Seq<u32>, l: u32, r: u32, i: int) -> (u32, u32)
    decreases i,
{
    if i <= 0 {
        (l, r)
    } else {
        bf_round(s, p[18 - i], dec_rounds(p, s, l, r, i - 1))
    }
}

/// Blowfish encryption of the 64-bit block `(l, r)`.
pub open spec fn encipher_pair(p: Seq<u32>, s: Seq<u32>, l: u32, r: u32) -> (u32, u32) {
    let st = enc_rounds(p, s, l, r, 16);
    (st.1 ^ p[17], st.0 ^ p[16])
}

/// Blowfish decryption of the 64-bit block `(l, r)`.
pub open spec fn decipher_pair(p: Seq<u32>, s: Seq<u32>, l: u32, r: u32) -> (u32, u32) {
    let st = dec_rounds(p, s, l, r, 16);
    (st.1 ^ p[0], st.0 ^ p[1])
}

/// A key byte sign-extended to 32 bits.
pub open spec fn sign_extend(b: u8) -> u32 {
    if b >= 0x80u8 {
        0xFFFF_FF00u32 | (b as u32)
    } else {
        b as u32
    }
}

/// The 32-bit word folded from key bytes `4i .. 4i + 3` (cycling the key).
pub open spec fn key_word(key: Seq<u8>, i: int) -> u32 {
    let n = key.len() as int;
    let d0 = sign_extend(key[(4 * i) % n]);
    let d1 = sign_extend(key[(4 * i + 1) % n]);
    let d2 = sign_extend(key[(4 * i + 2) % n]);
    let d3 = sign_extend(key[(4 * i + 3) % n]);
    (((((d0 << 8u32) | d1) << 8u32) | d2) << 8u32) | d3
}

/// The P-array after the key words are XOR-ed in.
pub open spec fn keyed_p(key: Seq<u8>) -> Seq<u32> {
    Seq::new(18, |i: int| P_INIT@[i] ^ key_word(key, i))
}

/// The key schedule after `k` of its 521 block encryptions: the first 9 refill
/// the P-array pairwise, the remaining 512 refill the S-boxes pairwise; each
/// encrypts the previous output under the tables as they stand.
pub open spec fn schedule(key: Seq<u8>, k: int) -> (Seq<u32>, Seq<u32>, u32, u32)
    decreases k,
{
    if k <= 0 {
        (keyed_p(key), S_INIT@, 0u32, 0u32)
    } else {
        let prev = schedule(key, k - 1);
        let out = encipher_pair(prev.0, prev.1, prev.2, prev.3);
        if k - 1 < 9 {
            (prev.0.update(2 * (k - 1), out.0).update(2 * (k - 1) + 1, out.1), prev.1, out.0, out.1)
        } else {
            let idx = 2 * (k - 1 - 9);
            (prev.0, prev.1.update(idx, out.0).update(idx + 1, out.1), out.0, out.1)
        }
    }
}

/// The P-array and S-boxes that a key produces.
pub open spec fn key_schedule(key: Seq<u8>) -> (Seq<u32>, Seq<u32>) {
    let st = schedule(key, 521);
    (st.0, st.1)
}

/// Encryption (`enc`) or decryption of one 64-bit block.
pub open spec fn block_cipher(p: Seq<u32>, s: Seq<u32>, enc: bool, l: u32, r: u32) -> (u32, u32) {
    if enc {
        encipher_pair(p, s, l, r)
    } else {
        decipher_pair(p, s, l, r)
    }
}

/// `bytes` with every 8-byte block of `bytes[offset .. offset + length]`
/// enciphered (`enc`) or deciphered, each block read and written as two
/// little-endian words; bytes outside the range are unchanged.
pub open spec fn map_blocks(
    p: Seq<u32>,
    s: Seq<u32>,
    enc: bool,
    bytes: Seq<u8>,
    offset: int,
    length: int,
) -> Seq<u8> {
    Seq::new(
        bytes.len(),
        |i: int|
            if offset <= i < offset + length {
                let start = offset + ((i - offset) / 8) * 8;
                let out = block_cipher(p, s, enc, word_at(bytes, start), word_at(bytes, start + 4));
                let pos = i - start;
                if pos < 4 {
                    le_byte(out.0, pos)
                } else {
                    le_byte(out.1, pos - 4)
                }
            } else {
                bytes[i]
            },
    )
}

/// `bytes` with every block of the range enciphered under `(p, s)`.
pub open spec fn encipher_bytes(p: Seq<u32>, s: Seq<u32>, bytes: Seq<u8>, offset: int, length: int) -> Seq<u8> {
    map_blocks(p, s, true, bytes, offset, length)
}

/// `bytes` with every block of the range deciphered under `(p, s)`.
pub open spec fn decipher_bytes(p: Seq<u32>, s: Seq<u32>, bytes: Seq<u8>, offset: int, length: int) -> Seq<u8> {
    map_blocks(p, s, false, bytes, offset, length)
}

pub struct Blowfish {
    p: Vec<u32>,
    s: Vec<u32>,
}

impl View for Blowfish {
    type V = (Seq<u32>, Seq<u32>);

    closed spec fn view(&self) -> (Seq<u32>, Seq<u32>) {
        (self.p@, self.s@)
    }
}

impl Blowfish {
    /// The tables have their fixed sizes.
    pub closed spec fn wf(&self) -> bool {
        self.p@.len() == 18 && self.s@.len() == 1024
    }
}

proof fn lemma_xor_cancel(a: u32, b: u32)
    ensures
        (a ^ b) ^ b == a,
        (b ^ a) ^ b == a,
        a ^ b == b ^ a,
{
    assert((a ^ b) ^ b == a && (b ^ a) ^ b == a && a ^ b == b ^ a) by (bit_vector);
}

proof fn lemma_xor_swap(a: u32, b: u32, c: u32)
    ensures
        (a ^ b) ^ c == (a ^ c) ^ b,
{
    assert((a ^ b) ^ c == (a ^ c) ^ b) by (bit_vector);
}

/// Decryption rounds undo encryption rounds from the outside in.
proof fn lemma_dec_undoes_enc(p: Seq<u32>, s: Seq<u32>, l: u32, r: u32, j: int)
    requires
        p.len() == 18,
        0 <= j <= 16,
    ensures
        ({
            let out = encipher_pair(p, s, l, r);
            let d = dec_rounds(p, s, out.0, out.1, j);
            let e = enc_rounds(p, s, l, r, 16 - j);
            d == (e.1 ^ p[17 - j], e.0 ^ p[16 - j])
        }),
    decreases j,
{
    let out = encipher_pair(p, s, l, r);
    if j > 0 {
        lemma_dec_undoes_enc(p, s, l, r, j - 1);
        let m = 16 - (j - 1);
        let prev = enc_rounds(p, s, l, r, m - 1);
        let cur = enc_rounds(p, s, l, r, m);
        let d = dec_rounds(p, s, out.0, out.1, j - 1);
        // d == (cur.1 ^ p[17 - (j-1)], cur.0 ^ p[16 - (j-1)]); key of this round is p[18 - j].
        assert(18 - j == 17 - (j - 1));
        lemma_xor_cancel(cur.1, p[18 - j]);
        // cur.1 == prev.0 ^ p[m-1]; cur.0 == prev.1 ^ F(cur.1)
        let fx = bf_f(s, cur.1);
        lemma_xor_swap(prev.1, fx, p[16 - (j - 1)]);
        lemma_xor_cancel(prev.1 ^ p[16 - (j - 1)], fx);
    }
}

/// Deciphering a block enciphered under the same tables gives the block back.
pub proof fn lemma_decipher_pair_inverts(p: Seq<u32>, s: Seq<u32>, l: u32, r: u32)
    requires
        p.len() == 18,
    ensures
        ({
            let out = encipher_pair(p, s, l, r);
            decipher_pair(p, s, out.0, out.1) == (l, r)
        }),
{
    lemma_dec_undoes_enc(p, s, l, r, 16);
    let out = encipher_pair(p, s, l, r);
    let d = dec_rounds(p, s, out.0, out.1, 16);
    lemma_xor_cancel(r, p[1]);
    lemma_xor_cancel(l, p[0]);
}

proof fn lemma_byte_index(x: u32)
    ensures
        (x >> 24u32) & 0xFFu32 < 256,
        (x >> 16u32) & 0xFFu32 < 256,
        (x >> 8u32) & 0xFFu32 < 256,
        x & 0xFFu32 < 256,
{
    assert((x >> 24u32) & 0xFFu32 < 256 && (x >> 16u32) & 0xFFu32 < 256 && (x >> 8u32) & 0xFFu32
        < 256 && x & 0xFFu32 < 256) by (bit_vector);
}

proof fn lemma_mod_step(a: int, n: int)
    requires
        n >= 1,
        a >= 0,
    ensures
        ((a % n) + 1) % n == (a + 1) % n,
{
    vstd::arithmetic::div_mod::lemma_add_mod_noop(a, 1, n);
    if n == 1 {
        assert((a + 1) % 1 == 0);
        assert(((a % 1) + 1) % 1 == 0);
    } else {
        vstd::arithmetic::div_mod::lemma_small_mod(1, n as nat);
    }
}

fn sign_extend_exec(b: u8) -> (r: u32)
    ensures
        r == sign_extend(b),
{
    if b >= 0x80 {
        0xFFFF_FF00u32 | (b as u32)
    } else {
        b as u32
    }
}

fn key_word_exec(key: &[u8], i: usize, j: usize) -> (r: (u32, usize))
    requires
        key@.len() >= 1,
        i < 18,
        j == (4 * i) % (key@.len() as int),
    ensures
        r.0 == key_word(key@, i as int),
        r.1 == (4 * (i + 1)) % (key@.len() as int),
{
    let n = key.len();
    let ghost base = 4 * (i as int);
    let mut j = j;
    let d0 = sign_extend_exec(key[j]);
    proof { lemma_mod_step(base, n as int); }
    j = (j + 1) % n;
    let d1 = sign_extend_exec(key[j]);
    proof { lemma_mod_step(base + 1, n as int); }
    j = (j + 1) % n;
    let d2 = sign_extend_exec(key[j]);
    proof { lemma_mod_step(base + 2, n as int); }
    j = (j + 1) % n;
    let d3 = sign_extend_exec(key[j]);
    proof { lemma_mod_step(base + 3, n as int); }
    j = (j + 1) % n;
    let mut data: u32 = 0;
    data = data.wrapping_shl(8) | d0;
    data = data.wrapping_shl(8) | d1;
    data = data.wrapping_shl(8) | d2;
    data = data.wrapping_shl(8) | d3;
    assert((0u32 << 8u32) | d0 == d0) by (bit_vector);
    (data, j)
}

impl Blowfish {
    /// Builds the cipher state for `key` (which must not be empty).
    pub fn new(key: &[u8]) -> (bf: Self)
        requires
            key@.len() >= 1,
        ensures
            bf.wf(),
            bf@.0.len() == 18,
            bf@.1.len() == 1024,
            bf@ == key_schedule(key@),
    {
        let mut bf = Blowfish { p: Vec::new(), s: Vec::new() };
        bf.initialize(key);
        bf
    }

    /// Loads the initial tables and runs the key schedule for `key`,
    /// whatever the state held before.
    fn initialize(&mut self, key: &[u8])
        requires
            key@.len() >= 1,
        ensures
            final(self).wf(),
            final(self)@ == key_schedule(key@),
    {
        let mut p: Vec<u32> = Vec::new();
        let mut i: usize = 0;
        while i < 18
            invariant
                i <= 18,
                p@ == P_INIT@.subrange(0, i as int),
            decreases 18 - i,
        {
            p.push(P_INIT[i]);
            i = i + 1;
            assert(p@ =~= P_INIT@.subrange(0, i as int));
        }
        let mut s: Vec<u32> = Vec::new();
        let mut i: usize = 0;
        while i < 1024
            invariant
                i <= 1024,
                s@ == S_INIT@.subrange(0, i as int),
            decreases 1024 - i,
        {
            s.push(S_INIT[i]);
            i = i + 1;
            assert(s@ =~= S_INIT@.subrange(0, i as int));
        }
        assert(p@ =~= P_INIT@);
        assert(s@ =~= S_INIT@);
        let n = key.len();
        let mut j: usize = 0;
        let mut i: usize = 0;
        assert((4 * 0int) % (n as int) == 0) by {
            vstd::arithmetic::div_mod::lemma_small_mod(0, n as nat);
        }
        while i < 18
            invariant
                n == key@.len(),
                n >= 1,
                i <= 18,
                j == (4 * i) % (n as int),
                p@.len() == 18,
                forall|k: int| 0 <= k < i ==> p@[k] == keyed_p(key@)[k],
                forall|k: int| i <= k < 18 ==> p@[k] == P_INIT@[k],
            decreases 18 - i,
        {
            let (data, next_j) = key_word_exec(key, i, j);
            j = next_j;
            let old_p = p[i];
            p.set(i, old_p ^ data);
            i = i + 1;
        }
        assert(p@ =~= keyed_p(key@));
        self.p = p;
        self.s = s;
        let mut datal: u32 = 0;
        let mut datar: u32 = 0;
        let mut k: usize = 0;
        while k < 521
            invariant
                k <= 521,
                self.wf(),
                schedule(key@, k as int) == (self.p@, self.s@, datal, datar),
            decreases 521 - k,
        {
            let (l, r) = self.encipher_block(datal, datar);
            datal = l;
            datar = r;
            if k < 9 {
                self.p.set(2 * k, datal);
                self.p.set(2 * k + 1, datar);
            } else {
                self.s.set(2 * (k - 9), datal);
                self.s.set(2 * (k - 9) + 1, datar);
            }
            k = k + 1;
        }
    }

    fn f(&self, x: u32) -> (y: u32)
        requires
            self.wf(),
        ensures
            y == bf_f(self.s@, x),
    {
        proof { lemma_byte_index(x); }
        let d = (x & 0xFF) as usize;
        let c = ((x >> 8) & 0xFF) as usize;
        let b = ((x >> 16) & 0xFF) as usize;
        let a = ((x >> 24) & 0xFF) as usize;
        let mut y = self.s[a].wrapping_add(self.s[256 + b]);
        y = y ^ self.s[512 + c];
        y = y.wrapping_add(self.s[768 + d]);
        y
    }

    fn encipher_block(&self, xl: u32, xr: u32) -> (out: (u32, u32))
        requires
            self.wf(),
        ensures
            out == encipher_pair(self.p@, self.s@, xl, xr),
    {
        let mut l = xl;
        let mut r = xr;
        let mut i: usize = 0;
        while i < 16
            invariant
                self.wf(),
                i <= 16,
                (l, r) == enc_rounds(self.p@, self.s@, xl, xr, i as int),
            decreases 16 - i,
        {
            let l2 = l ^ self.p[i];
            let r2 = r ^ self.f(l2);
            l = r2;
            r = l2;
            i = i + 1;
        }
        (r ^ self.p[17], l ^ self.p[16])
    }

    fn decipher_block(&self, xl: u32, xr: u32) -> (out: (u32, u32))
        requires
            self.wf(),
        ensures
            out == decipher_pair(self.p@, self.s@, xl, xr),
    {
        let mut l = xl;
        let mut r = xr;
        let mut i: usize = 0;
        while i < 16
            invariant
                self.wf(),
                i <= 16,
                (l, r) == dec_rounds(self.p@, self.s@, xl, xr, i as int),
            decreases 16 - i,
        {
            let l2 = l ^ self.p[17 - i];
            let r2 = r ^ self.f(l2);
            assert(dec_rounds(self.p@, self.s@, xl, xr, i + 1) == bf_round(
                self.s@,
                self.p@[17 - i],
                dec_rounds(self.p@, self.s@, xl, xr, i as int),
            ));
            l = r2;
            r = l2;
            i = i + 1;
        }
        (r ^ self.p[0], l ^ self.p[1])
    }
}

proof fn lemma_block_step(
    p: Seq<u32>,
    s: Seq<u32>,
    enc: bool,
    orig: Seq<u8>,
    offset: int,
    i: int,
    cur: Seq<u8>,
    new: Seq<u8>,
    out: (u32, u32),
)
    requires
        0 <= offset <= i,
        (i - offset) % 8 == 0,
        i + 8 <= orig.len(),
        cur == map_blocks(p, s, enc, orig, offset, i - offset),
        out == block_cipher(p, s, enc, word_at(orig, i), word_at(orig, i + 4)),
        new.len() == cur.len(),
        forall|k: int| 0 <= k < new.len() && !(i <= k < i + 8) ==> new[k] == cur[k],
        forall|t: int| 0 <= t < 4 ==> new[i + t] == le_byte(out.0, t),
        forall|t: int| 0 <= t < 4 ==> new[i + 4 + t] == le_byte(out.1, t),
    ensures
        new == map_blocks(p, s, enc, orig, offset, i + 8 - offset),
{
    let target = map_blocks(p, s, enc, orig, offset, i + 8 - offset);
    let q = (i - offset) / 8;
    assert(i - offset == 8 * q);
    assert forall|k: int| 0 <= k < new.len() implies new[k] == target[k] by {
        if i <= k < i + 8 {
            lemma_block_start(offset, q, k - i);
            assert(k == offset + 8 * q + (k - i));
            if k - i < 4 {
                assert(new[i + (k - i)] == le_byte(out.0, k - i));
            } else {
                assert(new[i + 4 + (k - i - 4)] == le_byte(out.1, k - i - 4));
            }
        } else if offset <= k < i {
            let qk = (k - offset) / 8;
            assert(offset + qk * 8 + 8 <= i) by (nonlinear_arith)
                requires
                    qk == (k - offset) / 8,
                    k - offset >= 0,
                    i - offset == 8 * q,
                    k - offset < i - offset,
            ;
            assert(offset + qk * 8 >= offset) by (nonlinear_arith)
                requires
                    qk == (k - offset) / 8,
                    k - offset >= 0,
            ;
        }
    }
    assert(new =~= target);
}

proof fn lemma_block_start(offset: int, q: int, t: int)
    requires
        0 <= t < 8,
        q >= 0,
    ensures
        offset + (((offset + 8 * q + t) - offset) / 8) * 8 == offset + 8 * q,
{
    assert((8 * q + t) / 8 == q) by (nonlinear_arith)
        requires
            0 <= t < 8,
            q >= 0,
    ;
}

impl Blowfish {
    fn apply_blocks(&self, data: &mut Vec<u8>, offset: usize, length: usize, enc: bool)
        requires
            self.wf(),
            length % 8 == 0,
            offset + length <= old(data)@.len(),
        ensures
            final(data)@ == map_blocks(self.p@, self.s@, enc, old(data)@, offset as int, length as int),
    {
        let ghost orig = data@;
        let n = data.len();
        let end = offset + length;
        let mut i = offset;
        assert(data@ =~= map_blocks(self.p@, self.s@, enc, orig, offset as int, 0));
        while i < end
            invariant
                self.wf(),
                end == offset + length,
                end <= orig.len(),
                offset <= i <= end,
                (i - offset) % 8 == 0,
                length % 8 == 0,
                data@ == map_blocks(self.p@, self.s@, enc, orig, offset as int, (i - offset) as int),
            decreases end - i,
        {
            assert(i + 8 <= end) by {
                assert((end - offset) % 8 == 0);
            }
            let ghost cur = data@;
            assert(forall|k: int| i <= k < orig.len() ==> cur[k] == orig[k]);
            let xl0 = read_word(data, i);
            let xr0 = read_word(data, i + 4);
            assert(word_at(cur, i as int) == word_at(orig, i as int));
            assert(word_at(cur, i + 4) == word_at(orig, i + 4));
            let (xl, xr) = if enc {
                self.encipher_block(xl0, xr0)
            } else {
                self.decipher_block(xl0, xr0)
            };
            write_word(data, i, xl);
            let ghost mid = data@;
            write_word(data, i + 4, xr);
            proof {
                assert forall|t: int| 0 <= t < 4 implies data@[i + t] == le_byte(xl, t) by {
                    assert(data@[i + t] == mid[i + t]);
                }
                lemma_block_step(self.p@, self.s@, enc, orig, offset as int, i as int, cur, data@, (xl, xr));
            }
            i = i + 8;
        }
    }

    /// Enciphers `data[offset .. offset + length]` in place, 8 bytes at a time;
    /// a length that is not a multiple of 8 is refused and nothing changes.
    pub fn encipher(&self, data: &mut Vec<u8>, offset: usize, length: usize) -> (r: Result<(), PacketError>)
        requires
            self.wf(),
            length % 8 != 0 || offset + length <= old(data)@.len(),
        ensures
            length % 8 != 0 ==> final(data)@ == old(data)@ && (r matches Err(
                PacketError::BlowfishBlockMisaligned(n),
            ) && n == length),
            length % 8 == 0 ==> r is Ok && final(data)@ == encipher_bytes(
                self@.0,
                self@.1,
                old(data)@,
                offset as int,
                length as int,
            ),
    {
        if length % 8 != 0 {
            return Err(PacketError::BlowfishBlockMisaligned(length));
        }
        self.apply_blocks(data, offset, length, true);
        Ok(())
    }

    /// Deciphers `data[offset .. offset + length]` in place, 8 bytes at a time;
    /// a length that is not a multiple of 8 is refused and nothing changes.
    pub fn decipher(&self, data: &mut Vec<u8>, offset: usize, length: usize) -> (r: Result<(), PacketError>)
        requires
            self.wf(),
            length % 8 != 0 || offset + length <= old(data)@.len(),
        ensures
            length % 8 != 0 ==> final(data)@ == old(data)@ && (r matches Err(
                PacketError::BlowfishBlockMisaligned(n),
            ) && n == length),
            length % 8 == 0 ==> r is Ok && final(data)@ == decipher_bytes(
                self@.0,
                self@.1,
                old(data)@,
                offset as int,
                length as int,
            ),
    {
        if length % 8 != 0 {
            return Err(PacketError::BlowfishBlockMisaligned(length));
        }
        self.apply_blocks(data, offset, length, false);
        Ok(())
    }
}

/// Deciphering a byte range that was enciphered under the same tables gives
/// the original bytes back.
pub proof fn lemma_decipher_bytes_inverts(
    p: Seq<u32>,
    s: Seq<u32>,
    bytes: Seq<u8>,
    offset: int,
    length: int,
)
    requires
        p.len() == 18,
        0 <= offset,
        0 <= length,
        length % 8 == 0,
        offset + length <= bytes.len(),
    ensures
        decipher_bytes(p, s, encipher_bytes(p, s, bytes, offset, length), offset, length) == bytes,
{
    let enc = encipher_bytes(p, s, bytes, offset, length);
    let dec = decipher_bytes(p, s, enc, offset, length);
    assert forall|k: int| 0 <= k < bytes.len() implies dec[k] == bytes[k] by {
        if offset <= k < offset + length {
            let q = (k - offset) / 8;
            let st = offset + q * 8;
            assert(0 <= k - st < 8 && st >= offset) by (nonlinear_arith)
                requires
                    q == (k - offset) / 8,
                    k - offset >= 0,
                    st == offset + q * 8,
            ;
            assert(st + 8 <= offset + length) by (nonlinear_arith)
                requires
                    q == (k - offset) / 8,
                    k - offset >= 0,
                    k < offset + length,
                    length % 8 == 0,
                    st == offset + q * 8,
            ;
            let l = word_at(bytes, st);
            let r = word_at(bytes, st + 4);
            let out = encipher_pair(p, s, l, r);
            assert(st == offset + 8 * q);
            lemma_block_start(offset, q, 0);
            lemma_block_start(offset, q, 1);
            lemma_block_start(offset, q, 2);
            lemma_block_start(offset, q, 3);
            lemma_block_start(offset, q, 4);
            lemma_block_start(offset, q, 5);
            lemma_block_start(offset, q, 6);
            lemma_block_start(offset, q, 7);
            lemma_block_start(offset, q, k - st);
            assert(enc[st] == le_byte(out.0, 0) && enc[st + 1] == le_byte(out.0, 1) && enc[st + 2]
                == le_byte(out.0, 2) && enc[st + 3] == le_byte(out.0, 3)) by {
                assert(offset + ((st + 1 - offset) / 8) * 8 == st);
                assert(offset + ((st + 2 - offset) / 8) * 8 == st);
                assert(offset + ((st + 3 - offset) / 8) * 8 == st);
                assert(offset + ((st + 0 - offset) / 8) * 8 == st);
            }
            assert(enc[st + 4] == le_byte(out.1, 0) && enc[st + 5] == le_byte(out.1, 1) && enc[st
                + 6] == le_byte(out.1, 2) && enc[st + 7] == le_byte(out.1, 3)) by {
                assert(offset + ((st + 4 - offset) / 8) * 8 == st);
                assert(offset + ((st + 5 - offset) / 8) * 8 == st);
                assert(offset + ((st + 6 - offset) / 8) * 8 == st);
                assert(offset + ((st + 7 - offset) / 8) * 8 == st);
            }
            lemma_le_u32_of_bytes(out.0);
            lemma_le_u32_of_bytes(out.1);
            assert(word_at(enc, st) == out.0);
            assert(word_at(enc, st + 4) == out.1);
            lemma_decipher_pair_inverts(p, s, l, r);
            lemma_bytes_of_le_u32(bytes[st], bytes[st + 1], bytes[st + 2], bytes[st + 3]);
            lemma_bytes_of_le_u32(bytes[st + 4], bytes[st + 5], bytes[st + 6], bytes[st + 7]);
            assert(offset + ((k - offset) / 8) * 8 == st);
            if k - st < 4 {
                assert(bytes[k] == bytes[st + (k - st)]);
            } else {
                assert(bytes[k] == bytes[st + 4 + (k - st - 4)]);
            }
        }
    }
    assert(dec =~= bytes);
}

} // verus!
