//! Base packets: a 16-byte header followed by a body of subpackets, which
//! may be zlib-compressed and whose subpacket bodies may be enciphered.

use vstd::prelude::*;
use crate::blowfish::{Blowfish, map_blocks, lemma_decipher_bytes_inverts, encipher_bytes, decipher_bytes};
use crate::bytes::{
    append_bytes, copy_range, lemma_u16_le_roundtrip, lemma_u64_le_roundtrip, push_u16_le,
    push_u64_le, read_u16_le, read_u64_le, u16_at, u16_le, u64_at, u64_le, le_byte, word_at,
    write_word, read_word,
};
use crate::error::PacketError;
use crate::subpacket::GAMEMESSAGE_SIZE;
use crate::subpacket::{
    lemma_subpacket_roundtrip, size_is_exact, zero_game_message, SUBPACKET_TYPE_GAMEMESSAGE,
    fits_declared_size, parse_fault, parse_overruns, parsed_at, sub_header_at, subpacket_bytes,
    SubPacket, SubPacketView, SUBPACKET_SIZE,
};
use crate::utils::millis_unix_timestamp;
use crate::zlib::{zlib_compress, zlib_compressed, zlib_decompress, zlib_decompressed};

verus! {

pub const PACKET_TYPE_ZONE: u16 = 1;

pub const PACKET_TYPE_CHAT: u16 = 2;

pub const BASEPACKET_SIZE: usize = 0x10;

#[derive(Debug, Clone, Copy)]
pub struct BasePacketHeader {
    pub is_authenticated: u8,
    pub is_compressed: u8,
    pub connection_type: u16,
    pub packet_size: u16,
    pub num_subpackets: u16,
    pub timestamp: u64,
}

impl Default for BasePacketHeader {
    /// Every field 0.
    fn default() -> (r: Self)
        ensures
            r.is_authenticated == 0,
            r.is_compressed == 0,
            r.connection_type == 0,
            r.packet_size == 0,
            r.num_subpackets == 0,
            r.timestamp == 0,
    {
        BasePacketHeader {
            is_authenticated: 0,
            is_compressed: 0,
            connection_type: 0,
            packet_size: 0,
            num_subpackets: 0,
            timestamp: 0,
        }
    }
}

/// Wire image of a base-packet header.
pub open spec fn base_header_bytes(h: BasePacketHeader) -> Seq<u8> {
    seq![h.is_authenticated, h.is_compressed] + u16_le(h.connection_type) + u16_le(h.packet_size)
        + u16_le(h.num_subpackets) + u64_le(h.timestamp)
}

/// The base-packet header stored at `bytes[i .. i + 16]`.
pub open spec fn base_header_at(bytes: Seq<u8>, i: int) -> BasePacketHeader {
    BasePacketHeader {
        is_authenticated: bytes[i],
        is_compressed: bytes[i + 1],
        connection_type: u16_at(bytes, i + 2),
        packet_size: u16_at(bytes, i + 4),
        num_subpackets: u16_at(bytes, i + 6),
        timestamp: u64_at(bytes, i + 8),
    }
}

/// A base packet viewed as its header and body.
pub type BasePacketView = (BasePacketHeader, Seq<u8>);

/// The framing error, if any, met when a base packet is read at `off`.
pub open spec fn frame_fault(bytes: Seq<u8>, off: int) -> Option<PacketError> {
    if bytes.len() < off + BASEPACKET_SIZE {
        Some(PacketError::TooSmall { needed: (off + BASEPACKET_SIZE) as usize, have: bytes.len() as usize })
    } else if bytes.len() < off + base_header_at(bytes, off).packet_size {
        Some(
            PacketError::SizeMismatch {
                declared: base_header_at(bytes, off).packet_size as usize,
                available: (bytes.len() - off) as usize,
            },
        )
    } else {
        None
    }
}

/// A base packet at `off` whose declared size is smaller than its header;
/// reading one would index out of range.
pub open spec fn frame_overruns(bytes: Seq<u8>, off: int) -> bool {
    frame_fault(bytes, off) is None && base_header_at(bytes, off).packet_size < BASEPACKET_SIZE
}

/// The base packet read at `off` (when there is no fault).
pub open spec fn framed_at(bytes: Seq<u8>, off: int) -> BasePacketView {
    let h = base_header_at(bytes, off);
    (h, bytes.subrange(off + BASEPACKET_SIZE, off + h.packet_size))
}

/// No subpacket met while walking `data` from `off` declares a size smaller
/// than its own headers.
pub open spec fn subpackets_in_bounds(data: Seq<u8>, off: int) -> bool
    decreases data.len() - off,
{
    if off >= data.len() || parse_fault(data, off) is Some {
        true
    } else if parse_overruns(data, off) {
        false
    } else {
        subpackets_in_bounds(data, off + sub_header_at(data, off).subpacket_size)
    }
}

/// The subpackets read one after another from `off` to the end of `data`, or
/// the first framing error.
pub open spec fn subpackets_from(data: Seq<u8>, off: int) -> Result<Seq<SubPacketView>, PacketError>
    decreases data.len() - off,
{
    if off >= data.len() {
        Ok(Seq::empty())
    } else if parse_fault(data, off) is Some {
        Err(parse_fault(data, off).unwrap())
    } else if parse_overruns(data, off) {
        Ok(Seq::empty())
    } else {
        match subpackets_from(data, off + sub_header_at(data, off).subpacket_size) {
            Ok(rest) => Ok(seq![parsed_at(data, off)] + rest),
            Err(e) => Err(e),
        }
    }
}

/// The views of a sequence of subpackets.
pub open spec fn subpacket_views(subs: Seq<SubPacket>) -> Seq<SubPacketView> {
    subs.map_values(|sp: SubPacket| sp@)
}

/// The concatenated wire images of the first `n` subpackets.
pub open spec fn concat_subpackets(subs: Seq<SubPacketView>, n: int) -> Seq<u8>
    decreases n,
{
    if n <= 0 {
        Seq::empty()
    } else {
        concat_subpackets(subs, n - 1) + subpacket_bytes(subs[n - 1])
    }
}

/// Sum of the declared sizes of the first `n` subpackets.
pub open spec fn sum_sizes(subs: Seq<SubPacketView>, n: int) -> int
    decreases n,
{
    if n <= 0 {
        0
    } else {
        sum_sizes(subs, n - 1) + subs[n - 1].0.subpacket_size
    }
}

/// Whether `needles` contains `w`.
pub open spec fn has_word(needles: Seq<u32>, w: u32) -> bool {
    exists|k: int| 0 <= k < needles.len() && needles[k] == w
}

/// `data` with every aligned 4-byte word (one that starts at a multiple of
/// 4 and ends within `data`) that is one of `needles` replaced by
/// `replacement`; a trailing partial word is left as it is.
pub open spec fn replaced_words(data: Seq<u8>, needles: Seq<u32>, replacement: u32) -> Seq<u8> {
    Seq::new(
        data.len(),
        |i: int|
            {
                let w = (i / 4) * 4;
                if w + 4 <= data.len() && has_word(needles, word_at(data, w)) {
                    le_byte(replacement, i - w)
                } else {
                    data[i]
                }
            },
    )
}

/// The sniffed default actor ids that [`BasePacket::replace_actor_id`] retargets.
pub open spec fn original_actor_ids() -> Seq<u32> {
    seq![0x029B2941u32, 0x02977DC7, 0x0297D2C8, 0x0230d573, 0x23317df, 0x23344a3, 0x1730bdb, 0x6c]
}

/// Walks the subpacket chain enciphering (`enc`) or deciphering each body;
/// returns the resulting bytes and the error that stopped the walk, if any.
pub open spec fn crypt_walk(p: Seq<u32>, s: Seq<u32>, enc: bool, data: Seq<u8>, off: int) -> (Seq<u8>, Option<PacketError>)
    decreases data.len() - off,
{
    if off >= data.len() {
        (data, None)
    } else if data.len() < off + SUBPACKET_SIZE {
        (data, Some(PacketError::TooSmall { needed: (off + SUBPACKET_SIZE) as usize, have: data.len() as usize }))
    } else if data.len() < off + u16_at(data, off) {
        (data, Some(PacketError::SizeMismatch { declared: u16_at(data, off) as usize, available: (data.len() - off) as usize }))
    } else if u16_at(data, off) < SUBPACKET_SIZE {
        (data, None)
    } else if (u16_at(data, off) - SUBPACKET_SIZE) % 8 != 0 {
        (data, Some(PacketError::BlowfishBlockMisaligned((u16_at(data, off) - SUBPACKET_SIZE) as usize)))
    } else {
        crypt_walk(
            p,
            s,
            enc,
            map_blocks(p, s, enc, data, off + SUBPACKET_SIZE, u16_at(data, off) - SUBPACKET_SIZE),
            off + u16_at(data, off),
        )
    }
}

proof fn lemma_map_blocks_agree(
    p: Seq<u32>,
    s: Seq<u32>,
    enc: bool,
    x: Seq<u8>,
    y: Seq<u8>,
    offset: int,
    length: int,
    lo: int,
    hi: int,
)
    requires
        x.len() == y.len(),
        0 <= lo <= offset,
        length % 8 == 0,
        0 <= length,
        offset + length <= hi <= x.len(),
        forall|i: int| lo <= i < hi ==> x[i] == y[i],
    ensures
        forall|i: int|
            lo <= i < hi ==> #[trigger] map_blocks(p, s, enc, x, offset, length)[i] == map_blocks(
                p,
                s,
                enc,
                y,
                offset,
                length,
            )[i],
{
    assert forall|i: int| lo <= i < hi implies #[trigger] map_blocks(p, s, enc, x, offset, length)[i]
        == map_blocks(p, s, enc, y, offset, length)[i] by {
        if offset <= i < offset + length {
            let st = offset + ((i - offset) / 8) * 8;
            assert(offset <= st && st + 8 <= offset + length) by (nonlinear_arith)
                requires
                    st == offset + ((i - offset) / 8) * 8,
                    offset <= i < offset + length,
                    length % 8 == 0,
            ;
            assert(x[st] == y[st] && x[st + 1] == y[st + 1] && x[st + 2] == y[st + 2] && x[st + 3]
                == y[st + 3]);
            assert(x[st + 4] == y[st + 4] && x[st + 5] == y[st + 5] && x[st + 6] == y[st + 6] && x[
                st + 7] == y[st + 7]);
        }
    }
}

/// The cipher walk from `k` leaves the bytes before `k` alone, and what it
/// does from `k` on, error included, depends only on the bytes from `k` on.
proof fn lemma_walk_frame(p: Seq<u32>, s: Seq<u32>, enc: bool, x: Seq<u8>, y: Seq<u8>, k: int)
    requires
        0 <= k,
        x.len() == y.len(),
        forall|i: int| k <= i < x.len() ==> x[i] == y[i],
    ensures
        crypt_walk(p, s, enc, x, k).1 == crypt_walk(p, s, enc, y, k).1,
        crypt_walk(p, s, enc, x, k).0.len() == x.len(),
        forall|i: int| 0 <= i < k && i < x.len() ==> #[trigger] crypt_walk(p, s, enc, x, k).0[i] == x[i],
        forall|i: int|
            k <= i < x.len() ==> #[trigger] crypt_walk(p, s, enc, x, k).0[i] == crypt_walk(
                p,
                s,
                enc,
                y,
                k,
            ).0[i],
    decreases x.len() - k,
{
    if k >= x.len() || x.len() < k + SUBPACKET_SIZE {
    } else {
        assert(x[k] == y[k] && x[k + 1] == y[k + 1]);
        let sz = u16_at(x, k) as int;
        if x.len() < k + sz || sz < SUBPACKET_SIZE || (sz - SUBPACKET_SIZE) % 8 != 0 {
        } else {
            let x2 = map_blocks(p, s, enc, x, k + SUBPACKET_SIZE, sz - SUBPACKET_SIZE);
            let y2 = map_blocks(p, s, enc, y, k + SUBPACKET_SIZE, sz - SUBPACKET_SIZE);
            lemma_map_blocks_agree(p, s, enc, x, y, k + SUBPACKET_SIZE, sz - SUBPACKET_SIZE, k, x.len() as int);
            assert forall|i: int| k <= i < x.len() implies x2[i] == y2[i] by {
                if i < k + SUBPACKET_SIZE {
                } else {
                    assert(map_blocks(p, s, enc, x, k + SUBPACKET_SIZE, sz - SUBPACKET_SIZE)[i]
                        == map_blocks(p, s, enc, y, k + SUBPACKET_SIZE, sz - SUBPACKET_SIZE)[i]);
                }
            }
            lemma_walk_frame(p, s, enc, x2, y2, k + sz);
            lemma_walk_frame(p, s, enc, x2, x2, k + sz);
            assert forall|i: int| 0 <= i < k && i < x.len() implies #[trigger] crypt_walk(
                p,
                s,
                enc,
                x,
                k,
            ).0[i] == x[i] by {
                assert(crypt_walk(p, s, enc, x2, k + sz).0[i] == x2[i]);
            }
            assert forall|i: int| k <= i < x.len() implies #[trigger] crypt_walk(
                p,
                s,
                enc,
                x,
                k,
            ).0[i] == crypt_walk(p, s, enc, y, k).0[i] by {
                if i < k + sz {
                    lemma_walk_frame(p, s, enc, y2, y2, k + sz);
                    assert(crypt_walk(p, s, enc, x2, k + sz).0[i] == x2[i]);
                    assert(crypt_walk(p, s, enc, y2, k + sz).0[i] == y2[i]);
                    assert(x2[i] == y2[i]);
                }
            }
        }
    }
}

/// Deciphering what the cipher walk enciphered from `k` without error
/// gives the bytes back, and the deciphering walk meets no error either.
pub proof fn lemma_crypt_walk_roundtrip(p: Seq<u32>, s: Seq<u32>, data: Seq<u8>, k: int)
    requires
        p.len() == 18,
        0 <= k,
        crypt_walk(p, s, true, data, k).1 is None,
    ensures
        crypt_walk(p, s, false, crypt_walk(p, s, true, data, k).0, k) == (data, None::<PacketError>),
    decreases data.len() - k,
{
    if k >= data.len() || data.len() < k + SUBPACKET_SIZE {
    } else {
        let sz = u16_at(data, k) as int;
        if data.len() < k + sz || sz < SUBPACKET_SIZE || (sz - SUBPACKET_SIZE) % 8 != 0 {
        } else {
            let body = k + SUBPACKET_SIZE;
            let blen = sz - SUBPACKET_SIZE;
            let k2 = k + sz;
            let m = map_blocks(p, s, true, data, body, blen);
            let e = crypt_walk(p, s, true, m, k2).0;
            lemma_walk_frame(p, s, true, m, data, k2);
            lemma_walk_frame(p, s, true, data, data, k2);
            lemma_crypt_walk_roundtrip(p, s, data, k2);
            let f = crypt_walk(p, s, true, data, k2).0;
            assert(e[k] == data[k] && e[k + 1] == data[k + 1]);
            assert(u16_at(e, k) == u16_at(data, k));
            let d = map_blocks(p, s, false, e, body, blen);
            lemma_map_blocks_agree(p, s, false, e, m, body, blen, 0, k2);
            lemma_decipher_bytes_inverts(p, s, data, body, blen);
            assert(decipher_bytes(p, s, encipher_bytes(p, s, data, body, blen), body, blen) == data);
            assert forall|i: int| 0 <= i < d.len() implies d[i] == f[i] by {
                if i < k2 {
                    assert(map_blocks(p, s, false, e, body, blen)[i] == map_blocks(p, s, false, m, body, blen)[i]);
                    assert(f[i] == data[i]);
                } else {
                    assert(d[i] == e[i]);
                }
            }
            assert(d =~= f);
        }
    }
}

/// Whether the cipher walk from `k` stays in bounds depends only on the
/// bytes from `k` on.
proof fn lemma_in_bounds_frame(p: Seq<u32>, s: Seq<u32>, enc: bool, x: Seq<u8>, y: Seq<u8>, k: int)
    requires
        0 <= k,
        x.len() == y.len(),
        forall|i: int| k <= i < x.len() ==> x[i] == y[i],
    ensures
        crypt_walk_in_bounds(p, s, enc, x, k) == crypt_walk_in_bounds(p, s, enc, y, k),
    decreases x.len() - k,
{
    if k >= x.len() || x.len() < k + SUBPACKET_SIZE {
    } else {
        assert(x[k] == y[k] && x[k + 1] == y[k + 1]);
        let sz = u16_at(x, k) as int;
        if x.len() < k + sz || sz < SUBPACKET_SIZE || (sz - SUBPACKET_SIZE) % 8 != 0 {
        } else {
            let x2 = map_blocks(p, s, enc, x, k + SUBPACKET_SIZE, sz - SUBPACKET_SIZE);
            let y2 = map_blocks(p, s, enc, y, k + SUBPACKET_SIZE, sz - SUBPACKET_SIZE);
            lemma_map_blocks_agree(p, s, enc, x, y, k + SUBPACKET_SIZE, sz - SUBPACKET_SIZE, k, x.len() as int);
            assert forall|i: int| k + sz <= i < x.len() implies x2[i] == y2[i] by {
                assert(map_blocks(p, s, enc, x, k + SUBPACKET_SIZE, sz - SUBPACKET_SIZE)[i]
                    == map_blocks(p, s, enc, y, k + SUBPACKET_SIZE, sz - SUBPACKET_SIZE)[i]);
            }
            lemma_in_bounds_frame(p, s, enc, x2, y2, k + sz);
        }
    }
}

/// After a cipher walk that stayed in bounds, the walk the other way over
/// its result stays in bounds too: the walk changes only bodies, never the
/// subpacket headers it steps by.
pub proof fn lemma_walk_keeps_in_bounds(p: Seq<u32>, s: Seq<u32>, enc: bool, data: Seq<u8>, k: int)
    requires
        0 <= k,
        crypt_walk_in_bounds(p, s, enc, data, k),
    ensures
        crypt_walk_in_bounds(p, s, !enc, crypt_walk(p, s, enc, data, k).0, k),
    decreases data.len() - k,
{
    if k >= data.len() || data.len() < k + SUBPACKET_SIZE {
    } else {
        let sz = u16_at(data, k) as int;
        if data.len() < k + sz || sz < SUBPACKET_SIZE || (sz - SUBPACKET_SIZE) % 8 != 0 {
        } else {
            let body = k + SUBPACKET_SIZE;
            let blen = sz - SUBPACKET_SIZE;
            let k2 = k + sz;
            let m = map_blocks(p, s, enc, data, body, blen);
            let e = crypt_walk(p, s, enc, m, k2).0;
            lemma_walk_keeps_in_bounds(p, s, enc, m, k2);
            lemma_walk_frame(p, s, enc, m, m, k2);
            assert(e[k] == data[k] && e[k + 1] == data[k + 1]);
            assert(u16_at(e, k) == u16_at(data, k));
            let d = map_blocks(p, s, !enc, e, body, blen);
            assert forall|i: int| k2 <= i < e.len() implies d[i] == e[i] by {}
            lemma_in_bounds_frame(p, s, !enc, d, e, k2);
        }
    }
}

/// A walk that enciphers one well-formed subpacket and then meets a
/// subpacket whose body is not a whole number of blocks stops there with
/// that error, keeping the first body enciphered and every other byte as
/// it was: nothing done before the error is rolled back.
pub proof fn lemma_walk_stops_at_misaligned(p: Seq<u32>, s: Seq<u32>, enc: bool, data: Seq<u8>, k: int)
    requires
        0 <= k,
        k + SUBPACKET_SIZE <= data.len(),
        SUBPACKET_SIZE <= u16_at(data, k),
        k + u16_at(data, k) + SUBPACKET_SIZE <= data.len(),
        (u16_at(data, k) - SUBPACKET_SIZE) % 8 == 0,
        SUBPACKET_SIZE <= u16_at(data, k + u16_at(data, k)),
        k + u16_at(data, k) + u16_at(data, k + u16_at(data, k)) <= data.len(),
        (u16_at(data, k + u16_at(data, k)) - SUBPACKET_SIZE) % 8 != 0,
    ensures
        crypt_walk(p, s, enc, data, k) == (
            map_blocks(p, s, enc, data, k + SUBPACKET_SIZE, u16_at(data, k) - SUBPACKET_SIZE),
            Some(
                PacketError::BlowfishBlockMisaligned(
                    (u16_at(data, k + u16_at(data, k)) - SUBPACKET_SIZE) as usize,
                ),
            ),
        ),
{
    let a = k + u16_at(data, k);
    let m = map_blocks(p, s, enc, data, k + SUBPACKET_SIZE, u16_at(data, k) - SUBPACKET_SIZE);
    assert(m[a] == data[a] && m[a + 1] == data[a + 1]);
    assert(u16_at(m, a) == u16_at(data, a));
    assert(m.len() == data.len());
    reveal_with_fuel(crypt_walk, 2);
    assert(crypt_walk(p, s, enc, m, a) == (
        m,
        Some(PacketError::BlowfishBlockMisaligned((u16_at(m, a) - SUBPACKET_SIZE) as usize)),
    ));
}

/// Deciphering a packet body that was enciphered without error gives the
/// body back, and the deciphering meets no error: what
/// [`BasePacket::encrypt`] then [`BasePacket::decrypt`] do under one key.
pub proof fn lemma_encrypt_then_decrypt(p: Seq<u32>, s: Seq<u32>, data: Seq<u8>)
    requires
        p.len() == 18,
        crypt_walk(p, s, true, data, 0).1 is None,
    ensures
        crypt_walk(p, s, false, crypt_walk(p, s, true, data, 0).0, 0) == (data, None::<PacketError>),
{
    lemma_crypt_walk_roundtrip(p, s, data, 0);
}

/// No subpacket reached by the cipher walk declares a size below 16.
pub open spec fn crypt_walk_in_bounds(p: Seq<u32>, s: Seq<u32>, enc: bool, data: Seq<u8>, off: int) -> bool
    decreases data.len() - off,
{
    if off >= data.len() || data.len() < off + SUBPACKET_SIZE || data.len() < off + u16_at(data, off) {
        true
    } else if u16_at(data, off) < SUBPACKET_SIZE {
        false
    } else if (u16_at(data, off) - SUBPACKET_SIZE) % 8 != 0 {
        true
    } else {
        crypt_walk_in_bounds(
            p,
            s,
            enc,
            map_blocks(p, s, enc, data, off + SUBPACKET_SIZE, u16_at(data, off) - SUBPACKET_SIZE),
            off + u16_at(data, off),
        )
    }
}

pub proof fn lemma_base_header_roundtrip(bytes: Seq<u8>, i: int, h: BasePacketHeader)
    requires
        0 <= i,
        i + 16 <= bytes.len(),
        bytes.subrange(i, i + 16) == base_header_bytes(h),
    ensures
        base_header_at(bytes, i) == h,
{
    let w = base_header_bytes(h);
    assert forall|k: int| 0 <= k < 16 implies bytes[i + k] == w[k] by {
        assert(bytes.subrange(i, i + 16)[k] == bytes[i + k]);
    }
    let p2 = seq![h.is_authenticated, h.is_compressed];
    let p3 = p2 + u16_le(h.connection_type);
    let p4 = p3 + u16_le(h.packet_size);
    let p5 = p4 + u16_le(h.num_subpackets);
    let p6 = p5 + u64_le(h.timestamp);
    assert(w == p6);
    assert(bytes[i] == h.is_authenticated && bytes[i + 1] == h.is_compressed) by {
        assert(bytes[i + 0] == w[0]);
        assert(bytes[i + 1] == w[1]);
    }
    lemma_u16_le_roundtrip(h.connection_type);
    lemma_u16_le_roundtrip(h.packet_size);
    lemma_u16_le_roundtrip(h.num_subpackets);
    lemma_u64_le_roundtrip(h.timestamp);
    assert(bytes[i + 2] == w[2] && bytes[i + 3] == w[3] && bytes[i + 4] == w[4] && bytes[i + 5]
        == w[5] && bytes[i + 6] == w[6] && bytes[i + 7] == w[7]);
    assert(u16_at(bytes, i + 2) == u16_at(u16_le(h.connection_type), 0));
    assert(u16_at(bytes, i + 4) == u16_at(u16_le(h.packet_size), 0));
    assert(u16_at(bytes, i + 6) == u16_at(u16_le(h.num_subpackets), 0));
    let t = u64_le(h.timestamp);
    assert forall|k: int| 0 <= k < 8 implies bytes[i + 8 + k] == t[k] by {
        assert(bytes[i + (8 + k)] == w[8 + k]);
    }
    assert(word_at(bytes, i + 8) == word_at(t, 0));
    assert(word_at(bytes, i + 12) == word_at(t, 4)) by {
        assert(bytes[i + 12] == t[4] && bytes[i + 13] == t[5] && bytes[i + 14] == t[6] && bytes[i
            + 15] == t[7]);
    }
}

fn read_base_header_at(bytes: &[u8], off: usize) -> (h: BasePacketHeader)
    requires
        off + 16 <= bytes@.len(),
    ensures
        h == base_header_at(bytes@, off as int),
{
    let _n = bytes.len();
    BasePacketHeader {
        is_authenticated: bytes[off],
        is_compressed: bytes[off + 1],
        connection_type: read_u16_le(bytes, off + 2),
        packet_size: read_u16_le(bytes, off + 4),
        num_subpackets: read_u16_le(bytes, off + 6),
        timestamp: read_u64_le(bytes, off + 8),
    }
}

impl BasePacketHeader {
    /// Reads a header from the first 16 bytes of `buf`.
    pub fn read(buf: &[u8]) -> (r: Result<Self, PacketError>)
        ensures
            buf@.len() < BASEPACKET_SIZE ==> r == Err::<Self, PacketError>(
                PacketError::TooSmall { needed: BASEPACKET_SIZE, have: buf@.len() as usize },
            ),
            buf@.len() >= BASEPACKET_SIZE ==> r == Ok::<Self, PacketError>(base_header_at(buf@, 0)),
    {
        if buf.len() < BASEPACKET_SIZE {
            return Err(PacketError::TooSmall { needed: BASEPACKET_SIZE, have: buf.len() });
        }
        Ok(read_base_header_at(buf, 0))
    }

    /// The 16-byte wire image of the header.
    pub fn to_wire(&self) -> (out: Vec<u8>)
        ensures
            out@ == base_header_bytes(*self),
    {
        let mut out: Vec<u8> = Vec::new();
        out.push(self.is_authenticated);
        out.push(self.is_compressed);
        push_u16_le(&mut out, self.connection_type);
        push_u16_le(&mut out, self.packet_size);
        push_u16_le(&mut out, self.num_subpackets);
        push_u64_le(&mut out, self.timestamp);
        assert(out@ =~= base_header_bytes(*self));
        out
    }

    /// Writes the header's wire image into `out`.
    pub fn write(&self, out: &mut [u8; 16])
        ensures
            final(out)@ == base_header_bytes(*self),
    {
        let w = self.to_wire();
        let mut i: usize = 0;
        while i < 16
            invariant
                w@ == base_header_bytes(*self),
                w@.len() == 16,
                i <= 16,
                forall|k: int| 0 <= k < i ==> out@[k] == w@[k],
            decreases 16 - i,
        {
            out[i] = w[i];
            i = i + 1;
        }
        assert(out@ =~= w@);
    }
}

pub struct BasePacket {
    pub header: BasePacketHeader,
    pub data: Vec<u8>,
}

impl View for BasePacket {
    type V = BasePacketView;

    open spec fn view(&self) -> BasePacketView {
        (self.header, self.data@)
    }
}

/// Wire image of a base packet: its header, its body, then zeros up to the
/// declared packet size.
pub open spec fn base_packet_bytes(v: BasePacketView) -> Seq<u8> {
    base_header_bytes(v.0) + v.1 + Seq::new((v.0.packet_size - BASEPACKET_SIZE - v.1.len()) as nat, |i: int| 0u8)
}

impl BasePacket {
    /// Reads the base packet at the start of `bytes`.
    pub fn from_bytes(bytes: &[u8]) -> (r: Result<BasePacket, PacketError>)
        requires
            !frame_overruns(bytes@, 0),
        ensures
            match frame_fault(bytes@, 0) {
                Some(e) => r matches Err(e2) && e2 == e,
                None => r matches Ok(pk) && pk@ == framed_at(bytes@, 0),
            },
    {
        if bytes.len() < BASEPACKET_SIZE {
            return Err(PacketError::TooSmall { needed: BASEPACKET_SIZE, have: bytes.len() });
        }
        let header = read_base_header_at(bytes, 0);
        if bytes.len() < header.packet_size as usize {
            return Err(
                PacketError::SizeMismatch { declared: header.packet_size as usize, available: bytes.len() },
            );
        }
        let data = copy_range(bytes, BASEPACKET_SIZE, header.packet_size as usize);
        Ok(BasePacket { header, data })
    }

    /// Reads the base packet at `*offset` of a framing buffer and advances
    /// `*offset` past it; on an error `*offset` is unchanged.
    pub fn from_buffer(bytes: &[u8], offset: &mut usize) -> (r: Result<BasePacket, PacketError>)
        requires
            *old(offset) + 0x1_0010 <= usize::MAX,
            !frame_overruns(bytes@, *old(offset) as int),
        ensures
            match frame_fault(bytes@, *old(offset) as int) {
                Some(e) => r matches Err(e2) && e2 == e && *final(offset) == *old(offset),
                None => r matches Ok(pk) && pk@ == framed_at(bytes@, *old(offset) as int)
                    && *final(offset) == *old(offset) + base_header_at(bytes@, *old(offset) as int).packet_size,
            },
    {
        let off = *offset;
        if bytes.len() < off + BASEPACKET_SIZE {
            return Err(PacketError::TooSmall { needed: off + BASEPACKET_SIZE, have: bytes.len() });
        }
        let header = read_base_header_at(bytes, off);
        if bytes.len() < off + header.packet_size as usize {
            return Err(
                PacketError::SizeMismatch {
                    declared: header.packet_size as usize,
                    available: bytes.len() - off,
                },
            );
        }
        let packet_end = off + header.packet_size as usize;
        let data = copy_range(bytes, off + BASEPACKET_SIZE, packet_end);
        *offset = packet_end;
        Ok(BasePacket { header, data })
    }

    /// Reads just the header at the start of `bytes`.
    pub fn peek_header(bytes: &[u8]) -> (r: Result<BasePacketHeader, PacketError>)
        ensures
            bytes@.len() < BASEPACKET_SIZE ==> r == Err::<BasePacketHeader, PacketError>(
                PacketError::TooSmall { needed: BASEPACKET_SIZE, have: bytes@.len() as usize },
            ),
            bytes@.len() >= BASEPACKET_SIZE ==> r == Ok::<BasePacketHeader, PacketError>(base_header_at(bytes@, 0)),
    {
        BasePacketHeader::read(bytes)
    }

    /// Like [`BasePacket::from_buffer`], but `None` when the buffer (of
    /// which `bytes_read` bytes are filled) does not yet hold the whole packet
    /// as its first two bytes size it, or when reading fails.
    pub fn try_from_buffer(buffer: &[u8], offset: &mut usize, bytes_read: usize) -> (r: Option<BasePacket>)
        requires
            *old(offset) + 0x1_0010 <= usize::MAX,
            !frame_overruns(buffer@, *old(offset) as int),
        ensures
            ({
                let off = *old(offset) as int;
                let ready = bytes_read > off && buffer@.len() >= off + 2 && bytes_read >= off
                    + u16_at(buffer@, off) && buffer@.len() >= off + u16_at(buffer@, off);
                &&& !ready ==> r is None && *final(offset) == *old(offset)
                &&& ready && frame_fault(buffer@, off) is Some ==> r is None && *final(offset) == *old(offset)
                &&& ready && frame_fault(buffer@, off) is None ==> (r matches Some(pk) && pk@ == framed_at(buffer@, off)
                    && *final(offset) == off + base_header_at(buffer@, off).packet_size)
            }),
    {
        let off = *offset;
        if bytes_read <= off || buffer.len() < off + 2 {
            return None;
        }
        let size = read_u16_le(buffer, off) as usize;
        if bytes_read < off + size || buffer.len() < off + size {
            return None;
        }
        match BasePacket::from_buffer(buffer, offset) {
            Ok(pk) => Some(pk),
            Err(_) => None,
        }
    }

    /// The header's 16-byte wire image.
    pub fn header_bytes(&self) -> (out: [u8; 16])
        ensures
            out@ == base_header_bytes(self.header),
    {
        let mut out = [0u8; 16];
        self.header.write(&mut out);
        out
    }

    /// The wire image: header, body, then zeros up to the declared size.
    pub fn to_bytes(&self) -> (out: Vec<u8>)
        requires
            BASEPACKET_SIZE + self.data@.len() <= self.header.packet_size,
        ensures
            out@ == base_packet_bytes(self@),
            out@.len() == self.header.packet_size,
    {
        let total = self.header.packet_size as usize;
        let mut out = self.header.to_wire();
        append_bytes(&mut out, self.data.as_slice());
        let ghost filled = out@;
        while out.len() < total
            invariant
                filled.len() <= out@.len() <= total,
                out@ == filled + Seq::new((out@.len() - filled.len()) as nat, |i: int| 0u8),
            decreases total - out@.len(),
        {
            out.push(0u8);
            assert(out@ =~= filled + Seq::new((out@.len() - filled.len()) as nat, |i: int| 0u8));
        }
        assert(out@ =~= base_packet_bytes(self@));
        out
    }

    /// Splits the body into its subpackets, stopping at the first framing
    /// error.
    pub fn get_subpackets(&self) -> (r: Result<Vec<SubPacket>, PacketError>)
        requires
            self.data@.len() + 0x1_0020 <= usize::MAX,
            subpackets_in_bounds(self.data@, 0),
        ensures
            match subpackets_from(self.data@, 0) {
                Ok(views) => r matches Ok(subs) && subpacket_views(subs@) == views,
                Err(e) => r matches Err(e2) && e2 == e,
            },
    {
        let mut subs: Vec<SubPacket> = Vec::new();
        let mut offset: usize = 0;
        while offset < self.data.len()
            invariant
                self.data@.len() + 0x1_0020 <= usize::MAX,
                offset <= self.data@.len(),
                subpackets_in_bounds(self.data@, offset as int),
                subpackets_from(self.data@, 0) == match subpackets_from(self.data@, offset as int) {
                    Ok(rest) => Ok(subpacket_views(subs@) + rest),
                    Err(e) => Err::<Seq<SubPacketView>, PacketError>(e),
                },
            decreases self.data@.len() - offset,
        {
            let ghost off = offset as int;
            let ghost d = self.data@;
            match SubPacket::parse(self.data.as_slice(), &mut offset) {
                Ok(sp) => {
                    proof {
                        assert(subpackets_from(d, off) == match subpackets_from(d, offset as int) {
                            Ok(rest) => Ok(seq![parsed_at(d, off)] + rest),
                            Err(e) => Err::<Seq<SubPacketView>, PacketError>(e),
                        });
                    }
                    let ghost prev = subs@;
                    subs.push(sp);
                    proof {
                        assert(subpacket_views(subs@) =~= subpacket_views(prev) + seq![parsed_at(d, off)]);
                        match subpackets_from(d, offset as int) {
                            Ok(rest) => {
                                assert(subpacket_views(prev) + (seq![parsed_at(d, off)] + rest)
                                    =~= subpacket_views(subs@) + rest);
                            },
                            Err(e) => {},
                        }
                    }
                },
                Err(e) => {
                    return Err(e);
                },
            }
        }
        assert(subpacket_views(subs@) + Seq::<SubPacketView>::empty() =~= subpacket_views(subs@));
        Ok(subs)
    }
}

fn contains_word(needles: &[u32], w: u32) -> (r: bool)
    ensures
        r == has_word(needles@, w),
{
    let mut i: usize = 0;
    while i < needles.len()
        invariant
            i <= needles@.len(),
            forall|k: int| 0 <= k < i ==> needles@[k] != w,
        decreases needles@.len() - i,
    {
        if needles[i] == w {
            return true;
        }
        i = i + 1;
    }
    false
}

/// The sniffed default actor ids that captured packets carry.
pub const ORIGINAL_IDS: [u32; 8] = [
    0x029B2941, 0x02977DC7, 0x0297D2C8, 0x0230d573, 0x23317df, 0x23344a3, 0x1730bdb, 0x6c,
];

impl BasePacket {
    /// Replaces every aligned 4-byte word of the body, the last one included,
    /// that equals one of the sniffed default actor ids with `actor_id` (see [`replaced_words`]).
    pub fn replace_actor_id(&mut self, actor_id: u32)
        ensures
            final(self).header == old(self).header,
            final(self).data@ == replaced_words(old(self).data@, original_actor_ids(), actor_id),
    {
        let ids = ORIGINAL_IDS;
        assert(ids@ =~= original_actor_ids());
        self.replace_matching_ids(ids.as_slice(), actor_id);
    }

    /// Replaces every aligned 4-byte word of the body, the last one included,
    /// that equals `from_actor_id` with `actor_id`.
    pub fn replace_actor_id_from(&mut self, from_actor_id: u32, actor_id: u32)
        ensures
            final(self).header == old(self).header,
            final(self).data@ == replaced_words(old(self).data@, seq![from_actor_id], actor_id),
    {
        let needles = [from_actor_id];
        assert(needles@ =~= seq![from_actor_id]);
        self.replace_matching_ids(needles.as_slice(), actor_id);
    }

    fn replace_matching_ids(&mut self, needles: &[u32], replacement: u32)
        ensures
            final(self).header == old(self).header,
            final(self).data@ == replaced_words(old(self).data@, needles@, replacement),
    {
        let ghost orig = self.data@;
        let data_len = self.data.len();
        if data_len < 4 {
            assert(self.data@ =~= replaced_words(orig, needles@, replacement));
            return;
        }
        let mut pos: usize = 0;
        let ghost hdr = self.header;
        while pos <= data_len - 4
            invariant
                self.header == hdr,
                data_len == orig.len(),
                data_len >= 4,
                self.data@.len() == data_len,
                pos % 4 == 0,
                pos <= data_len,
                forall|i: int| 0 <= i < pos ==> self.data@[i] == replaced_words(orig, needles@, replacement)[i],
                forall|i: int| pos <= i < data_len ==> self.data@[i] == orig[i],
            decreases data_len - pos,
        {
            let val = read_word(&self.data, pos);
            assert(val == word_at(orig, pos as int));
            if contains_word(needles, val) {
                let ghost before = self.data@;
                write_word(&mut self.data, pos, replacement);
                proof {
                    assert forall|i: int| pos <= i < pos + 4 implies self.data@[i] == replaced_words(
                        orig,
                        needles@,
                        replacement,
                    )[i] by {
                        assert((i / 4) * 4 == pos) by (nonlinear_arith)
                            requires
                                pos <= i < pos + 4,
                                pos % 4 == 0,
                        ;
                        assert(self.data@[pos + (i - pos)] == le_byte(replacement, i - pos));
                    }
                }
            } else {
                proof {
                    assert forall|i: int| pos <= i < pos + 4 implies self.data@[i] == replaced_words(
                        orig,
                        needles@,
                        replacement,
                    )[i] by {
                        assert((i / 4) * 4 == pos) by (nonlinear_arith)
                            requires
                                pos <= i < pos + 4,
                                pos % 4 == 0,
                        ;
                    }
                }
            }
            pos = pos + 4;
        }
        proof {
            assert forall|i: int| pos <= i < data_len implies self.data@[i] == replaced_words(
                orig,
                needles@,
                replacement,
            )[i] by {
                assert((i / 4) * 4 + 4 > data_len) by (nonlinear_arith)
                    requires
                        pos <= i < data_len,
                        pos % 4 == 0,
                        pos + 4 > data_len,
                ;
            }
        }
        assert(self.data@ =~= replaced_words(orig, needles@, replacement));
    }
}

/// `1` for `true`, `0` for `false`.
pub open spec fn flag_byte(b: bool) -> u8 {
    if b {
        1
    } else {
        0
    }
}

proof fn lemma_concat_len(subs: Seq<SubPacketView>, n: int)
    requires
        0 <= n <= subs.len(),
        forall|i: int| 0 <= i < subs.len() ==> fits_declared_size(#[trigger] subs[i]),
    ensures
        concat_subpackets(subs, n).len() == sum_sizes(subs, n),
        sum_sizes(subs, n) <= 0x1_0000 * n,
    decreases n,
{
    if n > 0 {
        lemma_concat_len(subs, n - 1);
        assert(fits_declared_size(subs[n - 1]));
    }
}

/// The 16-bit packet size of a body of `len` bytes plus the header
/// (wrapping modulo 2^16).
fn size_with_header(len: usize) -> (r: u16)
    ensures
        r == (BASEPACKET_SIZE + len) % 0x1_0000,
{
    let low = (len % 0x1_0000) as u16;
    proof {
        vstd::arithmetic::div_mod::lemma_add_mod_noop(len as int, 16, 0x1_0000);
    }
    low.wrapping_add(16)
}

/// The body a packet carries for `body`: its zlib stream when compression
/// is asked for (`None` when the encoder fails), else `body` itself.
pub open spec fn packed_body(body: Seq<u8>, is_compressed: bool) -> Option<Seq<u8>> {
    if is_compressed {
        zlib_compressed(body)
    } else {
        Some(body)
    }
}

impl BasePacket {
    /// Packs subpackets into one base packet, compressing the body when asked.
    /// The timestamp is the current time in milliseconds.
    pub fn create_from_subpackets(subpackets: &[SubPacket], is_authed: bool, is_compressed: bool) -> (r: Result<BasePacket, PacketError>)
        requires
            forall|i: int| 0 <= i < subpackets@.len() ==> fits_declared_size(#[trigger] subpackets@[i]@),
            0x1_0000 * subpackets@.len() + BASEPACKET_SIZE <= usize::MAX,
        ensures
            !is_compressed ==> r is Ok,
            r is Ok <==> packed_body(
                concat_subpackets(subpacket_views(subpackets@), subpackets@.len() as int),
                is_compressed,
            ) is Some,
            r is Err ==> (r matches Err(e) && e is Io),
            r matches Ok(pk) ==> {
                let body = concat_subpackets(subpacket_views(subpackets@), subpackets@.len() as int);
                &&& pk.header.is_authenticated == flag_byte(is_authed)
                &&& pk.header.is_compressed == flag_byte(is_compressed)
                &&& pk.header.connection_type == 0
                &&& pk.header.num_subpackets == subpackets@.len() as u16
                &&& Some(pk.data@) == packed_body(body, is_compressed)
                &&& pk.header.packet_size == ((BASEPACKET_SIZE + pk.data@.len()) % 0x1_0000) as u16
            },
    {
        let ghost views = subpacket_views(subpackets@);
        let mut data: Vec<u8> = Vec::new();
        let mut i: usize = 0;
        while i < subpackets.len()
            invariant
                i <= subpackets@.len(),
                views == subpacket_views(subpackets@),
                forall|k: int| 0 <= k < subpackets@.len() ==> fits_declared_size(#[trigger] subpackets@[k]@),
                data@ == concat_subpackets(views, i as int),
            decreases subpackets@.len() - i,
        {
            assert(fits_declared_size(subpackets@[i as int]@));
            let bytes = subpackets[i].to_bytes();
            append_bytes(&mut data, bytes.as_slice());
            i = i + 1;
        }
        proof {
            assert forall|k: int| 0 <= k < views.len() implies fits_declared_size(#[trigger] views[k]) by {
                assert(views[k] == subpackets@[k]@);
            }
            lemma_concat_len(views, subpackets@.len() as int);
        }
        let body = if is_compressed {
            match zlib_compress(data.as_slice()) {
                Ok(c) => c,
                Err(e) => {
                    return Err(PacketError::Io(e));
                },
            }
        } else {
            data
        };
        let packet_size = size_with_header(body.len());
        let header = BasePacketHeader {
            is_authenticated: if is_authed { 1 } else { 0 },
            is_compressed: if is_compressed { 1 } else { 0 },
            connection_type: 0,
            packet_size,
            num_subpackets: subpackets.len() as u16,
            timestamp: millis_unix_timestamp(),
        };
        Ok(BasePacket { header, data: body })
    }

    /// Packs a single subpacket into a base packet (see
    /// [`BasePacket::create_from_subpackets`]).
    pub fn create_from_subpacket(subpacket: &SubPacket, is_authed: bool, is_compressed: bool) -> (r: Result<BasePacket, PacketError>)
        requires
            fits_declared_size(subpacket@),
        ensures
            !is_compressed ==> r is Ok,
            r is Ok <==> packed_body(subpacket_bytes(subpacket@), is_compressed) is Some,
            r is Err ==> (r matches Err(e) && e is Io),
            r matches Ok(pk) ==> {
                let body = subpacket_bytes(subpacket@);
                &&& pk.header.is_authenticated == flag_byte(is_authed)
                &&& pk.header.is_compressed == flag_byte(is_compressed)
                &&& pk.header.connection_type == 0
                &&& pk.header.num_subpackets == 1
                &&& Some(pk.data@) == packed_body(body, is_compressed)
                &&& pk.header.packet_size == ((BASEPACKET_SIZE + pk.data@.len()) % 0x1_0000) as u16
            },
    {
        let copy = SubPacket::with_target(subpacket, subpacket.header.target_id);
        assert(copy@ == subpacket@);
        let mut v: Vec<SubPacket> = Vec::new();
        v.push(copy);
        proof {
            let views = subpacket_views(v@);
            assert(views[0] == subpacket@);
            assert(concat_subpackets(views, 0) == Seq::<u8>::empty());
            assert(concat_subpackets(views, 1) =~= subpacket_bytes(subpacket@));
        }
        BasePacket::create_from_subpackets(v.as_slice(), is_authed, is_compressed)
    }

    /// A base packet holding `data` as its body (compressed when asked),
    /// declared to carry one subpacket.
    pub fn create_from_data(data: &[u8], is_authed: bool, is_compressed: bool) -> (r: Result<BasePacket, PacketError>)
        ensures
            !is_compressed ==> r is Ok,
            r is Ok <==> packed_body(data@, is_compressed) is Some,
            r is Err ==> (r matches Err(e) && e is Io),
            r matches Ok(pk) ==> {
                &&& pk.header.is_authenticated == flag_byte(is_authed)
                &&& pk.header.is_compressed == flag_byte(is_compressed)
                &&& pk.header.connection_type == 0
                &&& pk.header.num_subpackets == 1
                &&& Some(pk.data@) == packed_body(data@, is_compressed)
                &&& pk.header.packet_size == ((BASEPACKET_SIZE + pk.data@.len()) % 0x1_0000) as u16
            },
    {
        let body = if is_compressed {
            match zlib_compress(data) {
                Ok(c) => c,
                Err(e) => {
                    return Err(PacketError::Io(e));
                },
            }
        } else {
            copy_range(data, 0, data.len())
        };
        assert(data@.subrange(0, data@.len() as int) =~= data@);
        let header = BasePacketHeader {
            is_authenticated: if is_authed { 1 } else { 0 },
            is_compressed: if is_compressed { 1 } else { 0 },
            connection_type: 0,
            packet_size: size_with_header(body.len()),
            num_subpackets: 1,
            timestamp: millis_unix_timestamp(),
        };
        Ok(BasePacket { header, data: body })
    }

    /// Replaces the body by its zlib decompression, clearing the compressed
    /// flag and resizing the header; on an error nothing changes.
    pub fn decompress(&mut self) -> (r: Result<(), PacketError>)
        ensures
            match zlib_decompressed(old(self).data@) {
                Some(out) => r is Ok && final(self).data@ == out && final(self).header == (BasePacketHeader {
                    is_compressed: 0,
                    packet_size: ((BASEPACKET_SIZE + out.len()) % 0x1_0000) as u16,
                    ..old(self).header
                }),
                None => (r matches Err(e) && e is Io) && final(self)@ == old(self)@,
            },
    {
        match zlib_decompress(self.data.as_slice()) {
            Ok(out) => {
                self.data = out;
                self.header.is_compressed = 0;
                self.header.packet_size = size_with_header(self.data.len());
                Ok(())
            },
            Err(e) => Err(PacketError::Io(e)),
        }
    }

    /// A new packet whose body is this body compressed, built as by
    /// [`BasePacket::create_from_data`] with compression requested — so the
    /// already-compressed body is compressed a second time.
    pub fn compress(&self) -> (r: Result<BasePacket, PacketError>)
        ensures
            r is Ok <==> (zlib_compressed(self.data@) matches Some(c) && zlib_compressed(c) is Some),
            r is Err ==> (r matches Err(e) && e is Io),
            r matches Ok(pk) ==> {
                &&& pk.header.is_authenticated == flag_byte(self.header.is_authenticated == 1)
                &&& pk.header.is_compressed == 1
                &&& pk.header.connection_type == 0
                &&& pk.header.num_subpackets == 1
                &&& zlib_compressed(self.data@) matches Some(c) && zlib_compressed(c) == Some(pk.data@)
                &&& pk.header.packet_size == ((BASEPACKET_SIZE + pk.data@.len()) % 0x1_0000) as u16
            },
    {
        let compressed = match zlib_compress(self.data.as_slice()) {
            Ok(c) => c,
            Err(e) => {
                return Err(PacketError::Io(e));
            },
        };
        BasePacket::create_from_data(compressed.as_slice(), self.header.is_authenticated == 1, true)
    }
}

/// One step of the cipher walk at `offset`: the next offset, or the error
/// that stops the walk.
fn crypt_step(blowfish: &Blowfish, data: &mut Vec<u8>, offset: usize, enc: bool) -> (r: Result<usize, PacketError>)
    requires
        blowfish.wf(),
        old(data)@.len() + 0x1_0000 <= usize::MAX,
        offset < old(data)@.len(),
        crypt_walk_in_bounds(blowfish@.0, blowfish@.1, enc, old(data)@, offset as int),
    ensures
        final(data)@.len() == old(data)@.len(),
        match r {
            Ok(next) => offset < next <= old(data)@.len() && crypt_walk(blowfish@.0, blowfish@.1, enc, final(data)@, next as int)
                == crypt_walk(blowfish@.0, blowfish@.1, enc, old(data)@, offset as int)
                && crypt_walk_in_bounds(blowfish@.0, blowfish@.1, enc, final(data)@, next as int),
            Err(e) => crypt_walk(blowfish@.0, blowfish@.1, enc, old(data)@, offset as int) == (final(data)@, Some(e)),
        },
{
    if data.len() < offset + SUBPACKET_SIZE {
        return Err(PacketError::TooSmall { needed: offset + SUBPACKET_SIZE, have: data.len() });
    }
    let size = read_u16_le(data.as_slice(), offset) as usize;
    if data.len() < offset + size {
        return Err(PacketError::SizeMismatch { declared: size, available: data.len() - offset });
    }
    let res = if enc {
        blowfish.encipher(data, offset + SUBPACKET_SIZE, size - SUBPACKET_SIZE)
    } else {
        blowfish.decipher(data, offset + SUBPACKET_SIZE, size - SUBPACKET_SIZE)
    };
    match res {
        Ok(()) => Ok(offset + size),
        Err(e) => Err(e),
    }
}

impl BasePacket {
    fn crypt(&mut self, blowfish: &Blowfish, enc: bool) -> (r: Result<(), PacketError>)
        requires
            blowfish.wf(),
            old(self).data@.len() + 0x1_0000 <= usize::MAX,
            crypt_walk_in_bounds(blowfish@.0, blowfish@.1, enc, old(self).data@, 0),
        ensures
            final(self).header == old(self).header,
            ({
                let w = crypt_walk(blowfish@.0, blowfish@.1, enc, old(self).data@, 0);
                &&& final(self).data@ == w.0
                &&& match w.1 {
                    None => r is Ok,
                    Some(e) => r matches Err(e2) && e2 == e,
                }
            }),
    {
        let ghost target = crypt_walk(blowfish@.0, blowfish@.1, enc, self.data@, 0);
        let n = self.data.len();
        let mut offset: usize = 0;
        let mut result: Result<(), PacketError> = Ok(());
        while offset < n
            invariant_except_break
                result is Ok,
                self.data@.len() == n,
                offset <= n,
                crypt_walk_in_bounds(blowfish@.0, blowfish@.1, enc, self.data@, offset as int),
                crypt_walk(blowfish@.0, blowfish@.1, enc, self.data@, offset as int) == target,
            invariant
                blowfish.wf(),
                self.header == old(self).header,
                n + 0x1_0000 <= usize::MAX,
                target == crypt_walk(blowfish@.0, blowfish@.1, enc, old(self).data@, 0),
            ensures
                self.data@ == target.0,
                match target.1 {
                    None => result is Ok,
                    Some(e) => result matches Err(e2) && e2 == e,
                },
            decreases n - offset,
        {
            match crypt_step(blowfish, &mut self.data, offset, enc) {
                Ok(next) => {
                    offset = next;
                },
                Err(e) => {
                    result = Err(e);
                    break;
                },
            }
        }
        result
    }

    /// Enciphers every subpacket body in place, walking the body by the
    /// declared subpacket sizes; stops at the first error, leaving the
    /// subpackets already done enciphered.
    pub fn encrypt(&mut self, blowfish: &Blowfish) -> (r: Result<(), PacketError>)
        requires
            blowfish.wf(),
            old(self).data@.len() + 0x1_0000 <= usize::MAX,
            crypt_walk_in_bounds(blowfish@.0, blowfish@.1, true, old(self).data@, 0),
        ensures
            final(self).header == old(self).header,
            crypt_walk_in_bounds(blowfish@.0, blowfish@.1, false, final(self).data@, 0),
            ({
                let w = crypt_walk(blowfish@.0, blowfish@.1, true, old(self).data@, 0);
                &&& final(self).data@ == w.0
                &&& match w.1 {
                    None => r is Ok,
                    Some(e) => r matches Err(e2) && e2 == e,
                }
            }),
    {
        let ghost before = self.data@;
        let r = self.crypt(blowfish, true);
        proof {
            lemma_walk_keeps_in_bounds(blowfish@.0, blowfish@.1, true, before, 0);
        }
        r
    }

    /// Deciphers every subpacket body in place (see [`BasePacket::encrypt`]).
    pub fn decrypt(&mut self, blowfish: &Blowfish) -> (r: Result<(), PacketError>)
        requires
            blowfish.wf(),
            old(self).data@.len() + 0x1_0000 <= usize::MAX,
            crypt_walk_in_bounds(blowfish@.0, blowfish@.1, false, old(self).data@, 0),
        ensures
            final(self).header == old(self).header,
            crypt_walk_in_bounds(blowfish@.0, blowfish@.1, true, final(self).data@, 0),
            ({
                let w = crypt_walk(blowfish@.0, blowfish@.1, false, old(self).data@, 0);
                &&& final(self).data@ == w.0
                &&& match w.1 {
                    None => r is Ok,
                    Some(e) => r matches Err(e2) && e2 == e,
                }
            }),
    {
        let ghost before = self.data@;
        let r = self.crypt(blowfish, false);
        proof {
            lemma_walk_keeps_in_bounds(blowfish@.0, blowfish@.1, false, before, 0);
        }
        r
    }
}

/// Whether walking `data` from `off` by the declared subpacket sizes meets
/// a size below 16 before the walk ends; the cipher leaves every header it
/// passes unchanged, so the sizes read are those of `data` itself.
pub open spec fn walk_meets_short_size(data: Seq<u8>, off: int) -> bool
    decreases data.len() - off,
{
    if off < 0 || off >= data.len() || data.len() < off + SUBPACKET_SIZE || data.len() < off + u16_at(
        data,
        off,
    ) {
        false
    } else if u16_at(data, off) < SUBPACKET_SIZE {
        true
    } else if (u16_at(data, off) - SUBPACKET_SIZE) % 8 != 0 {
        false
    } else {
        walk_meets_short_size(data, off + u16_at(data, off))
    }
}

proof fn lemma_walk_sizes_decide(p: Seq<u32>, s: Seq<u32>, enc: bool, data: Seq<u8>, plain: Seq<u8>, off: int)
    requires
        0 <= off,
        data.len() == plain.len(),
        forall|i: int| off <= i < data.len() ==> data[i] == plain[i],
    ensures
        crypt_walk_in_bounds(p, s, enc, data, off) == !walk_meets_short_size(plain, off),
    decreases data.len() - off,
{
    if off >= data.len() || data.len() < off + SUBPACKET_SIZE {
    } else {
        assert(u16_at(data, off) == u16_at(plain, off));
        let size = u16_at(data, off);
        if data.len() < off + size || size < SUBPACKET_SIZE || (size - SUBPACKET_SIZE) % 8 != 0 {
        } else {
            let next = map_blocks(p, s, enc, data, off + SUBPACKET_SIZE, size - SUBPACKET_SIZE);
            assert forall|i: int| off + size <= i < next.len() implies next[i] == plain[i] by {}
            lemma_walk_sizes_decide(p, s, enc, next, plain, off + size);
        }
    }
}

/// Whether the cipher can walk `data` (see [`walk_meets_short_size`]):
/// when it cannot, enciphering or deciphering the body would meet a
/// subpacket shorter than its own header.
pub fn cipher_walk_sound(data: &[u8]) -> (r: bool)
    ensures
        r == !walk_meets_short_size(data@, 0),
        r ==> forall|p: Seq<u32>, s: Seq<u32>, enc: bool| #[trigger] crypt_walk_in_bounds(p, s, enc, data@, 0),
        !r ==> forall|p: Seq<u32>, s: Seq<u32>, enc: bool| !#[trigger] crypt_walk_in_bounds(p, s, enc, data@, 0),
{
    let n = data.len();
    let mut off: usize = 0;
    let mut sound: bool = true;
    let mut done: bool = false;
    while !done
        invariant
            n == data@.len(),
            done ==> sound == !walk_meets_short_size(data@, 0),
            !done ==> sound && off <= n && walk_meets_short_size(data@, 0) == walk_meets_short_size(
                data@,
                off as int,
            ),
        decreases n - off + if done {
            0int
        } else {
            1int
        },
    {
        if off >= n || n - off < SUBPACKET_SIZE {
            done = true;
        } else {
            let size = read_u16_le(data, off) as usize;
            if n - off < size {
                done = true;
            } else if size < SUBPACKET_SIZE {
                sound = false;
                done = true;
            } else if (size - SUBPACKET_SIZE) % 8 != 0 {
                done = true;
            } else {
                off = off + size;
            }
        }
    }
    proof {
        assert forall|p: Seq<u32>, s: Seq<u32>, enc: bool|
            #[trigger] crypt_walk_in_bounds(p, s, enc, data@, 0) == !walk_meets_short_size(data@, 0) by {
            lemma_walk_sizes_decide(p, s, enc, data@, data@, 0);
        }
    }
    sound
}

/// Whether every subpacket met walking `data` by declared sizes leaves room
/// for its own headers (see [`subpackets_in_bounds`]).
pub fn subpackets_walk_sound(data: &[u8]) -> (r: bool)
    ensures
        r == subpackets_in_bounds(data@, 0),
{
    let n = data.len();
    let mut off: usize = 0;
    let mut sound: bool = true;
    let mut done: bool = false;
    while !done
        invariant
            n == data@.len(),
            done ==> sound == subpackets_in_bounds(data@, 0),
            !done ==> sound && off <= n && subpackets_in_bounds(data@, 0) == subpackets_in_bounds(
                data@,
                off as int,
            ),
        decreases n - off + if done {
            0int
        } else {
            1int
        },
    {
        if off >= n || n - off < SUBPACKET_SIZE {
            done = true;
        } else {
            let size = read_u16_le(data, off) as usize;
            let kind = read_u16_le(data, off + 2);
            let head: usize = if kind == SUBPACKET_TYPE_GAMEMESSAGE {
                SUBPACKET_SIZE + GAMEMESSAGE_SIZE
            } else {
                SUBPACKET_SIZE
            };
            if n - off < size {
                done = true;
            } else if size < head {
                sound = false;
                done = true;
            } else {
                off = off + size;
            }
        }
    }
    sound
}

/// Whether a base packet read at `off` would declare a size smaller than
/// its header (see [`frame_overruns`]).
pub fn frame_overruns_at(bytes: &[u8], off: usize) -> (r: bool)
    ensures
        r == frame_overruns(bytes@, off as int),
{
    let n = bytes.len();
    if off > n || n - off < BASEPACKET_SIZE {
        return false;
    }
    let size = read_u16_le(bytes, off + 4) as usize;
    if n - off < size {
        return false;
    }
    size < BASEPACKET_SIZE
}

/// What reading back a serialized subpacket yields: the game-message header
/// survives only for game messages.
pub open spec fn as_read_back(v: SubPacketView) -> SubPacketView {
    (v.0, if v.0.subpacket_type == SUBPACKET_TYPE_GAMEMESSAGE { v.1 } else { zero_game_message() }, v.2)
}

proof fn lemma_sum_sizes_monotone(subs: Seq<SubPacketView>, j: int, k: int)
    requires
        0 <= j <= k <= subs.len(),
    ensures
        sum_sizes(subs, j) <= sum_sizes(subs, k),
    decreases k - j,
{
    if j < k {
        lemma_sum_sizes_monotone(subs, j, k - 1);
    }
}

proof fn lemma_concat_slot(subs: Seq<SubPacketView>, n: int, k: int)
    requires
        0 <= k < n <= subs.len(),
        forall|i: int| 0 <= i < subs.len() ==> fits_declared_size(#[trigger] subs[i]),
    ensures
        concat_subpackets(subs, n).subrange(sum_sizes(subs, k), sum_sizes(subs, k + 1))
            == subpacket_bytes(subs[k]),
    decreases n,
{
    lemma_concat_len(subs, n);
    lemma_concat_len(subs, n - 1);
    assert(fits_declared_size(subs[n - 1]));
    lemma_sum_sizes_monotone(subs, 0, k);
    assert(sum_sizes(subs, 0) == 0);
    if k < n - 1 {
        lemma_concat_slot(subs, n - 1, k);
        lemma_sum_sizes_monotone(subs, k + 1, n - 1);
        assert(concat_subpackets(subs, n).subrange(sum_sizes(subs, k), sum_sizes(subs, k + 1))
            =~= concat_subpackets(subs, n - 1).subrange(sum_sizes(subs, k), sum_sizes(subs, k + 1)));
    } else {
        assert(concat_subpackets(subs, n).subrange(sum_sizes(subs, k), sum_sizes(subs, k + 1))
            =~= subpacket_bytes(subs[k]));
    }
}

proof fn lemma_read_back_from(subs: Seq<SubPacketView>, k: int)
    requires
        0 <= k <= subs.len(),
        forall|i: int| 0 <= i < subs.len() ==> size_is_exact(#[trigger] subs[i]),
    ensures
        ({
            let data = concat_subpackets(subs, subs.len() as int);
            &&& subpackets_in_bounds(data, sum_sizes(subs, k))
            &&& subpackets_from(data, sum_sizes(subs, k)) == Ok::<Seq<SubPacketView>, PacketError>(
                subs.subrange(k, subs.len() as int).map_values(|v: SubPacketView| as_read_back(v)),
            )
        }),
    decreases subs.len() - k,
{
    let n = subs.len() as int;
    let data = concat_subpackets(subs, n);
    assert forall|i: int| 0 <= i < subs.len() implies fits_declared_size(#[trigger] subs[i]) by {
        assert(size_is_exact(subs[i]));
    }
    lemma_concat_len(subs, n);
    if k == n {
        assert(subs.subrange(k, n).map_values(|v: SubPacketView| as_read_back(v)) =~= Seq::<SubPacketView>::empty());
    } else {
        let off = sum_sizes(subs, k);
        lemma_sum_sizes_monotone(subs, 0, k);
        assert(sum_sizes(subs, 0) == 0);
        lemma_concat_slot(subs, n, k);
        lemma_sum_sizes_monotone(subs, k + 1, n);
        assert(size_is_exact(subs[k]));
        lemma_subpacket_roundtrip(data, off, subs[k]);
        lemma_read_back_from(subs, k + 1);
        assert(sum_sizes(subs, k + 1) == off + subs[k].0.subpacket_size);
        assert(sub_header_at(data, off) == subs[k].0);
        assert(subpacket_bytes(subs[k]).len() == subs[k].0.subpacket_size);
        assert(subs[k].0.subpacket_size >= 16);
        assert(subs.subrange(k, n).map_values(|v: SubPacketView| as_read_back(v)) =~= seq![as_read_back(
            subs[k],
        )] + subs.subrange(k + 1, n).map_values(|v: SubPacketView| as_read_back(v)));
    }
}

/// Packing subpackets whose declared sizes are exact into an uncompressed
/// body and splitting that body again gives the subpackets back (game-message
/// headers only for game messages).
pub proof fn lemma_pack_then_split(subs: Seq<SubPacketView>)
    requires
        forall|i: int| 0 <= i < subs.len() ==> size_is_exact(#[trigger] subs[i]),
    ensures
        subpackets_in_bounds(concat_subpackets(subs, subs.len() as int), 0),
        subpackets_from(concat_subpackets(subs, subs.len() as int), 0) == Ok::<Seq<SubPacketView>, PacketError>(
            subs.map_values(|v: SubPacketView| as_read_back(v)),
        ),
{
    lemma_read_back_from(subs, 0);
    assert(subs.subrange(0, subs.len() as int) =~= subs);
}

} // verus!
