//! Subpackets: the 16-byte subpacket header, the optional 16-byte
//! game-message header, and the payload, all little-endian on the wire.

use vstd::prelude::*;
use crate::bytes::{
    lemma_u16_le_roundtrip, lemma_u32_le_roundtrip, push_u16_le, push_u32_le, read_u16_le,
    read_u32_le, u16_at, u16_le, u32_le, word_at, copy_range, append_bytes,
};
use crate::error::PacketError;
use crate::utils::unix_timestamp;

verus! {

pub const SUBPACKET_SIZE: usize = 0x10;

pub const GAMEMESSAGE_SIZE: usize = 0x10;

pub const SUBPACKET_TYPE_GAMEMESSAGE: u16 = 0x03;

#[derive(Debug, Clone, Copy)]
pub struct SubPacketHeader {
    pub subpacket_size: u16,
    pub subpacket_type: u16,
    pub source_id: u32,
    pub target_id: u32,
    pub unknown1: u32,
}

#[derive(Debug, Clone, Copy)]
pub struct GameMessageHeader {
    pub unknown4: u16,
    pub opcode: u16,
    pub unknown5: u32,
    pub timestamp: u32,
    pub unknown6: u32,
}

/// Wire image of a subpacket header.
pub open spec fn sub_header_bytes(h: SubPacketHeader) -> Seq<u8> {
    u16_le(h.subpacket_size) + u16_le(h.subpacket_type) + u32_le(h.source_id) + u32_le(h.target_id)
        + u32_le(h.unknown1)
}

/// The subpacket header stored at `bytes[i .. i + 16]`.
pub open spec fn sub_header_at(bytes: Seq<u8>, i: int) -> SubPacketHeader {
    SubPacketHeader {
        subpacket_size: u16_at(bytes, i),
        subpacket_type: u16_at(bytes, i + 2),
        source_id: word_at(bytes, i + 4),
        target_id: word_at(bytes, i + 8),
        unknown1: word_at(bytes, i + 12),
    }
}

/// Wire image of a game-message header.
pub open spec fn game_message_bytes(g: GameMessageHeader) -> Seq<u8> {
    u16_le(g.unknown4) + u16_le(g.opcode) + u32_le(g.unknown5) + u32_le(g.timestamp) + u32_le(
        g.unknown6,
    )
}

/// The game-message header stored at `bytes[i .. i + 16]`.
pub open spec fn game_message_at(bytes: Seq<u8>, i: int) -> GameMessageHeader {
    GameMessageHeader {
        unknown4: u16_at(bytes, i),
        opcode: u16_at(bytes, i + 2),
        unknown5: word_at(bytes, i + 4),
        timestamp: word_at(bytes, i + 8),
        unknown6: word_at(bytes, i + 12),
    }
}

/// The all-zero game-message header.
pub open spec fn zero_game_message() -> GameMessageHeader {
    GameMessageHeader { unknown4: 0, opcode: 0, unknown5: 0, timestamp: 0, unknown6: 0 }
}

/// Offset of the payload: game messages carry the second header.
pub open spec fn body_start(h: SubPacketHeader) -> int {
    if h.subpacket_type == SUBPACKET_TYPE_GAMEMESSAGE {
        (SUBPACKET_SIZE + GAMEMESSAGE_SIZE) as int
    } else {
        SUBPACKET_SIZE as int
    }
}

/// A subpacket viewed as its two headers and its payload.
pub type SubPacketView = (SubPacketHeader, GameMessageHeader, Seq<u8>);

/// The declared size leaves room for the headers and the payload.
pub open spec fn fits_declared_size(v: SubPacketView) -> bool {
    body_start(v.0) + v.2.len() <= v.0.subpacket_size
}

/// The declared size is exactly the headers plus the payload.
pub open spec fn size_is_exact(v: SubPacketView) -> bool {
    body_start(v.0) + v.2.len() == v.0.subpacket_size
}

/// Wire image of a subpacket: its header, the game-message header for game
/// messages, the payload, then zero padding up to the declared size.
pub open spec fn subpacket_bytes(v: SubPacketView) -> Seq<u8> {
    let head = if v.0.subpacket_type == SUBPACKET_TYPE_GAMEMESSAGE {
        sub_header_bytes(v.0) + game_message_bytes(v.1)
    } else {
        sub_header_bytes(v.0)
    };
    head + v.2 + Seq::new((v.0.subpacket_size - body_start(v.0) - v.2.len()) as nat, |i: int| 0u8)
}

/// The framing error, if any, met when a subpacket is read at `off`.
pub open spec fn parse_fault(bytes: Seq<u8>, off: int) -> Option<PacketError> {
    if bytes.len() < off + SUBPACKET_SIZE {
        Some(PacketError::TooSmall { needed: (off + SUBPACKET_SIZE) as usize, have: bytes.len() as usize })
    } else if bytes.len() < off + sub_header_at(bytes, off).subpacket_size {
        Some(
            PacketError::SizeMismatch {
                declared: sub_header_at(bytes, off).subpacket_size as usize,
                available: (bytes.len() - off) as usize,
            },
        )
    } else {
        None
    }
}

/// A subpacket at `off` whose declared size is smaller than its headers;
/// reading one would index out of range.
pub open spec fn parse_overruns(bytes: Seq<u8>, off: int) -> bool {
    parse_fault(bytes, off) is None && sub_header_at(bytes, off).subpacket_size < body_start(
        sub_header_at(bytes, off),
    )
}

/// The subpacket read at `off` (when there is no fault).
pub open spec fn parsed_at(bytes: Seq<u8>, off: int) -> SubPacketView {
    let h = sub_header_at(bytes, off);
    (
        h,
        if h.subpacket_type == SUBPACKET_TYPE_GAMEMESSAGE {
            game_message_at(bytes, off + SUBPACKET_SIZE)
        } else {
            zero_game_message()
        },
        bytes.subrange(off + body_start(h), off + h.subpacket_size),
    )
}

proof fn lemma_u16_at_of(bytes: Seq<u8>, i: int, v: u16)
    requires
        0 <= i,
        i + 2 <= bytes.len(),
        bytes[i] == u16_le(v)[0],
        bytes[i + 1] == u16_le(v)[1],
    ensures
        u16_at(bytes, i) == v,
{
    lemma_u16_le_roundtrip(v);
}

proof fn lemma_word_at_of(bytes: Seq<u8>, i: int, v: u32)
    requires
        0 <= i,
        i + 4 <= bytes.len(),
        forall|k: int| 0 <= k < 4 ==> bytes[i + k] == #[trigger] u32_le(v)[k],
    ensures
        word_at(bytes, i) == v,
{
    lemma_u32_le_roundtrip(v);
    assert(bytes[i + 0] == u32_le(v)[0]);
    assert(bytes[i + 1] == u32_le(v)[1]);
    assert(bytes[i + 2] == u32_le(v)[2]);
    assert(bytes[i + 3] == u32_le(v)[3]);
}

/// The layout of five little-endian fields of widths 2, 2, 4, 4, 4.
proof fn lemma_header_fields(bytes: Seq<u8>, i: int, a: u16, b: u16, c: u32, d: u32, e: u32)
    requires
        0 <= i,
        i + 16 <= bytes.len(),
        bytes.subrange(i, i + 16) == u16_le(a) + u16_le(b) + u32_le(c) + u32_le(d) + u32_le(e),
    ensures
        u16_at(bytes, i) == a,
        u16_at(bytes, i + 2) == b,
        word_at(bytes, i + 4) == c,
        word_at(bytes, i + 8) == d,
        word_at(bytes, i + 12) == e,
{
    let p1 = u16_le(a);
    let p2 = p1 + u16_le(b);
    let p3 = p2 + u32_le(c);
    let p4 = p3 + u32_le(d);
    let p5 = p4 + u32_le(e);
    assert(forall|k: int| 0 <= k < 16 ==> bytes[i + k] == p5[k]) by {
        assert forall|k: int| 0 <= k < 16 implies bytes[i + k] == p5[k] by {
            assert(bytes.subrange(i, i + 16)[k] == bytes[i + k]);
        }
    }
    assert(bytes[i] == p5[0] && bytes[i + 1] == p5[1] && bytes[i + 2] == p5[2] && bytes[i + 3] == p5[3]);
    lemma_u16_at_of(bytes, i, a);
    lemma_u16_at_of(bytes, i + 2, b);
    assert forall|k: int| 0 <= k < 4 implies bytes[i + 4 + k] == #[trigger] u32_le(c)[k] by {
        assert(bytes[i + (4 + k)] == p5[4 + k]);
    }
    lemma_word_at_of(bytes, i + 4, c);
    assert forall|k: int| 0 <= k < 4 implies bytes[i + 8 + k] == #[trigger] u32_le(d)[k] by {
        assert(bytes[i + (8 + k)] == p5[8 + k]);
    }
    lemma_word_at_of(bytes, i + 8, d);
    assert forall|k: int| 0 <= k < 4 implies bytes[i + 12 + k] == #[trigger] u32_le(e)[k] by {
        assert(bytes[i + (12 + k)] == p5[12 + k]);
    }
    lemma_word_at_of(bytes, i + 12, e);
}

pub proof fn lemma_sub_header_roundtrip(bytes: Seq<u8>, i: int, h: SubPacketHeader)
    requires
        0 <= i,
        i + 16 <= bytes.len(),
        bytes.subrange(i, i + 16) == sub_header_bytes(h),
    ensures
        sub_header_at(bytes, i) == h,
{
    lemma_header_fields(bytes, i, h.subpacket_size, h.subpacket_type, h.source_id, h.target_id, h.unknown1);
}

pub proof fn lemma_game_message_roundtrip(bytes: Seq<u8>, i: int, g: GameMessageHeader)
    requires
        0 <= i,
        i + 16 <= bytes.len(),
        bytes.subrange(i, i + 16) == game_message_bytes(g),
    ensures
        game_message_at(bytes, i) == g,
{
    lemma_header_fields(bytes, i, g.unknown4, g.opcode, g.unknown5, g.timestamp, g.unknown6);
}

impl SubPacketHeader {
    /// The all-zero header.
    pub fn zeroed() -> (h: Self)
        ensures
            h == (SubPacketHeader { subpacket_size: 0, subpacket_type: 0, source_id: 0, target_id: 0, unknown1: 0 }),
    {
        SubPacketHeader { subpacket_size: 0, subpacket_type: 0, source_id: 0, target_id: 0, unknown1: 0 }
    }

    /// Reads a header from the first 16 bytes of `buf`.
    pub fn read(buf: &[u8]) -> (r: Result<Self, PacketError>)
        ensures
            buf@.len() < SUBPACKET_SIZE ==> r == Err::<Self, PacketError>(
                PacketError::TooSmall { needed: SUBPACKET_SIZE, have: buf@.len() as usize },
            ),
            buf@.len() >= SUBPACKET_SIZE ==> r == Ok::<Self, PacketError>(sub_header_at(buf@, 0)),
    {
        if buf.len() < SUBPACKET_SIZE {
            return Err(PacketError::TooSmall { needed: SUBPACKET_SIZE, have: buf.len() });
        }
        Ok(SubPacketHeader {
            subpacket_size: read_u16_le(buf, 0),
            subpacket_type: read_u16_le(buf, 2),
            source_id: read_u32_le(buf, 4),
            target_id: read_u32_le(buf, 8),
            unknown1: read_u32_le(buf, 12),
        })
    }

    /// The 16-byte wire image of the header.
    pub fn to_wire(&self) -> (out: Vec<u8>)
        ensures
            out@ == sub_header_bytes(*self),
    {
        let mut out: Vec<u8> = Vec::new();
        push_u16_le(&mut out, self.subpacket_size);
        push_u16_le(&mut out, self.subpacket_type);
        push_u32_le(&mut out, self.source_id);
        push_u32_le(&mut out, self.target_id);
        push_u32_le(&mut out, self.unknown1);
        assert(out@ =~= sub_header_bytes(*self));
        out
    }

    /// Writes the header's wire image into `out`.
    pub fn write(&self, out: &mut [u8; 16])
        ensures
            final(out)@ == sub_header_bytes(*self),
    {
        let w = self.to_wire();
        let mut i: usize = 0;
        while i < 16
            invariant
                w@ == sub_header_bytes(*self),
                w@.len() == 16,
                i <= 16,
                forall|k: int| 0 <= k < i ==> out@[k] == w@[k],
            decreases 16 - i,
        {
            out[i] = w[i];
            i = i + 1;
        }
        assert(out@ =~= w@);
    }
}

impl GameMessageHeader {
    /// The all-zero header.
    pub fn zeroed() -> (g: Self)
        ensures
            g == zero_game_message(),
    {
        GameMessageHeader { unknown4: 0, opcode: 0, unknown5: 0, timestamp: 0, unknown6: 0 }
    }

    /// Reads a header from the first 16 bytes of `buf`.
    pub fn read(buf: &[u8]) -> (r: Result<Self, PacketError>)
        ensures
            buf@.len() < GAMEMESSAGE_SIZE ==> r == Err::<Self, PacketError>(
                PacketError::TooSmall { needed: GAMEMESSAGE_SIZE, have: buf@.len() as usize },
            ),
            buf@.len() >= GAMEMESSAGE_SIZE ==> r == Ok::<Self, PacketError>(game_message_at(buf@, 0)),
    {
        if buf.len() < GAMEMESSAGE_SIZE {
            return Err(PacketError::TooSmall { needed: GAMEMESSAGE_SIZE, have: buf.len() });
        }
        Ok(GameMessageHeader {
            unknown4: read_u16_le(buf, 0),
            opcode: read_u16_le(buf, 2),
            unknown5: read_u32_le(buf, 4),
            timestamp: read_u32_le(buf, 8),
            unknown6: read_u32_le(buf, 12),
        })
    }

    /// The 16-byte wire image of the header.
    pub fn to_wire(&self) -> (out: Vec<u8>)
        ensures
            out@ == game_message_bytes(*self),
    {
        let mut out: Vec<u8> = Vec::new();
        push_u16_le(&mut out, self.unknown4);
        push_u16_le(&mut out, self.opcode);
        push_u32_le(&mut out, self.unknown5);
        push_u32_le(&mut out, self.timestamp);
        push_u32_le(&mut out, self.unknown6);
        assert(out@ =~= game_message_bytes(*self));
        out
    }

    /// Writes the header's wire image into `out`.
    pub fn write(&self, out: &mut [u8; 16])
        ensures
            final(out)@ == game_message_bytes(*self),
    {
        let w = self.to_wire();
        let mut i: usize = 0;
        while i < 16
            invariant
                w@ == game_message_bytes(*self),
                w@.len() == 16,
                i <= 16,
                forall|k: int| 0 <= k < i ==> out@[k] == w@[k],
            decreases 16 - i,
        {
            out[i] = w[i];
            i = i + 1;
        }
        assert(out@ =~= w@);
    }
}

pub struct SubPacket {
    pub header: SubPacketHeader,
    pub game_message: GameMessageHeader,
    pub data: Vec<u8>,
}

impl View for SubPacket {
    type V = SubPacketView;

    open spec fn view(&self) -> SubPacketView {
        (self.header, self.game_message, self.data@)
    }
}

fn read_sub_header_at(bytes: &[u8], off: usize) -> (h: SubPacketHeader)
    requires
        off + 16 <= bytes@.len(),
    ensures
        h == sub_header_at(bytes@, off as int),
{
    let _n = bytes.len();
    SubPacketHeader {
        subpacket_size: read_u16_le(bytes, off),
        subpacket_type: read_u16_le(bytes, off + 2),
        source_id: read_u32_le(bytes, off + 4),
        target_id: read_u32_le(bytes, off + 8),
        unknown1: read_u32_le(bytes, off + 12),
    }
}

fn read_game_message_at(bytes: &[u8], off: usize) -> (g: GameMessageHeader)
    requires
        off + 16 <= bytes@.len(),
    ensures
        g == game_message_at(bytes@, off as int),
{
    let _n = bytes.len();
    GameMessageHeader {
        unknown4: read_u16_le(bytes, off),
        opcode: read_u16_le(bytes, off + 2),
        unknown5: read_u32_le(bytes, off + 4),
        timestamp: read_u32_le(bytes, off + 8),
        unknown6: read_u32_le(bytes, off + 12),
    }
}

impl SubPacket {
    /// A subpacket carrying `data`. A game message (`is_game_message`) gets
    /// the game-message header with `opcode`, the current Unix time and
    /// `unknown4 = 0x14`, and subpacket type 3; otherwise `opcode` becomes the
    /// subpacket type. The declared size is the headers plus the payload,
    /// truncated to 16 bits.
    pub fn new_with_flag(is_game_message: bool, opcode: u16, source_id: u32, data: Vec<u8>) -> (r: Self)
        requires
            data@.len() + 32 <= usize::MAX,
            is_game_message ==> ((SUBPACKET_SIZE + data@.len()) as u16) + GAMEMESSAGE_SIZE <= u16::MAX,
        ensures
            r.data@ == data@,
            r.header.source_id == source_id,
            r.header.target_id == 0,
            r.header.unknown1 == 0,
            r.header.subpacket_type == if is_game_message { SUBPACKET_TYPE_GAMEMESSAGE } else { opcode },
            r.header.subpacket_size == if is_game_message {
                (((SUBPACKET_SIZE + data@.len()) as u16) + GAMEMESSAGE_SIZE) as u16
            } else {
                (SUBPACKET_SIZE + data@.len()) as u16
            },
            is_game_message ==> r.game_message.opcode == opcode && r.game_message.unknown4 == 0x14
                && r.game_message.unknown5 == 0 && r.game_message.unknown6 == 0,
            !is_game_message ==> r.game_message == zero_game_message(),
    {
        let mut header = SubPacketHeader::zeroed();
        let mut game_message = GameMessageHeader::zeroed();
        if is_game_message {
            game_message.opcode = opcode;
            game_message.timestamp = unix_timestamp();
            game_message.unknown4 = 0x14;
        }
        header.source_id = source_id;
        header.subpacket_type = if is_game_message {
            SUBPACKET_TYPE_GAMEMESSAGE
        } else {
            opcode
        };
        header.subpacket_size = (SUBPACKET_SIZE + data.len()) as u16;
        if is_game_message {
            header.subpacket_size = header.subpacket_size + GAMEMESSAGE_SIZE as u16;
        }
        SubPacket { header, game_message, data }
    }

    /// A game-message subpacket (see [`SubPacket::new_with_flag`]).
    pub fn new(opcode: u16, source_id: u32, data: Vec<u8>) -> (r: Self)
        requires
            data@.len() + 32 <= usize::MAX,
            ((SUBPACKET_SIZE + data@.len()) as u16) + GAMEMESSAGE_SIZE <= u16::MAX,
        ensures
            r.data@ == data@,
            r.header.source_id == source_id,
            r.header.target_id == 0,
            r.header.unknown1 == 0,
            r.header.subpacket_type == SUBPACKET_TYPE_GAMEMESSAGE,
            r.header.subpacket_size == (((SUBPACKET_SIZE + data@.len()) as u16) + GAMEMESSAGE_SIZE) as u16,
            r.game_message.opcode == opcode,
            r.game_message.unknown4 == 0x14,
            r.game_message.unknown5 == 0,
            r.game_message.unknown6 == 0,
    {
        Self::new_with_flag(true, opcode, source_id, data)
    }

    /// A copy of `other` addressed to `new_target`.
    pub fn with_target(other: &SubPacket, new_target: u32) -> (r: Self)
        ensures
            r.header == (SubPacketHeader { target_id: new_target, ..other.header }),
            r.game_message == other.game_message,
            r.data@ == other.data@,
    {
        let mut header = other.header;
        header.target_id = new_target;
        let data = copy_range(other.data.as_slice(), 0, other.data.len());
        assert(other.data@.subrange(0, other.data@.len() as int) =~= other.data@);
        SubPacket { header, game_message: other.game_message, data }
    }

    /// Readdresses the subpacket.
    pub fn set_target_id(&mut self, target: u32)
        ensures
            final(self).header == (SubPacketHeader { target_id: target, ..old(self).header }),
            final(self).game_message == old(self).game_message,
            final(self).data@ == old(self).data@,
    {
        self.header.target_id = target;
    }

    /// Reads the subpacket at `*offset` and advances `*offset` past it; on an
    /// error `*offset` is unchanged.
    pub fn parse(bytes: &[u8], offset: &mut usize) -> (r: Result<SubPacket, PacketError>)
        requires
            *old(offset) + 0x1_0020 <= usize::MAX,
            !parse_overruns(bytes@, *old(offset) as int),
        ensures
            match parse_fault(bytes@, *old(offset) as int) {
                Some(e) => r matches Err(e2) && e2 == e && *final(offset) == *old(offset),
                None => r matches Ok(sp) && sp@ == parsed_at(bytes@, *old(offset) as int)
                    && *final(offset) == *old(offset) + sub_header_at(bytes@, *old(offset) as int).subpacket_size,
            },
    {
        let off = *offset;
        if bytes.len() < off + SUBPACKET_SIZE {
            return Err(PacketError::TooSmall { needed: off + SUBPACKET_SIZE, have: bytes.len() });
        }
        let header = read_sub_header_at(bytes, off);
        if bytes.len() < off + header.subpacket_size as usize {
            return Err(
                PacketError::SizeMismatch {
                    declared: header.subpacket_size as usize,
                    available: bytes.len() - off,
                },
            );
        }
        let mut game_message = GameMessageHeader::zeroed();
        let data_start;
        if header.subpacket_type == SUBPACKET_TYPE_GAMEMESSAGE {
            game_message = read_game_message_at(bytes, off + SUBPACKET_SIZE);
            data_start = off + SUBPACKET_SIZE + GAMEMESSAGE_SIZE;
        } else {
            data_start = off + SUBPACKET_SIZE;
        }
        let data_end = off + header.subpacket_size as usize;
        let data = copy_range(bytes, data_start, data_end);
        *offset = off + header.subpacket_size as usize;
        Ok(SubPacket { header, game_message, data })
    }

    /// Like [`SubPacket::parse`], but `None` when the buffer (of which
    /// `bytes_read` bytes are filled) does not yet hold the whole subpacket,
    /// or when parsing fails.
    pub fn try_parse(buffer: &[u8], offset: &mut usize, bytes_read: usize) -> (r: Option<SubPacket>)
        requires
            *old(offset) + 0x1_0020 <= usize::MAX,
            !parse_overruns(buffer@, *old(offset) as int),
        ensures
            ({
                let off = *old(offset) as int;
                let ready = bytes_read > off && buffer@.len() >= off + 2 && bytes_read >= off
                    + u16_at(buffer@, off) && buffer@.len() >= off + u16_at(buffer@, off);
                &&& !ready ==> r is None && *final(offset) == *old(offset)
                &&& ready && parse_fault(buffer@, off) is Some ==> r is None && *final(offset) == *old(offset)
                &&& ready && parse_fault(buffer@, off) is None ==> (r matches Some(sp) && sp@ == parsed_at(buffer@, off)
                    && *final(offset) == off + sub_header_at(buffer@, off).subpacket_size)
            }),
    {
        let off = *offset;
        if bytes_read <= off || buffer.len() < off + 2 {
            return None;
        }
        let size = read_u16_le(buffer, off) as usize;
        if bytes_read < off + size || buffer.len() < off + size {
            return None;
        }
        match SubPacket::parse(buffer, offset) {
            Ok(sp) => Some(sp),
            Err(_) => None,
        }
    }

    /// Whether the declared size leaves room for the headers and the
    /// payload (see [`fits_declared_size`]).
    pub fn fits_declared_size(&self) -> (r: bool)
        ensures
            r == fits_declared_size(self@),
    {
        let head: usize = if self.header.subpacket_type == SUBPACKET_TYPE_GAMEMESSAGE {
            SUBPACKET_SIZE + GAMEMESSAGE_SIZE
        } else {
            SUBPACKET_SIZE
        };
        self.data.len() <= self.header.subpacket_size as usize && head <= self.header.subpacket_size
            as usize - self.data.len()
    }

    /// The wire image: headers, payload, then zeros up to the declared size.
    pub fn to_bytes(&self) -> (out: Vec<u8>)
        requires
            fits_declared_size(self@),
        ensures
            out@ == subpacket_bytes(self@),
            out@.len() == self.header.subpacket_size,
    {
        let total = self.header.subpacket_size as usize;
        let mut out = self.header.to_wire();
        if self.header.subpacket_type == SUBPACKET_TYPE_GAMEMESSAGE {
            let gm = self.game_message.to_wire();
            append_bytes(&mut out, gm.as_slice());
        }
        append_bytes(&mut out, self.data.as_slice());
        let ghost filled = out@;
        while out.len() < total
            invariant
                filled.len() <= out@.len() <= total,
                out@ == filled + Seq::new((out@.len() - filled.len()) as nat, |i: int| 0u8),
            decreases total - out@.len(),
        {
            out.push(0u8);
            assert(out@ =~= filled + Seq::new((out@.len() - filled.len()) as nat, |i: int| 0u8));
        }
        assert(out@ =~= subpacket_bytes(self@));
        out
    }
}

/// Reading back a serialized subpacket whose declared size is exact gives
/// the same headers and payload (the game-message header only for game
/// messages; others read it as zero), wherever the image sits in a stream.
pub proof fn lemma_subpacket_roundtrip(stream: Seq<u8>, off: int, v: SubPacketView)
    requires
        size_is_exact(v),
        0 <= off,
        off + v.0.subpacket_size <= stream.len(),
        stream.subrange(off, off + v.0.subpacket_size) == subpacket_bytes(v),
    ensures
        parse_fault(stream, off) is None,
        !parse_overruns(stream, off),
        parsed_at(stream, off) == (
            v.0,
            if v.0.subpacket_type == SUBPACKET_TYPE_GAMEMESSAGE { v.1 } else { zero_game_message() },
            v.2,
        ),
{
    let b = subpacket_bytes(v);
    let h = v.0;
    let hb = sub_header_bytes(h);
    let bs = body_start(h);
    assert(hb.len() == 16);
    assert(b.len() == h.subpacket_size);
    assert(stream.subrange(off, off + 16) =~= hb) by {
        assert forall|k: int| 0 <= k < 16 implies stream.subrange(off, off + 16)[k] == hb[k] by {
            assert(stream[off + k] == b[k]);
        }
    }
    lemma_sub_header_roundtrip(stream, off, h);
    if h.subpacket_type == SUBPACKET_TYPE_GAMEMESSAGE {
        let gb = game_message_bytes(v.1);
        assert(gb.len() == 16);
        assert(stream.subrange(off + 16, off + 32) =~= gb) by {
            assert forall|k: int| 0 <= k < 16 implies stream.subrange(off + 16, off + 32)[k] == gb[k] by {
                assert(stream[off + 16 + k] == b[16 + k]);
            }
        }
        lemma_game_message_roundtrip(stream, off + 16, v.1);
    }
    assert(stream.subrange(off + bs, off + h.subpacket_size) =~= v.2) by {
        assert forall|k: int| 0 <= k < v.2.len() implies stream.subrange(off + bs, off + h.subpacket_size)[k] == v.2[k] by {
            assert(stream[off + bs + k] == b[bs + k]);
        }
    }
}

} // verus!
