//! Requests the lobby receives: the security handshake, the session
//! login, character selection, and character changes. Each is a fixed
//! little-endian layout; strings are NUL-padded fields.

use vstd::prelude::*;
use crate::bytes::copy_range;
use crate::bytes::read_u16_le;
use crate::bytes::read_u32_le;
use crate::bytes::read_u64_le;
use crate::bytes::u16_at;
use crate::bytes::u64_at;
use crate::bytes::word_at;
use crate::error::PacketError;
use crate::utils::before_nul;
use crate::utils::null_term_string;
use crate::utils::utf8_lossy;

verus! {

/// The string a NUL-padded field of `len` bytes at `start` holds.
pub open spec fn fixed_string_at(data: Seq<u8>, start: int, len: int) -> Seq<char> {
    utf8_lossy(before_nul(data.subrange(start, start + len)))
}

fn read_fixed_string(data: &[u8], start: usize, len: usize) -> (r: String)
    requires
        start + len <= data@.len(),
    ensures
        r@ == fixed_string_at(data@, start as int, len as int),
{
    let _n = data.len();
    let field = copy_range(data, start, start + len);
    null_term_string(field.as_slice())
}

/// Whether a parse failed because the buffer held `have` of the `needed`
/// bytes.
pub open spec fn is_too_small(e: PacketError, needed: nat, have: nat) -> bool {
    e matches PacketError::TooSmall { needed: n, have: h } && n == needed && h == have
}

/// The client's first, unencrypted request: its ticket phrase and client
/// number, from which the session key is made.
#[derive(Debug, Clone)]
pub struct SecurityHandshakePacket {
    pub ticket_phrase: String,
    pub client_number: u32,
}

impl SecurityHandshakePacket {
    /// Reads the phrase (64 bytes at 0x34) and the client number after it;
    /// fails when the buffer is shorter than 0x78 bytes.
    pub fn parse(data: &[u8]) -> (r: Result<Self, PacketError>)
        ensures
            data@.len() >= 0x78 <==> r is Ok,
            match r {
                Ok(p) => p.ticket_phrase@ == fixed_string_at(data@, 0x34, 0x40) && p.client_number
                    == word_at(data@, 0x74),
                Err(e) => is_too_small(e, 0x78, data@.len()),
            },
    {
        if data.len() < 0x78 {
            return Err(PacketError::TooSmall { needed: 0x78, have: data.len() });
        }
        let ticket_phrase = read_fixed_string(data, 0x34, 0x40);
        let client_number = read_u32_le(data, 0x74);
        Ok(SecurityHandshakePacket { ticket_phrase, client_number })
    }
}

/// The session login: request sequence, session id and client version.
#[derive(Debug, Clone)]
pub struct SessionPacket {
    pub sequence: u64,
    pub session: String,
    pub version: String,
}

impl SessionPacket {
    /// Reads the sequence, skips 8 bytes, then the 64-byte session and
    /// 32-byte version fields; fails when the buffer is shorter than 0x70.
    pub fn parse(data: &[u8]) -> (r: Result<Self, PacketError>)
        ensures
            data@.len() >= 0x70 <==> r is Ok,
            match r {
                Ok(p) => p.sequence == u64_at(data@, 0) && p.session@ == fixed_string_at(
                    data@,
                    0x10,
                    0x40,
                ) && p.version@ == fixed_string_at(data@, 0x50, 0x20),
                Err(e) => is_too_small(e, 0x70, data@.len()),
            },
    {
        if data.len() < 0x70 {
            return Err(PacketError::TooSmall { needed: 0x70, have: data.len() });
        }
        let sequence = read_u64_le(data, 0);
        let session = read_fixed_string(data, 0x10, 0x40);
        let version = read_fixed_string(data, 0x50, 0x20);
        Ok(SessionPacket { sequence, session, version })
    }
}

/// A character chosen to play, with the ticket to hand to the world.
#[derive(Debug, Clone, Copy)]
pub struct SelectCharacterPacket {
    pub sequence: u64,
    pub character_id: u32,
    pub unknown_id: u32,
    pub ticket: u64,
}

impl SelectCharacterPacket {
    /// Reads the four fields; fails when the buffer is shorter than 24
    /// bytes.
    pub fn parse(data: &[u8]) -> (r: Result<Self, PacketError>)
        ensures
            data@.len() >= 24 <==> r is Ok,
            match r {
                Ok(p) => p.sequence == u64_at(data@, 0) && p.character_id == word_at(data@, 8)
                    && p.unknown_id == word_at(data@, 12) && p.ticket == u64_at(data@, 16),
                Err(e) => is_too_small(e, 24, data@.len()),
            },
    {
        if data.len() < 24 {
            return Err(PacketError::TooSmall { needed: 24, have: data.len() });
        }
        Ok(
            SelectCharacterPacket {
                sequence: read_u64_le(data, 0),
                character_id: read_u32_le(data, 8),
                unknown_id: read_u32_le(data, 12),
                ticket: read_u64_le(data, 16),
            },
        )
    }
}

/// A character change: reserve a name, make, rename or delete a character,
/// or rename a retainer.
#[derive(Debug, Clone)]
pub struct CharacterModifyPacket {
    pub sequence: u64,
    pub character_id: u32,
    pub person_type: u32,
    pub slot: u8,
    pub command: u8,
    pub world_id: u16,
    pub character_name: String,
    pub character_info_encoded: String,
}

impl CharacterModifyPacket {
    pub const CMD_RESERVE: u8 = 0x01;
    pub const CMD_MAKE: u8 = 0x02;
    pub const CMD_RENAME: u8 = 0x03;
    pub const CMD_DELETE: u8 = 0x04;
    pub const CMD_RENAME_RETAINER: u8 = 0x06;

    /// Reads the fixed fields, the 32-byte name and the 0x190-byte encoded
    /// character info; fails when the buffer is shorter than 0x1D0 bytes.
    pub fn parse(data: &[u8]) -> (r: Result<Self, PacketError>)
        ensures
            data@.len() >= 0x1D0 <==> r is Ok,
            match r {
                Ok(p) => {
                    &&& p.sequence == u64_at(data@, 0)
                    &&& p.character_id == word_at(data@, 8)
                    &&& p.person_type == word_at(data@, 12)
                    &&& p.slot == data@[16]
                    &&& p.command == data@[17]
                    &&& p.world_id == u16_at(data@, 18)
                    &&& p.character_name@ == fixed_string_at(data@, 0x14, 0x20)
                    &&& p.character_info_encoded@ == fixed_string_at(data@, 0x34, 0x190)
                },
                Err(e) => is_too_small(e, 0x1D0, data@.len()),
            },
    {
        if data.len() < 0x1D0 {
            return Err(PacketError::TooSmall { needed: 0x1D0, have: data.len() });
        }
        Ok(
            CharacterModifyPacket {
                sequence: read_u64_le(data, 0),
                character_id: read_u32_le(data, 8),
                person_type: read_u32_le(data, 12),
                slot: data[16],
                command: data[17],
                world_id: read_u16_le(data, 18),
                character_name: read_fixed_string(data, 0x14, 0x20),
                character_info_encoded: read_fixed_string(data, 0x34, 0x190),
            },
        )
    }
}

} // verus!
