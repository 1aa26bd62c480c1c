//! Lobby session state, the replies a request produces, and the session
//! cipher key made from the client's handshake.

use md5::Digest;
use md5::Md5;
use vstd::prelude::*;
use vstd::string::StringSliceAdditionalSpecFns;
use crate::blowfish::Blowfish;
use crate::bytes::append_bytes;
use crate::bytes::push_u32_le;
use crate::bytes::u32_le;
use crate::lobby::chara_info::CharaRequestError;
use crate::lobby::chara_info::NewCharaRequest;
use crate::lobby::chara_info::parse_new_char_request;
use crate::lobby::chara_info::parse_new_char_request_err;
use crate::lobby::chara_info::parse_new_char_request_ok;
use crate::lobby::data::Account;
use crate::lobby::data::Character;
use crate::lobby::data::World;
use crate::lobby::receive::CharacterModifyPacket;
use crate::lobby::receive::SelectCharacterPacket;
use crate::lobby::receive::SessionPacket;
use crate::lobby::send::account_entry;
use crate::lobby::send::account_list_packets;
use crate::lobby::send::are_lobby_pages;
use crate::lobby::send::list_pages;
use crate::lobby::send::chara_creator_bytes;
use crate::lobby::send::chara_creator_packet;
use crate::lobby::send::error_bytes;
use crate::lobby::send::error_packet;
use crate::lobby::send::is_lobby_subpacket;
use crate::lobby::send::select_character_confirm_packet;
use crate::lobby::send::select_confirm_bytes;
use crate::subpacket::SubPacket;

verus! {

/// What the lobby knows of one client connection.
#[derive(Default)]
pub struct LobbySession {
    pub blowfish: Option<Blowfish>,
    pub current_user_id: u32,
    pub current_session_token: String,
    pub new_chara_cid: u32,
    pub new_chara_slot: u16,
    pub new_chara_world_id: u16,
    pub new_chara_name: String,
}

/// One reply to a request.
pub enum Reply {
    /// Bytes sent as they are (the handshake acknowledgement).
    Raw(Vec<u8>),
    /// Subpackets framed into one base packet and encrypted.
    Encrypted(Vec<SubPacket>),
}

/// The MD5 digest `md5::Md5` computes of some bytes.
pub uninterp spec fn md5_of(data: Seq<u8>) -> Seq<u8>;

/// `Md5::new`, `update`, `finalize`: the MD5 digest of `data`.
#[verifier::external_body]
fn md5_digest(data: &[u8]) -> (r: [u8; 16])
    ensures
        r@ == md5_of(data@),
{
    let mut hasher = Md5::new();
    hasher.update(data);
    hasher.finalize().into()
}

/// The 0x2C bytes the session key is hashed from: a fixed prefix, the
/// client number (little-endian), a fixed word, up to 32 bytes of the
/// ticket phrase, and zeros.
pub open spec fn key_material(ticket_phrase: Seq<u8>, client_number: u32) -> Seq<u8> {
    let phrase = if ticket_phrase.len() < 0x20 {
        ticket_phrase
    } else {
        ticket_phrase.take(0x20)
    };
    let head = seq![0x78u8, 0x56u8, 0x34u8, 0x12u8] + u32_le(client_number) + seq![
        0xE8u8,
        0x03u8,
        0x00u8,
        0x00u8,
    ] + phrase;
    head + Seq::new((0x2C - head.len()) as nat, |i: int| 0u8)
}

/// The session key material is 44 bytes: 78 56 34 12, the client number
/// little-endian, E8 03 00 00, then 32 bytes holding the ticket phrase's
/// first 32 bytes (all of a shorter phrase) and zeros after it.
pub proof fn lemma_key_material_layout(ticket_phrase: Seq<u8>, client_number: u32)
    ensures
        key_material(ticket_phrase, client_number).len() == 44,
        key_material(ticket_phrase, client_number).take(4) == seq![0x78u8, 0x56u8, 0x34u8, 0x12u8],
        key_material(ticket_phrase, client_number).subrange(4, 8) == u32_le(client_number),
        key_material(ticket_phrase, client_number).subrange(8, 12) == seq![
            0xE8u8,
            0x03u8,
            0x00u8,
            0x00u8,
        ],
        forall|i: int|
            0 <= i < 32 ==> #[trigger] key_material(ticket_phrase, client_number)[12 + i] == if i
                < ticket_phrase.len() {
                ticket_phrase[i]
            } else {
                0u8
            },
{
    let km = key_material(ticket_phrase, client_number);
    assert(km.take(4) =~= seq![0x78u8, 0x56u8, 0x34u8, 0x12u8]);
    assert(km.subrange(4, 8) =~= u32_le(client_number));
    assert(km.subrange(8, 12) =~= seq![0xE8u8, 0x03u8, 0x00u8, 0x00u8]);
}

/// The Blowfish key of a session: the MD5 digest of [`key_material`].
pub fn generate_blowfish_key(ticket_phrase: &str, client_number: u32) -> (r: [u8; 16])
    ensures
        r@ == md5_of(key_material(ticket_phrase.spec_bytes(), client_number)),
{
    let mut raw: Vec<u8> = Vec::new();
    raw.push(0x78);
    raw.push(0x56);
    raw.push(0x34);
    raw.push(0x12);
    push_u32_le(&mut raw, client_number);
    raw.push(0xE8);
    raw.push(0x03);
    raw.push(0x00);
    raw.push(0x00);
    let phrase = ticket_phrase.as_bytes();
    let n = if phrase.len() < 0x20 {
        phrase.len()
    } else {
        0x20
    };
    let mut k: usize = 0;
    let ghost head = raw@;
    while k < n
        invariant
            k <= n <= phrase@.len(),
            n <= 0x20,
            raw@ == head + phrase@.take(k as int),
            head.len() == 12,
        decreases n - k,
    {
        raw.push(phrase[k]);
        k = k + 1;
        assert(raw@ =~= head + phrase@.take(k as int));
    }
    let ghost body = raw@;
    while raw.len() < 0x2C
        invariant
            body.len() <= raw@.len() <= 0x2C,
            raw@ == body + Seq::new((raw@.len() - body.len()) as nat, |i: int| 0u8),
        decreases 0x2C - raw@.len(),
    {
        raw.push(0);
        assert(raw@ =~= body + Seq::new((raw@.len() - body.len()) as nat, |i: int| 0u8));
    }
    proof {
        let phrase_s = ticket_phrase.spec_bytes();
        if phrase_s.len() < 0x20 {
            assert(phrase@.take(n as int) =~= phrase_s);
        }
        assert(raw@ =~= key_material(phrase_s, client_number));
    }
    md5_digest(raw.as_slice())
}


/// Size of the client's unencrypted opening packet.
pub const START_SESSION_PACKET_SIZE: u16 = 0x288;

/// Text of the error that ends a request naming a missing or inactive
/// world.
pub open spec fn no_world_message() -> Seq<char> {
    "World Does not exist or is inactive."@
}

/// Text of the error that ends a session the database does not know.
pub open spec fn expired_message() -> Seq<char> {
    "Your session has expired, please login again."@
}

/// Whether a packet of `packet_size` bytes whose body is `data` opens a
/// session: it is 0x288 bytes long, is not encrypted, and has a `T` at
/// body offset 0x34.
pub open spec fn opens_session(packet_size: u16, data: Seq<u8>) -> bool {
    packet_size == START_SESSION_PACKET_SIZE && data.len() > 0x34 && data[0x34] == 0x54u8
}

/// Whether the packet is the client's opening handshake (see
/// [`opens_session`]); every other packet is encrypted with the session
/// key.
pub fn is_start_session(packet_size: u16, data: &[u8]) -> (r: bool)
    ensures
        r == opens_session(packet_size, data@),
{
    packet_size == START_SESSION_PACKET_SIZE && data.len() > 0x34 && data[0x34] == 0x54
}

/// The request a game-message opcode asks for.
#[derive(Debug, Clone, Copy, PartialEq, Eq, Structural)]
pub enum LobbyRequest {
    GetCharacters,
    SelectCharacter,
    SessionAck,
    ModifyCharacter,
}

/// The request of `opcode`: 0x03 lists characters, 0x04 selects one,
/// 0x05 acknowledges the session, 0x0B changes a character; other
/// opcodes are ignored.
pub open spec fn request_of(opcode: u16) -> Option<LobbyRequest> {
    if opcode == 0x03 {
        Some(LobbyRequest::GetCharacters)
    } else if opcode == 0x04 {
        Some(LobbyRequest::SelectCharacter)
    } else if opcode == 0x05 {
        Some(LobbyRequest::SessionAck)
    } else if opcode == 0x0B {
        Some(LobbyRequest::ModifyCharacter)
    } else {
        None
    }
}

/// The request a game-message opcode asks for (see [`request_of`]).
pub fn request_for_opcode(opcode: u16) -> (r: Option<LobbyRequest>)
    ensures
        r == request_of(opcode),
{
    if opcode == 0x03 {
        Some(LobbyRequest::GetCharacters)
    } else if opcode == 0x04 {
        Some(LobbyRequest::SelectCharacter)
    } else if opcode == 0x05 {
        Some(LobbyRequest::SessionAck)
    } else if opcode == 0x0B {
        Some(LobbyRequest::ModifyCharacter)
    } else {
        None
    }
}

/// The one account every user has.
pub open spec fn default_account_name() -> Seq<char> {
    "FINAL FANTASY XIV"@
}

/// Answers a session acknowledgement once the database has resolved the
/// session to `user_id` (0 when unknown): the session records the user
/// and token; an unknown session gets the expiry error, a known one the
/// account list of its single account.
pub fn session_ack_replies(
    session: &mut LobbySession,
    request: &SessionPacket,
    user_id: u32,
) -> (r: Vec<SubPacket>)
    ensures
        final(session).current_user_id == user_id,
        final(session).current_session_token@ == request.session@,
        final(session).new_chara_cid == old(session).new_chara_cid,
        final(session).new_chara_slot == old(session).new_chara_slot,
        final(session).new_chara_world_id == old(session).new_chara_world_id,
        final(session).new_chara_name == old(session).new_chara_name,
        user_id == 0 ==> r@.len() == 1 && is_lobby_subpacket(
            r@[0],
            0x02,
            error_bytes(request.sequence, 0, 0, 13001, expired_message()),
        ),
        user_id != 0 ==> are_lobby_pages(
            r@,
            0x0C,
            list_pages(1, 8, seq![account_entry(1, default_account_name())], 0x280, 0x10, 0x210),
        ),
{
    session.current_user_id = user_id;
    session.current_session_token = request.session.clone();
    if user_id == 0 {
        let message = "Your session has expired, please login again.";
        let err = error_packet(request.sequence, 0, 0, 13001, message);
        let mut r: Vec<SubPacket> = Vec::new();
        r.push(err);
        return r;
    }
    let mut accounts: Vec<Account> = Vec::new();
    accounts.push(Account { id: 1, name: "FINAL FANTASY XIV".to_owned() });
    assert(accounts@.map_values(|a: Account| account_entry(a.id, a.name@)) =~= seq![
        account_entry(1, default_account_name()),
    ]);
    account_list_packets(1, accounts.as_slice())
}

/// Answers a character selection once the character's world has been
/// looked up (`None` when the character or its world is missing or
/// inactive): the world error, or the confirmation that hands the client
/// to the world's address.
pub fn select_character_reply(
    request: &SelectCharacterPacket,
    session_token: &str,
    world: Option<&World>,
) -> (r: SubPacket)
    ensures
        match world {
            None => is_lobby_subpacket(
                r,
                0x02,
                error_bytes(request.sequence, 0, 0, 13001, no_world_message()),
            ),
            Some(w) => is_lobby_subpacket(
                r,
                0x0F,
                select_confirm_bytes(
                    request.sequence,
                    request.character_id,
                    session_token@,
                    w.address@,
                    w.port,
                    request.ticket,
                ),
            ),
        },
{
    match world {
        None => error_packet(request.sequence, 0, 0, 13001, "World Does not exist or is inactive."),
        Some(w) => select_character_confirm_packet(
            request.sequence,
            request.character_id,
            session_token,
            w.address.as_str(),
            w.port,
            request.ticket,
        ),
    }
}

/// Where a character change stands.
#[derive(Debug, Clone, Copy, PartialEq, Eq, Structural)]
pub enum ModifyStage {
    /// Waiting for the world of the named character.
    AwaitCharacterWorld,
    /// Waiting for the world record.
    AwaitWorld,
    /// Waiting for the name reservation.
    AwaitReserve,
    /// Waiting for the character to be written.
    AwaitMake,
    /// Waiting for the rename.
    AwaitRename,
    /// Waiting for the deletion.
    AwaitDelete,
    /// Answered.
    Finished,
}

/// What the caller does next for a character change.
pub enum ModifyAction {
    /// Look up the world of character `character_id` of `user_id`; hand
    /// back [`ModifyEvent::CharacterWorld`].
    FindCharacterWorld { user_id: u32, character_id: u32 },
    /// Look up world `world_id`, active ones only; hand back
    /// [`ModifyEvent::World`].
    FindWorld { world_id: u16 },
    /// Reserve `name` in `slot` on `world_id`; hand back
    /// [`ModifyEvent::Reserved`].
    Reserve { user_id: u32, slot: u16, world_id: u16, name: String },
    /// Write the reserved character `cid` as `request` describes (its
    /// starting gear and town position are the caller's); hand back
    /// [`ModifyEvent::Done`].
    Make { user_id: u32, cid: u32, request: NewCharaRequest },
    /// Rename character `character_id` to `name` on `world_id`; hand back
    /// [`ModifyEvent::Renamed`].
    Rename { user_id: u32, character_id: u32, world_id: u16, name: String },
    /// Delete character `character_id` named `name`; hand back
    /// [`ModifyEvent::Done`].
    Delete { character_id: u32, name: String },
    /// Send these subpackets; the change is over.
    Reply(Vec<SubPacket>),
    /// The character description could not be read; the request fails.
    Fail(CharaRequestError),
}

/// What the caller hands back after an action.
#[derive(Debug)]
pub enum ModifyEvent {
    /// The world id of the named character, if it was found.
    CharacterWorld(Option<u16>),
    /// The world record, if the world exists and is active.
    World(Option<World>),
    /// Whether the name was already taken, and the id of the new
    /// character otherwise.
    Reserved { taken: bool, cid: u32 },
    /// Whether the new name was already taken.
    Renamed { taken: bool },
    /// The write or deletion is done.
    Done,
}

/// Whether `event` answers the action of `stage`.
pub open spec fn event_fits(stage: ModifyStage, event: ModifyEvent) -> bool {
    match stage {
        ModifyStage::AwaitCharacterWorld => event is CharacterWorld,
        ModifyStage::AwaitWorld => event is World,
        ModifyStage::AwaitReserve => event is Reserved,
        ModifyStage::AwaitMake => event is Done,
        ModifyStage::AwaitRename => event is Renamed,
        ModifyStage::AwaitDelete => event is Done,
        ModifyStage::Finished => false,
    }
}

/// Whether `a` is the single creator answer for `request` with person
/// id `pid`, character id `cid` and character name `name`.
pub open spec fn is_creator_reply(
    a: ModifyAction,
    request: CharacterModifyPacket,
    pid: u32,
    cid: u32,
    name: Seq<char>,
    world_name: Seq<char>,
) -> bool {
    &&& a is Reply
    &&& a->Reply_0@.len() == 1
    &&& is_lobby_subpacket(
        a->Reply_0@[0],
        0x0E,
        chara_creator_bytes(
            request.sequence,
            request.command as u16,
            pid,
            cid,
            1,
            name,
            world_name,
        ),
    )
}

/// Whether `a` is the single error answer for `request` with error code
/// `error_code`, text id `text_id` and message `message`.
pub open spec fn is_error_reply(
    a: ModifyAction,
    request: CharacterModifyPacket,
    error_code: u32,
    text_id: u32,
    message: Seq<char>,
) -> bool {
    &&& a is Reply
    &&& a->Reply_0@.len() == 1
    &&& is_lobby_subpacket(
        a->Reply_0@[0],
        0x02,
        error_bytes(request.sequence, error_code, 0, text_id, message),
    )
}

/// A character change in progress.
#[derive(Debug)]
pub struct ModifyFlow {
    pub request: CharacterModifyPacket,
    /// The world the change applies to, once known.
    pub world_id: u16,
    /// The world's name, once looked up.
    pub world_name: String,
    pub stage: ModifyStage,
}

/// One subpacket as a reply action.
fn reply_of(p: SubPacket) -> (r: ModifyAction)
    ensures
        r is Reply,
        r->Reply_0@ == seq![p],
{
    let mut v: Vec<SubPacket> = Vec::new();
    v.push(p);
    ModifyAction::Reply(v)
}

impl ModifyFlow {
    /// Starts a change: the world is the request's, else the one of the
    /// character being made in this session; when neither is set and the
    /// request names a character, that character's world is looked up
    /// first, otherwise the world record.
    pub fn start(session: &LobbySession, request: CharacterModifyPacket) -> (r: (
        ModifyFlow,
        ModifyAction,
    ))
        ensures
            r.0.request == request,
            ({
                let w = if request.world_id != 0 {
                    request.world_id
                } else {
                    session.new_chara_world_id
                };
                if w == 0 && request.character_id != 0 {
                    &&& r.0.stage == ModifyStage::AwaitCharacterWorld
                    &&& r.1 matches ModifyAction::FindCharacterWorld { user_id, character_id }
                    &&& user_id == session.current_user_id
                    &&& character_id == request.character_id
                } else {
                    &&& r.0.stage == ModifyStage::AwaitWorld
                    &&& r.0.world_id == w
                    &&& r.1 matches ModifyAction::FindWorld { world_id }
                    &&& world_id == w
                }
            }),
    {
        let w = if request.world_id != 0 {
            request.world_id
        } else {
            session.new_chara_world_id
        };
        if w == 0 && request.character_id != 0 {
            let character_id = request.character_id;
            (
                ModifyFlow {
                    request,
                    world_id: 0,
                    world_name: String::new(),
                    stage: ModifyStage::AwaitCharacterWorld,
                },
                ModifyAction::FindCharacterWorld { user_id: session.current_user_id, character_id },
            )
        } else {
            (
                ModifyFlow {
                    request,
                    world_id: w,
                    world_name: String::new(),
                    stage: ModifyStage::AwaitWorld,
                },
                ModifyAction::FindWorld { world_id: w },
            )
        }
    }

    /// Takes the answer to the last action and says what comes next.
    ///
    /// - The character's world (0 if not found) is looked up next.
    /// - A missing world ends the change with the world error (text 13001).
    /// - With the world known, the command decides: a reservation, a write
    ///   of the reserved character (after reading its description), a
    ///   rename or a deletion; a retainer rename or an unknown command is
    ///   answered at once.
    /// - A taken name ends a reservation or rename with error 1003 / text
    ///   13005. A successful reservation records the new character (id,
    ///   slot, world, name) in the session.
    /// - Every change that succeeds is answered with the creator packet:
    ///   person id 1 and the session's new character after a write, person
    ///   id 0 and the reserved id after a reservation, zeros otherwise.
    pub fn step(&mut self, session: &mut LobbySession, event: ModifyEvent) -> (r: ModifyAction)
        requires
            event_fits(old(self).stage, event),
        ensures
            final(self).request == old(self).request,
            match (old(self).stage, event) {
                (ModifyStage::AwaitCharacterWorld, ModifyEvent::CharacterWorld(found)) => {
                    let w = match found {
                        Some(id) => id,
                        None => 0u16,
                    };
                    &&& final(self).stage == ModifyStage::AwaitWorld
                    &&& final(self).world_id == w
                    &&& r matches ModifyAction::FindWorld { world_id }
                    &&& world_id == w
                    &&& *final(session) == *old(session)
                },
                (ModifyStage::AwaitWorld, ModifyEvent::World(None)) => {
                    &&& final(self).stage == ModifyStage::Finished
                    &&& is_error_reply(r, old(self).request, 0, 13001, no_world_message())
                    &&& *final(session) == *old(session)
                },
                (ModifyStage::AwaitWorld, ModifyEvent::World(Some(world))) => {
                    let req = old(self).request;
                    let cmd = req.command;
                    &&& final(self).world_id == old(self).world_id
                    &&& final(self).world_name == world.name
                    &&& *final(session) == *old(session)
                    &&& (cmd == CharacterModifyPacket::CMD_RESERVE ==> {
                        &&& final(self).stage == ModifyStage::AwaitReserve
                        &&& r matches ModifyAction::Reserve { user_id, slot, world_id, name }
                        &&& user_id == old(session).current_user_id
                        &&& slot == req.slot as u16
                        &&& world_id == old(self).world_id
                        &&& name == req.character_name
                    })
                    &&& (cmd == CharacterModifyPacket::CMD_MAKE ==> match r {
                        ModifyAction::Make { user_id, cid, request } => {
                            &&& final(self).stage == ModifyStage::AwaitMake
                            &&& user_id == old(session).current_user_id
                            &&& cid == old(session).new_chara_cid
                            &&& parse_new_char_request_ok(req.character_info_encoded@, request)
                        },
                        ModifyAction::Fail(e) => {
                            &&& final(self).stage == ModifyStage::Finished
                            &&& parse_new_char_request_err(req.character_info_encoded@, e)
                        },
                        _ => false,
                    })
                    &&& (cmd == CharacterModifyPacket::CMD_RENAME ==> {
                        &&& final(self).stage == ModifyStage::AwaitRename
                        &&& r matches ModifyAction::Rename { user_id, character_id, world_id, name }
                        &&& user_id == old(session).current_user_id
                        &&& character_id == req.character_id
                        &&& world_id == old(self).world_id
                        &&& name == req.character_name
                    })
                    &&& (cmd == CharacterModifyPacket::CMD_DELETE ==> {
                        &&& final(self).stage == ModifyStage::AwaitDelete
                        &&& r matches ModifyAction::Delete { character_id, name }
                        &&& character_id == req.character_id
                        &&& name == req.character_name
                    })
                    &&& (cmd != CharacterModifyPacket::CMD_RESERVE && cmd
                        != CharacterModifyPacket::CMD_MAKE && cmd != CharacterModifyPacket::CMD_RENAME
                        && cmd != CharacterModifyPacket::CMD_DELETE ==> {
                        &&& final(self).stage == ModifyStage::Finished
                        &&& is_creator_reply(r, req, 0, 0, req.character_name@, world.name@)
                    })
                },
                (ModifyStage::AwaitReserve, ModifyEvent::Reserved { taken, cid }) => {
                    &&& final(self).stage == ModifyStage::Finished
                    &&& taken ==> is_error_reply(r, old(self).request, 1003, 13005, Seq::empty())
                        && *final(session) == *old(session)
                    &&& !taken ==> {
                        &&& is_creator_reply(
                            r,
                            old(self).request,
                            0,
                            cid,
                            old(self).request.character_name@,
                            old(self).world_name@,
                        )
                        &&& final(session).new_chara_cid == cid
                        &&& final(session).new_chara_slot == old(self).request.slot as u16
                        &&& final(session).new_chara_world_id == old(self).world_id
                        &&& final(session).new_chara_name == old(self).request.character_name
                        &&& final(session).current_user_id == old(session).current_user_id
                        &&& final(session).current_session_token == old(
                            session,
                        ).current_session_token
                    }
                },
                (ModifyStage::AwaitMake, ModifyEvent::Done) => {
                    &&& final(self).stage == ModifyStage::Finished
                    &&& is_creator_reply(
                        r,
                        old(self).request,
                        1,
                        old(session).new_chara_cid,
                        old(session).new_chara_name@,
                        old(self).world_name@,
                    )
                    &&& *final(session) == *old(session)
                },
                (ModifyStage::AwaitRename, ModifyEvent::Renamed { taken }) => {
                    &&& final(self).stage == ModifyStage::Finished
                    &&& taken ==> is_error_reply(r, old(self).request, 1003, 13005, Seq::empty())
                    &&& !taken ==> is_creator_reply(
                        r,
                        old(self).request,
                        0,
                        0,
                        old(self).request.character_name@,
                        old(self).world_name@,
                    )
                    &&& *final(session) == *old(session)
                },
                (ModifyStage::AwaitDelete, ModifyEvent::Done) => {
                    &&& final(self).stage == ModifyStage::Finished
                    &&& is_creator_reply(
                        r,
                        old(self).request,
                        0,
                        0,
                        old(self).request.character_name@,
                        old(self).world_name@,
                    )
                    &&& *final(session) == *old(session)
                },
                _ => false,
            },
    {
        let stage = self.stage;
        match event {
            ModifyEvent::CharacterWorld(found) => {
                let w: u16 = match found {
                    Some(id) => id,
                    None => 0,
                };
                self.world_id = w;
                self.stage = ModifyStage::AwaitWorld;
                ModifyAction::FindWorld { world_id: w }
            },
            ModifyEvent::World(None) => {
                self.stage = ModifyStage::Finished;
                reply_of(
                    error_packet(
                        self.request.sequence,
                        0,
                        0,
                        13001,
                        "World Does not exist or is inactive.",
                    ),
                )
            },
            ModifyEvent::World(Some(world)) => {
                self.world_name = world.name;
                let cmd = self.request.command;
                if cmd == CharacterModifyPacket::CMD_RESERVE {
                    self.stage = ModifyStage::AwaitReserve;
                    ModifyAction::Reserve {
                        user_id: session.current_user_id,
                        slot: self.request.slot as u16,
                        world_id: self.world_id,
                        name: self.request.character_name.clone(),
                    }
                } else if cmd == CharacterModifyPacket::CMD_MAKE {
                    match parse_new_char_request(self.request.character_info_encoded.as_str()) {
                        Ok(request) => {
                            self.stage = ModifyStage::AwaitMake;
                            ModifyAction::Make {
                                user_id: session.current_user_id,
                                cid: session.new_chara_cid,
                                request,
                            }
                        },
                        Err(e) => {
                            self.stage = ModifyStage::Finished;
                            ModifyAction::Fail(e)
                        },
                    }
                } else if cmd == CharacterModifyPacket::CMD_RENAME {
                    self.stage = ModifyStage::AwaitRename;
                    ModifyAction::Rename {
                        user_id: session.current_user_id,
                        character_id: self.request.character_id,
                        world_id: self.world_id,
                        name: self.request.character_name.clone(),
                    }
                } else if cmd == CharacterModifyPacket::CMD_DELETE {
                    self.stage = ModifyStage::AwaitDelete;
                    ModifyAction::Delete {
                        character_id: self.request.character_id,
                        name: self.request.character_name.clone(),
                    }
                } else {
                    self.stage = ModifyStage::Finished;
                    reply_of(
                        chara_creator_packet(
                            self.request.sequence,
                            cmd as u16,
                            0,
                            0,
                            1,
                            self.request.character_name.as_str(),
                            self.world_name.as_str(),
                        ),
                    )
                }
            },
            ModifyEvent::Reserved { taken, cid } => {
                self.stage = ModifyStage::Finished;
                if taken {
                    proof {
                        reveal_strlit("");
                    }
                    reply_of(error_packet(self.request.sequence, 1003, 0, 13005, ""))
                } else {
                    session.new_chara_cid = cid;
                    session.new_chara_slot = self.request.slot as u16;
                    session.new_chara_world_id = self.world_id;
                    session.new_chara_name = self.request.character_name.clone();
                    reply_of(
                        chara_creator_packet(
                            self.request.sequence,
                            self.request.command as u16,
                            0,
                            cid,
                            1,
                            self.request.character_name.as_str(),
                            self.world_name.as_str(),
                        ),
                    )
                }
            },
            ModifyEvent::Renamed { taken } => {
                self.stage = ModifyStage::Finished;
                if taken {
                    proof {
                        reveal_strlit("");
                    }
                    reply_of(error_packet(self.request.sequence, 1003, 0, 13005, ""))
                } else {
                    reply_of(
                        chara_creator_packet(
                            self.request.sequence,
                            self.request.command as u16,
                            0,
                            0,
                            1,
                            self.request.character_name.as_str(),
                            self.world_name.as_str(),
                        ),
                    )
                }
            },
            ModifyEvent::Done => {
                self.stage = ModifyStage::Finished;
                if stage == ModifyStage::AwaitMake {
                    reply_of(
                        chara_creator_packet(
                            self.request.sequence,
                            self.request.command as u16,
                            1,
                            session.new_chara_cid,
                            1,
                            session.new_chara_name.as_str(),
                            self.world_name.as_str(),
                        ),
                    )
                } else {
                    reply_of(
                        chara_creator_packet(
                            self.request.sequence,
                            self.request.command as u16,
                            0,
                            0,
                            1,
                            self.request.character_name.as_str(),
                            self.world_name.as_str(),
                        ),
                    )
                }
            },
        }
    }
}

/// The name of the last world of `worlds` with id `id`, if any (the
/// character list indexes worlds by id, a later entry replacing an
/// earlier one).
pub open spec fn world_name_by_id(worlds: Seq<World>, id: u16) -> Option<Seq<char>>
    decreases worlds.len(),
{
    if worlds.len() == 0 {
        None
    } else if worlds.last().id == id {
        Some(worlds.last().name@)
    } else {
        world_name_by_id(worlds.drop_last(), id)
    }
}

/// The name of the last world with id `id` (see [`world_name_by_id`]).
fn world_name_of(worlds: &[World], id: u16) -> (r: Option<String>)
    ensures
        match r {
            Some(n) => world_name_by_id(worlds@, id) == Some(n@),
            None => world_name_by_id(worlds@, id) is None,
        },
{
    let mut j: usize = worlds.len();
    let mut found: Option<String> = None;
    assert(worlds@.take(j as int) =~= worlds@);
    while j > 0 && found.is_none()
        invariant
            j <= worlds@.len(),
            found is None ==> world_name_by_id(worlds@, id) == world_name_by_id(
                worlds@.take(j as int),
                id,
            ),
            found matches Some(n) ==> world_name_by_id(worlds@, id) == Some(n@),
        decreases j + if found is None {
            1int
        } else {
            0int
        },
    {
        assert(worlds@.take(j as int).drop_last() =~= worlds@.take(j - 1));
        if worlds[j - 1].id == id {
            found = Some(worlds[j - 1].name.clone());
        } else {
            j = j - 1;
        }
    }
    proof {
        if found is None {
            assert(worlds@.take(0) =~= Seq::<World>::empty());
        }
    }
    found
}

/// The world name of each character by its server id (see
/// [`world_name_by_id`]), `None` where no world has that id.
pub fn world_names_for(characters: &[Character], worlds: &[World]) -> (r: Vec<Option<String>>)
    ensures
        r@.len() == characters@.len(),
        forall|i: int|
            0 <= i < characters@.len() ==> match #[trigger] r@[i] {
                Some(n) => world_name_by_id(worlds@, characters@[i].server_id) == Some(n@),
                None => world_name_by_id(worlds@, characters@[i].server_id) is None,
            },
{
    let mut r: Vec<Option<String>> = Vec::new();
    let mut i: usize = 0;
    while i < characters.len()
        invariant
            i <= characters@.len(),
            r@.len() == i,
            forall|k: int|
                0 <= k < i ==> match #[trigger] r@[k] {
                    Some(n) => world_name_by_id(worlds@, characters@[k].server_id) == Some(n@),
                    None => world_name_by_id(worlds@, characters@[k].server_id) is None,
                },
        decreases characters@.len() - i,
    {
        let name = world_name_of(worlds, characters[i].server_id);
        r.push(name);
        i = i + 1;
    }
    r
}

} // verus!
