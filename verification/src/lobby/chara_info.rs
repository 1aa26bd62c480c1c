//! The character appearance blob of the character list, and the new
//! character request the creator sends, both carried as URL-safe base64.

use base64::Engine;
use base64::engine::general_purpose::STANDARD as BASE64_STANDARD;
use vstd::prelude::*;
use vstd::string::StringSliceAdditionalSpecFns;
use vstd::utf8::encode_utf8;
use crate::bytes::push_u16_le;
use crate::bytes::push_u32_le;
use crate::bytes::read_u16_le;
use crate::bytes::u16_at;
use crate::bytes::u16_le;
use crate::bytes::u32_le;
use crate::lobby::data::Appearance;
use crate::lobby::data::Character;
use crate::lobby::data::FaceInfo;
use crate::lobby::data::face_word;
use crate::lobby::data::get_tribe_model;
use crate::lobby::data::tribe_model;
use crate::text::chars_of;
use crate::text::lemma_trim_end_take;
use crate::text::push_chars;
use crate::text::trim_end_by;

verus! {

/// The character of the standard base64 alphabet for the 6-bit value `v`:
/// `A`-`Z`, `a`-`z`, `0`-`9`, `+`, `/`.
pub open spec fn base64_digit(v: int) -> char {
    if v < 26 {
        ('A' as int + v) as char
    } else if v < 52 {
        ('a' as int + v - 26) as char
    } else if v < 62 {
        ('0' as int + v - 52) as char
    } else if v == 62 {
        '+'
    } else {
        '/'
    }
}

/// Padded standard base64: each group of three bytes becomes four
/// characters of six bits each, most significant first; a final group of
/// one or two bytes is zero-filled and its missing characters are `=`.
pub open spec fn base64_standard(bytes: Seq<u8>) -> Seq<char>
    decreases bytes.len(),
{
    if bytes.len() == 0 {
        Seq::empty()
    } else if bytes.len() == 1 {
        seq![base64_digit((bytes[0] as int) / 4), base64_digit(((bytes[0] as int) % 4) * 16), '=', '=']
    } else if bytes.len() == 2 {
        seq![
            base64_digit((bytes[0] as int) / 4),
            base64_digit(((bytes[0] as int) % 4) * 16 + (bytes[1] as int) / 16),
            base64_digit(((bytes[1] as int) % 16) * 4),
            '=',
        ]
    } else {
        seq![
            base64_digit((bytes[0] as int) / 4),
            base64_digit(((bytes[0] as int) % 4) * 16 + (bytes[1] as int) / 16),
            base64_digit(((bytes[1] as int) % 16) * 4 + (bytes[2] as int) / 64),
            base64_digit((bytes[2] as int) % 64),
        ] + base64_standard(bytes.skip(3))
    }
}

/// What `base64`'s standard engine decodes text to (`None` when it
/// rejects the text).
pub uninterp spec fn base64_standard_decoded(text: Seq<u8>) -> Option<Seq<u8>>;

#[verifier::external_type_specification]
#[verifier::external_body]
pub struct ExDecodeError(base64::DecodeError);

/// A character of the standard base64 alphabet or its padding.
pub open spec fn is_base64_char(c: char) -> bool {
    ('A' <= c && c <= 'Z') || ('a' <= c && c <= 'z') || ('0' <= c && c <= '9') || c == '+' || c
        == '/' || c == '='
}

/// Every character of [`base64_standard`] text is of the alphabet or
/// padding, four per started group of three bytes.
proof fn lemma_base64_standard_shape(bytes: Seq<u8>)
    ensures
        base64_standard(bytes).len() == 4 * ((bytes.len() + 2) / 3),
        forall|i: int|
            0 <= i < base64_standard(bytes).len() ==> is_base64_char(#[trigger] base64_standard(bytes)[i]),
    decreases bytes.len(),
{
    if bytes.len() >= 3 {
        lemma_base64_standard_shape(bytes.skip(3));
        let t = base64_standard(bytes.skip(3));
        let h = seq![
            base64_digit((bytes[0] as int) / 4),
            base64_digit(((bytes[0] as int) % 4) * 16 + (bytes[1] as int) / 16),
            base64_digit(((bytes[1] as int) % 16) * 4 + (bytes[2] as int) / 64),
            base64_digit((bytes[2] as int) % 64),
        ];
        assert(base64_standard(bytes) == h + t);
        assert forall|i: int| 0 <= i < (h + t).len() implies is_base64_char(#[trigger] (h + t)[i]) by {
            if i >= 4 {
                assert((h + t)[i] == t[i - 4]);
            }
        }
    }
}

/// `STANDARD.encode`: padded standard base64 (see [`base64_standard`]).
#[verifier::external_body]
fn base64_encode(bytes: &[u8]) -> (r: String)
    requires
        bytes@.len() <= 0x3000_0000,
    ensures
        r@ == base64_standard(bytes@),
{
    BASE64_STANDARD.encode(bytes)
}

/// `STANDARD.decode`: the bytes standard base64 text stands for, or the
/// crate's error.
#[verifier::external_body]
fn base64_decode(text: &[u8]) -> (r: Result<Vec<u8>, base64::DecodeError>)
    ensures
        match r {
            Ok(v) => base64_standard_decoded(text@) == Some(v@),
            Err(_) => base64_standard_decoded(text@) is None,
        },
{
    BASE64_STANDARD.decode(text)
}

/// The URL-safe spelling of a base64 character.
pub open spec fn url_safe_char(c: char) -> char {
    if c == '+' {
        '-'
    } else if c == '/' {
        '_'
    } else {
        c
    }
}

/// The standard spelling of a URL-safe base64 character.
pub open spec fn standard_char(c: char) -> char {
    if c == '-' {
        '+'
    } else if c == '_' {
        '/'
    } else {
        c
    }
}

/// The face word of an appearance.
pub open spec fn appearance_face(a: Appearance) -> FaceInfo {
    FaceInfo {
        characteristics: a.characteristics as u32,
        characteristics_color: a.characteristics_color as u32,
        face_type: a.face_type as u32,
        ears: a.ears as u32,
        features: a.face_features as u32,
        eyebrows: a.face_eyebrows as u32,
        eye_shape: a.face_eye_shape as u32,
        iris_size: a.face_iris_size as u32,
        mouth: a.face_mouth as u32,
        nose: a.face_nose as u32,
        unknown: 0,
    }
}

/// `n` zero bytes.
pub open spec fn zeros(n: nat) -> Seq<u8> {
    Seq::new(n, |i: int| 0u8)
}

/// The bytes of `"prv0Inn01"` and `"defaultTerritory"`, each with its NUL.
pub open spec fn inn_location() -> Seq<u8> {
    seq![0x70u8, 0x72, 0x76, 0x30, 0x49, 0x6E, 0x6E, 0x30, 0x31, 0x00]
}

pub open spec fn default_territory() -> Seq<u8> {
    seq![
        0x64u8, 0x65, 0x66, 0x61, 0x75, 0x6C, 0x74, 0x54, 0x65, 0x72, 0x72, 0x69, 0x74, 0x6F, 0x72,
        0x79, 0x00,
    ]
}

/// The head of the appearance blob: fixed words, the name with its NUL,
/// tribe model, size, packed colours, face and hair, voice and weapons.
pub open spec fn blob_head(c: Character, a: Appearance) -> Seq<u8> {
    let name = encode_utf8(c.name@).push(0);
    let color = (a.skin_color as u32) | ((a.hair_color as u32) << 10u32) | ((a.eye_color as u32)
        << 20u32);
    let hair = (a.hair_highlight_color as u32) | ((a.hair_variation as u32) << 5u32) | ((
    a.hair_style as u32) << 10u32);
    u32_le(0x4c0) + u32_le(0x232327ea) + u32_le(name.len() as u32) + name + u32_le(0x1c) + u32_le(
        4,
    ) + u32_le(tribe_model(c.tribe)) + u32_le(a.size as u32) + u32_le(color) + u32_le(
        face_word(appearance_face(a)),
    ) + u32_le(hair) + u32_le(a.voice as u32) + u32_le(a.main_hand) + u32_le(a.off_hand)
}

/// The equipment part of the blob: five empty words and the thirteen
/// equipped models.
pub open spec fn blob_gear(a: Appearance) -> Seq<u8> {
    zeros(20) + u32_le(a.head) + u32_le(a.body) + u32_le(a.legs) + u32_le(a.hands) + u32_le(
        a.feet,
    ) + u32_le(a.waist) + u32_le(a.neck) + u32_le(a.right_ear) + u32_le(a.left_ear) + u32_le(
        a.right_index,
    ) + u32_le(a.left_index) + u32_le(a.right_finger) + u32_le(a.left_finger)
}

/// The tail of the blob: class, level and job, tribe, the two location
/// names, birthday, and the initial town twice.
pub open spec fn blob_tail(c: Character) -> Seq<u8> {
    zeros(8) + u32_le(1) + u32_le(1) + seq![c.current_class as u8] + u16_le(
        c.current_level as u16,
    ) + seq![c.current_job as u8] + u16_le(1) + seq![c.tribe] + u32_le(0xe22222aa) + u32_le(10)
        + inn_location() + u32_le(17) + default_territory() + seq![
        c.guardian,
        c.birth_month,
        c.birth_day,
    ] + u16_le(0x17) + u32_le(4) + u32_le(4) + zeros(16) + u32_le(c.initial_town as u32) + u32_le(
        c.initial_town as u32,
    )
}

/// The appearance blob of a character before padding.
pub open spec fn chara_blob(c: Character, a: Appearance) -> Seq<u8> {
    blob_head(c, a) + blob_gear(a) + blob_tail(c)
}

/// The smallest of 256, 512, 1024, ... that holds `len` bytes.
pub open spec fn blob_capacity(len: nat, cap: nat) -> nat
    decreases 2 * len - cap,
{
    if cap == 0 || cap >= len {
        cap
    } else {
        blob_capacity(len, cap * 2)
    }
}

/// The blob padded with zeros to its capacity.
pub open spec fn padded_blob(c: Character, a: Appearance) -> Seq<u8> {
    let b = chara_blob(c, a);
    b + zeros((blob_capacity(b.len(), 256) - b.len()) as nat)
}

/// The character-list appearance text: the padded blob in standard base64
/// with `+` and `/` spelled `-` and `_`.
pub open spec fn chara_list_text(c: Character, a: Appearance) -> Seq<char> {
    base64_standard(padded_blob(c, a)).map_values(|ch: char| url_safe_char(ch))
}

fn push_bytes(out: &mut Vec<u8>, bytes: &[u8])
    ensures
        final(out)@ == old(out)@ + bytes@,
{
    let ghost start = out@;
    let mut i: usize = 0;
    while i < bytes.len()
        invariant
            i <= bytes@.len(),
            out@ == start + bytes@.take(i as int),
        decreases bytes@.len() - i,
    {
        out.push(bytes[i]);
        i = i + 1;
        assert(out@ =~= start + bytes@.take(i as int));
    }
    assert(bytes@.take(bytes@.len() as int) =~= bytes@);
}

fn push_zeros(out: &mut Vec<u8>, n: usize)
    ensures
        final(out)@ == old(out)@ + zeros(n as nat),
{
    let ghost start = out@;
    let mut i: usize = 0;
    while i < n
        invariant
            i <= n,
            out@ == start + zeros(i as nat),
        decreases n - i,
    {
        out.push(0);
        i = i + 1;
        assert(out@ =~= start + zeros(i as nat));
    }
}

fn push_blob_head(b: &mut Vec<u8>, chara: &Character, a: &Appearance)
    requires
        encode_utf8(chara.name@).len() < 0x1000_0000,
    ensures
        final(b)@ == old(b)@ + blob_head(*chara, *a),
{
    let ghost start = b@;
    let face = FaceInfo {
        characteristics: a.characteristics as u32,
        characteristics_color: a.characteristics_color as u32,
        face_type: a.face_type as u32,
        ears: a.ears as u32,
        features: a.face_features as u32,
        eyebrows: a.face_eyebrows as u32,
        eye_shape: a.face_eye_shape as u32,
        iris_size: a.face_iris_size as u32,
        mouth: a.face_mouth as u32,
        nose: a.face_nose as u32,
        unknown: 0,
    };
    let name = chara.name.as_str().as_bytes();
    push_u32_le(b, 0x4c0);
    push_u32_le(b, 0x232327ea);
    push_u32_le(b, (name.len() + 1) as u32);
    push_bytes(b, name);
    b.push(0);
    push_u32_le(b, 0x1c);
    push_u32_le(b, 4);
    push_u32_le(b, get_tribe_model(chara.tribe));
    push_u32_le(b, a.size as u32);
    let color = (a.skin_color as u32) | ((a.hair_color as u32) << 10) | ((a.eye_color as u32) << 20);
    push_u32_le(b, color);
    push_u32_le(b, face.to_u32());
    let hair = (a.hair_highlight_color as u32) | ((a.hair_variation as u32) << 5) | ((
    a.hair_style as u32) << 10);
    push_u32_le(b, hair);
    push_u32_le(b, a.voice as u32);
    push_u32_le(b, a.main_hand);
    push_u32_le(b, a.off_hand);
    proof {
        assert(face == appearance_face(*a));
        assert(encode_utf8(chara.name@).push(0).len() == name@.len() + 1);
    }
    assert(b@ =~= start + blob_head(*chara, *a));
}

fn push_blob_gear(b: &mut Vec<u8>, a: &Appearance)
    ensures
        final(b)@ == old(b)@ + blob_gear(*a),
{
    let ghost start = b@;
    push_zeros(b, 20);
    push_u32_le(b, a.head);
    push_u32_le(b, a.body);
    push_u32_le(b, a.legs);
    push_u32_le(b, a.hands);
    push_u32_le(b, a.feet);
    push_u32_le(b, a.waist);
    push_u32_le(b, a.neck);
    push_u32_le(b, a.right_ear);
    push_u32_le(b, a.left_ear);
    push_u32_le(b, a.right_index);
    push_u32_le(b, a.left_index);
    push_u32_le(b, a.right_finger);
    push_u32_le(b, a.left_finger);
    assert(b@ =~= start + blob_gear(*a));
}

fn push_locations(b: &mut Vec<u8>)
    ensures
        final(b)@ == old(b)@ + u32_le(10) + inn_location() + u32_le(17) + default_territory(),
{
    let ghost start = b@;
    push_u32_le(b, 10);
    b.push(0x70);
    b.push(0x72);
    b.push(0x76);
    b.push(0x30);
    b.push(0x49);
    b.push(0x6E);
    b.push(0x6E);
    b.push(0x30);
    b.push(0x31);
    b.push(0x00);
    push_u32_le(b, 17);
    b.push(0x64);
    b.push(0x65);
    b.push(0x66);
    b.push(0x61);
    b.push(0x75);
    b.push(0x6C);
    b.push(0x74);
    b.push(0x54);
    b.push(0x65);
    b.push(0x72);
    b.push(0x72);
    b.push(0x69);
    b.push(0x74);
    b.push(0x6F);
    b.push(0x72);
    b.push(0x79);
    b.push(0x00);
    assert(b@ =~= start + u32_le(10) + inn_location() + u32_le(17) + default_territory());
}

fn push_blob_tail(b: &mut Vec<u8>, chara: &Character)
    ensures
        final(b)@ == old(b)@ + blob_tail(*chara),
{
    let ghost start = b@;
    push_zeros(b, 8);
    push_u32_le(b, 1);
    push_u32_le(b, 1);
    b.push(chara.current_class as u8);
    push_u16_le(b, chara.current_level as u16);
    b.push(chara.current_job as u8);
    push_u16_le(b, 1);
    b.push(chara.tribe);
    push_u32_le(b, 0xe22222aa);
    push_locations(b);
    b.push(chara.guardian);
    b.push(chara.birth_month);
    b.push(chara.birth_day);
    push_u16_le(b, 0x17);
    push_u32_le(b, 4);
    push_u32_le(b, 4);
    push_zeros(b, 16);
    push_u32_le(b, chara.initial_town as u32);
    push_u32_le(b, chara.initial_town as u32);
    assert(b@ =~= start + blob_tail(*chara));
}

fn blob_bytes(chara: &Character, a: &Appearance) -> (r: Vec<u8>)
    requires
        encode_utf8(chara.name@).len() < 0x1000_0000,
    ensures
        r@ == chara_blob(*chara, *a),
        r@.len() < 0x1000_0000 + 0x100,
{
    let mut b: Vec<u8> = Vec::new();
    push_blob_head(&mut b, chara, a);
    push_blob_gear(&mut b, a);
    push_blob_tail(&mut b, chara);
    assert(b@ =~= chara_blob(*chara, *a));
    b
}

/// The zone a new character starts in, by its starting town: Limsa
/// Lominsa (1) in zone 193, Gridania (2) in 166, Ul'dah (3) in 184; any
/// other town leaves the zone unset.
pub open spec fn starting_zone(initial_town: u32) -> Option<u16> {
    if initial_town == 1 {
        Some(193u16)
    } else if initial_town == 2 {
        Some(166u16)
    } else if initial_town == 3 {
        Some(184u16)
    } else {
        None
    }
}

/// The zone a new character starts in (see [`starting_zone`]).
pub fn starting_zone_id(initial_town: u32) -> (r: Option<u16>)
    ensures
        r == starting_zone(initial_town),
{
    match initial_town {
        1 => Some(193),
        2 => Some(166),
        3 => Some(184),
        _ => None,
    }
}

/// Whether a character's appearance blob fits the character-list slot
/// `slot`: the blob is 224 bytes plus the UTF-8 name, and may take 512
/// bytes in the first slot of a page (its entry may run on into the second
/// slot) and 256 in the second (the name at most 288 or 32 bytes).
pub fn chara_blob_fits(chara: &Character, appearance: &Appearance, slot: usize) -> (r: bool)
    ensures
        r == (chara_blob(*chara, *appearance).len() <= if slot % 2 == 0 {
            512int
        } else {
            256int
        }),
{
    let bytes = chara.name.as_str().as_bytes();
    let n = bytes.len();
    assert(chara_blob(*chara, *appearance).len() == 224 + encode_utf8(chara.name@).len());
    if slot % 2 == 0 {
        n <= 288
    } else {
        n <= 32
    }
}

/// The character-list appearance text of a character (see
/// [`chara_list_text`]).
pub fn build_for_chara_list(chara: &Character, appearance: &Appearance) -> (r: String)
    requires
        encode_utf8(chara.name@).len() < 0x1000_0000,
    ensures
        r@ == chara_list_text(*chara, *appearance),
        r@.len() == 4 * ((padded_blob(*chara, *appearance).len() + 2) / 3),
        vstd::utf8::is_ascii_chars(r@),
{
    let mut buf = blob_bytes(chara, appearance);
    let ghost blob = buf@;
    let mut capacity: usize = 256;
    while capacity < buf.len()
        invariant
            buf@ == blob,
            blob.len() < 0x1000_0000 + 0x100,
            256 <= capacity,
            capacity <= 2 * blob.len() + 256,
            blob_capacity(blob.len(), capacity as nat) == blob_capacity(blob.len(), 256),
        decreases 0x4000_0000 - capacity,
    {
        capacity = capacity * 2;
    }
    let pad = capacity - buf.len();
    push_zeros(&mut buf, pad);
    assert(buf@ =~= padded_blob(*chara, *appearance));
    let encoded = base64_encode(buf.as_slice());
    proof {
        lemma_base64_standard_shape(buf@);
    }
    let r = to_url_safe(encoded.as_str());
    assert forall|i: int| 0 <= i < r@.len() implies '\0' <= #[trigger] r@[i] <= '\u{7f}' by {
        assert(is_base64_char(encoded@[i]));
    }
    r
}

/// Respells standard base64 text in the URL-safe alphabet: `+` as `-` and
/// `/` as `_`.
pub fn to_url_safe(standard: &str) -> (r: String)
    ensures
        r@ == standard@.map_values(|ch: char| url_safe_char(ch)),
{
    let chars = chars_of(standard);
    let mut safe: Vec<char> = Vec::new();
    let mut i: usize = 0;
    while i < chars.len()
        invariant
            i <= chars@.len(),
            safe@ == chars@.take(i as int).map_values(|ch: char| url_safe_char(ch)),
        decreases chars@.len() - i,
    {
        let c = chars[i];
        safe.push(
            if c == '+' {
                '-'
            } else if c == '/' {
                '_'
            } else {
                c
            },
        );
        i = i + 1;
        assert(safe@ =~= chars@.take(i as int).map_values(|ch: char| url_safe_char(ch)));
    }
    assert(chars@.take(chars@.len() as int) =~= chars@);
    let mut out = String::new();
    push_chars(&mut out, &safe, safe.len());
    assert(safe@.take(safe@.len() as int) =~= safe@);
    out
}

/// What the character creator asks for: appearance, guardian, birthday,
/// starting class and town, and tribe.
#[derive(Debug, Clone, Copy)]
pub struct NewCharaRequest {
    pub appearance: Appearance,
    pub guardian: u32,
    pub birth_month: u32,
    pub birth_day: u32,
    pub current_class: u32,
    pub initial_town: u32,
    pub tribe: u32,
}

/// Why a new character request could not be read.
#[derive(Debug)]
pub enum CharaRequestError {
    /// The text is not standard base64 (after the URL-safe characters are
    /// respelled).
    BadBase64(base64::DecodeError),
    /// The decoded bytes end before the last field.
    Truncated { have: usize },
}

/// Bytes a new character request must decode to.
pub const NEW_CHARA_REQUEST_LEN: usize = 73;

/// The request the decoded bytes `d` (at least 73 of them) describe.
pub open spec fn request_fields(r: NewCharaRequest, d: Seq<u8>) -> bool {
    let a = r.appearance;
    &&& r.tribe == d[8] as u32
    &&& a.size == d[9]
    &&& a.hair_style == u16_at(d, 10)
    &&& a.hair_highlight_color == d[12] as u16
    &&& a.hair_variation == d[13] as u16
    &&& a.face_type == d[14]
    &&& a.characteristics == d[15]
    &&& a.characteristics_color == d[16]
    &&& a.face_eyebrows == d[21]
    &&& a.face_iris_size == d[22]
    &&& a.face_eye_shape == d[23]
    &&& a.face_nose == d[24]
    &&& a.face_features == d[25]
    &&& a.face_mouth == d[26]
    &&& a.ears == d[27]
    &&& a.hair_color == u16_at(d, 28)
    &&& a.skin_color == u16_at(d, 34)
    &&& a.eye_color == u16_at(d, 36)
    &&& a.voice == d[38]
    &&& r.guardian == d[39] as u32
    &&& r.birth_month == d[40] as u32
    &&& r.birth_day == d[41] as u32
    &&& r.current_class == u16_at(d, 42) as u32
    &&& r.initial_town == d[72] as u32
    &&& a.main_hand == 0 && a.off_hand == 0 && a.head == 0 && a.body == 0 && a.legs == 0
    &&& a.hands == 0 && a.feet == 0 && a.waist == 0 && a.neck == 0 && a.right_ear == 0
    &&& a.left_ear == 0 && a.right_index == 0 && a.left_index == 0 && a.right_finger == 0
    &&& a.left_finger == 0
}

/// The base64 text a request string carries: URL-safe characters
/// respelled as standard ones, trailing NULs dropped, as UTF-8 bytes.
pub open spec fn request_base64(encoded: Seq<char>) -> Seq<u8> {
    encode_utf8(
        trim_end_by(encoded.map_values(|c: char| standard_char(c)), |c: char| c == '\0'),
    )
}

fn request_from(d: &[u8]) -> (r: NewCharaRequest)
    requires
        d@.len() >= NEW_CHARA_REQUEST_LEN,
    ensures
        request_fields(r, d@),
{
    let appearance = Appearance {
        size: d[9],
        voice: d[38],
        skin_color: read_u16_le(d, 34),
        hair_style: read_u16_le(d, 10),
        hair_color: read_u16_le(d, 28),
        hair_highlight_color: d[12] as u16,
        hair_variation: d[13] as u16,
        eye_color: read_u16_le(d, 36),
        characteristics_color: d[16],
        face_type: d[14],
        face_eyebrows: d[21],
        face_eye_shape: d[23],
        face_iris_size: d[22],
        face_nose: d[24],
        face_mouth: d[26],
        face_features: d[25],
        characteristics: d[15],
        ears: d[27],
        main_hand: 0,
        off_hand: 0,
        head: 0,
        body: 0,
        legs: 0,
        hands: 0,
        feet: 0,
        waist: 0,
        neck: 0,
        right_ear: 0,
        left_ear: 0,
        right_index: 0,
        left_index: 0,
        right_finger: 0,
        left_finger: 0,
    };
    NewCharaRequest {
        appearance,
        guardian: d[39] as u32,
        birth_month: d[40] as u32,
        birth_day: d[41] as u32,
        current_class: read_u16_le(d, 42) as u32,
        initial_town: d[72] as u32,
        tribe: d[8] as u32,
    }
}

/// Whether `req` is what [`parse_new_char_request`] reads from `encoded`.
pub open spec fn parse_new_char_request_ok(encoded: Seq<char>, req: NewCharaRequest) -> bool {
    match base64_standard_decoded(request_base64(encoded)) {
        Some(d) => d.len() >= NEW_CHARA_REQUEST_LEN && request_fields(req, d),
        None => false,
    }
}

/// Whether `e` is the error [`parse_new_char_request`] gives for `encoded`.
pub open spec fn parse_new_char_request_err(encoded: Seq<char>, e: CharaRequestError) -> bool {
    match base64_standard_decoded(request_base64(encoded)) {
        None => e is BadBase64,
        Some(d) => d.len() < NEW_CHARA_REQUEST_LEN && (e matches CharaRequestError::Truncated {
            have,
        } && have == d.len()),
    }
}

/// Reads a new character request: the URL-safe base64 text (trailing NULs
/// ignored) must decode to at least 73 bytes.
pub fn parse_new_char_request(encoded: &str) -> (r: Result<NewCharaRequest, CharaRequestError>)
    ensures
        match base64_standard_decoded(request_base64(encoded@)) {
            None => r matches Err(CharaRequestError::BadBase64(_)),
            Some(d) => if d.len() < NEW_CHARA_REQUEST_LEN {
                r matches Err(CharaRequestError::Truncated { have }) && have == d.len()
            } else {
                r matches Ok(req) && request_fields(req, d)
            },
        },
{
    let chars = chars_of(encoded);
    let mut canonical: Vec<char> = Vec::new();
    let mut i: usize = 0;
    while i < chars.len()
        invariant
            i <= chars@.len(),
            canonical@ == chars@.take(i as int).map_values(|c: char| standard_char(c)),
        decreases chars@.len() - i,
    {
        let c = chars[i];
        canonical.push(
            if c == '-' {
                '+'
            } else if c == '_' {
                '/'
            } else {
                c
            },
        );
        i = i + 1;
        assert(canonical@ =~= chars@.take(i as int).map_values(|c: char| standard_char(c)));
    }
    assert(chars@.take(chars@.len() as int) =~= chars@);
    let mut m = canonical.len();
    while m > 0 && canonical[m - 1] == '\0'
        invariant
            m <= canonical@.len(),
            forall|k: int| m <= k < canonical@.len() ==> canonical@[k] == '\0',
        decreases m,
    {
        m = m - 1;
    }
    proof {
        lemma_trim_end_take(canonical@, |c: char| c == '\0', m as int);
    }
    let mut trimmed = String::new();
    push_chars(&mut trimmed, &canonical, m);
    let text = trimmed.as_str().as_bytes();
    match base64_decode(text) {
        Err(e) => Err(CharaRequestError::BadBase64(e)),
        Ok(d) => read_new_chara_request(d.as_slice()),
    }
}

/// Reads a request from its decoded bytes: the fields when there are at
/// least 73 bytes, `Truncated` otherwise.
pub fn read_new_chara_request(d: &[u8]) -> (r: Result<NewCharaRequest, CharaRequestError>)
    ensures
        d@.len() < NEW_CHARA_REQUEST_LEN ==> (r matches Err(CharaRequestError::Truncated { have })
            && have == d@.len()),
        d@.len() >= NEW_CHARA_REQUEST_LEN ==> (r matches Ok(req) && request_fields(req, d@)),
{
    if d.len() < NEW_CHARA_REQUEST_LEN {
        Err(CharaRequestError::Truncated { have: d.len() })
    } else {
        Ok(request_from(d))
    }
}
} // verus!
