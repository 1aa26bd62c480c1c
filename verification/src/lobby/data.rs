//! Lobby records and the bit layout of a character's face.

use vstd::prelude::*;
use crate::bitfield::field_offset;
use crate::bitfield::fields_start_within;
use crate::bitfield::mask32;
use crate::bitfield::pack_u32;
use crate::bitfield::packed32;

verus! {

/// A service account.
#[derive(Debug, Clone, Default)]
pub struct Account {
    pub id: u32,
    pub name: String,
}

/// A world as the lobby lists it.
#[derive(Debug, Clone)]
pub struct World {
    pub id: u16,
    pub address: String,
    pub port: u16,
    pub list_position: u16,
    pub population: u16,
    pub name: String,
    pub is_active: bool,
}

/// A retainer of a character.
#[derive(Debug, Clone)]
pub struct Retainer {
    pub id: u32,
    pub character_id: u32,
    pub name: String,
    pub do_rename: bool,
}

/// A character row as the lobby reads it.
#[derive(Debug, Clone, Default)]
pub struct Character {
    pub id: u32,
    pub slot: u16,
    pub server_id: u16,
    pub name: String,
    pub state: u16,
    pub is_legacy: bool,
    pub do_rename: bool,
    pub current_zone_id: u32,
    pub guardian: u8,
    pub birth_month: u8,
    pub birth_day: u8,
    pub current_class: u32,
    pub current_job: u32,
    pub current_level: i32,
    pub initial_town: u8,
    pub tribe: u8,
}

/// A character's appearance: body, face, hair and equipped models.
#[derive(Debug, Clone, Copy, Default)]
pub struct Appearance {
    pub size: u8,
    pub voice: u8,
    pub skin_color: u16,
    pub hair_style: u16,
    pub hair_color: u16,
    pub hair_highlight_color: u16,
    pub hair_variation: u16,
    pub eye_color: u16,
    pub characteristics_color: u8,
    pub face_type: u8,
    pub face_eyebrows: u8,
    pub face_eye_shape: u8,
    pub face_iris_size: u8,
    pub face_nose: u8,
    pub face_mouth: u8,
    pub face_features: u8,
    pub characteristics: u8,
    pub ears: u8,
    pub main_hand: u32,
    pub off_hand: u32,
    pub head: u32,
    pub body: u32,
    pub legs: u32,
    pub hands: u32,
    pub feet: u32,
    pub waist: u32,
    pub neck: u32,
    pub right_ear: u32,
    pub left_ear: u32,
    pub right_index: u32,
    pub left_index: u32,
    pub right_finger: u32,
    pub left_finger: u32,
}

/// A character's face features, packed LSB-first into one word with the
/// widths 5, 3, 6, 2, 2, 2, 3, 3, 1, 3, 2.
#[derive(Debug, Clone, Copy, Default)]
pub struct FaceInfo {
    pub characteristics: u32,
    pub characteristics_color: u32,
    pub face_type: u32,
    pub ears: u32,
    pub mouth: u32,
    pub features: u32,
    pub nose: u32,
    pub eye_shape: u32,
    pub iris_size: u32,
    pub eyebrows: u32,
    pub unknown: u32,
}

/// The packed face word: each field cut to its width and placed after the
/// ones before it.
pub open spec fn face_word(f: FaceInfo) -> u32 {
    (f.characteristics & 0x1F) | ((f.characteristics_color & 0x7) << 5u32) | ((f.face_type & 0x3F)
        << 8u32) | ((f.ears & 0x3) << 14u32) | ((f.mouth & 0x3) << 16u32) | ((f.features & 0x3)
        << 18u32) | ((f.nose & 0x7) << 20u32) | ((f.eye_shape & 0x7) << 23u32) | ((f.iris_size
        & 0x1) << 26u32) | ((f.eyebrows & 0x7) << 27u32) | ((f.unknown & 0x3) << 30u32)
}

impl FaceInfo {
    /// The packed face word (see [`face_word`]).
    pub fn to_u32(self) -> (r: u32)
        ensures
            r == face_word(self),
    {
        let fields: [(u32, u8); 11] = [
            (self.characteristics, 5),
            (self.characteristics_color, 3),
            (self.face_type, 6),
            (self.ears, 2),
            (self.mouth, 2),
            (self.features, 2),
            (self.nose, 3),
            (self.eye_shape, 3),
            (self.iris_size, 1),
            (self.eyebrows, 3),
            (self.unknown, 2),
        ];
        let s = fields.as_slice();
        proof {
            let f = s@;
            assert(field_offset(f, 0) == 0);
            assert(field_offset(f, 1) == 5);
            assert(field_offset(f, 2) == 8);
            assert(field_offset(f, 3) == 14);
            assert(field_offset(f, 4) == 16);
            assert(field_offset(f, 5) == 18);
            assert(field_offset(f, 6) == 20);
            assert(field_offset(f, 7) == 23);
            assert(field_offset(f, 8) == 26);
            assert(field_offset(f, 9) == 27);
            assert(field_offset(f, 10) == 30);
            assert(mask32(5) == 0x1F && mask32(3) == 0x7 && mask32(6) == 0x3F && mask32(2) == 0x3
                && mask32(1) == 0x1) by (bit_vector);
            assert(packed32(f, 0) == 0);
            let c = self.characteristics;
            assert(0u32 | ((c & 0x1F) << 0u32) == c & 0x1F) by (bit_vector);
            assert(packed32(f, 11) == face_word(self)) by {
                reveal_with_fuel(packed32, 12);
            }
        }
        pack_u32(s)
    }
}

/// The body model of a tribe; unknown tribes use the Midlander male model.
pub open spec fn tribe_model(tribe: u8) -> u32 {
    if tribe == 2 {
        2
    } else if tribe == 4 || tribe == 6 {
        3
    } else if tribe == 5 || tribe == 7 {
        4
    } else if tribe == 8 || tribe == 10 {
        5
    } else if tribe == 9 || tribe == 11 {
        6
    } else if tribe == 12 || tribe == 13 {
        8
    } else if tribe == 14 || tribe == 15 {
        7
    } else if tribe == 3 {
        9
    } else {
        1
    }
}

/// The body model of a tribe (see [`tribe_model`]).
pub fn get_tribe_model(tribe: u8) -> (r: u32)
    ensures
        r == tribe_model(tribe),
{
    match tribe {
        2 => 2,
        4 | 6 => 3,
        5 | 7 => 4,
        8 | 10 => 5,
        9 | 11 => 6,
        12 | 13 => 8,
        14 | 15 => 7,
        3 => 9,
        _ => 1,
    }
}

} // verus!
