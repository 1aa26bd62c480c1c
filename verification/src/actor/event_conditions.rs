//! Event conditions an actor reacts to: talking, noticing, emotes and
//! push boxes.

use vstd::prelude::*;

verus! {

/// Talking to the actor starts the named event.
#[derive(Debug, Clone, Default)]
pub struct TalkCondition {
    pub condition_name: String,
    pub unknown1: u8,
    pub is_disabled: bool,
}

/// The actor notices the player and starts the named event.
#[derive(Debug, Clone, Default)]
pub struct NoticeCondition {
    pub condition_name: String,
    pub unknown1: u8,
    pub unknown2: u8,
}

/// An emote at the actor starts the named event.
#[derive(Debug, Clone, Default)]
pub struct EmoteCondition {
    pub condition_name: String,
    pub unknown1: u8,
    pub unknown2: u8,
    pub emote_id: u32,
}

/// Walking into a background object's box starts the named event.
#[derive(Debug, Clone, Default)]
pub struct PushBoxCondition {
    pub condition_name: String,
    pub react_name: String,
    pub bg_obj: u32,
    pub layout: u32,
    pub outwards: bool,
    pub silent: bool,
}

} // verus!
