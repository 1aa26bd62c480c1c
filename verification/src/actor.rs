//! Actor state: quests, grand companies, player helpers, modifiers and
//! event conditions.

pub mod quest;
pub mod gc;
pub mod chara;
pub mod event_conditions;
pub mod player;
pub mod modifier;
pub mod aetheryte;
