//! Combat state: enmity, hit effects and the battle lookup tables.

pub mod hate;
pub mod effects;
pub mod command;
pub mod controller;
pub mod path_find;
pub mod target_find;
pub mod state;
pub mod traits;
pub mod utils;
pub mod ai_container;
pub mod outbox;
