//! Lobby server logic: account, world, retainer and character records, the
//! appearance blob of the character list, the list packets the client
//! pages through, and the session cipher key.

pub mod data;
pub mod receive;
pub mod processor;
pub mod chara_info;
pub mod send;
pub mod config;
