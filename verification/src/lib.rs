//! Shared protocol primitives and game-state logic for a FINAL FANTASY XIV
//! v1.23b server: wire formats, the lobby cipher, quest and combat state.

pub mod bitfield;
pub mod bitstream;
pub mod bytes;
pub mod blowfish;
pub mod blowfish_tables;
pub mod blowfish_key;
pub mod error;
pub mod subpacket;
pub mod utils;
pub mod zlib;
pub mod packet;
pub mod text;
pub mod packet_log;
pub mod luaparam;
pub mod server_list;
pub mod actor;
pub mod achievement;
pub mod director;
pub mod lobby;
pub mod map_config;
pub mod battle;
pub mod hash_table;
pub mod ini;
