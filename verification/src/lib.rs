//! Verified core of a collaborative map editor: pattern search in game
//! memory, hook code generation, model resolution and the server's command
//! decisions.
pub mod pattern;
pub mod code;
pub mod os;
pub mod hook;
pub mod game_hook;
pub mod folders;
pub mod classes;
pub mod fns;
pub mod desc;
pub mod load;
pub mod connection;
pub mod server;
pub mod base64;
pub mod poll;
pub mod text;
