//! The command registry of a chat bot: named commands in nested registries,
//! links between them, the roles of users, the walk from what a user typed to
//! the command it calls, and the plan of what is written to the store.

pub mod access;
pub mod assoc;
pub mod cache;
pub mod clock;
pub mod codec;
pub mod command;
pub mod config;
pub mod db;
pub mod dirty;
pub mod entries;
pub mod handler;
pub mod hashed;
pub mod log;
pub mod message;
pub mod model;
pub mod node;
pub mod number;
pub mod persist;
pub mod reaction;
pub mod registries;
pub mod resolve;
pub mod role;
pub mod stuff;
pub mod sync_state;
pub mod text;
pub mod text_cmds;
pub mod util;
