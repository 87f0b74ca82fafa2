//! A peer-hosted text chat: a session that hosts or joins a room, the
//! transport that serves it, and the relay that bridges one connection to the
//! message bus.

pub mod buffer;
pub mod bus;
pub mod client;
pub mod commands;
pub mod keys;
pub mod laws;
pub mod message;
pub mod modes;
pub mod relay;
pub mod server;
pub mod server_commands;
pub mod session;
pub mod text;
pub mod user;
