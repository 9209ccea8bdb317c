//! Session lifecycle rules.

pub mod session;
pub mod connection;
pub mod messages;
pub mod lobby;
pub mod lobby_client;
