//! Client-side controllers that react to game events.

pub mod sfx;
pub mod state;
pub mod account;
pub mod progress;
pub mod store;
