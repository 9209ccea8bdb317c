//! Verified client-side logic of the Shadows of War game client: the rules,
//! state machines and encoders that decide what the client does, separated
//! from the browser, GPU and audio plumbing that carries those decisions out.

pub mod text;
pub mod collections;
pub mod map_cache;
pub mod input;
pub mod player_progress;
pub mod audio;
pub mod app;
pub mod campaign;
pub mod hud;
pub mod net;
pub mod analytics;
pub mod diag;
pub mod asset_config;
pub mod platform_identity;
pub mod anonymous_identity;
pub mod death_nameplate;
pub mod loader;

use vstd::prelude::*;

verus! {

/// Top-level screen the client shows.
#[derive(Debug, Clone, Copy, PartialEq, Eq, Structural)]
pub enum ClientPhase {
    Splash,
    MainMenu,
    Playing,
}

} // verus!
