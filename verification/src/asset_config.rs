//! Asset URL configuration of the browser client. Every endpoint is declared
//! explicitly at boot; nothing is guessed or derived, and a missing endpoint
//! stops the client. URLs are built from the bases with their trailing
//! slashes dropped; shell and gameplay assets carry a cache-busting deploy
//! stamp when one is known.

use vstd::prelude::*;
use crate::text::{push_text, same_text, trim_slashes_end, trim_trailing_slashes};

verus! {

/// Where the client finds maps, assets and the database.
#[derive(Clone, Debug)]
pub struct AssetConfig {
    pub maps_base: String,
    pub assets_base: String,
    pub database_base: String,
    /// Deploy stamp appended to shell and gameplay asset URLs; empty for none.
    pub cache_bust: String,
}

/// Cache-busting stamp from the deploy stamp global: the stamp when it is
/// set, non-empty and not the unreplaced placeholder `__BUILD_TS__`.
pub open spec fn cache_bust_of(build_ts: Option<Seq<char>>) -> Seq<char> {
    match build_ts {
        Some(ts) => if ts != "__BUILD_TS__"@ && ts.len() > 0 { ts } else { Seq::empty() },
        None => Seq::empty(),
    }
}

/// `path` with the cache-busting query when there is a stamp.
pub open spec fn busted(path: Seq<char>, stamp: Seq<char>) -> Seq<char> {
    if stamp.len() == 0 {
        path
    } else {
        path + "?v="@ + stamp
    }
}

/// URL of file `file` of map `key`.
pub open spec fn map_url_of(maps_base: Seq<char>, key: Seq<char>, file: Seq<char>) -> Seq<char> {
    trim_slashes_end(maps_base) + "/"@ + key + "/"@ + file
}

/// URL of `filename` in asset folder `folder` (which starts and ends with `/`).
pub open spec fn asset_url_of(c: AssetConfig, folder: Seq<char>, filename: Seq<char>) -> Seq<char> {
    busted(trim_slashes_end(c.assets_base@) + folder + filename, c.cache_bust@)
}

impl AssetConfig {
    /// The configuration from the endpoint globals read at boot (each must be
    /// declared and non-empty) and the deploy stamp global, if any.
    pub fn resolve(
        maps_base: String,
        assets_base: String,
        database_base: String,
        build_ts: Option<&str>,
    ) -> (c: Self)
        requires
            maps_base@.len() > 0,
            assets_base@.len() > 0,
            database_base@.len() > 0,
        ensures
            c.maps_base == maps_base,
            c.assets_base == assets_base,
            c.database_base == database_base,
            c.cache_bust@ == cache_bust_of(
                match build_ts {
                    Some(t) => Some(t@),
                    None => None,
                },
            ),
    {
        let cache_bust = Self::resolve_cache_bust(build_ts);
        AssetConfig { maps_base, assets_base, database_base, cache_bust }
    }

    /// Cache-busting stamp from the deploy stamp global, empty when there is
    /// none.
    pub fn resolve_cache_bust(build_ts: Option<&str>) -> (s: String)
        ensures
            s@ == cache_bust_of(
                match build_ts {
                    Some(t) => Some(t@),
                    None => None,
                },
            ),
    {
        match build_ts {
            Some(ts) => {
                if !same_text(ts, "__BUILD_TS__") && ts.unicode_len() > 0 {
                    ts.to_owned()
                } else {
                    String::new()
                }
            },
            None => String::new(),
        }
    }

    /// URL of file `file` of map `map_key`.
    pub fn map_url(&self, map_key: &str, file: &str) -> (u: String)
        ensures
            u@ == map_url_of(self.maps_base@, map_key@, file@),
    {
        let mut u = trim_trailing_slashes(self.maps_base.as_str());
        push_text(&mut u, "/");
        push_text(&mut u, map_key);
        push_text(&mut u, "/");
        push_text(&mut u, file);
        u
    }

    fn asset_url(&self, folder: &str, filename: &str) -> (u: String)
        ensures
            u@ == asset_url_of(*self, folder@, filename@),
    {
        let mut u = trim_trailing_slashes(self.assets_base.as_str());
        push_text(&mut u, folder);
        push_text(&mut u, filename);
        if self.cache_bust.as_str().unicode_len() > 0 {
            push_text(&mut u, "?v=");
            push_text(&mut u, self.cache_bust.as_str());
        }
        u
    }

    /// Leader portrait served by the web shell.
    pub fn leader_portrait_url(&self, filename: &str) -> (u: String)
        ensures
            u@ == asset_url_of(*self, "/shell/leaders/"@, filename@),
    {
        self.asset_url("/shell/leaders/", filename)
    }

    /// Gameplay avatar.
    pub fn avatar_url(&self, filename: &str) -> (u: String)
        ensures
            u@ == asset_url_of(*self, "/gameplay/avatars/"@, filename@),
    {
        self.asset_url("/gameplay/avatars/", filename)
    }

    /// Loader art of the boot screen.
    pub fn boot_ui_asset_url(&self, filename: &str) -> (u: String)
        ensures
            u@ == asset_url_of(*self, "/shell/loader/"@, filename@),
    {
        self.asset_url("/shell/loader/", filename)
    }
}

} // verus!
