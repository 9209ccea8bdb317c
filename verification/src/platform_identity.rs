//! Player identity provided by the hosting platform.

use vstd::prelude::*;

verus! {

/// Who the player is, as the hosting platform knows them.
#[derive(Clone, Debug)]
pub struct PlatformIdentity {
    pub provider: &'static str,
    pub display_name: String,
    pub external_id: Option<String>,
    pub avatar_url: Option<String>,
    pub auth_token: Option<String>,
}

impl PlatformIdentity {
    /// The identity of a player on the game's own site: provider `self`, the
    /// given display name, nothing else.
    pub fn self_hosted(display_name: String) -> (p: Self)
        ensures
            p.provider@ == "self"@,
            p.display_name == display_name,
            p.external_id is None,
            p.avatar_url is None,
            p.auth_token is None,
    {
        PlatformIdentity { provider: "self", display_name, external_id: None, avatar_url: None, auth_token: None }
    }
}

} // verus!
