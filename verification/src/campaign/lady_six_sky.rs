//! Lady Six Sky, episodes 1–3 on the North America map. Each episode's
//! roster lives in its own roster file; a bad episode number falls back to
//! episode 1 and an unusable roster file to an empty roster at Naranjo.

use vstd::prelude::*;
use crate::campaign::Faction;

verus! {

/// Naranjo: the player spawn when an episode's roster file is unusable.
pub const FALLBACK_SPAWN: (u32, u32) = (529, 416);

/// Roster file of an episode; anything but 2 or 3 is episode 1.
pub open spec fn episode_file(episode: u8) -> Seq<char> {
    if episode == 2 {
        "assets/campaign/lady_six_sky_ep2.json"@
    } else if episode == 3 {
        "assets/campaign/lady_six_sky_ep3.json"@
    } else {
        "assets/campaign/lady_six_sky_ep1.json"@
    }
}

/// The roster file that episode `episode` (1–3) plays; any other number
/// plays episode 1, so a bad index can never brick the launcher.
pub fn roster_file(episode: u8) -> (r: &'static str)
    ensures
        r@ == episode_file(episode),
{
    match episode {
        2 => "assets/campaign/lady_six_sky_ep2.json",
        3 => "assets/campaign/lady_six_sky_ep3.json",
        _ => "assets/campaign/lady_six_sky_ep1.json",
    }
}

/// Episode roster and player spawn from the episode's parsed roster file;
/// an unusable file gives an empty roster at the fallback spawn.
pub fn roster(parsed: Option<(Vec<Faction>, (u32, u32))>) -> (r: (Vec<Faction>, (u32, u32)))
    ensures
        parsed matches Some(p) ==> r == p,
        parsed is None ==> r.0@.len() == 0 && r.1 == FALLBACK_SPAWN,
{
    match parsed {
        Some(p) => p,
        None => (Vec::new(), FALLBACK_SPAWN),
    }
}

/// The roster an episode plays, from the parsed roster files of episodes
/// 1, 2 and 3 (`None` for an unusable file): episode 2 and 3 their own,
/// any other number episode 1's; an unusable file gives an empty roster at
/// the fallback spawn.
pub open spec fn episode_roster_of(
    episode: u8,
    ep1: Option<(Vec<Faction>, (u32, u32))>,
    ep2: Option<(Vec<Faction>, (u32, u32))>,
    ep3: Option<(Vec<Faction>, (u32, u32))>,
) -> (Seq<Faction>, (u32, u32)) {
    let parsed = if episode == 2 {
        ep2
    } else if episode == 3 {
        ep3
    } else {
        ep1
    };
    match parsed {
        Some(p) => (p.0@, p.1),
        None => (Seq::empty(), FALLBACK_SPAWN),
    }
}

/// The roster of episode `episode` (see [`episode_roster_of`]).
pub fn episode_roster(
    episode: u8,
    ep1: Option<(Vec<Faction>, (u32, u32))>,
    ep2: Option<(Vec<Faction>, (u32, u32))>,
    ep3: Option<(Vec<Faction>, (u32, u32))>,
) -> (r: (Vec<Faction>, (u32, u32)))
    ensures
        (r.0@, r.1) == episode_roster_of(episode, ep1, ep2, ep3),
{
    let parsed = match episode {
        2 => ep2,
        3 => ep3,
        _ => ep1,
    };
    roster(parsed)
}

/// Any episode number but 2 or 3 plays episode 1: it reads episode 1's
/// roster file and gets episode 1's roster and spawn.
pub proof fn law_other_episodes_play_episode_one(
    episode: u8,
    ep1: Option<(Vec<Faction>, (u32, u32))>,
    ep2: Option<(Vec<Faction>, (u32, u32))>,
    ep3: Option<(Vec<Faction>, (u32, u32))>,
)
    requires
        episode != 2 && episode != 3,
    ensures
        episode_file(episode) == episode_file(1),
        episode_roster_of(episode, ep1, ep2, ep3) == episode_roster_of(1, ep1, ep2, ep3),
{
}

} // verus!
