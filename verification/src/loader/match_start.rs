//! How an offline match presents the local player.

use vstd::prelude::*;
use crate::campaign::Team;
use crate::text::{push_text, same_text};

verus! {

/// Name of the local player in an offline match: the clan tag in brackets
/// before the name, when there is a tag.
pub open spec fn tagged_name(name: Seq<char>, tag: Seq<char>) -> Seq<char> {
    if tag.len() == 0 {
        name
    } else {
        "["@ + tag + "] "@ + name
    }
}

/// The local player's name in an offline match.
pub fn offline_player_name(name: &str, clan_tag: &str) -> (r: String)
    ensures
        r@ == tagged_name(name@, clan_tag@),
{
    if clan_tag.unicode_len() == 0 {
        return name.to_owned();
    }
    let mut r = "[".to_owned();
    push_text(&mut r, clan_tag);
    push_text(&mut r, "] ");
    push_text(&mut r, name);
    r
}

/// The local player's team in an offline match: the configured team, else
/// red in the team modes (`Teams`, `HumansVsNations`), else none.
pub fn offline_player_team(player_team: Option<Team>, game_mode: &str) -> (r: Option<Team>)
    ensures
        r == match player_team {
            Some(t) => Some(t),
            None => if game_mode@ == "Teams"@ || game_mode@ == "HumansVsNations"@ {
                Some(Team::Red)
            } else {
                None
            },
        },
{
    match player_team {
        Some(t) => Some(t),
        None => if same_text(game_mode, "Teams") || same_text(game_mode, "HumansVsNations") {
            Some(Team::Red)
        } else {
            None
        },
    }
}

} // verus!
