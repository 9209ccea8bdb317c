//! When a finished match counts for the local profile, and whether it was won.

use vstd::prelude::*;
use crate::campaign::{CampaignId, Team};

verus! {

/// The local player's state in the final snapshot.
#[derive(Clone, Copy, Debug, PartialEq, Eq, Structural)]
pub struct FinalState {
    pub alive: bool,
    pub has_spawned: bool,
}

/// Whether a match is over for the local player and, if so, whether it was
/// won: `None` while it goes on (or was already recorded, or the player is
/// unknown). It is over when there is a winner, or the player was
/// eliminated after spawning (winner 0). With a winning team the player
/// wins with that team; otherwise by being the winner.
pub fn match_outcome(
    already_recorded: bool,
    my_id: u16,
    me: Option<FinalState>,
    winner: Option<u16>,
    winning_team: Option<Team>,
    my_team: Option<Team>,
) -> (r: Option<bool>)
    ensures
        r == if already_recorded || my_id == 0 || me is None {
            None::<bool>
        } else {
            let eliminated = !me.unwrap().alive && me.unwrap().has_spawned;
            let winner_id: Option<u16> = if winner is Some { winner } else if eliminated { Some(0u16) } else { None };
            match winner_id {
                None => None,
                Some(w) => Some(match winning_team {
                    Some(t) => my_team == Some(t),
                    None => w == my_id,
                }),
            }
        },
{
    if already_recorded || my_id == 0 {
        return None;
    }
    let state = match me {
        Some(s) => s,
        None => {
            return None;
        },
    };
    let eliminated = !state.alive && state.has_spawned;
    let winner_id = match winner {
        Some(w) => w,
        None => if eliminated {
            0
        } else {
            return None;
        },
    };
    let won = match winning_team {
        Some(t) => match my_team {
            Some(m) => m == t,
            None => false,
        },
        None => winner_id == my_id,
    };
    Some(won)
}

/// A finished match is recorded in the local profile only when the server
/// does not own its result: the server owns every online match of a loaded
/// account, and the offline Boudica tutorial (whose reward it grants once).
pub fn records_locally(account_loaded: bool, offline: bool, tutorial: bool, campaign: CampaignId) -> (r: bool)
    ensures
        r == !(account_loaded && (!offline || (tutorial && campaign == CampaignId::Boudica))),
{
    let server_owned_tutorial = account_loaded && offline && tutorial && campaign == CampaignId::Boudica;
    let server_owned = account_loaded && (!offline || server_owned_tutorial);
    !server_owned
}

} // verus!
