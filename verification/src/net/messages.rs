//! Decisions on server messages: which relay tickets to keep, what a closed
//! lobby or a refused join leads to, and when lobby lists apply.

use vstd::prelude::*;
use crate::text::{contains_text, occurs_at, same_text};
use crate::ClientPhase;

verus! {

/// A short notice the main menu shows.
#[derive(Clone, Copy, Debug, PartialEq, Eq, Structural)]
pub enum LobbyNotice {
    Kicked,
    Banned,
    HostLeft,
    ConnectionLost,
}

/// What a closed lobby leads to.
#[derive(Clone, Copy, Debug, PartialEq, Eq, Structural)]
pub enum LobbyClosedAction {
    /// Move to the offered rematch lobby.
    Rematch { lobby: u64 },
    /// Queue again for a new lobby from the main menu.
    Requeue,
    /// Removed while waiting: back to the menu at once, with a notice, the
    /// connection kept.
    Removed { notice: LobbyNotice },
    /// Leave through the exit loader.
    ExitToMenu,
}

/// The action for a lobby closed for `reason`: a rematch when one is
/// offered; a requeue when the reason mentions `Requeueing`; a removal for
/// `HOST_LEFT`, `KICKED` or `BANNED`; otherwise leaving the match.
pub open spec fn closed_action(rematch: Option<u64>, reason: Seq<char>) -> LobbyClosedAction {
    match rematch {
        Some(id) => LobbyClosedAction::Rematch { lobby: id },
        None => if exists|i: int| #[trigger] occurs_at(reason, "Requeueing"@, i) {
            LobbyClosedAction::Requeue
        } else if reason == "KICKED"@ {
            LobbyClosedAction::Removed { notice: LobbyNotice::Kicked }
        } else if reason == "BANNED"@ {
            LobbyClosedAction::Removed { notice: LobbyNotice::Banned }
        } else if reason == "HOST_LEFT"@ {
            LobbyClosedAction::Removed { notice: LobbyNotice::HostLeft }
        } else {
            LobbyClosedAction::ExitToMenu
        },
    }
}

/// Decides what a closed lobby leads to.
pub fn lobby_closed_action(rematch_lobby_id: Option<u64>, reason: &str) -> (a: LobbyClosedAction)
    ensures
        a == closed_action(rematch_lobby_id, reason@),
{
    match rematch_lobby_id {
        Some(id) => LobbyClosedAction::Rematch { lobby: id },
        None => if contains_text(reason, "Requeueing") {
            LobbyClosedAction::Requeue
        } else if same_text(reason, "KICKED") {
            LobbyClosedAction::Removed { notice: LobbyNotice::Kicked }
        } else if same_text(reason, "BANNED") {
            LobbyClosedAction::Removed { notice: LobbyNotice::Banned }
        } else if same_text(reason, "HOST_LEFT") {
            LobbyClosedAction::Removed { notice: LobbyNotice::HostLeft }
        } else {
            LobbyClosedAction::ExitToMenu
        },
    }
}

/// What a refused join shows: `(update available, notice)`. A version
/// mismatch asks for an update; a ban shows the ban notice, anything else a
/// lost connection.
pub fn join_failed_outcome(reason: &str) -> (r: (bool, LobbyNotice))
    ensures
        r.0 == (reason@ == "VERSION_MISMATCH"@),
        r.1 == if reason@ == "BANNED"@ { LobbyNotice::Banned } else { LobbyNotice::ConnectionLost },
{
    let update = same_text(reason, "VERSION_MISMATCH");
    let notice = if same_text(reason, "BANNED") { LobbyNotice::Banned } else { LobbyNotice::ConnectionLost };
    (update, notice)
}

/// A relay ticket is kept only when it is for this client's lobby and player.
pub fn accept_relay_ticket(my_lobby_id: Option<u64>, my_player_id: Option<u16>, lobby_id: u64, player_id: u16) -> (r: bool)
    ensures
        r == (my_lobby_id == Some(lobby_id) && my_player_id == Some(player_id)),
{
    match (my_lobby_id, my_player_id) {
        (Some(l), Some(p)) => l == lobby_id && p == player_id,
        _ => false,
    }
}

/// The lobby a waiting client follows: its match lobby, else the joined
/// lobby, else the one it is about to join.
pub fn waiting_lobby(my_lobby_id: Option<u64>, joined_lobby_id: Option<u64>, pending_join_lobby_id: Option<u64>) -> (r: Option<u64>)
    ensures
        r == if my_lobby_id is Some {
            my_lobby_id
        } else if joined_lobby_id is Some {
            joined_lobby_id
        } else {
            pending_join_lobby_id
        },
{
    if my_lobby_id.is_some() {
        my_lobby_id
    } else if joined_lobby_id.is_some() {
        joined_lobby_id
    } else {
        pending_join_lobby_id
    }
}

/// A match start restarts the enter-game splash unless it already shows.
pub fn start_resets_splash(phase: ClientPhase, splash_entering_game: bool) -> (r: bool)
    ensures
        r == (phase != ClientPhase::Splash || !splash_entering_game),
{
    phase != ClientPhase::Splash || !splash_entering_game
}

/// Lobby lists apply outside the splash screen, and during the exit splash
/// so the menu is ready when it appears.
pub fn lobbies_broadcast_applies(phase: ClientPhase, splash_exiting_game: bool) -> (r: bool)
    ensures
        r == (phase != ClientPhase::Splash || splash_exiting_game),
{
    phase != ClientPhase::Splash || splash_exiting_game
}

} // verus!
