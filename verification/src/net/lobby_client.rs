//! The lobby side of the client's connection state, and how each server
//! message about joining, leaving and starting a match changes it and what
//! the client then does.

use vstd::prelude::*;
use crate::ClientPhase;
use crate::net::messages::{
    accept_relay_ticket, closed_action, join_failed_outcome, lobby_closed_action, start_resets_splash,
    LobbyClosedAction, LobbyNotice,
};

verus! {

/// What the client knows of its lobby and match.
#[derive(Clone, Debug)]
pub struct LobbyClient {
    pub phase: ClientPhase,
    /// The enter-game splash is the one showing.
    pub splash_entering_game: bool,
    pub my_lobby_id: Option<u64>,
    pub my_player_id: Option<u16>,
    pub relay_ticket: Option<String>,
    pub relay_reconnect_ticket: Option<String>,
    /// The menu waits in a lobby.
    pub waiting: bool,
    pub joined_lobby_id: Option<u64>,
    pub pending_join_lobby_id: Option<u64>,
    /// The player id the menu shows.
    pub menu_player_id: Option<u16>,
    pub in_private_match: bool,
    pub is_lobby_host: bool,
    pub notice: Option<LobbyNotice>,
    /// The menu shows that the connection was lost.
    pub connection_error: bool,
    pub update_available: bool,
    pub downloading_map: bool,
    pub map_download_progress: u8,
}

/// A server message about the lobby.
#[derive(Clone, Debug)]
pub enum LobbyMessage {
    RelayTicket { lobby_id: u64, player_id: u16, ticket: String },
    RelayReconnectTicket { lobby_id: u64, player_id: u16, ticket: String },
    /// The join was accepted; `map_cached`: the lobby's map is already here.
    JoinAck { lobby_id: u64, player_id: u16, is_private: bool, map_cached: bool },
    JoinFailed { reason: String },
    LobbyClosed { rematch_lobby_id: Option<u64>, reason: String },
    VersionUpdate,
    /// The match starts; `relay`: it is played over a relay.
    Start { lobby_id: Option<u64>, player_id: Option<u16>, relay: bool },
}

/// What the client does after a lobby message.
#[derive(Clone, Copy, Debug, PartialEq, Eq, Structural)]
pub enum LobbyAction {
    /// Tell the server how far the map download is.
    SendMapProgress { lobby_id: u64, player_id: u16, progress: u8 },
    /// Tell the server the client is ready to play.
    SendLobbyReady { lobby_id: u64, player_id: u16 },
    /// Download the lobby's map.
    DownloadMap,
    /// List the joined lobby in the menu.
    SeedLobbyEntry,
    /// Tell the portal that the player left its room.
    LeaveRoom,
    /// Join the offered rematch lobby.
    JoinRematch { lobby: u64 },
    /// Queue again for a new lobby.
    Requeue,
    /// Leave through the exit loader once the messages are handled.
    ExitToMenu,
    /// Restart the enter-game splash.
    ResetEnterSplash,
    /// Hand the start message to the engine's initialisation.
    QueueEngineInit,
    /// Reconnect to the match relay.
    SwitchToRelay,
}

/// The client after a lobby message.
pub open spec fn next_state(s: LobbyClient, m: LobbyMessage) -> LobbyClient {
    match m {
        LobbyMessage::RelayTicket { lobby_id, player_id, ticket } => if s.my_lobby_id == Some(lobby_id)
            && s.my_player_id == Some(player_id) {
            LobbyClient { relay_ticket: Some(ticket), relay_reconnect_ticket: None, ..s }
        } else {
            s
        },
        LobbyMessage::RelayReconnectTicket { lobby_id, player_id, ticket } => if s.my_lobby_id == Some(lobby_id)
            && s.my_player_id == Some(player_id) {
            LobbyClient { relay_reconnect_ticket: Some(ticket), ..s }
        } else {
            s
        },
        LobbyMessage::JoinAck { lobby_id, player_id, is_private, map_cached } => LobbyClient {
            my_lobby_id: Some(lobby_id),
            my_player_id: Some(player_id),
            menu_player_id: Some(player_id),
            joined_lobby_id: Some(lobby_id),
            waiting: true,
            in_private_match: is_private,
            downloading_map: !map_cached,
            map_download_progress: if map_cached { 100 } else { s.map_download_progress },
            ..s
        },
        LobbyMessage::JoinFailed { reason } => LobbyClient {
            update_available: s.update_available || reason@ == "VERSION_MISMATCH"@,
            waiting: false,
            pending_join_lobby_id: None,
            joined_lobby_id: None,
            is_lobby_host: false,
            menu_player_id: None,
            in_private_match: false,
            connection_error: true,
            notice: Some(if reason@ == "BANNED"@ { LobbyNotice::Banned } else { LobbyNotice::ConnectionLost }),
            ..s
        },
        LobbyMessage::LobbyClosed { rematch_lobby_id, reason } => {
            let cleared = LobbyClient {
                my_lobby_id: None,
                my_player_id: None,
                relay_ticket: None,
                relay_reconnect_ticket: None,
                ..s
            };
            match closed_action(rematch_lobby_id, reason@) {
                LobbyClosedAction::Requeue => LobbyClient { phase: ClientPhase::MainMenu, waiting: true, ..cleared },
                LobbyClosedAction::Removed { notice } => LobbyClient {
                    waiting: false,
                    joined_lobby_id: None,
                    pending_join_lobby_id: None,
                    in_private_match: false,
                    is_lobby_host: false,
                    menu_player_id: None,
                    notice: Some(notice),
                    phase: ClientPhase::MainMenu,
                    ..cleared
                },
                _ => cleared,
            }
        },
        LobbyMessage::VersionUpdate => LobbyClient { update_available: true, ..s },
        LobbyMessage::Start { lobby_id, player_id, relay } => {
            let reset = s.phase != ClientPhase::Splash || !s.splash_entering_game;
            LobbyClient {
                phase: if reset { ClientPhase::Splash } else { s.phase },
                splash_entering_game: if reset { true } else { s.splash_entering_game },
                waiting: false,
                pending_join_lobby_id: None,
                joined_lobby_id: None,
                my_player_id: if player_id is Some { player_id } else { s.my_player_id },
                my_lobby_id: lobby_id,
                ..s
            }
        },
    }
}

/// What the client does after a lobby message.
pub open spec fn actions_for(s: LobbyClient, m: LobbyMessage) -> Seq<LobbyAction> {
    match m {
        LobbyMessage::JoinAck { lobby_id, player_id, map_cached, .. } => if map_cached {
            seq![
                LobbyAction::SeedLobbyEntry,
                LobbyAction::SendMapProgress { lobby_id, player_id, progress: 100 },
                LobbyAction::SendLobbyReady { lobby_id, player_id },
            ]
        } else {
            seq![
                LobbyAction::SeedLobbyEntry,
                LobbyAction::SendMapProgress { lobby_id, player_id, progress: 0 },
                LobbyAction::DownloadMap,
            ]
        },
        LobbyMessage::JoinFailed { .. } => seq![LobbyAction::LeaveRoom],
        LobbyMessage::LobbyClosed { rematch_lobby_id, reason } => match closed_action(rematch_lobby_id, reason@) {
            LobbyClosedAction::Rematch { lobby } => seq![LobbyAction::JoinRematch { lobby }],
            LobbyClosedAction::Requeue => seq![LobbyAction::Requeue],
            LobbyClosedAction::Removed { .. } => seq![LobbyAction::LeaveRoom],
            LobbyClosedAction::ExitToMenu => seq![LobbyAction::LeaveRoom, LobbyAction::ExitToMenu],
        },
        LobbyMessage::Start { relay, .. } => {
            let reset = s.phase != ClientPhase::Splash || !s.splash_entering_game;
            (if reset { seq![LobbyAction::ResetEnterSplash] } else { seq![] }) + seq![LobbyAction::QueueEngineInit] + (if relay {
                seq![LobbyAction::SwitchToRelay]
            } else {
                seq![]
            })
        },
        _ => seq![],
    }
}

impl LobbyClient {
    fn on_ticket(&mut self, lobby_id: u64, player_id: u16, ticket: String, reconnect: bool)
        ensures
            *final(self) == next_state(
                *old(self),
                if reconnect {
                    LobbyMessage::RelayReconnectTicket { lobby_id, player_id, ticket }
                } else {
                    LobbyMessage::RelayTicket { lobby_id, player_id, ticket }
                },
            ),
    {
        if accept_relay_ticket(self.my_lobby_id, self.my_player_id, lobby_id, player_id) {
            if reconnect {
                self.relay_reconnect_ticket = Some(ticket);
            } else {
                self.relay_ticket = Some(ticket);
                self.relay_reconnect_ticket = None;
            }
        }
    }

    fn on_join_ack(&mut self, lobby_id: u64, player_id: u16, is_private: bool, map_cached: bool) -> (actions: Vec<LobbyAction>)
        ensures
            *final(self) == next_state(*old(self), LobbyMessage::JoinAck { lobby_id, player_id, is_private, map_cached }),
            actions@ == actions_for(*old(self), LobbyMessage::JoinAck { lobby_id, player_id, is_private, map_cached }),
    {
        let mut actions: Vec<LobbyAction> = Vec::new();
        self.my_lobby_id = Some(lobby_id);
        self.my_player_id = Some(player_id);
        self.menu_player_id = Some(player_id);
        self.joined_lobby_id = Some(lobby_id);
        self.waiting = true;
        self.in_private_match = is_private;
        actions.push(LobbyAction::SeedLobbyEntry);
        if map_cached {
            self.downloading_map = false;
            self.map_download_progress = 100;
            actions.push(LobbyAction::SendMapProgress { lobby_id, player_id, progress: 100 });
            actions.push(LobbyAction::SendLobbyReady { lobby_id, player_id });
        } else {
            self.downloading_map = true;
            actions.push(LobbyAction::SendMapProgress { lobby_id, player_id, progress: 0 });
            actions.push(LobbyAction::DownloadMap);
        }
        actions
    }

    fn on_join_failed(&mut self, reason: String) -> (actions: Vec<LobbyAction>)
        ensures
            *final(self) == next_state(*old(self), LobbyMessage::JoinFailed { reason }),
            actions@ == actions_for(*old(self), LobbyMessage::JoinFailed { reason }),
    {
        let (update, notice) = join_failed_outcome(reason.as_str());
        self.update_available = self.update_available || update;
        self.waiting = false;
        self.pending_join_lobby_id = None;
        self.joined_lobby_id = None;
        self.is_lobby_host = false;
        self.menu_player_id = None;
        self.in_private_match = false;
        self.connection_error = true;
        self.notice = Some(notice);
        let mut actions: Vec<LobbyAction> = Vec::new();
        actions.push(LobbyAction::LeaveRoom);
        actions
    }

    fn on_lobby_closed(&mut self, rematch_lobby_id: Option<u64>, reason: String) -> (actions: Vec<LobbyAction>)
        ensures
            *final(self) == next_state(*old(self), LobbyMessage::LobbyClosed { rematch_lobby_id, reason }),
            actions@ == actions_for(*old(self), LobbyMessage::LobbyClosed { rematch_lobby_id, reason }),
    {
        let mut actions: Vec<LobbyAction> = Vec::new();
        self.my_lobby_id = None;
        self.my_player_id = None;
        self.relay_ticket = None;
        self.relay_reconnect_ticket = None;
        match lobby_closed_action(rematch_lobby_id, reason.as_str()) {
            LobbyClosedAction::Rematch { lobby } => {
                actions.push(LobbyAction::JoinRematch { lobby });
            },
            LobbyClosedAction::Requeue => {
                self.phase = ClientPhase::MainMenu;
                self.waiting = true;
                actions.push(LobbyAction::Requeue);
            },
            LobbyClosedAction::Removed { notice } => {
                self.waiting = false;
                self.joined_lobby_id = None;
                self.pending_join_lobby_id = None;
                self.in_private_match = false;
                self.is_lobby_host = false;
                self.menu_player_id = None;
                self.notice = Some(notice);
                self.phase = ClientPhase::MainMenu;
                actions.push(LobbyAction::LeaveRoom);
            },
            LobbyClosedAction::ExitToMenu => {
                actions.push(LobbyAction::LeaveRoom);
                actions.push(LobbyAction::ExitToMenu);
            },
        }
        proof {
            assert(actions@ =~= actions_for(*old(self), LobbyMessage::LobbyClosed { rematch_lobby_id, reason }));
        }
        actions
    }

    fn on_start(&mut self, lobby_id: Option<u64>, player_id: Option<u16>, relay: bool) -> (actions: Vec<LobbyAction>)
        ensures
            *final(self) == next_state(*old(self), LobbyMessage::Start { lobby_id, player_id, relay }),
            actions@ == actions_for(*old(self), LobbyMessage::Start { lobby_id, player_id, relay }),
    {
        let mut actions: Vec<LobbyAction> = Vec::new();
        if start_resets_splash(self.phase, self.splash_entering_game) {
            self.phase = ClientPhase::Splash;
            self.splash_entering_game = true;
            actions.push(LobbyAction::ResetEnterSplash);
        }
        self.waiting = false;
        self.pending_join_lobby_id = None;
        self.joined_lobby_id = None;
        if player_id.is_some() {
            self.my_player_id = player_id;
        }
        self.my_lobby_id = lobby_id;
        actions.push(LobbyAction::QueueEngineInit);
        if relay {
            actions.push(LobbyAction::SwitchToRelay);
        }
        proof {
            assert(actions@ =~= actions_for(*old(self), LobbyMessage::Start { lobby_id, player_id, relay }));
        }
        actions
    }

    /// Applies a lobby message (see [`next_state`]) and returns what the
    /// client does next (see [`actions_for`]).
    pub fn on_message(&mut self, m: LobbyMessage) -> (actions: Vec<LobbyAction>)
        ensures
            *final(self) == next_state(*old(self), m),
            actions@ == actions_for(*old(self), m),
    {
        match m {
            LobbyMessage::RelayTicket { lobby_id, player_id, ticket } => {
                self.on_ticket(lobby_id, player_id, ticket, false);
                let actions: Vec<LobbyAction> = Vec::new();
                assert(actions@ =~= seq![]);
                actions
            },
            LobbyMessage::RelayReconnectTicket { lobby_id, player_id, ticket } => {
                self.on_ticket(lobby_id, player_id, ticket, true);
                let actions: Vec<LobbyAction> = Vec::new();
                assert(actions@ =~= seq![]);
                actions
            },
            LobbyMessage::JoinAck { lobby_id, player_id, is_private, map_cached } => self.on_join_ack(
                lobby_id,
                player_id,
                is_private,
                map_cached,
            ),
            LobbyMessage::JoinFailed { reason } => self.on_join_failed(reason),
            LobbyMessage::LobbyClosed { rematch_lobby_id, reason } => self.on_lobby_closed(rematch_lobby_id, reason),
            LobbyMessage::VersionUpdate => {
                self.update_available = true;
                let actions: Vec<LobbyAction> = Vec::new();
                assert(actions@ =~= seq![]);
                actions
            },
            LobbyMessage::Start { lobby_id, player_id, relay } => self.on_start(lobby_id, player_id, relay),
        }
    }
}

/// A refused join or a removal from the lobby never leaves the menu
/// waiting: after either, the client waits in no lobby.
pub proof fn law_refusal_stops_waiting(s: LobbyClient, m: LobbyMessage)
    requires
        m is JoinFailed || (m matches LobbyMessage::LobbyClosed { rematch_lobby_id, reason } && closed_action(
            rematch_lobby_id,
            reason@,
        ) is Removed),
    ensures
        !next_state(s, m).waiting,
        next_state(s, m).joined_lobby_id is None,
        next_state(s, m).my_lobby_id is None || m is JoinFailed,
{
}

} // verus!
