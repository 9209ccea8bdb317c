use sow_client::net::lobby_client::{LobbyAction, LobbyClient, LobbyMessage};
use sow_client::net::messages::LobbyNotice;
use sow_client::ClientPhase;

fn menu() -> LobbyClient {
    LobbyClient {
        phase: ClientPhase::MainMenu,
        splash_entering_game: false,
        my_lobby_id: None,
        my_player_id: None,
        relay_ticket: None,
        relay_reconnect_ticket: None,
        waiting: false,
        joined_lobby_id: None,
        pending_join_lobby_id: Some(9),
        menu_player_id: None,
        in_private_match: false,
        is_lobby_host: false,
        notice: None,
        connection_error: false,
        update_available: false,
        downloading_map: false,
        map_download_progress: 0,
    }
}

#[test]
fn join_ack_with_a_cached_map_reports_ready() {
    let mut c = menu();
    let actions = c.on_message(LobbyMessage::JoinAck { lobby_id: 9, player_id: 3, is_private: true, map_cached: true });
    assert_eq!(
        actions,
        vec![
            LobbyAction::SeedLobbyEntry,
            LobbyAction::SendMapProgress { lobby_id: 9, player_id: 3, progress: 100 },
            LobbyAction::SendLobbyReady { lobby_id: 9, player_id: 3 },
        ]
    );
    assert!(c.waiting && c.in_private_match && !c.downloading_map);
    assert_eq!(c.map_download_progress, 100);
    assert_eq!((c.my_lobby_id, c.my_player_id, c.joined_lobby_id), (Some(9), Some(3), Some(9)));

    let mut d = menu();
    let actions = d.on_message(LobbyMessage::JoinAck { lobby_id: 9, player_id: 3, is_private: false, map_cached: false });
    assert_eq!(
        actions,
        vec![
            LobbyAction::SeedLobbyEntry,
            LobbyAction::SendMapProgress { lobby_id: 9, player_id: 3, progress: 0 },
            LobbyAction::DownloadMap,
        ]
    );
    assert!(d.downloading_map);
}

#[test]
fn relay_tickets_only_for_this_lobby_and_player() {
    let mut c = menu();
    c.on_message(LobbyMessage::JoinAck { lobby_id: 9, player_id: 3, is_private: false, map_cached: true });
    c.on_message(LobbyMessage::RelayTicket { lobby_id: 8, player_id: 3, ticket: "x".to_string() });
    assert_eq!(c.relay_ticket, None);
    c.on_message(LobbyMessage::RelayReconnectTicket { lobby_id: 9, player_id: 3, ticket: "r".to_string() });
    assert_eq!(c.relay_reconnect_ticket.as_deref(), Some("r"));
    c.on_message(LobbyMessage::RelayTicket { lobby_id: 9, player_id: 3, ticket: "t".to_string() });
    assert_eq!(c.relay_ticket.as_deref(), Some("t"));
    assert_eq!(c.relay_reconnect_ticket, None);
}

#[test]
fn refused_joins_and_closed_lobbies() {
    let mut c = menu();
    assert_eq!(c.on_message(LobbyMessage::JoinFailed { reason: "BANNED".to_string() }), vec![LobbyAction::LeaveRoom]);
    assert_eq!(c.notice, Some(LobbyNotice::Banned));
    assert!(!c.waiting && c.connection_error && !c.update_available);
    assert_eq!(c.pending_join_lobby_id, None);
    c.on_message(LobbyMessage::JoinFailed { reason: "VERSION_MISMATCH".to_string() });
    assert!(c.update_available);
    assert_eq!(c.notice, Some(LobbyNotice::ConnectionLost));

    let mut c = menu();
    c.on_message(LobbyMessage::JoinAck { lobby_id: 9, player_id: 3, is_private: false, map_cached: true });
    let a = c.on_message(LobbyMessage::LobbyClosed { rematch_lobby_id: None, reason: "KICKED".to_string() });
    assert_eq!(a, vec![LobbyAction::LeaveRoom]);
    assert_eq!(c.notice, Some(LobbyNotice::Kicked));
    assert!(!c.waiting && c.my_lobby_id.is_none() && c.joined_lobby_id.is_none());

    let mut c = menu();
    let a = c.on_message(LobbyMessage::LobbyClosed { rematch_lobby_id: Some(12), reason: "done".to_string() });
    assert_eq!(a, vec![LobbyAction::JoinRematch { lobby: 12 }]);
    let a = c.on_message(LobbyMessage::LobbyClosed { rematch_lobby_id: None, reason: "Requeueing players".to_string() });
    assert_eq!(a, vec![LobbyAction::Requeue]);
    assert!(c.waiting);
    let a = c.on_message(LobbyMessage::LobbyClosed { rematch_lobby_id: None, reason: "game over".to_string() });
    assert_eq!(a, vec![LobbyAction::LeaveRoom, LobbyAction::ExitToMenu]);
}

#[test]
fn match_start_enters_the_splash_once() {
    let mut c = menu();
    let a = c.on_message(LobbyMessage::Start { lobby_id: Some(9), player_id: Some(4), relay: true });
    assert_eq!(a, vec![LobbyAction::ResetEnterSplash, LobbyAction::QueueEngineInit, LobbyAction::SwitchToRelay]);
    assert_eq!(c.phase, ClientPhase::Splash);
    assert_eq!((c.my_lobby_id, c.my_player_id), (Some(9), Some(4)));
    let a = c.on_message(LobbyMessage::Start { lobby_id: None, player_id: None, relay: false });
    assert_eq!(a, vec![LobbyAction::QueueEngineInit]);
    assert_eq!((c.my_lobby_id, c.my_player_id), (None, Some(4)));
    c.on_message(LobbyMessage::VersionUpdate);
    assert!(c.update_available);
}
