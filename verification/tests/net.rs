use sow_client::net::connection::{
    connect_join_plan, disconnect_outcome, ping_due, Connection, DisconnectOutcome, FailureAction,
    JoinPlan, relay_handoff_url, relay_url_from,
};
use sow_client::analytics::Analytics;
use sow_client::net::messages::{
    accept_relay_ticket, join_failed_outcome, lobbies_broadcast_applies, lobby_closed_action,
    start_resets_splash, waiting_lobby, LobbyClosedAction, LobbyNotice,
};
use sow_client::ClientPhase;

#[test]
fn orchestrator_backoff_doubles_up_to_thirty_seconds() {
    let mut c = Connection::new();
    assert_eq!(c.connect_failed(false, false, 1_000), FailureAction::Backoff { delay_ms: 800 });
    assert_eq!(c.connect_not_before_ms, 1_800);
    for _ in 0..10 {
        c.connect_failed(false, false, 1_000);
    }
    assert_eq!(c.fail_backoff_ms, 30_000);
    c.connected(false);
    assert_eq!(c.fail_backoff_ms, 400);
}

#[test]
fn the_relay_gets_ten_attempts() {
    let mut c = Connection::new();
    for attempt in 2..=10 {
        assert_eq!(c.connect_failed(true, false, 0), FailureAction::RetryRelay { attempt });
    }
    assert_eq!(c.connect_failed(true, false, 0), FailureAction::ExitToMenu);
    assert_eq!(c.relay_retry_count, 0);
    assert_eq!(c.relay_connect_start_ms, None);
}

#[test]
fn the_relay_times_out_after_fifteen_seconds() {
    let mut c = Connection::new();
    assert!(!c.relay_timed_out(true, false, false, 1_000));
    assert_eq!(c.relay_connect_start_ms, Some(1_000));
    assert!(!c.relay_timed_out(true, false, false, 15_999));
    assert!(c.relay_timed_out(true, false, false, 16_000));
    assert!(!c.relay_timed_out(true, true, false, 40_000));
    assert_eq!(c.relay_connect_start_ms, None);
}

#[test]
fn disconnects_lead_where_the_match_state_says() {
    assert_eq!(disconnect_outcome(true, ClientPhase::Playing, false), DisconnectOutcome::Ignore);
    assert_eq!(disconnect_outcome(false, ClientPhase::Playing, true), DisconnectOutcome::ReconnectRelay);
    assert_eq!(disconnect_outcome(false, ClientPhase::Playing, false), DisconnectOutcome::ExitToMenu);
    assert_eq!(
        disconnect_outcome(false, ClientPhase::MainMenu, false),
        DisconnectOutcome::ReturnToOrchestrator
    );
    assert_eq!(disconnect_outcome(false, ClientPhase::Splash, false), DisconnectOutcome::Wait);
    let mut c = Connection::new();
    c.disconnected(false, 5_000);
    assert_eq!(c.connect_not_before_ms, 7_000);
    assert!(!c.should_connect(true, false, false, false, 6_999));
    assert!(c.should_connect(true, false, false, false, 7_000));
    c.resume(6_000);
    assert!(c.should_connect(true, false, false, false, 6_000));
}

#[test]
fn pings_go_out_every_second_in_a_match() {
    assert!(ping_due(ClientPhase::Playing, true, 1_000, 2_000));
    assert!(!ping_due(ClientPhase::Playing, true, 1_000, 1_999));
    assert!(!ping_due(ClientPhase::MainMenu, true, 0, 5_000));
}

#[test]
fn a_fresh_connection_sends_the_right_join() {
    let plan = |relay, known, phase, rejoin, host, pending, waiting, in_lobby, ready, waiting_id| {
        connect_join_plan(relay, known, phase, rejoin, Some(4), host, pending, waiting, in_lobby, ready, waiting_id)
    };
    assert_eq!(
        plan(true, true, ClientPhase::Playing, false, false, None, false, false, false, false),
        JoinPlan::RelayReconnect
    );
    assert_eq!(
        plan(true, true, ClientPhase::Splash, false, false, None, false, false, false, false),
        JoinPlan::RelayReady
    );
    assert_eq!(
        plan(false, false, ClientPhase::MainMenu, true, true, Some(7), true, false, true, false),
        JoinPlan::Rejoin { target: Some(4) }
    );
    assert_eq!(
        plan(false, false, ClientPhase::MainMenu, false, false, Some(7), true, false, true, false),
        JoinPlan::JoinInvite { lobby: 7 }
    );
    assert_eq!(
        plan(false, false, ClientPhase::MainMenu, false, false, Some(7), true, false, false, true),
        JoinPlan::Nothing
    );
    assert_eq!(
        plan(false, false, ClientPhase::MainMenu, false, false, None, true, false, true, true),
        JoinPlan::JoinWaiting
    );
}

#[test]
fn closed_lobbies_and_refused_joins() {
    assert_eq!(lobby_closed_action(Some(3), "KICKED"), LobbyClosedAction::Rematch { lobby: 3 });
    assert_eq!(lobby_closed_action(None, "Requeueing players"), LobbyClosedAction::Requeue);
    assert_eq!(
        lobby_closed_action(None, "KICKED"),
        LobbyClosedAction::Removed { notice: LobbyNotice::Kicked }
    );
    assert_eq!(
        lobby_closed_action(None, "HOST_LEFT"),
        LobbyClosedAction::Removed { notice: LobbyNotice::HostLeft }
    );
    assert_eq!(lobby_closed_action(None, "GAME_OVER"), LobbyClosedAction::ExitToMenu);
    assert_eq!(join_failed_outcome("VERSION_MISMATCH"), (true, LobbyNotice::ConnectionLost));
    assert_eq!(join_failed_outcome("BANNED"), (false, LobbyNotice::Banned));
}

#[test]
fn relay_tickets_and_lobby_tracking() {
    assert!(accept_relay_ticket(Some(1), Some(2), 1, 2));
    assert!(!accept_relay_ticket(Some(1), Some(3), 1, 2));
    assert!(!accept_relay_ticket(None, Some(2), 1, 2));
    assert_eq!(waiting_lobby(None, Some(5), Some(6)), Some(5));
    assert_eq!(waiting_lobby(None, None, Some(6)), Some(6));
    assert!(start_resets_splash(ClientPhase::MainMenu, true));
    assert!(!start_resets_splash(ClientPhase::Splash, true));
    assert!(lobbies_broadcast_applies(ClientPhase::Splash, true));
    assert!(!lobbies_broadcast_applies(ClientPhase::Splash, false));
}

#[test]
fn relay_handoff_urls() {
    assert_eq!(relay_handoff_url("wss://a.example/ws/", 9443, Some("relay.example")), "wss://relay.example:9443/ws/");
    assert_eq!(relay_handoff_url("wss://a.example/ws/", 9443, None), "wss://a.example:9443/ws/");
    assert_eq!(relay_handoff_url("not a url", 9443, None), "not a url");
    assert_eq!(relay_url_from("x", 7, None, Some("y".to_string())), "y");
    assert_eq!(relay_url_from("x", 7, None, None), "x");
    assert_eq!(relay_url_from("x", 80, Some("h"), None), "wss://h:80/ws/");
}

#[test]
fn poki_portal_records_nothing() {
    assert!(Analytics::for_portal(Some("poki")).portal_is_poki);
    assert!(!Analytics::for_portal(Some("crazygames")).portal_is_poki);
    assert!(!Analytics::for_portal(None).portal_is_poki);
}
