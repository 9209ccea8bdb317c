//! Connection supervision of the game socket: retry backoff, the relay's
//! rapid retries and overall timeout, what a disconnect leads to, and which
//! join message a fresh connection sends. Times are milliseconds on the
//! client's monotonic clock.

use vstd::prelude::*;
use crate::ClientPhase;
use crate::app::account::{decimal, push_decimal};
use crate::text::push_text;

verus! {

/// Backoff after a successful connection.
pub const BASE_BACKOFF_MS: u64 = 400;
/// Longest backoff between orchestrator connection attempts.
pub const MAX_BACKOFF_MS: u64 = 30_000;
/// Delay of a rapid relay retry.
pub const RELAY_RETRY_MS: u64 = 500;
/// Failed relay attempts before giving up.
pub const RELAY_MAX_ATTEMPTS: u32 = 10;
/// Total time a relay connection may take.
pub const RELAY_TIMEOUT_MS: u64 = 15_000;
/// Delay before reconnecting to the orchestrator after a disconnect.
pub const ORCHESTRATOR_RECONNECT_MS: u64 = 2_000;
/// Interval between pings during a match.
pub const PING_INTERVAL_MS: u64 = 1_000;
/// Latest clock value the supervisor handles (far beyond any session).
pub const CLOCK_LIMIT: u64 = 0xffff_ffff_ffff;

/// Connection supervision state.
#[derive(Clone, Copy, Debug, PartialEq, Eq, Structural)]
pub struct Connection {
    /// Backoff applied after the next orchestrator failure is doubled from this.
    pub fail_backoff_ms: u64,
    /// No connection attempt starts before this time.
    pub connect_not_before_ms: u64,
    /// Failed relay attempts in a row.
    pub relay_retry_count: u32,
    /// When the current relay connection effort started.
    pub relay_connect_start_ms: Option<u64>,
}

/// What a failed connection attempt leads to.
#[derive(Clone, Copy, Debug, PartialEq, Eq, Structural)]
pub enum FailureAction {
    /// The relay failed ten times: give up and leave the match.
    ExitToMenu,
    /// Try the relay again shortly; `attempt` is the number of the next try.
    RetryRelay { attempt: u32 },
    /// Wait `delay_ms` before the next orchestrator attempt.
    Backoff { delay_ms: u64 },
}

/// What a lost connection leads to.
#[derive(Clone, Copy, Debug, PartialEq, Eq, Structural)]
pub enum DisconnectOutcome {
    /// An offline match needs no connection.
    Ignore,
    /// The relay dropped during a match: reconnect to it.
    ReconnectRelay,
    /// The orchestrator dropped during a match: leave the match.
    ExitToMenu,
    /// Outside a match: reconnect to the orchestrator.
    ReturnToOrchestrator,
    /// On the splash screen: nothing to do yet.
    Wait,
}

/// Which join message a fresh connection sends.
#[derive(Clone, Copy, Debug, PartialEq, Eq, Structural)]
pub enum JoinPlan {
    /// Nothing to send.
    Nothing,
    /// On the relay during a match: the reconnect ticket.
    RelayReconnect,
    /// On the relay before the match: the initial ready ticket.
    RelayReady,
    /// Join the lobby again after a server hop.
    Rejoin { target: Option<u64> },
    /// Host a private lobby.
    HostPrivate,
    /// Join the lobby of a portal invite.
    JoinInvite { lobby: u64 },
    /// Send the join that waited for the player's identity.
    JoinWaiting,
}

/// Doubling backoff, capped at 30 s.
pub open spec fn next_backoff(b: u64) -> u64 {
    if 2 * b > MAX_BACKOFF_MS { MAX_BACKOFF_MS } else { (2 * b) as u64 }
}

impl Connection {
    /// A supervisor that may connect at once.
    pub fn new() -> (c: Self)
        ensures
            c == (Connection {
                fail_backoff_ms: BASE_BACKOFF_MS,
                connect_not_before_ms: 0,
                relay_retry_count: 0,
                relay_connect_start_ms: None,
            }),
    {
        Connection {
            fail_backoff_ms: BASE_BACKOFF_MS,
            connect_not_before_ms: 0,
            relay_retry_count: 0,
            relay_connect_start_ms: None,
        }
    }

    /// The page became visible again: a pending reconnect may start now.
    pub fn resume(&mut self, now: u64)
        ensures
            *final(self) == (Connection {
                connect_not_before_ms: if old(self).connect_not_before_ms < now {
                    old(self).connect_not_before_ms
                } else {
                    now
                },
                ..*old(self)
            }),
    {
        if now < self.connect_not_before_ms {
            self.connect_not_before_ms = now;
        }
    }

    /// A connection succeeded: the backoff resets, and a relay connection
    /// ends the relay effort.
    pub fn connected(&mut self, on_relay: bool)
        ensures
            final(self).fail_backoff_ms == BASE_BACKOFF_MS,
            final(self).connect_not_before_ms == old(self).connect_not_before_ms,
            on_relay ==> final(self).relay_connect_start_ms is None && final(self).relay_retry_count == 0,
            !on_relay ==> final(self).relay_connect_start_ms == old(self).relay_connect_start_ms
                && final(self).relay_retry_count == old(self).relay_retry_count,
    {
        self.fail_backoff_ms = BASE_BACKOFF_MS;
        if on_relay {
            self.relay_connect_start_ms = None;
            self.relay_retry_count = 0;
        }
    }

    /// A connection attempt failed at `now`. On the relay of an online match
    /// the attempt is counted and retried after 500 ms, up to ten failures;
    /// otherwise the backoff doubles (at most 30 s) before the next attempt.
    pub fn connect_failed(&mut self, on_relay: bool, offline: bool, now: u64) -> (a: FailureAction)
        requires
            now <= CLOCK_LIMIT,
            old(self).fail_backoff_ms <= MAX_BACKOFF_MS,
        ensures
            final(self).fail_backoff_ms <= MAX_BACKOFF_MS,
            on_relay && !offline && old(self).relay_retry_count + 1 >= RELAY_MAX_ATTEMPTS ==> a
                == FailureAction::ExitToMenu && final(self).relay_connect_start_ms is None
                && final(self).relay_retry_count == 0 && final(self).fail_backoff_ms == old(self).fail_backoff_ms
                && final(self).connect_not_before_ms == old(self).connect_not_before_ms,
            on_relay && !offline && old(self).relay_retry_count + 1 < RELAY_MAX_ATTEMPTS ==> a
                == (FailureAction::RetryRelay { attempt: (old(self).relay_retry_count + 2) as u32 })
                && final(self).relay_retry_count == old(self).relay_retry_count + 1
                && final(self).relay_connect_start_ms == Some(now) && final(self).fail_backoff_ms
                == RELAY_RETRY_MS && final(self).connect_not_before_ms == now + RELAY_RETRY_MS,
            !(on_relay && !offline) ==> a == (FailureAction::Backoff {
                delay_ms: next_backoff(old(self).fail_backoff_ms),
            }) && final(self).fail_backoff_ms == next_backoff(old(self).fail_backoff_ms)
                && final(self).connect_not_before_ms == now + next_backoff(old(self).fail_backoff_ms)
                && final(self).relay_retry_count == old(self).relay_retry_count
                && final(self).relay_connect_start_ms == old(self).relay_connect_start_ms,
    {
        if on_relay && !offline {
            let count = if self.relay_retry_count < u32::MAX { self.relay_retry_count + 1 } else { u32::MAX };
            if count >= RELAY_MAX_ATTEMPTS {
                self.relay_connect_start_ms = None;
                self.relay_retry_count = 0;
                return FailureAction::ExitToMenu;
            }
            self.relay_retry_count = count;
            self.relay_connect_start_ms = Some(now);
            self.fail_backoff_ms = RELAY_RETRY_MS;
            self.connect_not_before_ms = now + RELAY_RETRY_MS;
            return FailureAction::RetryRelay { attempt: count + 1 };
        }
        let doubled = self.fail_backoff_ms * 2;
        let delay = if doubled > MAX_BACKOFF_MS { MAX_BACKOFF_MS } else { doubled };
        self.fail_backoff_ms = delay;
        self.connect_not_before_ms = now + delay;
        FailureAction::Backoff { delay_ms: delay }
    }

    /// Last-resort relay timeout, checked every frame: while an online client
    /// waits for its relay connection, the effort is timed from its start and
    /// abandoned after 15 s (answer `true`: leave the match); in any other
    /// state no relay effort is running.
    pub fn relay_timed_out(&mut self, on_relay: bool, has_client: bool, offline: bool, now: u64) -> (expired: bool)
        ensures
            final(self).fail_backoff_ms == old(self).fail_backoff_ms,
            final(self).connect_not_before_ms == old(self).connect_not_before_ms,
            !(on_relay && !has_client && !offline) ==> !expired && final(self).relay_connect_start_ms is None
                && final(self).relay_retry_count == old(self).relay_retry_count,
            on_relay && !has_client && !offline ==> {
                let start = match old(self).relay_connect_start_ms {
                    Some(s) => s,
                    None => now,
                };
                &&& expired == (now >= start && now - start >= RELAY_TIMEOUT_MS)
                &&& expired ==> final(self).relay_connect_start_ms is None && final(self).relay_retry_count == 0
                &&& !expired ==> final(self).relay_connect_start_ms == Some(start)
                    && final(self).relay_retry_count == if old(self).relay_connect_start_ms is None {
                    0
                } else {
                    old(self).relay_retry_count
                }
            },
    {
        if !(on_relay && !has_client && !offline) {
            self.relay_connect_start_ms = None;
            return false;
        }
        let start = match self.relay_connect_start_ms {
            Some(s) => s,
            None => {
                self.relay_connect_start_ms = Some(now);
                self.relay_retry_count = 0;
                now
            },
        };
        if now >= start && now - start >= RELAY_TIMEOUT_MS {
            self.relay_connect_start_ms = None;
            self.relay_retry_count = 0;
            return true;
        }
        false
    }

    /// The orchestrator handed the match over to a relay at `now`: the relay
    /// effort starts and may connect at once.
    pub fn relay_handoff(&mut self, now: u64)
        ensures
            *final(self) == (Connection {
                relay_connect_start_ms: Some(now),
                relay_retry_count: 0,
                connect_not_before_ms: now,
                ..*old(self)
            }),
    {
        self.relay_connect_start_ms = Some(now);
        self.relay_retry_count = 0;
        self.connect_not_before_ms = now;
    }

    /// The socket was lost at `now`: a relay reconnects at once (a new relay
    /// effort), the orchestrator after 2 s.
    pub fn disconnected(&mut self, on_relay: bool, now: u64)
        requires
            now <= CLOCK_LIMIT,
        ensures
            on_relay ==> *final(self) == (Connection {
                connect_not_before_ms: now,
                relay_connect_start_ms: Some(now),
                relay_retry_count: 0,
                ..*old(self)
            }),
            !on_relay ==> *final(self) == (Connection {
                connect_not_before_ms: (now + ORCHESTRATOR_RECONNECT_MS) as u64,
                ..*old(self)
            }),
    {
        if on_relay {
            self.connect_not_before_ms = now;
            self.relay_connect_start_ms = Some(now);
            self.relay_retry_count = 0;
        } else {
            self.connect_not_before_ms = now + ORCHESTRATOR_RECONNECT_MS;
        }
    }

    /// A new connection attempt starts now: the page is visible, there is no
    /// client and no attempt under way, the wait is over, and the match is
    /// online.
    pub fn should_connect(&self, page_visible: bool, has_client: bool, connecting: bool, offline: bool, now: u64) -> (r: bool)
        ensures
            r == (page_visible && !has_client && !connecting && now >= self.connect_not_before_ms && !offline),
    {
        page_visible && !has_client && !connecting && now >= self.connect_not_before_ms && !offline
    }
}

/// What losing the socket means, by match state.
pub fn disconnect_outcome(offline: bool, phase: ClientPhase, on_relay: bool) -> (o: DisconnectOutcome)
    ensures
        o == if offline {
            DisconnectOutcome::Ignore
        } else if phase == ClientPhase::Playing {
            if on_relay { DisconnectOutcome::ReconnectRelay } else { DisconnectOutcome::ExitToMenu }
        } else if phase != ClientPhase::Splash {
            DisconnectOutcome::ReturnToOrchestrator
        } else {
            DisconnectOutcome::Wait
        },
{
    if offline {
        DisconnectOutcome::Ignore
    } else if phase == ClientPhase::Playing {
        if on_relay {
            DisconnectOutcome::ReconnectRelay
        } else {
            DisconnectOutcome::ExitToMenu
        }
    } else if phase != ClientPhase::Splash {
        DisconnectOutcome::ReturnToOrchestrator
    } else {
        DisconnectOutcome::Wait
    }
}

/// A ping is due during a match with a client, a second after the last one.
pub fn ping_due(phase: ClientPhase, has_client: bool, last_ping_ms: u64, now: u64) -> (r: bool)
    ensures
        r == (phase == ClientPhase::Playing && has_client && now >= last_ping_ms && now - last_ping_ms
            >= PING_INTERVAL_MS),
{
    phase == ClientPhase::Playing && has_client && now >= last_ping_ms && now - last_ping_ms >= PING_INTERVAL_MS
}

/// The join message a fresh connection sends. On the relay, with a lobby
/// and player id, the reconnect ticket during a match and the ready ticket
/// before it; off the relay during a match nothing; otherwise in order: a
/// rejoin after a hop, hosting a pending private lobby, a pending portal
/// invite (once waiting for it outside any lobby with an identity), or the
/// join that waited for an identity.
pub fn connect_join_plan(
    on_relay: bool,
    lobby_and_player_known: bool,
    phase: ClientPhase,
    pending_lobby_rejoin: bool,
    my_lobby_id: Option<u64>,
    host_private_pending: bool,
    pending_join_lobby_id: Option<u64>,
    is_waiting: bool,
    in_lobby: bool,
    identity_ready: bool,
    join_waiting_for_identity: bool,
) -> (p: JoinPlan)
    ensures
        p == if on_relay {
            if !lobby_and_player_known {
                JoinPlan::Nothing
            } else if phase == ClientPhase::Playing {
                JoinPlan::RelayReconnect
            } else {
                JoinPlan::RelayReady
            }
        } else if phase == ClientPhase::Playing {
            JoinPlan::Nothing
        } else if pending_lobby_rejoin {
            JoinPlan::Rejoin { target: if my_lobby_id is Some { my_lobby_id } else { pending_join_lobby_id } }
        } else if host_private_pending {
            JoinPlan::HostPrivate
        } else if pending_join_lobby_id is Some {
            if is_waiting && !in_lobby && identity_ready {
                JoinPlan::JoinInvite { lobby: pending_join_lobby_id.unwrap() }
            } else {
                JoinPlan::Nothing
            }
        } else if join_waiting_for_identity && is_waiting && !in_lobby && identity_ready {
            JoinPlan::JoinWaiting
        } else {
            JoinPlan::Nothing
        },
{
    if on_relay {
        if !lobby_and_player_known {
            JoinPlan::Nothing
        } else if phase == ClientPhase::Playing {
            JoinPlan::RelayReconnect
        } else {
            JoinPlan::RelayReady
        }
    } else if phase == ClientPhase::Playing {
        JoinPlan::Nothing
    } else if pending_lobby_rejoin {
        JoinPlan::Rejoin { target: if my_lobby_id.is_some() { my_lobby_id } else { pending_join_lobby_id } }
    } else if host_private_pending {
        JoinPlan::HostPrivate
    } else {
        match pending_join_lobby_id {
            Some(id) => {
                if is_waiting && !in_lobby && identity_ready {
                    JoinPlan::JoinInvite { lobby: id }
                } else {
                    JoinPlan::Nothing
                }
            },
            None => {
                if join_waiting_for_identity && is_waiting && !in_lobby && identity_ready {
                    JoinPlan::JoinWaiting
                } else {
                    JoinPlan::Nothing
                }
            },
        }
    }
}

/// The orchestrator backoff never exceeds 30 s, however many attempts fail.
pub proof fn law_backoff_bounded(b: u64)
    requires
        b <= MAX_BACKOFF_MS,
    ensures
        next_backoff(b) <= MAX_BACKOFF_MS,
        b > 0 && 2 * b <= MAX_BACKOFF_MS ==> next_backoff(b) == 2 * b,
{
}

/// The socket URL `url::Url` gives for `url` with its port set to `port`
/// (`None` when `url` does not parse).
pub uninterp spec fn url_with_port(url: Seq<char>, port: u16) -> Option<Seq<char>>;

/// Parses `url`, sets its port and writes it back (the `url` crate's
/// `Url::parse`, `set_port` and `to_string`; a URL that takes no port keeps
/// its own).
///
/// Trusted: the contract only names the result, as a function of the two
/// arguments.
#[verifier::external_body]
fn set_url_port(url: &str, port: u16) -> (r: Option<String>)
    ensures
        match r {
            Some(u) => url_with_port(url@, port) == Some(u@),
            None => url_with_port(url@, port) is None,
        },
{
    let mut parsed = url::Url::parse(url).ok()?;
    let _ = parsed.set_port(Some(port));
    Some(parsed.to_string())
}

/// The relay socket URL: on the relay's own host when the server names one
/// (`wss://host:port/ws/`); otherwise the current URL with the relay's port
/// (`with_port`: the current URL with that port, `None` when it does not
/// parse, and then the current URL stays).
pub open spec fn relay_url(ws_url: Seq<char>, relay_port: u16, relay_host: Option<Seq<char>>, with_port: Option<Seq<char>>) -> Seq<char> {
    match relay_host {
        Some(h) => "wss://"@ + h + ":"@ + decimal(relay_port as nat) + "/ws/"@,
        None => match with_port {
            Some(u) => u,
            None => ws_url,
        },
    }
}

/// The relay socket URL from the current one, given what setting the
/// relay port on the current URL gave (see [`relay_url`]).
pub fn relay_url_from(ws_url: &str, relay_port: u16, relay_host: Option<&str>, with_port: Option<String>) -> (r: String)
    ensures
        r@ == relay_url(
            ws_url@,
            relay_port,
            match relay_host {
                Some(h) => Some(h@),
                None => None,
            },
            match with_port {
                Some(u) => Some(u@),
                None => None,
            },
        ),
{
    match relay_host {
        Some(h) => {
            let mut u = "wss://".to_owned();
            push_text(&mut u, h);
            push_text(&mut u, ":");
            push_decimal(&mut u, relay_port as u64);
            push_text(&mut u, "/ws/");
            u
        },
        None => match with_port {
            Some(u) => u,
            None => ws_url.to_owned(),
        },
    }
}

/// The socket URL to hand over to the match relay: on the relay's host when
/// the server names one, else the current URL with the relay's port (see
/// [`relay_url`], with [`url_with_port`] of the current URL).
pub fn relay_handoff_url(ws_url: &str, relay_port: u16, relay_host: Option<&str>) -> (r: String)
    ensures
        r@ == relay_url(
            ws_url@,
            relay_port,
            match relay_host {
                Some(h) => Some(h@),
                None => None,
            },
            url_with_port(ws_url@, relay_port),
        ),
{
    let with_port = match relay_host {
        Some(_) => None,
        None => set_url_port(ws_url, relay_port),
    };
    relay_url_from(ws_url, relay_port, relay_host, with_port)
}

} // verus!
