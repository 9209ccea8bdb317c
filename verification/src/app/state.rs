//! Per-match client state the game logic keeps between frames: what the
//! tutorial has already observed, how the pointer hovers, which viewport
//! alert shows, and one-shot load telemetry.

use vstd::prelude::*;
use std::collections::HashSet;

verus! {

/// What the tutorial has already seen this match, so each event reacts once.
pub struct TutorialObservation {
    pub seen_attacks: HashSet<u64>,
    pub seen_fleets: HashSet<u64>,
    pub seen_structures: HashSet<u64>,
    pub seen_defeated: HashSet<u16>,
    pub seen_defeated_names: HashSet<String>,
    pub seen_contacts: HashSet<u16>,
    pub seen_nukes: HashSet<(u32, u32, u16)>,
}

impl TutorialObservation {
    /// Nothing is seen yet.
    pub open spec fn is_empty(&self) -> bool {
        &&& self.seen_attacks@ == Set::<u64>::empty()
        &&& self.seen_fleets@ == Set::<u64>::empty()
        &&& self.seen_structures@ == Set::<u64>::empty()
        &&& self.seen_defeated@ == Set::<u16>::empty()
        &&& self.seen_defeated_names@ == Set::<String>::empty()
        &&& self.seen_contacts@ == Set::<u16>::empty()
        &&& self.seen_nukes@ == Set::<(u32, u32, u16)>::empty()
    }

    /// An observation that has seen nothing.
    pub fn new() -> (o: Self)
        ensures
            o.is_empty(),
    {
        TutorialObservation {
            seen_attacks: HashSet::new(),
            seen_fleets: HashSet::new(),
            seen_structures: HashSet::new(),
            seen_defeated: HashSet::new(),
            seen_defeated_names: HashSet::new(),
            seen_contacts: HashSet::new(),
            seen_nukes: HashSet::new(),
        }
    }

    /// Forgets everything seen (a new tutorial match).
    pub fn reset(&mut self)
        ensures
            final(self).is_empty(),
    {
        *self = Self::new();
    }
}

/// What kind of pointer hovers the map.
#[derive(Clone, Copy, Debug, PartialEq, Eq, Structural)]
pub enum HoverPointer {
    /// No pointer hovers the map.
    Absent,
    Mouse,
    Touch,
}

/// A full-screen vignette alert.
#[derive(Clone, Copy, Debug, PartialEq, Eq, Structural)]
pub enum ViewportAlertKind {
    UnderAttack,
    AllianceRequest,
    Betrayal,
    ConquerPlayer,
    Victory,
    Defeat,
}

/// Priority of an alert: the match result over betrayal over a conquest over
/// an alliance request over being under attack.
pub open spec fn alert_priority(k: ViewportAlertKind) -> u8 {
    match k {
        ViewportAlertKind::Victory | ViewportAlertKind::Defeat => 4,
        ViewportAlertKind::Betrayal => 3,
        ViewportAlertKind::ConquerPlayer => 2,
        ViewportAlertKind::AllianceRequest => 1,
        ViewportAlertKind::UnderAttack => 0,
    }
}

/// Whether alert `kind` takes the vignette from the one showing: nothing
/// shows; the same kind shows and is not a persistent alert (under attack,
/// victory, defeat), so its timer restarts; or another kind of no higher
/// priority shows.
pub open spec fn alert_replaces(current: Option<ViewportAlertKind>, kind: ViewportAlertKind) -> bool {
    match current {
        None => true,
        Some(c) => if c == kind {
            kind != ViewportAlertKind::UnderAttack && kind != ViewportAlertKind::Victory && kind
                != ViewportAlertKind::Defeat
        } else {
            alert_priority(kind) >= alert_priority(c)
        },
    }
}

fn priority(kind: ViewportAlertKind) -> (p: u8)
    ensures
        p == alert_priority(kind),
{
    match kind {
        ViewportAlertKind::Victory | ViewportAlertKind::Defeat => 4,
        ViewportAlertKind::Betrayal => 3,
        ViewportAlertKind::ConquerPlayer => 2,
        ViewportAlertKind::AllianceRequest => 1,
        ViewportAlertKind::UnderAttack => 0,
    }
}

/// Decides whether a triggered viewport alert replaces the current one (the
/// caller then restarts the vignette with `kind`).
pub fn viewport_alert_replaces(current: Option<ViewportAlertKind>, kind: ViewportAlertKind) -> (r: bool)
    ensures
        r == alert_replaces(current, kind),
{
    match current {
        None => true,
        Some(c) => if c == kind {
            kind != ViewportAlertKind::UnderAttack && kind != ViewportAlertKind::Victory && kind
                != ViewportAlertKind::Defeat
        } else {
            priority(kind) >= priority(c)
        },
    }
}

/// A match result alert is never replaced by anything but a restart of
/// another result, and a lower-priority alert never takes the vignette from
/// a higher one.
pub proof fn law_alert_priority_respected(current: ViewportAlertKind, kind: ViewportAlertKind)
    requires
        alert_priority(kind) < alert_priority(current),
    ensures
        !alert_replaces(Some(current), kind),
{
}

/// Phase of a multiplayer match hand-off.
#[derive(Clone, Copy, Debug, PartialEq, Eq, Structural)]
pub enum LoadPhase {
    RelayConnected,
    EngineInitComplete,
    GpuUploadComplete,
    SnapshotAvailable,
    ReadySent,
}

/// One-shot timings (milliseconds on the client's clock) of a match hand-off
/// and loader.
#[derive(Clone, Copy, Debug, PartialEq, Eq, Structural)]
pub struct LoadTelemetry {
    pub started_at: Option<u64>,
    pub relay_connected_at: Option<u64>,
    pub engine_init_complete_at: Option<u64>,
    pub gpu_upload_complete_at: Option<u64>,
    pub snapshot_available_at: Option<u64>,
    pub ready_sent_at: Option<u64>,
}

impl LoadTelemetry {
    /// The time recorded for `phase`.
    pub open spec fn slot(&self, phase: LoadPhase) -> Option<u64> {
        match phase {
            LoadPhase::RelayConnected => self.relay_connected_at,
            LoadPhase::EngineInitComplete => self.engine_init_complete_at,
            LoadPhase::GpuUploadComplete => self.gpu_upload_complete_at,
            LoadPhase::SnapshotAvailable => self.snapshot_available_at,
            LoadPhase::ReadySent => self.ready_sent_at,
        }
    }

    /// No timing recorded.
    pub fn new() -> (t: Self)
        ensures
            t == (LoadTelemetry {
                started_at: None,
                relay_connected_at: None,
                engine_init_complete_at: None,
                gpu_upload_complete_at: None,
                snapshot_available_at: None,
                ready_sent_at: None,
            }),
    {
        LoadTelemetry {
            started_at: None,
            relay_connected_at: None,
            engine_init_complete_at: None,
            gpu_upload_complete_at: None,
            snapshot_available_at: None,
            ready_sent_at: None,
        }
    }

    /// Starts timing a relay hand-off at `now`: every earlier timing is dropped.
    pub fn reset_for_relay_handoff(&mut self, now: u64)
        ensures
            *final(self) == (LoadTelemetry {
                started_at: Some(now),
                relay_connected_at: None,
                engine_init_complete_at: None,
                gpu_upload_complete_at: None,
                snapshot_available_at: None,
                ready_sent_at: None,
            }),
    {
        *self = LoadTelemetry { started_at: Some(now), ..Self::new() };
    }

    /// Records `now` for `phase` unless it was already recorded; returns
    /// the elapsed milliseconds since the start when it was recorded now and
    /// a start is known (the caller logs it), `Some(None)` when recorded
    /// without a start, and `None` when the phase was already recorded.
    pub fn mark_once(&mut self, phase: LoadPhase, now: u64) -> (r: Option<Option<u64>>)
        ensures
            old(self).slot(phase) is Some ==> r is None && *final(self) == *old(self),
            old(self).slot(phase) is None ==> {
                &&& final(self).slot(phase) == Some(now)
                &&& final(self).started_at == old(self).started_at
                &&& forall|p: LoadPhase| p != phase ==> final(self).slot(p) == old(self).slot(p)
                &&& r == Some(match old(self).started_at {
                    Some(s) => Some(if now >= s { (now - s) as u64 } else { 0 }),
                    None => None,
                })
            },
    {
        let slot = match phase {
            LoadPhase::RelayConnected => &mut self.relay_connected_at,
            LoadPhase::EngineInitComplete => &mut self.engine_init_complete_at,
            LoadPhase::GpuUploadComplete => &mut self.gpu_upload_complete_at,
            LoadPhase::SnapshotAvailable => &mut self.snapshot_available_at,
            LoadPhase::ReadySent => &mut self.ready_sent_at,
        };
        if slot.is_some() {
            return None;
        }
        *slot = Some(now);
        Some(match self.started_at {
            Some(s) => Some(now.saturating_sub(s)),
            None => None,
        })
    }
}

} // verus!
