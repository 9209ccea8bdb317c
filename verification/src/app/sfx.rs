//! Gameplay sound director: decides which gameplay sounds may play, keeping
//! them apart in time, silencing ordinary sounds around critical ones and
//! keeping only the most important elimination of a tick. Times are
//! milliseconds on the caller's monotonic clock; each method answers whether
//! the caller should play the sound.

use vstd::prelude::*;
use crate::audio::{CombatSoundKind, PlayerSoundType};

verus! {

pub const DEPLOY_GAP_MS: u64 = 180;
pub const PLACEMENT_GAP_MS: u64 = 250;
pub const ORDINARY_GAP_MS: u64 = 160;
pub const COMPLETION_GAP_MS: u64 = 500;
pub const UNDER_ATTACK_GAP_MS: u64 = 8000;
pub const ELIMINATION_GAP_MS: u64 = 700;
pub const NUKE_GAP_MS: u64 = 800;
pub const CRITICAL_SILENCE_MS: u64 = 500;

/// Minimum spacing of two combat sounds of the same kind.
pub open spec fn combat_gap(kind: CombatSoundKind) -> u64 {
    match kind {
        CombatSoundKind::WildernessExpansion | CombatSoundKind::AttackTribe => 350,
        CombatSoundKind::AttackEmpire => 550,
        CombatSoundKind::AttackHuman => 750,
        CombatSoundKind::CounterAttack => 500,
    }
}

/// Slot of a combat kind in the per-kind table.
pub open spec fn combat_slot(kind: CombatSoundKind) -> int {
    match kind {
        CombatSoundKind::WildernessExpansion => 0,
        CombatSoundKind::AttackHuman => 1,
        CombatSoundKind::AttackEmpire => 2,
        CombatSoundKind::AttackTribe => 3,
        CombatSoundKind::CounterAttack => 4,
    }
}

/// Importance of an elimination: humans over nations over bots.
pub open spec fn rank(t: PlayerSoundType) -> u8 {
    match t {
        PlayerSoundType::Bot => 0,
        PlayerSoundType::Nation => 1,
        PlayerSoundType::Human => 2,
    }
}

/// Importance of an elimination: humans over nations over bots.
pub fn elimination_rank(player_type: PlayerSoundType) -> (r: u8)
    ensures
        r == rank(player_type),
{
    match player_type {
        PlayerSoundType::Bot => 0,
        PlayerSoundType::Nation => 1,
        PlayerSoundType::Human => 2,
    }
}

/// `gap` milliseconds have passed since `last` (or nothing happened yet); a
/// clock that ran backwards counts as no time passed.
pub open spec fn gap_passed(last: Option<u64>, now: u64, gap: u64) -> bool {
    match last {
        None => true,
        Some(prev) => (if now >= prev { now - prev } else { 0 }) >= gap,
    }
}

/// An elimination sound waiting for the end of the tick; `S` carries the
/// sound's position.
#[derive(Clone, Copy, Debug)]
pub struct PendingElimination<S> {
    pub player_type: PlayerSoundType,
    pub seed: u32,
    pub spatial: S,
}

/// State of the gameplay sound director.
#[derive(Clone, Copy, Debug)]
pub struct SfxDirector<S> {
    pub client_active: bool,
    pub server_playing: bool,
    pub last_ordinary: Option<u64>,
    pub last_deploy: Option<u64>,
    pub last_placement: Option<u64>,
    pub last_completion: Option<u64>,
    pub last_under_attack: Option<u64>,
    pub last_elimination: Option<u64>,
    pub last_nuke_launch: Option<u64>,
    pub last_nuke_impact: Option<u64>,
    /// Last combat sound per kind, indexed by `combat_slot`.
    pub last_combat: [Option<u64>; 5],
    pub critical_silence_until: Option<u64>,
    pub pending_elimination: Option<PendingElimination<S>>,
    pub under_attack_active: bool,
    pub result_played: bool,
}

fn gap_open(last: Option<u64>, now: u64, gap: u64) -> (r: bool)
    ensures
        r == gap_passed(last, now, gap),
{
    match last {
        None => true,
        Some(prev) => now.saturating_sub(prev) >= gap,
    }
}

fn combat_slot_exec(kind: CombatSoundKind) -> (r: usize)
    ensures
        r == combat_slot(kind),
        r < 5,
{
    match kind {
        CombatSoundKind::WildernessExpansion => 0,
        CombatSoundKind::AttackHuman => 1,
        CombatSoundKind::AttackEmpire => 2,
        CombatSoundKind::AttackTribe => 3,
        CombatSoundKind::CounterAttack => 4,
    }
}

impl<S> SfxDirector<S> {
    /// Critical silence is in force at `now`.
    pub open spec fn silenced(&self, now: u64) -> bool {
        match self.critical_silence_until {
            Some(until) => until > now,
            None => false,
        }
    }

    /// Gameplay sounds may play: this client is in the match, the server is
    /// in its playing phase and no critical sound holds the silence.
    pub open spec fn gameplay_ok(&self, now: u64) -> bool {
        self.client_active && self.server_playing && !self.silenced(now)
    }

    /// Ordinary sounds may play: gameplay sounds may, and the last ordinary
    /// sound is far enough back.
    pub open spec fn ordinary_ok(&self, now: u64) -> bool {
        self.gameplay_ok(now) && gap_passed(self.last_ordinary, now, ORDINARY_GAP_MS)
    }

    /// A director for a new match: nothing played, not active.
    pub fn new() -> (d: Self)
        ensures
            !d.client_active && !d.server_playing && !d.under_attack_active && !d.result_played,
            d.last_ordinary is None && d.last_deploy is None && d.last_placement is None,
            d.last_completion is None && d.last_under_attack is None && d.last_elimination is None,
            d.last_nuke_launch is None && d.last_nuke_impact is None,
            forall|i: int| 0 <= i < 5 ==> d.last_combat[i] is None,
            d.critical_silence_until is None && d.pending_elimination is None,
    {
        SfxDirector {
            client_active: false,
            server_playing: false,
            last_ordinary: None,
            last_deploy: None,
            last_placement: None,
            last_completion: None,
            last_under_attack: None,
            last_elimination: None,
            last_nuke_launch: None,
            last_nuke_impact: None,
            last_combat: [None, None, None, None, None],
            critical_silence_until: None,
            pending_elimination: None,
            under_attack_active: false,
            result_played: false,
        }
    }

    /// Forgets everything for a new match.
    pub fn reset_for_match(&mut self)
        ensures
            !final(self).client_active && !final(self).server_playing,
            !final(self).under_attack_active && !final(self).result_played,
            final(self).last_ordinary is None && final(self).last_deploy is None,
            final(self).last_placement is None && final(self).last_completion is None,
            final(self).last_under_attack is None && final(self).last_elimination is None,
            final(self).last_nuke_launch is None && final(self).last_nuke_impact is None,
            forall|i: int| 0 <= i < 5 ==> final(self).last_combat[i] is None,
            final(self).critical_silence_until is None && final(self).pending_elimination is None,
    {
        *self = Self::new();
    }

    /// Records whether this client takes part in the match; leaving it ends
    /// the under-attack alarm.
    pub fn set_client_active(&mut self, active: bool)
        ensures
            *final(self) == (SfxDirector {
                client_active: active,
                under_attack_active: if active { old(self).under_attack_active } else { false },
                ..*old(self)
            }),
    {
        self.client_active = active;
        if !active {
            self.under_attack_active = false;
        }
    }

    /// Records whether the server is in its playing phase; any other phase
    /// ends the under-attack alarm.
    pub fn sync_server_phase(&mut self, playing: bool)
        ensures
            *final(self) == (SfxDirector {
                server_playing: playing,
                under_attack_active: if playing { old(self).under_attack_active } else { false },
                ..*old(self)
            }),
    {
        self.server_playing = playing;
        if !self.server_playing {
            self.under_attack_active = false;
        }
    }

    /// Starts a simulation tick: no elimination is pending.
    pub fn begin_tick(&mut self)
        ensures
            *final(self) == (SfxDirector { pending_elimination: None, ..*old(self) }),
    {
        self.pending_elimination = None;
    }

    fn mark_critical(&mut self, now: u64)
        requires
            now <= u64::MAX - CRITICAL_SILENCE_MS,
        ensures
            *final(self) == (SfxDirector {
                critical_silence_until: Some((now + CRITICAL_SILENCE_MS) as u64),
                ..*old(self)
            }),
    {
        self.critical_silence_until = Some(now + CRITICAL_SILENCE_MS);
    }

    fn gameplay_allowed(&self, now: u64) -> (r: bool)
        ensures
            r == self.gameplay_ok(now),
    {
        let silenced = match self.critical_silence_until {
            Some(until) => until > now,
            None => false,
        };
        self.client_active && self.server_playing && !silenced
    }

    fn ordinary_allowed(&self, now: u64) -> (r: bool)
        ensures
            r == self.ordinary_ok(now),
    {
        self.gameplay_allowed(now) && gap_open(self.last_ordinary, now, ORDINARY_GAP_MS)
    }

    /// Ends a tick: the pending elimination, if any, is taken; it is returned
    /// for playing when gameplay sounds may play and the last elimination
    /// sound is far enough back, which also starts the critical silence.
    pub fn flush_tick(&mut self, now: u64) -> (r: Option<PendingElimination<S>>)
        requires
            now <= u64::MAX - CRITICAL_SILENCE_MS,
        ensures
            ({
                let play = old(self).pending_elimination is Some && old(self).gameplay_ok(now)
                    && gap_passed(old(self).last_elimination, now, ELIMINATION_GAP_MS);
                &&& play ==> r == old(self).pending_elimination && *final(self) == (SfxDirector {
                    pending_elimination: None,
                    last_elimination: Some(now),
                    critical_silence_until: Some((now + CRITICAL_SILENCE_MS) as u64),
                    ..*old(self)
                })
                &&& !play ==> r is None && *final(self) == (SfxDirector {
                    pending_elimination: None,
                    ..*old(self)
                })
            }),
    {
        let mut taken = None;
        std::mem::swap(&mut taken, &mut self.pending_elimination);
        let pending = match taken {
            None => {
                return None;
            },
            Some(p) => p,
        };
        if !self.gameplay_allowed(now) || !gap_open(self.last_elimination, now, ELIMINATION_GAP_MS) {
            return None;
        }
        self.last_elimination = Some(now);
        self.mark_critical(now);
        Some(pending)
    }

    /// A deploy sound: allowed as an ordinary sound at most every 180 ms.
    pub fn play_deploy(&mut self, now: u64) -> (play: bool)
        ensures
            play == (old(self).ordinary_ok(now) && gap_passed(old(self).last_deploy, now, DEPLOY_GAP_MS)),
            play ==> *final(self) == (SfxDirector {
                last_deploy: Some(now),
                last_ordinary: Some(now),
                ..*old(self)
            }),
            !play ==> *final(self) == *old(self),
    {
        if !self.ordinary_allowed(now) || !gap_open(self.last_deploy, now, DEPLOY_GAP_MS) {
            return false;
        }
        self.last_deploy = Some(now);
        self.last_ordinary = Some(now);
        true
    }

    /// A placement sound: allowed as an ordinary sound at most every 250 ms.
    pub fn play_placement(&mut self, now: u64) -> (play: bool)
        ensures
            play == (old(self).ordinary_ok(now) && gap_passed(
                old(self).last_placement,
                now,
                PLACEMENT_GAP_MS,
            )),
            play ==> *final(self) == (SfxDirector {
                last_placement: Some(now),
                last_ordinary: Some(now),
                ..*old(self)
            }),
            !play ==> *final(self) == *old(self),
    {
        if !self.ordinary_allowed(now) || !gap_open(self.last_placement, now, PLACEMENT_GAP_MS) {
            return false;
        }
        self.last_placement = Some(now);
        self.last_ordinary = Some(now);
        true
    }

    /// A completion sound: a critical sound at most every 500 ms.
    pub fn play_completion(&mut self, now: u64) -> (play: bool)
        requires
            now <= u64::MAX - CRITICAL_SILENCE_MS,
        ensures
            play == (old(self).gameplay_ok(now) && gap_passed(
                old(self).last_completion,
                now,
                COMPLETION_GAP_MS,
            )),
            play ==> *final(self) == (SfxDirector {
                last_completion: Some(now),
                critical_silence_until: Some((now + CRITICAL_SILENCE_MS) as u64),
                ..*old(self)
            }),
            !play ==> *final(self) == *old(self),
    {
        if !self.gameplay_allowed(now) || !gap_open(self.last_completion, now, COMPLETION_GAP_MS) {
            return false;
        }
        self.last_completion = Some(now);
        self.mark_critical(now);
        true
    }

    /// Time of the last combat sound of `kind`.
    pub fn last_combat_at(&self, kind: CombatSoundKind) -> (r: Option<u64>)
        ensures
            r == self.last_combat[combat_slot(kind)],
    {
        self.last_combat[combat_slot_exec(kind)]
    }

    /// A combat sound: an ordinary sound, at most once per kind-specific gap.
    pub fn play_combat(&mut self, now: u64, kind: CombatSoundKind) -> (play: bool)
        ensures
            play == (old(self).ordinary_ok(now) && gap_passed(
                old(self).last_combat[combat_slot(kind)],
                now,
                combat_gap(kind),
            )),
            play ==> *final(self) == (SfxDirector {
                last_combat: vstd::array::spec_array_update(
                    old(self).last_combat,
                    combat_slot(kind),
                    Some(now),
                ),
                last_ordinary: Some(now),
                ..*old(self)
            }),
            !play ==> *final(self) == *old(self),
    {
        if !self.ordinary_allowed(now) {
            return false;
        }
        let gap: u64 = match kind {
            CombatSoundKind::WildernessExpansion | CombatSoundKind::AttackTribe => 350,
            CombatSoundKind::AttackEmpire => 550,
            CombatSoundKind::AttackHuman => 750,
            CombatSoundKind::CounterAttack => 500,
        };
        let slot = combat_slot_exec(kind);
        if !gap_open(self.last_combat[slot], now, gap) {
            return false;
        }
        self.last_combat[slot] = Some(now);
        proof {
            assert(self.last_combat =~= vstd::array::spec_array_update(
                old(self).last_combat,
                combat_slot(kind),
                Some(now),
            ));
        }
        self.last_ordinary = Some(now);
        true
    }

    /// The under-attack alarm: `active` says whether the player is under
    /// attack now, `newly_relevant` whether a new attack began, and `located`
    /// whether the attack has a position to sound from. The alarm plays as a
    /// critical sound when the attack state is entered or a new attack is
    /// relevant, at most every 8 s.
    pub fn update_under_attack(&mut self, now: u64, active: bool, newly_relevant: bool, located: bool) -> (play: bool)
        requires
            now <= u64::MAX - CRITICAL_SILENCE_MS,
        ensures
            !active ==> !play && *final(self) == (SfxDirector {
                under_attack_active: false,
                ..*old(self)
            }),
            active ==> {
                let entered = !old(self).under_attack_active;
                let marked = SfxDirector { under_attack_active: true, ..*old(self) };
                &&& play == (located && old(self).gameplay_ok(now) && (entered || newly_relevant)
                    && gap_passed(old(self).last_under_attack, now, UNDER_ATTACK_GAP_MS))
                &&& play ==> *final(self) == (SfxDirector {
                    last_under_attack: Some(now),
                    critical_silence_until: Some((now + CRITICAL_SILENCE_MS) as u64),
                    ..marked
                })
                &&& !play ==> *final(self) == marked
            },
    {
        if !active {
            self.under_attack_active = false;
            return false;
        }
        let entered = !self.under_attack_active;
        self.under_attack_active = true;
        if !located {
            return false;
        }
        if !self.gameplay_allowed(now) || (!entered && !newly_relevant) || !gap_open(
            self.last_under_attack,
            now,
            UNDER_ATTACK_GAP_MS,
        ) {
            return false;
        }
        self.last_under_attack = Some(now);
        self.mark_critical(now);
        true
    }

    /// The director after queueing an elimination: a client in a playing
    /// match keeps the queued sound unless one of at least its rank is
    /// already pending.
    pub open spec fn with_queued(self, player_type: PlayerSoundType, seed: u32, spatial: S) -> Self {
        let replace = self.client_active && self.server_playing && match self.pending_elimination {
            None => true,
            Some(p) => rank(player_type) > rank(p.player_type),
        };
        if replace {
            SfxDirector {
                pending_elimination: Some(PendingElimination { player_type, seed, spatial }),
                ..self
            }
        } else {
            self
        }
    }

    /// Queues an elimination sound for the end of the tick, keeping only the
    /// most important one (a later one replaces an earlier one of strictly
    /// lower rank); ignored unless the client is in a playing match.
    pub fn queue_elimination(&mut self, player_type: PlayerSoundType, seed: u32, spatial: S)
        ensures
            *final(self) == old(self).with_queued(player_type, seed, spatial),
    {
        if !self.client_active || !self.server_playing {
            return;
        }
        let replace = match &self.pending_elimination {
            None => true,
            Some(pending) => elimination_rank(player_type) > elimination_rank(pending.player_type),
        };
        if replace {
            self.pending_elimination = Some(PendingElimination { player_type, seed, spatial });
        }
    }

    /// A nuclear launch sound: a critical sound at most every 800 ms.
    pub fn play_nuke_launch(&mut self, now: u64) -> (play: bool)
        requires
            now <= u64::MAX - CRITICAL_SILENCE_MS,
        ensures
            play == (old(self).gameplay_ok(now) && gap_passed(old(self).last_nuke_launch, now, NUKE_GAP_MS)),
            play ==> *final(self) == (SfxDirector {
                last_nuke_launch: Some(now),
                critical_silence_until: Some((now + CRITICAL_SILENCE_MS) as u64),
                ..*old(self)
            }),
            !play ==> *final(self) == *old(self),
    {
        if !self.gameplay_allowed(now) || !gap_open(self.last_nuke_launch, now, NUKE_GAP_MS) {
            return false;
        }
        self.last_nuke_launch = Some(now);
        self.mark_critical(now);
        true
    }

    /// A nuclear impact sound: a critical sound at most every 800 ms.
    pub fn play_nuke_impact(&mut self, now: u64) -> (play: bool)
        requires
            now <= u64::MAX - CRITICAL_SILENCE_MS,
        ensures
            play == (old(self).gameplay_ok(now) && gap_passed(old(self).last_nuke_impact, now, NUKE_GAP_MS)),
            play ==> *final(self) == (SfxDirector {
                last_nuke_impact: Some(now),
                critical_silence_until: Some((now + CRITICAL_SILENCE_MS) as u64),
                ..*old(self)
            }),
            !play ==> *final(self) == *old(self),
    {
        if !self.gameplay_allowed(now) || !gap_open(self.last_nuke_impact, now, NUKE_GAP_MS) {
            return false;
        }
        self.last_nuke_impact = Some(now);
        self.mark_critical(now);
        true
    }

    /// The victory or defeat jingle: once per match, for a client in it.
    pub fn play_result(&mut self) -> (play: bool)
        ensures
            play == (old(self).client_active && !old(self).result_played),
            play ==> *final(self) == (SfxDirector { result_played: true, ..*old(self) }),
            !play ==> *final(self) == *old(self),
    {
        if !self.client_active || self.result_played {
            return false;
        }
        self.result_played = true;
        true
    }
}

/// Gameplay sounds are silent unless this client is in a match whose server
/// is in its playing phase (no sound during spawning or after the end).
pub proof fn law_silent_outside_play<S>(d: SfxDirector<S>, now: u64)
    requires
        !d.client_active || !d.server_playing,
    ensures
        !d.gameplay_ok(now),
        !d.ordinary_ok(now),
{
}

/// Two combat sounds of one kind are at least that kind's gap apart: right
/// after one played at `t`, another of the same kind at `t2` with
/// `t <= t2 < t + gap` is refused.
pub proof fn law_combat_gap<S>(d: SfxDirector<S>, kind: CombatSoundKind, t: u64, t2: u64)
    requires
        d.last_combat[combat_slot(kind)] == Some(t),
        t <= t2,
        t2 - t < combat_gap(kind),
    ensures
        !gap_passed(d.last_combat[combat_slot(kind)], t2, combat_gap(kind)),
{
}

/// After a critical sound at `t`, no gameplay sound plays before `t + 500`.
pub proof fn law_critical_silence<S>(d: SfxDirector<S>, t: u64, t2: u64)
    requires
        t <= u64::MAX - CRITICAL_SILENCE_MS,
        d.critical_silence_until == Some((t + CRITICAL_SILENCE_MS) as u64),
        t2 < t + CRITICAL_SILENCE_MS,
    ensures
        !d.gameplay_ok(t2),
{
}

/// Within a tick the pending elimination is the most important one queued:
/// queueing in a playing match leaves an elimination pending whose rank is at
/// least that of the queued one and of the one pending before.
pub proof fn law_elimination_keeps_highest<S>(
    d: SfxDirector<S>,
    player_type: PlayerSoundType,
    seed: u32,
    spatial: S,
)
    requires
        d.client_active,
        d.server_playing,
    ensures
        d.with_queued(player_type, seed, spatial).pending_elimination is Some,
        rank(d.with_queued(player_type, seed, spatial).pending_elimination.unwrap().player_type)
            >= rank(player_type),
        d.pending_elimination matches Some(p) ==> rank(
            d.with_queued(player_type, seed, spatial).pending_elimination.unwrap().player_type,
        ) >= rank(p.player_type),
{
}

} // verus!
