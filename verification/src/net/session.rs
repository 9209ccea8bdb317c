//! Match exit rules: which exits finish the Boudica intro, when the exit
//! loader runs, and when the world is painted.

use vstd::prelude::*;
use crate::campaign::CampaignId;
use crate::ClientPhase;

verus! {

/// Leaving a match finishes the Boudica intro only for an offline Boudica
/// tutorial whose intro is not finished yet.
pub fn should_complete_boudica_intro_on_exit(
    tutorial_active: bool,
    is_offline: bool,
    campaign: CampaignId,
    intro_completed: Option<bool>,
) -> (r: bool)
    ensures
        r == (tutorial_active && is_offline && campaign == CampaignId::Boudica && intro_completed
            != Some(true)),
{
    tutorial_active && is_offline && campaign == CampaignId::Boudica && !intro_completed.unwrap_or(false)
}

/// The exit loader runs only when leaving a game in progress.
pub fn should_use_exit_game_loader(phase: ClientPhase) -> (r: bool)
    ensures
        r == (phase == ClientPhase::Playing),
{
    match phase {
        ClientPhase::Playing => true,
        _ => false,
    }
}

/// The map is painted while playing, and on the splash screen only once the
/// enter-game load has finished.
pub fn should_draw_world(phase: ClientPhase, splash_entering_game: bool, splash_done: bool) -> (r: bool)
    ensures
        r == match phase {
            ClientPhase::Playing => true,
            ClientPhase::Splash => splash_entering_game && splash_done,
            ClientPhase::MainMenu => false,
        },
{
    match phase {
        ClientPhase::Playing => true,
        ClientPhase::Splash => splash_entering_game && splash_done,
        ClientPhase::MainMenu => false,
    }
}

/// What leaving a match (or a lobby, or a load) to the main menu involves.
#[derive(Clone, Copy, Debug, PartialEq, Eq, Structural)]
pub struct ExitPlan {
    /// Finish the Boudica intro (and report it) on this early exit.
    pub complete_intro: bool,
    /// The match was left before its result was recorded.
    pub abandoned: bool,
    /// Gameplay stops (a match was running).
    pub gameplay_stopped: bool,
    /// A game being loaded is torn down.
    pub reset_session: bool,
    /// Screen shown next: the exit loader after a running match, else the
    /// main menu at once.
    pub next_phase: ClientPhase,
    /// Fetch the cloud profile again (results of a played match).
    pub refresh_profile: bool,
}

/// Plans leaving to the main menu from `phase`.
pub fn exit_plan(
    phase: ClientPhase,
    splash_entering_game: bool,
    tutorial_active: bool,
    is_offline: bool,
    campaign: CampaignId,
    intro_completed: Option<bool>,
    match_recorded: bool,
    account_loaded: bool,
    cloud_profile_enabled: bool,
) -> (p: ExitPlan)
    ensures
        p.complete_intro == (tutorial_active && is_offline && campaign == CampaignId::Boudica
            && intro_completed != Some(true)),
        p.abandoned == (phase == ClientPhase::Playing && !match_recorded),
        p.gameplay_stopped == (phase == ClientPhase::Playing),
        p.reset_session == (phase == ClientPhase::Splash && splash_entering_game),
        p.next_phase == if phase == ClientPhase::Playing { ClientPhase::Splash } else { ClientPhase::MainMenu },
        p.refresh_profile == (phase == ClientPhase::Playing && account_loaded && cloud_profile_enabled),
{
    let was_playing = phase == ClientPhase::Playing;
    ExitPlan {
        complete_intro: should_complete_boudica_intro_on_exit(tutorial_active, is_offline, campaign, intro_completed),
        abandoned: was_playing && !match_recorded,
        gameplay_stopped: was_playing,
        reset_session: phase == ClientPhase::Splash && splash_entering_game,
        next_phase: if should_use_exit_game_loader(phase) { ClientPhase::Splash } else { ClientPhase::MainMenu },
        refresh_profile: was_playing && account_loaded && cloud_profile_enabled,
    }
}

} // verus!
