use sow_client::campaign::CampaignId;
use sow_client::net::session::{
    should_complete_boudica_intro_on_exit, should_draw_world, should_use_exit_game_loader,
};
use sow_client::ClientPhase;

#[test]
fn exit_loader_only_runs_for_active_game() {
    assert!(!should_use_exit_game_loader(ClientPhase::MainMenu));
    assert!(should_use_exit_game_loader(ClientPhase::Playing));
    assert!(!should_use_exit_game_loader(ClientPhase::Splash));
}

#[test]
fn only_unfinished_offline_boudica_tutorial_exit_completes_intro() {
    assert!(should_complete_boudica_intro_on_exit(true, true, CampaignId::Boudica, None));
    assert!(!should_complete_boudica_intro_on_exit(true, false, CampaignId::Boudica, None));
    assert!(!should_complete_boudica_intro_on_exit(false, true, CampaignId::Boudica, None));
    assert!(!should_complete_boudica_intro_on_exit(true, true, CampaignId::SixSkyEp1, None));
    assert!(!should_complete_boudica_intro_on_exit(true, true, CampaignId::Boudica, Some(true)));
}

#[test]
fn an_explicitly_unfinished_intro_still_completes_on_exit() {
    assert!(should_complete_boudica_intro_on_exit(true, true, CampaignId::Boudica, Some(false)));
}

#[test]
fn world_is_painted_while_playing_or_after_the_enter_game_load() {
    assert!(should_draw_world(ClientPhase::Playing, false, false));
    assert!(should_draw_world(ClientPhase::Splash, true, true));
    assert!(!should_draw_world(ClientPhase::Splash, true, false));
    assert!(!should_draw_world(ClientPhase::Splash, false, true));
    assert!(!should_draw_world(ClientPhase::MainMenu, true, true));
}

#[test]
fn leaving_a_running_match_goes_through_the_exit_loader() {
    let p = sow_client::net::session::exit_plan(
        ClientPhase::Playing,
        false,
        false,
        false,
        CampaignId::Boudica,
        None,
        false,
        true,
        true,
    );
    assert!(p.abandoned && p.gameplay_stopped && p.refresh_profile && !p.reset_session);
    assert_eq!(p.next_phase, ClientPhase::Splash);
    let q = sow_client::net::session::exit_plan(
        ClientPhase::Splash,
        true,
        true,
        true,
        CampaignId::Boudica,
        Some(false),
        false,
        true,
        true,
    );
    assert!(q.complete_intro && q.reset_session && !q.abandoned && !q.refresh_profile);
    assert_eq!(q.next_phase, ClientPhase::MainMenu);
}

#[test]
fn offline_players_carry_their_clan_tag_and_team_mode() {
    assert_eq!(sow_client::loader::match_start::offline_player_name("Ada", ""), "Ada");
    assert_eq!(sow_client::loader::match_start::offline_player_name("Ada", "SOW"), "[SOW] Ada");
    assert_eq!(
        sow_client::loader::match_start::offline_player_team(None, "Teams"),
        Some(sow_client::campaign::Team::Red)
    );
    assert_eq!(sow_client::loader::match_start::offline_player_team(None, "FFA"), None);
    assert_eq!(
        sow_client::loader::match_start::offline_player_team(Some(sow_client::campaign::Team::Blue), "Teams"),
        Some(sow_client::campaign::Team::Blue)
    );
}
