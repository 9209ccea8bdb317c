use sow_client::app::progress::{match_outcome, records_locally, FinalState};
use sow_client::campaign::{CampaignId, Team};
use sow_client::input::map_click::{alliance_action, AllianceAction, MapTarget};

fn player(owner: u16) -> MapTarget {
    MapTarget {
        owner,
        is_land: true,
        my_id: 1,
        is_allied: false,
        is_teammate: false,
        has_alliance_request: false,
        has_proposed_alliance: false,
        is_in_renewal_window: false,
    }
}

#[test]
fn alliance_action_follows_the_relationship() {
    assert_eq!(alliance_action(player(0)), AllianceAction::Nothing);
    assert_eq!(alliance_action(player(1)), AllianceAction::Nothing);
    assert_eq!(
        alliance_action(MapTarget { is_teammate: true, ..player(2) }),
        AllianceAction::Nothing
    );
    assert_eq!(alliance_action(player(2)), AllianceAction::Propose { renewal: false });
    assert_eq!(
        alliance_action(MapTarget { has_alliance_request: true, ..player(2) }),
        AllianceAction::Accept
    );
    assert_eq!(
        alliance_action(MapTarget { has_proposed_alliance: true, ..player(2) }),
        AllianceAction::AlreadyPending { renewal: false }
    );
    let ally = MapTarget { is_allied: true, ..player(2) };
    assert_eq!(alliance_action(ally), AllianceAction::Break);
    let renewing = MapTarget { is_in_renewal_window: true, ..ally };
    assert_eq!(alliance_action(renewing), AllianceAction::Propose { renewal: true });
    assert_eq!(
        alliance_action(MapTarget { has_proposed_alliance: true, ..renewing }),
        AllianceAction::AlreadyPending { renewal: true }
    );
    assert_eq!(
        alliance_action(MapTarget { has_alliance_request: true, ..renewing }),
        AllianceAction::Accept
    );
}

#[test]
fn match_outcome_waits_for_a_result() {
    let alive = Some(FinalState { alive: true, has_spawned: true });
    assert_eq!(match_outcome(false, 3, alive, None, None, None), None);
    assert_eq!(match_outcome(true, 3, alive, Some(3), None, None), None);
    assert_eq!(match_outcome(false, 0, alive, Some(3), None, None), None);
    assert_eq!(match_outcome(false, 3, None, Some(3), None, None), None);
}

#[test]
fn match_outcome_by_winner_or_team() {
    let alive = Some(FinalState { alive: true, has_spawned: true });
    assert_eq!(match_outcome(false, 3, alive, Some(3), None, None), Some(true));
    assert_eq!(match_outcome(false, 3, alive, Some(4), None, None), Some(false));
    assert_eq!(
        match_outcome(false, 3, alive, Some(4), Some(Team::Red), Some(Team::Red)),
        Some(true)
    );
    assert_eq!(
        match_outcome(false, 3, alive, Some(4), Some(Team::Red), Some(Team::Blue)),
        Some(false)
    );
    assert_eq!(match_outcome(false, 3, alive, Some(3), Some(Team::Red), None), Some(false));
}

#[test]
fn eliminated_player_has_lost() {
    let dead = Some(FinalState { alive: false, has_spawned: true });
    assert_eq!(match_outcome(false, 3, dead, None, None, None), Some(false));
    let never_spawned = Some(FinalState { alive: false, has_spawned: false });
    assert_eq!(match_outcome(false, 3, never_spawned, None, None, None), None);
}

#[test]
fn server_owned_results_are_not_recorded_locally() {
    assert!(records_locally(false, false, false, CampaignId::Boudica));
    assert!(records_locally(false, true, true, CampaignId::Boudica));
    assert!(!records_locally(true, false, false, CampaignId::SixSkyEp1));
    assert!(!records_locally(true, true, true, CampaignId::Boudica));
    assert!(records_locally(true, true, true, CampaignId::SixSkyEp1));
    assert!(records_locally(true, true, false, CampaignId::Boudica));
}
