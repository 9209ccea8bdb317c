use sow_client::campaign::CampaignId;
use sow_client::player_progress::{MatchReward, PlayerProgress, SessionDefeats};

fn tutorial_reward() -> MatchReward {
    MatchReward { xp: 100, leader_xp: 100, crowns: 100, laurels: 0 }
}

#[test]
fn tutorial_completion_is_idempotent_and_persists_reward() {
    let mut progress = PlayerProgress::default();
    assert!(progress.complete_tutorial_with_reward(tutorial_reward()));
    assert!(!progress.complete_tutorial_with_reward(tutorial_reward()));
    assert_eq!(progress.intro_completed, Some(true));
    assert_eq!(progress.xp, 100);
    assert_eq!(progress.crowns, 100);
    assert_eq!(progress.laurels, 0);
    assert_eq!(progress.leader_xp.get(&"Boudica".to_string()), Some(&100));
}

#[test]
fn match_reward_tracks_the_selected_leader_without_changing_gold() {
    let mut progress = PlayerProgress::default();
    progress.preferred_leader = Some("Boudica".to_string());
    progress.record_match_with_kda(
        true,
        SessionDefeats { players: 1, ..Default::default() },
        2,
        1,
        1,
        MatchReward { xp: 140, leader_xp: 140, crowns: 106, laurels: 0 },
    );
    assert_eq!(progress.matches_played, 1);
    assert_eq!(progress.leader_xp.get(&"Boudica".to_string()), Some(&140));
    assert_eq!(progress.crowns, 106);
    assert_eq!(progress.laurels, 0);
}

#[test]
fn assigned_leader_does_not_make_a_new_profile_have_history() {
    let mut progress = PlayerProgress::default();
    progress.preferred_leader = Some("Caesar".to_string());
    assert!(!progress.has_history());
}

#[test]
fn completed_tutorial_cannot_be_erased_by_cloud_profile() {
    let mut local = PlayerProgress::default();
    local.intro_completed = Some(true);
    local.xp = 100;
    let mut cloud = PlayerProgress::default();
    cloud.preferred_leader = Some("Caesar".to_string());
    local.merge_boot_profile(cloud);
    assert_eq!(local.intro_completed, Some(true));
    assert_eq!(local.xp, 100);
}

#[test]
fn completed_tutorial_stays_completed_when_cloud_has_other_history() {
    let mut local = PlayerProgress::default();
    local.intro_completed = Some(true);
    let mut cloud = PlayerProgress::default();
    cloud.matches_played = 1;
    local.merge_boot_profile(cloud);
    assert_eq!(local.intro_completed, Some(true));
}

#[test]
fn a_match_without_a_chosen_leader_credits_caesar() {
    let mut progress = PlayerProgress::default();
    progress.record_match_with_kda(
        false,
        SessionDefeats::default(),
        0,
        1,
        0,
        MatchReward { xp: 10, leader_xp: 10, crowns: 0, laurels: 0 },
    );
    assert_eq!(progress.leader_xp.get(&"Caesar".to_string()), Some(&10));
    assert_eq!(progress.wins, 0);
    assert_eq!(progress.deaths, 1);
}

#[test]
fn episode_reward_is_paid_once_and_unlocks_the_next_episode() {
    let mut progress = PlayerProgress::default();
    assert!(CampaignId::Boudica.is_unlocked(&progress));
    assert!(!CampaignId::SixSkyEp1.is_unlocked(&progress));
    progress.complete_tutorial_with_reward(tutorial_reward());
    assert!(CampaignId::SixSkyEp1.is_unlocked(&progress));
    assert!(!CampaignId::SixSkyEp2.is_unlocked(&progress));
    let reward = MatchReward { xp: 50, leader_xp: 50, crowns: 25, laurels: 1 };
    assert!(progress.complete_episode("six_sky_ep1", "LadySixSky", reward));
    assert!(!progress.complete_episode("six_sky_ep1", "LadySixSky", reward));
    assert_eq!(progress.crowns, 125);
    assert!(CampaignId::SixSkyEp1.is_completed(&progress));
    assert!(CampaignId::SixSkyEp2.is_unlocked(&progress));
}

#[test]
fn local_episodes_alone_keep_the_local_profile_against_an_empty_cloud() {
    let mut local = PlayerProgress::default();
    let mut episodes = sow_client::collections::StrSet::new();
    episodes.insert("six_sky_ep1".to_string());
    local.completed_episodes = episodes;
    local.level = 3;
    let mut cloud = PlayerProgress::default();
    cloud.preferred_leader = Some("Caesar".to_string());
    cloud.level = 7;
    local.merge_boot_profile(cloud);
    assert_eq!(local.preferred_leader, None);
    assert_eq!(local.level, 3);
    assert!(CampaignId::SixSkyEp1.is_completed(&local));
}
