use sow_client::app::sfx::{PendingElimination, SfxDirector};
use sow_client::audio::{CombatSoundKind, PlayerSoundType};

type Spatial = (f32, f32);

fn silent_spatial() -> Spatial {
    (0.0, 0.0)
}

#[test]
fn gameplay_sfx_are_silent_during_spawning() {
    let mut director: SfxDirector<Spatial> = SfxDirector::new();
    director.set_client_active(true);
    director.sync_server_phase(false);
    director.play_deploy(10_000);
    assert!(director.last_deploy.is_none());
}

#[test]
fn combat_gap_suppresses_bursts() {
    let mut director: SfxDirector<Spatial> = SfxDirector::new();
    director.set_client_active(true);
    director.sync_server_phase(true);
    let now = 10_000;
    director.play_combat(now, CombatSoundKind::AttackTribe);
    let first = director.last_combat_at(CombatSoundKind::AttackTribe);
    director.play_combat(now + 100, CombatSoundKind::AttackTribe);
    assert_eq!(director.last_combat_at(CombatSoundKind::AttackTribe), first);
    director.play_combat(now + 350, CombatSoundKind::AttackTribe);
    assert_ne!(director.last_combat_at(CombatSoundKind::AttackTribe), first);
}

#[test]
fn elimination_keeps_the_highest_priority_event_in_a_tick() {
    let mut director: SfxDirector<Spatial> = SfxDirector::new();
    director.set_client_active(true);
    director.sync_server_phase(true);
    director.begin_tick();
    director.queue_elimination(PlayerSoundType::Bot, 1, silent_spatial());
    director.queue_elimination(PlayerSoundType::Human, 2, silent_spatial());
    assert!(matches!(
        director.pending_elimination,
        Some(PendingElimination { player_type: PlayerSoundType::Human, .. })
    ));
}

#[test]
fn a_critical_sound_silences_ordinary_ones_for_half_a_second() {
    let mut director: SfxDirector<Spatial> = SfxDirector::new();
    director.set_client_active(true);
    director.sync_server_phase(true);
    assert!(director.play_nuke_launch(1_000));
    assert!(!director.play_deploy(1_499));
    assert!(director.play_deploy(1_500));
    assert!(!director.play_nuke_launch(1_600));
    assert!(director.play_nuke_launch(1_800));
}

#[test]
fn the_result_jingle_plays_once_per_match() {
    let mut director: SfxDirector<Spatial> = SfxDirector::new();
    assert!(!director.play_result());
    director.set_client_active(true);
    assert!(director.play_result());
    assert!(!director.play_result());
    director.reset_for_match();
    director.set_client_active(true);
    assert!(director.play_result());
}

#[test]
fn a_flushed_elimination_starts_the_silence() {
    let mut director: SfxDirector<Spatial> = SfxDirector::new();
    director.set_client_active(true);
    director.sync_server_phase(true);
    director.begin_tick();
    director.queue_elimination(PlayerSoundType::Nation, 7, silent_spatial());
    let played = director.flush_tick(5_000).unwrap();
    assert_eq!(played.seed, 7);
    assert_eq!(director.critical_silence_until, Some(5_500));
    assert!(director.flush_tick(5_100).is_none());
}

#[test]
fn the_under_attack_alarm_needs_a_location_and_a_new_attack() {
    let mut director: SfxDirector<Spatial> = SfxDirector::new();
    director.set_client_active(true);
    director.sync_server_phase(true);
    assert!(!director.update_under_attack(1_000, true, false, false));
    assert!(director.under_attack_active);
    assert!(!director.update_under_attack(2_000, true, false, true));
    assert!(director.update_under_attack(3_000, true, true, true));
    assert!(!director.update_under_attack(4_000, true, true, true));
    assert!(!director.update_under_attack(5_000, false, false, true));
    assert!(!director.under_attack_active);
}
