use sow_client::campaign::CampaignId;
use sow_client::collections::StrSet;
use sow_client::hud::tutorial::steps::{steps_for, Trigger};
use sow_client::hud::tutorial::{objective_progress, tutorial_renders, TutorialRun};

#[test]
fn tutorial_never_renders_in_multiplayer() {
    assert!(tutorial_renders(true, true));
    assert!(!tutorial_renders(true, false));
    assert!(!tutorial_renders(false, true));
}

#[test]
fn objective_progress_is_capped_at_the_target() {
    let none = StrSet::new();
    assert_eq!(objective_progress(Trigger::TilesGained(256), 300, 0, &none), (256, 256));
    assert_eq!(objective_progress(Trigger::TilesGained(256), 10, 0, &none), (10, 256));
    assert_eq!(objective_progress(Trigger::TribesEaten(4), 0, 2, &none), (2, 4));
    assert_eq!(objective_progress(Trigger::DefeatedPlayer("Londinium"), 0, 0, &none), (0, 1));
    let mut defeated = StrSet::new();
    defeated.insert("Londinium".to_string());
    assert_eq!(objective_progress(Trigger::DefeatedPlayer("Londinium"), 0, 0, &defeated), (1, 1));
}

#[test]
fn chapter_one_has_nine_steps_ending_on_the_fourteenth_legion() {
    let steps = steps_for(CampaignId::Boudica);
    assert_eq!(steps.len(), 9);
    assert_eq!(steps[0].title, "Rise of the Iceni");
    assert!(matches!(steps[8].advance, Trigger::DefeatedPlayer("Legio XIV Gemina")));
    assert_eq!(steps_for(CampaignId::SixSkyEp1).len(), 8);
    assert_eq!(steps_for(CampaignId::SixSkyEp2).len(), 9);
    assert_eq!(steps_for(CampaignId::SixSkyEp3).len(), 9);
}

#[test]
fn step_pointer_moves_past_every_met_objective_but_not_past_the_last() {
    let steps = steps_for(CampaignId::Boudica);
    let none = StrSet::new();
    let mut run = TutorialRun::new();
    assert_eq!(run.advance(&steps, 300, 0, &none), Some(0));
    assert_eq!(run.step_idx, 1);
    assert_eq!(run.advance(&steps, 300, 0, &none), None);
    assert_eq!(run.advance(&steps, 2000, 4, &none), Some(1));
    assert_eq!(run.step_idx, 4);
    let mut all = StrSet::new();
    for name in ["Camulodunum", "Londinium", "Verulamium", "Legio IX Hispana", "Legio XIV Gemina"] {
        all.insert(name.to_string());
    }
    run.advance(&steps, 2000, 10, &all);
    assert_eq!(run.step_idx, 8);
}

#[test]
fn tiles_count_from_the_spawn_baseline() {
    let mut run = TutorialRun::new();
    assert_eq!(run.tiles_gained(false, 50), 0);
    assert_eq!(run.tiles_gained(true, 80), 0);
    assert_eq!(run.tiles_gained(true, 100), 20);
    assert_eq!(run.tiles_gained(true, 70), 0);
    assert!(run.note_kills(1));
    assert!(!run.note_kills(1));
}
