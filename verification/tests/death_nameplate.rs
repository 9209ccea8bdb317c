use sow_client::death_nameplate::{death_emoji, DeathNameplateAnimation, MAX_DEATH_NAMEPLATES};

fn animation(name: impl Into<String>) -> DeathNameplateAnimation<([f32; 3], f32, f32)> {
    DeathNameplateAnimation {
        name: name.into(),
        start_ms: 0,
        by_nuke: false,
        visual: ([1.0; 3], 0.0, 15.0),
    }
}

#[test]
fn animation_uses_dove_or_nuke_emoji() {
    assert_eq!(death_emoji(false), "🕊️");
    assert_eq!(death_emoji(true), "☢️");
}

#[test]
fn queue_caps_at_64_and_evicts_the_oldest() {
    let mut queue = Vec::with_capacity(MAX_DEATH_NAMEPLATES);
    for index in 0..=MAX_DEATH_NAMEPLATES {
        DeathNameplateAnimation::enqueue(&mut queue, animation(index.to_string()));
    }
    assert_eq!(queue.len(), MAX_DEATH_NAMEPLATES);
    assert_eq!(queue.first().unwrap().name, "1");
    assert_eq!(queue.last().unwrap().name, MAX_DEATH_NAMEPLATES.to_string());
    assert!(queue.capacity() >= MAX_DEATH_NAMEPLATES);
}
