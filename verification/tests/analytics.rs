use sow_client::analytics::{
    configure, gameplay_start, gameplay_stop, session_id, Analytics, MAX_BATCH, MAX_QUEUED,
};

fn configured() -> Analytics {
    let mut a = Analytics::new(false);
    configure(
        &mut a,
        "https://db.example//",
        None,
        "web".to_string(),
        "123".to_string(),
        "en".to_string(),
        "abc".to_string(),
    );
    a
}

#[test]
fn track_drops_oldest_beyond_queue_cap() {
    let mut a = Analytics::new(false);
    for _ in 0..(MAX_QUEUED + 10) {
        a.track("load_stage", 1, None);
    }
    assert_eq!(a.queue.len(), MAX_QUEUED);
    assert_eq!(a.queue[0].name, "load_stage");
}

#[test]
fn configure_builds_the_event_endpoint_once() {
    let mut a = configured();
    let c = a.config.as_ref().unwrap();
    assert_eq!(c.endpoint, "https://db.example/event");
    assert_eq!(c.portal, "site");
    configure(
        &mut a,
        "https://other",
        Some("crazygames".to_string()),
        "web".to_string(),
        "1".to_string(),
        "en".to_string(),
        "x".to_string(),
    );
    assert_eq!(a.config.as_ref().unwrap().endpoint, "https://db.example/event");
}

#[test]
fn poki_builds_record_nothing() {
    let mut a = Analytics::new(true);
    assert!(!a.track("boot_start", 1, None));
    assert!(a.queue.is_empty());
    configure(
        &mut a,
        "https://db",
        Some("poki".to_string()),
        "web".to_string(),
        "1".to_string(),
        "en".to_string(),
        "x".to_string(),
    );
    assert!(a.config.is_none());
}

#[test]
fn gameplay_start_and_stop_are_recorded_on_change_only() {
    let mut a = Analytics::new(false);
    gameplay_start(&mut a, 5);
    gameplay_start(&mut a, 6);
    gameplay_stop(&mut a, 7);
    gameplay_stop(&mut a, 8);
    let names: Vec<&str> = a.queue.iter().map(|e| e.name.as_str()).collect();
    assert_eq!(names, vec!["gameplay_start", "gameplay_stop"]);
}

#[test]
fn the_twentieth_event_makes_a_flush_due() {
    let mut a = Analytics::new(false);
    for i in 0..19 {
        assert!(!a.track("e", i, None));
    }
    assert!(a.track("e", 19, None));
}

#[test]
fn batches_are_taken_from_the_front_and_requeued_on_failure() {
    let mut a = configured();
    for i in 0..150u64 {
        a.track("e", i, None);
    }
    assert!(a.take_due_batch(5_000, false).is_none());
    let batch = a.take_due_batch(10_000, false).unwrap();
    assert_eq!(batch.len(), MAX_BATCH);
    assert_eq!(batch[0].ts_ms, 0);
    assert_eq!(a.queue.len(), 50);
    assert_eq!(a.last_flush_ms, 10_000);
    a.requeue(batch);
    assert_eq!(a.queue.len(), 150);
    assert_eq!(a.queue[0].ts_ms, 0);
    assert_eq!(a.queue[149].ts_ms, 149);
    assert!(a.take_due_batch(12_000, false).is_none());
    assert!(a.take_due_batch(12_000, true).is_some());
}

#[test]
fn session_ids_are_hex_time_and_padded_sequence() {
    assert_eq!(session_id(0x18f, 3), "18f0003");
    assert_eq!(session_id(255, 0x12345), "ff12345");
}
