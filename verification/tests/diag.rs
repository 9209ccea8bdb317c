use sow_client::diag::{
    enabled, init_enabled, maybe_summary, percentiles_recent, record_tick, snapshot_sorted, Diag,
};

#[test]
fn slow_ticks_are_anomalies() {
    let mut d = Diag::new();
    assert_eq!(record_tick(&mut d, 1_000), None);
    assert_eq!(record_tick(&mut d, 80_001), Some(80_001));
    assert_eq!(d.anomalies, 1);
}

#[test]
fn diagnostics_switch() {
    let mut d = Diag::new();
    assert!(!enabled(&d));
    init_enabled(&mut d, true);
    assert!(enabled(&d));
}

#[test]
fn percentiles_cover_recorded_ticks_only() {
    let mut d = Diag::new();
    assert_eq!(percentiles_recent(&d), (0, 0, 0));
    for us in 1..=100u64 {
        record_tick(&mut d, us * 10);
    }
    assert_eq!(snapshot_sorted(&d).len(), 100);
    assert_eq!(percentiles_recent(&d), (10, 950, 1000));
}

#[test]
fn the_ring_keeps_the_last_128_ticks() {
    let mut d = Diag::new();
    for us in 1..=200u64 {
        record_tick(&mut d, us);
    }
    let v = snapshot_sorted(&d);
    assert_eq!(v.len(), 128);
    assert_eq!(v[0], 73);
    assert_eq!(v[127], 200);
}

#[test]
fn summaries_are_due_every_thirty_seconds_while_anomalies_occur() {
    let mut d = Diag::new();
    assert!(maybe_summary(&mut d, 1_000).is_none());
    record_tick(&mut d, 90_000);
    let s = maybe_summary(&mut d, 1_000).unwrap();
    assert_eq!(s.max_us, 90_000);
    assert_eq!(s.anomalies, 1);
    assert!(maybe_summary(&mut d, 20_000).is_none());
    assert!(maybe_summary(&mut d, 31_000).is_some());
}
