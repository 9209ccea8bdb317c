use sow_client::audio::arpeggio::{result_schedule, ArpeggioSchedule, ResultCue};

#[test]
fn arpeggio_plays_notes_in_turn() {
    let s = ArpeggioSchedule::new([3, 0, 2, 1]);
    assert_eq!(s.total_samples, 6);
    assert_eq!(s.note_at(0), Some((0, 0)));
    assert_eq!(s.note_at(2), Some((0, 2)));
    assert_eq!(s.note_at(3), Some((2, 0)));
    assert_eq!(s.note_at(4), Some((2, 1)));
    assert_eq!(s.note_at(5), Some((3, 0)));
    assert_eq!(s.note_at(6), None);
}

#[test]
fn result_cues_have_three_notes() {
    let v = result_schedule(ResultCue::Victory);
    assert_eq!(v.total_samples, 3 * 2866);
    assert_eq!(v.note_at(2866), Some((1, 0)));
    assert_eq!(v.note_at(3 * 2866), None);
    let d = result_schedule(ResultCue::Defeat);
    assert_eq!(d.total_samples, 3 * 3969);
    assert_eq!(d.note_at(3 * 3969 - 1), Some((2, 3968)));
}
