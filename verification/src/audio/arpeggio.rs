//! The timing of an arpeggio (up to four notes played one after another):
//! how long it lasts and which note sounds at each sample. The victory and
//! defeat cues are such arpeggios.

use vstd::prelude::*;

verus! {

/// Samples before note `k`: the durations of the notes ahead of it.
pub open spec fn notes_before(durations: [u32; 4], k: int) -> int
    decreases k,
{
    if k <= 0 {
        0
    } else {
        notes_before(durations, k - 1) + durations[k - 1] as int
    }
}

/// Length of the whole arpeggio, in samples.
pub open spec fn arpeggio_len(durations: [u32; 4]) -> int {
    notes_before(durations, 4)
}

/// The note sounding at sample `idx` and the sample's offset into it:
/// `None` once the arpeggio is over; otherwise the note `k` with
/// `notes_before(k) <= idx < notes_before(k + 1)`.
pub open spec fn note_at(durations: [u32; 4], idx: int) -> Option<(int, int)> {
    if idx < 0 || idx >= arpeggio_len(durations) {
        None
    } else if idx < notes_before(durations, 1) {
        Some((0, idx))
    } else if idx < notes_before(durations, 2) {
        Some((1, idx - notes_before(durations, 1)))
    } else if idx < notes_before(durations, 3) {
        Some((2, idx - notes_before(durations, 2)))
    } else {
        Some((3, idx - notes_before(durations, 3)))
    }
}

/// The timing of an arpeggio.
#[derive(Clone, Copy, Debug)]
pub struct ArpeggioSchedule {
    pub durations: [u32; 4],
    pub total_samples: u64,
}

impl ArpeggioSchedule {
    pub open spec fn wf(self) -> bool {
        self.total_samples == arpeggio_len(self.durations)
    }

    /// The schedule of notes lasting `durations` samples each.
    pub fn new(durations: [u32; 4]) -> (r: Self)
        ensures
            r.wf(),
            r.durations == durations,
    {
        let total = durations[0] as u64 + durations[1] as u64 + durations[2] as u64 + durations[3] as u64;
        proof {
            reveal_with_fuel(notes_before, 5);
        }
        ArpeggioSchedule { durations, total_samples: total }
    }

    /// The note sounding at `sample_idx` and the offset into it (see
    /// [`note_at`]).
    pub fn note_at(&self, sample_idx: u64) -> (r: Option<(usize, u64)>)
        requires
            self.wf(),
        ensures
            match note_at(self.durations, sample_idx as int) {
                None => r is None,
                Some((k, off)) => r == Some((k as usize, off as u64)),
            },
    {
        proof {
            reveal_with_fuel(notes_before, 5);
        }
        if sample_idx >= self.total_samples {
            return None;
        }
        let mut accumulated: u64 = 0;
        let mut note: usize = 0;
        while note < 3
            invariant
                note <= 3,
                accumulated == notes_before(self.durations, note as int),
                accumulated <= sample_idx,
                sample_idx < self.total_samples,
                self.wf(),
            decreases 3 - note,
        {
            let next = accumulated + self.durations[note] as u64;
            if sample_idx < next {
                return Some((note, sample_idx - accumulated));
            }
            accumulated = next;
            note += 1;
        }
        Some((3, sample_idx - accumulated))
    }
}

/// A cue at the end of a match.
#[derive(Clone, Copy, Debug, PartialEq, Eq, Structural)]
pub enum ResultCue {
    Victory,
    Defeat,
}

/// Note lengths of a result cue, in samples at the synthesis rate: three
/// notes of 0.13 s for a victory, of 0.18 s for a defeat, and a silent
/// fourth.
pub open spec fn cue_durations(cue: ResultCue) -> [u32; 4] {
    match cue {
        ResultCue::Victory => [2866u32, 2866u32, 2866u32, 0u32],
        ResultCue::Defeat => [3969u32, 3969u32, 3969u32, 0u32],
    }
}

/// The schedule of a result cue (see [`cue_durations`]).
pub fn result_schedule(cue: ResultCue) -> (r: ArpeggioSchedule)
    ensures
        r.wf(),
        r.durations == cue_durations(cue),
{
    match cue {
        ResultCue::Victory => ArpeggioSchedule::new([2866, 2866, 2866, 0]),
        ResultCue::Defeat => ArpeggioSchedule::new([3969, 3969, 3969, 0]),
    }
}

} // verus!
