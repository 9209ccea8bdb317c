//! Campaign tutorial runner: when the tutorial may show, how far the player
//! has come on each objective, and how the step pointer advances as
//! objectives complete.

pub mod steps;
pub mod contact;

use vstd::prelude::*;
use crate::collections::StrSet;
use steps::{Step, Trigger};

verus! {

/// The tutorial shows only in a match started as a tutorial that is also
/// offline, so a stale tutorial flag can never paint over multiplayer.
pub fn tutorial_renders(active: bool, is_offline: bool) -> (r: bool)
    ensures
        r == (active && is_offline),
{
    active && is_offline
}

/// `(current, target)` progress of an objective, given the tiles gained
/// since spawn, the player's kills and the names of eliminated factions.
pub open spec fn progress_of(advance: Trigger, gained: u32, kills: u32, defeated: Set<Seq<char>>) -> (u32, u32) {
    match advance {
        Trigger::TilesGained(t) => (if gained < t { gained } else { t }, t),
        Trigger::TribesEaten(t) => (if kills < t { kills } else { t }, t),
        Trigger::DefeatedPlayer(name) => (if defeated.contains(name@) { 1 } else { 0 }, 1),
    }
}

/// The objective is met.
pub open spec fn objective_met(advance: Trigger, gained: u32, kills: u32, defeated: Set<Seq<char>>) -> bool {
    progress_of(advance, gained, kills, defeated).0 >= progress_of(advance, gained, kills, defeated).1
}

/// Current and target progress of a step's objective.
pub fn objective_progress(advance: Trigger, gained: u32, kills: u32, defeated: &StrSet) -> (r: (u32, u32))
    ensures
        r == progress_of(advance, gained, kills, defeated@),
{
    match advance {
        Trigger::TilesGained(t) => (if gained < t { gained } else { t }, t),
        Trigger::TribesEaten(t) => (if kills < t { kills } else { t }, t),
        Trigger::DefeatedPlayer(name) => (if defeated.contains(&name.to_owned()) { 1 } else { 0 }, 1),
    }
}

/// Step the pointer reaches from step `i`: it moves past every met objective
/// but never past the last step.
pub open spec fn reached(steps: Seq<Step>, i: int, gained: u32, kills: u32, defeated: Set<Seq<char>>) -> int
    decreases steps.len() - i,
{
    if 0 <= i && i + 1 < steps.len() && objective_met(steps[i].advance, gained, kills, defeated) {
        reached(steps, i + 1, gained, kills, defeated)
    } else {
        i
    }
}

proof fn lemma_reached_bounds(steps: Seq<Step>, i: int, gained: u32, kills: u32, defeated: Set<Seq<char>>)
    requires
        0 <= i < steps.len(),
    ensures
        i <= reached(steps, i, gained, kills, defeated) < steps.len(),
    decreases steps.len() - i,
{
    if i + 1 < steps.len() && objective_met(steps[i].advance, gained, kills, defeated) {
        lemma_reached_bounds(steps, i + 1, gained, kills, defeated);
    }
}

/// Where a running tutorial stands.
#[derive(Clone, Copy, Debug)]
pub struct TutorialRun {
    /// Index of the current step.
    pub step_idx: usize,
    /// The spawn tile count has been taken.
    pub baseline_set: bool,
    /// Tiles held at spawn; objectives count tiles gained beyond it.
    pub baseline_tiles: u32,
    /// Kills already reacted to.
    pub last_kills: u32,
}

impl TutorialRun {
    /// A tutorial at its first step.
    pub fn new() -> (r: Self)
        ensures
            r.step_idx == 0 && !r.baseline_set && r.baseline_tiles == 0 && r.last_kills == 0,
    {
        TutorialRun { step_idx: 0, baseline_set: false, baseline_tiles: 0, last_kills: 0 }
    }

    /// Tiles gained since spawn. The spawn tile count is taken once, the
    /// first time the player has spawned with some land; before that nothing
    /// counts as gained.
    pub fn tiles_gained(&mut self, spawned: bool, tiles: u32) -> (gained: u32)
        ensures
            final(self).step_idx == old(self).step_idx,
            final(self).last_kills == old(self).last_kills,
            !old(self).baseline_set && spawned && tiles > 0 ==> final(self).baseline_set
                && final(self).baseline_tiles == tiles,
            old(self).baseline_set || !(spawned && tiles > 0) ==> final(self).baseline_set
                == old(self).baseline_set && final(self).baseline_tiles == old(self).baseline_tiles,
            gained == if final(self).baseline_set {
                if tiles >= final(self).baseline_tiles { tiles - final(self).baseline_tiles } else { 0 }
            } else {
                0
            },
    {
        if !self.baseline_set && spawned && tiles > 0 {
            self.baseline_tiles = tiles;
            self.baseline_set = true;
        }
        if self.baseline_set {
            tiles.saturating_sub(self.baseline_tiles)
        } else {
            0
        }
    }

    /// Records the player's kill count; answers whether it rose since the
    /// last call (each new conquest makes the world react).
    pub fn note_kills(&mut self, kills: u32) -> (rose: bool)
        ensures
            rose == (kills > old(self).last_kills),
            final(self).last_kills == if rose { kills } else { old(self).last_kills },
            final(self).step_idx == old(self).step_idx,
            final(self).baseline_set == old(self).baseline_set,
            final(self).baseline_tiles == old(self).baseline_tiles,
    {
        if kills > self.last_kills {
            self.last_kills = kills;
            true
        } else {
            false
        }
    }

    /// Advances the step pointer past every completed objective, stopping at
    /// the last step. Returns the step that was current before, when the
    /// pointer moved (its objective was just completed).
    pub fn advance(&mut self, steps: &[Step], gained: u32, kills: u32, defeated: &StrSet) -> (completed: Option<usize>)
        requires
            steps@.len() > 0,
            old(self).step_idx < steps@.len(),
        ensures
            final(self).step_idx == reached(steps@, old(self).step_idx as int, gained, kills, defeated@),
            final(self).step_idx < steps@.len(),
            completed == if final(self).step_idx != old(self).step_idx {
                Some(old(self).step_idx)
            } else {
                None
            },
            final(self).baseline_set == old(self).baseline_set,
            final(self).baseline_tiles == old(self).baseline_tiles,
            final(self).last_kills == old(self).last_kills,
    {
        let start = self.step_idx;
        let mut idx = start;
        proof {
            lemma_reached_bounds(steps@, start as int, gained, kills, defeated@);
        }
        let last = steps.len() - 1;
        let mut stuck = false;
        while !stuck && idx < last
            invariant
                start <= idx <= last,
                last == steps@.len() - 1,
                reached(steps@, idx as int, gained, kills, defeated@) == reached(
                    steps@,
                    start as int,
                    gained,
                    kills,
                    defeated@,
                ),
                stuck ==> reached(steps@, idx as int, gained, kills, defeated@) == idx,
            decreases steps@.len() - idx, if stuck { 0int } else { 1int },
        {
            let (cur, tgt) = objective_progress(steps[idx].advance, gained, kills, defeated);
            if cur < tgt {
                stuck = true;
            } else {
                idx = idx + 1;
            }
        }
        self.step_idx = idx;
        if idx != start {
            Some(start)
        } else {
            None
        }
    }
}

/// The tutorial's step pointer only moves forward, and never past the last
/// step, whatever the player has done.
pub proof fn law_steps_only_advance(steps: Seq<Step>, i: int, gained: u32, kills: u32, defeated: Set<Seq<char>>)
    requires
        0 <= i < steps.len(),
    ensures
        i <= reached(steps, i, gained, kills, defeated) < steps.len(),
{
    lemma_reached_bounds(steps, i, gained, kills, defeated);
}

} // verus!
