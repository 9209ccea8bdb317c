//! Lifetime player statistics and currencies: match recording, rewards, the
//! one-time tutorial reward, campaign episode completion, and the merge of a
//! cloud profile into the local one at boot.

use vstd::prelude::*;
use crate::collections::{StrMap, StrSet};

verus! {

/// Leader credited with a match when the player never chose one.
pub open spec fn default_leader_name() -> Seq<char> {
    seq!['C', 'a', 'e', 's', 'a', 'r']
}

/// Member of a stored progress object holding the spendable currency.
pub const CROWNS_KEY: &'static str = "crowns";

/// Member under which progress saved before the currency split holds the
/// spendable currency (now the achievement points).
pub const LEGACY_CURRENCY_KEY: &'static str = "laurels";

/// The members of a stored progress object after the currency split
/// migration: an object without `crowns` moves its `laurels` value there
/// and drops `laurels`, so that the new achievement points start at 0; an
/// object that already has `crowns`, or has no `laurels`, stays as it is.
pub open spec fn migrated_members(members: Map<Seq<char>, String>) -> Map<Seq<char>, String> {
    if members.contains_key(CROWNS_KEY@) || !members.contains_key(LEGACY_CURRENCY_KEY@) {
        members
    } else {
        members.remove(LEGACY_CURRENCY_KEY@).insert(CROWNS_KEY@, members[LEGACY_CURRENCY_KEY@])
    }
}

/// Migrates stored progress saved before the currency split (see
/// [`migrated_members`]); `members` are the object's members, each as the
/// JSON text of its value.
pub fn migrate_legacy_currency_json(members: &mut StrMap<String>)
    requires
        old(members).wf(),
    ensures
        final(members).wf(),
        final(members)@ == migrated_members(old(members)@),
{
    let crowns = CROWNS_KEY.to_owned();
    if members.contains_key(&crowns) {
        return;
    }
    let laurels = LEGACY_CURRENCY_KEY.to_owned();
    let legacy = match members.get(&laurels) {
        Some(v) => v.clone(),
        None => {
            return;
        },
    };
    members.remove(&laurels);
    members.insert(crowns, legacy);
}

/// The currency migration leaves migrated progress alone: running it twice
/// gives what running it once gives.
pub proof fn law_currency_migration_idempotent(members: Map<Seq<char>, String>)
    ensures
        migrated_members(migrated_members(members)) == migrated_members(members),
{
    reveal_strlit("crowns");
    reveal_strlit("laurels");
    assert(CROWNS_KEY@ != LEGACY_CURRENCY_KEY@) by {
        assert(CROWNS_KEY@[0] != LEGACY_CURRENCY_KEY@[0]);
    }
}

/// Players of each kind defeated during the current match.
#[derive(Clone, Copy, Debug, PartialEq, Eq, Structural)]
pub struct SessionDefeats {
    pub players: u32,
    pub empires: u32,
    pub tribes: u32,
}

impl Default for SessionDefeats {
    fn default() -> (d: Self)
        ensures
            d.players == 0 && d.empires == 0 && d.tribes == 0,
    {
        SessionDefeats { players: 0, empires: 0, tribes: 0 }
    }
}

/// What one match (or tutorial, or campaign episode) earns.
#[derive(Clone, Copy, Debug, PartialEq, Eq, Structural)]
pub struct MatchReward {
    pub xp: u32,
    pub leader_xp: u32,
    pub crowns: u64,
    pub laurels: u64,
}

/// A server-created match receipt shown in the main menu.
#[derive(Clone, Debug)]
pub struct RewardReceipt {
    pub id: String,
    /// The replay behind the receipt is still being verified.
    pub pending_verification: bool,
}

/// The player's persisted progress.
pub struct PlayerProgress {
    pub xp: u32,
    pub level: u32,
    pub wins: u32,
    pub matches_played: u32,
    pub players_defeated: u32,
    pub empires_defeated: u32,
    pub tribes_defeated: u32,
    /// Name of the leader the player last chose.
    pub preferred_leader: Option<String>,
    pub intro_completed: Option<bool>,
    pub kills: u32,
    pub deaths: u32,
    pub assists: u32,
    /// Experience per leader name.
    pub leader_xp: StrMap<u32>,
    /// Free spendable currency.
    pub crowns: u64,
    /// Achievement points: earned, never spent.
    pub laurels: u64,
    pub gems: u64,
    pub owned_leaders: StrSet,
    pub owned_skins: StrSet,
    pub selected_skin: Option<String>,
    /// Campaign episodes finished (stable ids such as `six_sky_ep1`).
    pub completed_episodes: StrSet,
    /// Match receipts by id.
    pub reward_receipts: StrMap<RewardReceipt>,
    pub unlocked_achievements: StrSet,
}

/// View of an optional string.
pub open spec fn opt_view(s: Option<String>) -> Option<Seq<char>> {
    match s {
        Some(x) => Some(x@),
        None => None,
    }
}

/// Saturating sum of two `u32`s.
pub open spec fn sat_u32(a: u32, b: u32) -> u32 {
    if a + b > u32::MAX {
        u32::MAX
    } else {
        (a + b) as u32
    }
}

/// Saturating sum of two `u64`s.
pub open spec fn sat_u64(a: u64, b: u64) -> u64 {
    if a + b > u64::MAX {
        u64::MAX
    } else {
        (a + b) as u64
    }
}

/// Level that goes with an experience total.
pub open spec fn level_for(xp: u32) -> int {
    1 + xp / 100
}

impl PlayerProgress {
    /// Every set and map holds each key once.
    pub open spec fn wf(&self) -> bool {
        &&& self.leader_xp.wf()
        &&& self.owned_leaders.wf()
        &&& self.owned_skins.wf()
        &&& self.completed_episodes.wf()
        &&& self.reward_receipts.wf()
        &&& self.unlocked_achievements.wf()
    }

    pub open spec fn intro_done(&self) -> bool {
        self.intro_completed == Some(true)
    }

    /// The profile records anything beyond a fresh start, not counting the
    /// finished episodes, receipts and achievements.
    pub open spec fn core_history(&self) -> bool {
        ||| self.matches_played > 0
        ||| self.wins > 0
        ||| self.xp > 0
        ||| self.intro_done()
        ||| self.crowns > 0
        ||| self.laurels > 0
        ||| self.gems > 0
        ||| self.owned_leaders@ != Set::<Seq<char>>::empty()
        ||| self.owned_skins@ != Set::<Seq<char>>::empty()
        ||| self.leader_xp@ != Map::<Seq<char>, u32>::empty()
    }

    /// The profile records anything beyond a fresh start (a preferred leader
    /// alone does not count).
    pub open spec fn history(&self) -> bool {
        ||| self.core_history()
        ||| self.completed_episodes@ != Set::<Seq<char>>::empty()
        ||| self.reward_receipts@ != Map::<Seq<char>, RewardReceipt>::empty()
        ||| self.unlocked_achievements@ != Set::<Seq<char>>::empty()
    }

    /// All fields other than the intro flag, the finished episodes, the
    /// receipts and the achievements agree.
    pub open spec fn same_core(&self, other: &PlayerProgress) -> bool {
        &&& self.xp == other.xp
        &&& self.level == other.level
        &&& self.wins == other.wins
        &&& self.matches_played == other.matches_played
        &&& self.players_defeated == other.players_defeated
        &&& self.empires_defeated == other.empires_defeated
        &&& self.tribes_defeated == other.tribes_defeated
        &&& opt_view(self.preferred_leader) == opt_view(other.preferred_leader)
        &&& self.kills == other.kills
        &&& self.deaths == other.deaths
        &&& self.assists == other.assists
        &&& self.leader_xp@ == other.leader_xp@
        &&& self.crowns == other.crowns
        &&& self.laurels == other.laurels
        &&& self.gems == other.gems
        &&& self.owned_leaders@ == other.owned_leaders@
        &&& self.owned_skins@ == other.owned_skins@
        &&& opt_view(self.selected_skin) == opt_view(other.selected_skin)
    }

    /// All fields other than the experience and the level agree.
    pub open spec fn same_but_xp(&self, other: &PlayerProgress) -> bool {
        &&& self.wins == other.wins
        &&& self.matches_played == other.matches_played
        &&& self.players_defeated == other.players_defeated
        &&& self.empires_defeated == other.empires_defeated
        &&& self.tribes_defeated == other.tribes_defeated
        &&& opt_view(self.preferred_leader) == opt_view(other.preferred_leader)
        &&& self.kills == other.kills
        &&& self.deaths == other.deaths
        &&& self.assists == other.assists
        &&& self.leader_xp@ == other.leader_xp@
        &&& self.crowns == other.crowns
        &&& self.laurels == other.laurels
        &&& self.gems == other.gems
        &&& self.owned_leaders@ == other.owned_leaders@
        &&& self.owned_skins@ == other.owned_skins@
        &&& opt_view(self.selected_skin) == opt_view(other.selected_skin)
        &&& self.intro_completed == other.intro_completed
        &&& self.completed_episodes@ == other.completed_episodes@
        &&& self.reward_receipts@ == other.reward_receipts@
        &&& self.unlocked_achievements@ == other.unlocked_achievements@
        &&& self.wf() == other.wf()
    }

    /// All fields agree.
    pub open spec fn same(&self, other: &PlayerProgress) -> bool {
        &&& self.same_core(other)
        &&& self.intro_completed == other.intro_completed
        &&& self.completed_episodes@ == other.completed_episodes@
        &&& self.reward_receipts@ == other.reward_receipts@
        &&& self.unlocked_achievements@ == other.unlocked_achievements@
    }

    /// `new` is `old` with `reward` credited to the leader named `leader`.
    pub open spec fn rewarded(old: &PlayerProgress, new: &PlayerProgress, leader: Seq<char>, reward: MatchReward) -> bool {
        let before = if old.leader_xp@.contains_key(leader) { old.leader_xp@[leader] } else { 0 };
        &&& new.xp == sat_u32(old.xp, reward.xp)
        &&& new.level == level_for(new.xp)
        &&& new.leader_xp@ == old.leader_xp@.insert(leader, sat_u32(before, reward.leader_xp))
        &&& new.crowns == sat_u64(old.crowns, reward.crowns)
        &&& new.laurels == sat_u64(old.laurels, reward.laurels)
        &&& new.wins == old.wins
        &&& new.matches_played == old.matches_played
        &&& new.players_defeated == old.players_defeated
        &&& new.empires_defeated == old.empires_defeated
        &&& new.tribes_defeated == old.tribes_defeated
        &&& opt_view(new.preferred_leader) == opt_view(old.preferred_leader)
        &&& new.kills == old.kills
        &&& new.deaths == old.deaths
        &&& new.assists == old.assists
        &&& new.gems == old.gems
        &&& new.owned_leaders@ == old.owned_leaders@
        &&& new.owned_skins@ == old.owned_skins@
        &&& opt_view(new.selected_skin) == opt_view(old.selected_skin)
        &&& new.reward_receipts@ == old.reward_receipts@
        &&& new.unlocked_achievements@ == old.unlocked_achievements@
    }

    /// `new` is the result of merging the `cloud` profile into `old`: the
    /// cloud profile is adopted when it has history or the local one has
    /// none, and the local data is kept otherwise; a finished intro stays
    /// finished; episodes and achievements are united; local receipts fill in
    /// ids the adopted profile lacks.
    pub open spec fn merged(old: &PlayerProgress, cloud: &PlayerProgress, new: &PlayerProgress) -> bool {
        let adopt = cloud.history() || !old.history();
        let base = if adopt { cloud } else { old };
        &&& new.same_core(base)
        &&& new.intro_completed == if old.intro_done() || base.intro_done() {
            Some(true)
        } else {
            base.intro_completed
        }
        &&& new.completed_episodes@ == if adopt {
            cloud.completed_episodes@.union(old.completed_episodes@)
        } else {
            old.completed_episodes@
        }
        &&& new.reward_receipts@ == if adopt {
            old.reward_receipts@.union_prefer_right(cloud.reward_receipts@)
        } else {
            old.reward_receipts@
        }
        &&& new.unlocked_achievements@ == if adopt {
            cloud.unlocked_achievements@.union(old.unlocked_achievements@)
        } else {
            old.unlocked_achievements@
        }
    }

    /// `new`, `done` are what completing the tutorial with `reward` makes of `old`.
    pub open spec fn tutorial_completion(old: &PlayerProgress, new: &PlayerProgress, done: bool, reward: MatchReward) -> bool {
        &&& done == !old.intro_done()
        &&& done ==> new.intro_completed == Some(true) && Self::rewarded(
            old,
            new,
            seq!['B', 'o', 'u', 'd', 'i', 'c', 'a'],
            reward,
        ) && new.completed_episodes@ == old.completed_episodes@
        &&& !done ==> new.same(old)
    }

    /// `new`, `done` are what completing episode `episode` with `reward`
    /// credited to leader `leader` makes of `old`.
    pub open spec fn episode_completion(
        old: &PlayerProgress,
        new: &PlayerProgress,
        done: bool,
        episode: Seq<char>,
        leader: Seq<char>,
        reward: MatchReward,
    ) -> bool {
        &&& done == !old.completed_episodes@.contains(episode)
        &&& new.completed_episodes@ == old.completed_episodes@.insert(episode)
        &&& done ==> Self::rewarded(old, new, leader, reward)
        &&& !done ==> new.same(old)
        &&& new.intro_completed == old.intro_completed
    }

    /// A new player: no match played and the intro not finished.
    pub fn is_first_game(&self) -> (r: bool)
        ensures
            r == (self.matches_played == 0 && !self.intro_done()),
    {
        self.matches_played == 0 && !self.intro_completed.unwrap_or(false)
    }

    /// Marks the intro as finished.
    pub fn complete_intro(&mut self)
        ensures
            final(self).intro_completed == Some(true),
            final(self).same_core(old(self)),
            final(self).completed_episodes@ == old(self).completed_episodes@,
            final(self).reward_receipts@ == old(self).reward_receipts@,
            final(self).unlocked_achievements@ == old(self).unlocked_achievements@,
            final(self).wf() == old(self).wf(),
    {
        self.intro_completed = Some(true);
    }

    /// Recomputes the level from the experience total.
    pub fn sync_level(&mut self)
        ensures
            final(self).level == level_for(old(self).xp),
            final(self).xp == old(self).xp,
            final(self).same_but_xp(&*old(self)),
    {
        self.level = 1 + self.xp / 100;
    }

    /// Adds experience (saturating) and recomputes the level.
    pub fn add_xp(&mut self, amount: u32)
        ensures
            final(self).xp == sat_u32(old(self).xp, amount),
            final(self).level == level_for(final(self).xp),
            final(self).same_but_xp(&*old(self)),
    {
        self.xp = self.xp.saturating_add(amount);
        self.sync_level();
    }

    /// Experience recorded for the leader named `leader`, if any.
    pub fn leader_xp_of(&self, leader: &str) -> (r: Option<u32>)
        requires
            self.wf(),
        ensures
            r == if self.leader_xp@.contains_key(leader@) {
                Some(self.leader_xp@[leader@])
            } else {
                None::<u32>
            },
    {
        let key = leader.to_owned();
        match self.leader_xp.get(&key) {
            Some(v) => Some(*v),
            None => None,
        }
    }

    /// Credits a reward: experience (with the level), experience of the leader
    /// named `leader`, crowns and laurels, each saturating.
    pub fn apply_reward(&mut self, leader: &str, reward: MatchReward)
        requires
            old(self).wf(),
        ensures
            final(self).wf(),
            Self::rewarded(&*old(self), &*final(self), leader@, reward),
            final(self).intro_completed == old(self).intro_completed,
            final(self).completed_episodes@ == old(self).completed_episodes@,
    {
        self.add_xp(reward.xp);
        let key = leader.to_owned();
        let current = match self.leader_xp.get(&key) {
            Some(v) => *v,
            None => 0,
        };
        self.leader_xp.insert(key, current.saturating_add(reward.leader_xp));
        self.crowns = self.crowns.saturating_add(reward.crowns);
        self.laurels = self.laurels.saturating_add(reward.laurels);
    }

    /// Finishes the teaching intro once: the first call marks it done and
    /// credits `reward` (the tutorial reward) to Boudica and returns true;
    /// later calls change nothing and return false.
    pub fn complete_tutorial_with_reward(&mut self, reward: MatchReward) -> (done: bool)
        requires
            old(self).wf(),
        ensures
            final(self).wf(),
            Self::tutorial_completion(&*old(self), &*final(self), done, reward),
    {
        if self.intro_completed.unwrap_or(false) {
            return false;
        }
        self.complete_intro();
        let leader = "Boudica";
        proof {
            reveal_strlit("Boudica");
            assert(leader@ =~= seq!['B', 'o', 'u', 'd', 'i', 'c', 'a']);
        }
        self.apply_reward(leader, reward);
        true
    }

    /// Records a finished campaign episode once: the first completion of
    /// `episode_id` credits `reward` (the episode reward) to the leader named
    /// `leader` and returns true; repeating it changes nothing and returns false.
    pub fn complete_episode(&mut self, episode_id: &str, leader: &str, reward: MatchReward) -> (done: bool)
        requires
            old(self).wf(),
        ensures
            final(self).wf(),
            Self::episode_completion(&*old(self), &*final(self), done, episode_id@, leader@, reward),
    {
        if !self.completed_episodes.insert(episode_id.to_owned()) {
            assert(self.completed_episodes@ =~= old(self).completed_episodes@);
            return false;
        }
        self.apply_reward(leader, reward);
        true
    }

    /// Whether the profile records anything beyond a fresh start.
    pub fn has_history(&self) -> (r: bool)
        ensures
            r == self.history(),
    {
        self.matches_played > 0 || self.wins > 0 || self.xp > 0 || self.intro_completed.unwrap_or(
            false,
        ) || self.crowns > 0 || self.laurels > 0 || self.gems > 0 || !self.owned_leaders.is_empty()
            || !self.owned_skins.is_empty() || !self.leader_xp.is_empty()
            || !self.completed_episodes.is_empty() || !self.reward_receipts.is_empty()
            || !self.unlocked_achievements.is_empty()
    }

    /// Merges a cloud profile into this (local) one at boot: the cloud one is
    /// taken when it has history or the local one has none; a finished intro
    /// is never undone; finished episodes and achievements are united, and
    /// local receipts are kept where the adopted profile lacks them.
    pub fn merge_boot_profile(&mut self, cloud: PlayerProgress)
        requires
            old(self).wf(),
            cloud.wf(),
        ensures
            final(self).wf(),
            Self::merged(&*old(self), &cloud, &*final(self)),
    {
        let ghost old_self = *self;
        let adopt = cloud.has_history() || !self.has_history();
        let local_intro_completed = self.intro_completed.unwrap_or(false);
        let mut local_episodes = StrSet::new();
        std::mem::swap(&mut local_episodes, &mut self.completed_episodes);
        let mut local_receipts = StrMap::new();
        std::mem::swap(&mut local_receipts, &mut self.reward_receipts);
        let mut local_achievements = StrSet::new();
        std::mem::swap(&mut local_achievements, &mut self.unlocked_achievements);
        if adopt {
            *self = cloud;
        }
        let ghost base = *self;
        if local_intro_completed || self.intro_completed.unwrap_or(false) {
            self.intro_completed = Some(true);
        }
        self.completed_episodes.extend(local_episodes);
        self.reward_receipts.merge_missing_from(local_receipts);
        self.unlocked_achievements.extend(local_achievements);
        proof {
            if !adopt {
                assert(base.completed_episodes@.union(old_self.completed_episodes@)
                    =~= old_self.completed_episodes@);
                assert(old_self.reward_receipts@.union_prefer_right(base.reward_receipts@)
                    =~= old_self.reward_receipts@);
                assert(base.unlocked_achievements@.union(old_self.unlocked_achievements@)
                    =~= old_self.unlocked_achievements@);
            }
        }
    }

    /// Records a finished match: counters, defeats and kills/deaths/assists
    /// (each saturating), then credits `reward` (the match reward) to the
    /// preferred leader, or to Caesar when none was chosen.
    pub fn record_match_with_kda(
        &mut self,
        won: bool,
        defeats: SessionDefeats,
        kills: u32,
        deaths: u32,
        assists: u32,
        reward: MatchReward,
    )
        requires
            old(self).wf(),
        ensures
            final(self).wf(),
            ({
                let counted = PlayerProgress {
                    matches_played: sat_u32(old(self).matches_played, 1),
                    wins: if won { sat_u32(old(self).wins, 1) } else { old(self).wins },
                    players_defeated: sat_u32(old(self).players_defeated, defeats.players),
                    empires_defeated: sat_u32(old(self).empires_defeated, defeats.empires),
                    tribes_defeated: sat_u32(old(self).tribes_defeated, defeats.tribes),
                    kills: sat_u32(old(self).kills, kills),
                    deaths: sat_u32(old(self).deaths, deaths),
                    assists: sat_u32(old(self).assists, assists),
                    ..*old(self)
                };
                Self::rewarded(
                    &counted,
                    &*final(self),
                    match old(self).preferred_leader {
                        Some(l) => l@,
                        None => default_leader_name(),
                    },
                    reward,
                )
            }),
            final(self).intro_completed == old(self).intro_completed,
            final(self).completed_episodes@ == old(self).completed_episodes@,
    {
        self.matches_played = self.matches_played.saturating_add(1);
        if won {
            self.wins = self.wins.saturating_add(1);
        }
        self.players_defeated = self.players_defeated.saturating_add(defeats.players);
        self.empires_defeated = self.empires_defeated.saturating_add(defeats.empires);
        self.tribes_defeated = self.tribes_defeated.saturating_add(defeats.tribes);
        self.kills = self.kills.saturating_add(kills);
        self.deaths = self.deaths.saturating_add(deaths);
        self.assists = self.assists.saturating_add(assists);
        let leader = match &self.preferred_leader {
            Some(l) => l.clone(),
            None => {
                let caesar = "Caesar";
                proof {
                    reveal_strlit("Caesar");
                    assert(caesar@ =~= default_leader_name());
                }
                caesar.to_owned()
            },
        };
        self.apply_reward(leader.as_str(), reward);
    }
}

/// Merging a cloud profile never undoes a finished intro: a local profile
/// that finished the intro still has it finished afterwards, whatever the
/// cloud profile says (and so does an adopted cloud profile that finished it).
pub proof fn law_merge_keeps_finished_intro(old: &PlayerProgress, cloud: &PlayerProgress, new: &PlayerProgress)
    requires
        PlayerProgress::merged(old, cloud, new),
    ensures
        old.intro_done() ==> new.intro_done(),
        (cloud.history() && cloud.intro_done()) ==> new.intro_done(),
{
}

/// Merging a cloud profile never loses local campaign progress: every
/// finished episode, unlocked achievement and reward receipt of the local
/// profile is still there afterwards.
pub proof fn law_merge_keeps_local_progress(old: &PlayerProgress, cloud: &PlayerProgress, new: &PlayerProgress)
    requires
        PlayerProgress::merged(old, cloud, new),
    ensures
        old.completed_episodes@.subset_of(new.completed_episodes@),
        old.unlocked_achievements@.subset_of(new.unlocked_achievements@),
        old.reward_receipts@.dom().subset_of(new.reward_receipts@.dom()),
{
}

/// The tutorial reward is paid once: after one completion, a second
/// completion reports nothing done and leaves the profile as it was.
pub proof fn law_tutorial_reward_once(
    p0: &PlayerProgress,
    p1: &PlayerProgress,
    p2: &PlayerProgress,
    d1: bool,
    d2: bool,
    r1: MatchReward,
    r2: MatchReward,
)
    requires
        PlayerProgress::tutorial_completion(p0, p1, d1, r1),
        PlayerProgress::tutorial_completion(p1, p2, d2, r2),
    ensures
        !d2,
        p2.same(p1),
        p2.intro_done(),
{
}

/// An episode is rewarded once: completing the same episode a second time
/// reports nothing done and leaves the profile as it was.
pub proof fn law_episode_reward_once(
    p0: &PlayerProgress,
    p1: &PlayerProgress,
    p2: &PlayerProgress,
    d1: bool,
    d2: bool,
    episode: Seq<char>,
    l1: Seq<char>,
    l2: Seq<char>,
    r1: MatchReward,
    r2: MatchReward,
)
    requires
        PlayerProgress::episode_completion(p0, p1, d1, episode, l1, r1),
        PlayerProgress::episode_completion(p1, p2, d2, episode, l2, r2),
    ensures
        !d2,
        p2.same(p1),
        p2.completed_episodes@.contains(episode),
{
}

impl Default for PlayerProgress {
    fn default() -> (p: Self)
        ensures
            p.wf(),
            !p.history(),
            p.xp == 0 && p.level == 0 && p.wins == 0 && p.matches_played == 0,
            p.players_defeated == 0 && p.empires_defeated == 0 && p.tribes_defeated == 0,
            p.kills == 0 && p.deaths == 0 && p.assists == 0,
            p.preferred_leader is None && p.intro_completed is None && p.selected_skin is None,
            p.crowns == 0 && p.laurels == 0 && p.gems == 0,
    {
        PlayerProgress {
            xp: 0,
            level: 0,
            wins: 0,
            matches_played: 0,
            players_defeated: 0,
            empires_defeated: 0,
            tribes_defeated: 0,
            preferred_leader: None,
            intro_completed: None,
            kills: 0,
            deaths: 0,
            assists: 0,
            leader_xp: StrMap::new(),
            crowns: 0,
            laurels: 0,
            gems: 0,
            owned_leaders: StrSet::new(),
            owned_skins: StrSet::new(),
            selected_skin: None,
            completed_episodes: StrSet::new(),
            reward_receipts: StrMap::new(),
            unlocked_achievements: StrSet::new(),
        }
    }
}

} // verus!
