//! Campaign scripting: which scripted campaign a tutorial match belongs to,
//! what unlocks it, and how an episode roster of named, teamed factions
//! becomes the spawn plan the engine places. A faction's role fixes its team,
//! AI, color family, default leader and starting troops in one place.

pub mod dialog;
pub mod lady_six_sky;

use vstd::prelude::*;
use crate::player_progress::PlayerProgress;
use crate::text::{push_char, same_text};

verus! {

/// Which scripted campaign the running tutorial match belongs to. Boudica is
/// the first-run teaching intro; the Six Sky episodes follow it.
#[derive(Clone, Copy, PartialEq, Eq, Debug, Structural)]
pub enum CampaignId {
    Boudica,
    SixSkyEp1,
    SixSkyEp2,
    SixSkyEp3,
}

impl Default for CampaignId {
    fn default() -> (c: Self)
        ensures
            c == CampaignId::Boudica,
    {
        CampaignId::Boudica
    }
}

/// Stable id of an episode (progress tracking and portal events).
pub open spec fn episode_key(c: CampaignId) -> Seq<char> {
    match c {
        CampaignId::Boudica => "boudica"@,
        CampaignId::SixSkyEp1 => "six_sky_ep1"@,
        CampaignId::SixSkyEp2 => "six_sky_ep2"@,
        CampaignId::SixSkyEp3 => "six_sky_ep3"@,
    }
}

/// Menu title of an episode.
pub open spec fn title_text(c: CampaignId) -> Seq<char> {
    match c {
        CampaignId::Boudica => "Rise of the Iceni"@,
        CampaignId::SixSkyEp1 => "Arrival"@,
        CampaignId::SixSkyEp2 => "Regent's Fire"@,
        CampaignId::SixSkyEp3 => "Moon Goddess"@,
    }
}

/// Menu subtitle of an episode.
pub open spec fn subtitle_text(c: CampaignId) -> Seq<char> {
    match c {
        CampaignId::Boudica => "Tutorial · Boudica"@,
        CampaignId::SixSkyEp1 => "Lady Six Sky · 682 CE"@,
        CampaignId::SixSkyEp2 => "Lady Six Sky · 693 CE"@,
        CampaignId::SixSkyEp3 => "Lady Six Sky · 726–741 CE"@,
    }
}

/// Name of the leader who advises the player through an episode.
pub open spec fn advisor_name(c: CampaignId) -> Seq<char> {
    match c {
        CampaignId::Boudica => "Boudica"@,
        _ => "LadySixSky"@,
    }
}

/// The episode is finished in `p`: the intro for Boudica, the recorded
/// episode id for the others.
pub open spec fn completed_in(c: CampaignId, p: &PlayerProgress) -> bool {
    match c {
        CampaignId::Boudica => p.intro_done(),
        _ => p.completed_episodes@.contains(episode_key(c)),
    }
}

/// The episode may be started in `p`: Boudica always, each later episode
/// once the one before it is finished.
pub open spec fn unlocked_in(c: CampaignId, p: &PlayerProgress) -> bool {
    match c {
        CampaignId::Boudica => true,
        CampaignId::SixSkyEp1 => completed_in(CampaignId::Boudica, p),
        CampaignId::SixSkyEp2 => completed_in(CampaignId::SixSkyEp1, p),
        CampaignId::SixSkyEp3 => completed_in(CampaignId::SixSkyEp2, p),
    }
}

/// The episode that finishing `c` opens, if any.
pub open spec fn successor(c: CampaignId) -> Option<CampaignId> {
    match c {
        CampaignId::Boudica => Some(CampaignId::SixSkyEp1),
        CampaignId::SixSkyEp1 => Some(CampaignId::SixSkyEp2),
        CampaignId::SixSkyEp2 => Some(CampaignId::SixSkyEp3),
        CampaignId::SixSkyEp3 => None,
    }
}

proof fn lemma_episode_keys_distinct(a: CampaignId, b: CampaignId)
    requires
        episode_key(a) == episode_key(b),
    ensures
        a == b,
{
    reveal_strlit("boudica");
    reveal_strlit("six_sky_ep1");
    reveal_strlit("six_sky_ep2");
    reveal_strlit("six_sky_ep3");
    assert("boudica"@[0] != "six_sky_ep1"@[0]);
    assert("six_sky_ep1"@[10] != "six_sky_ep2"@[10]);
    assert("six_sky_ep1"@[10] != "six_sky_ep3"@[10]);
    assert("six_sky_ep2"@[10] != "six_sky_ep3"@[10]);
}

impl CampaignId {
    /// Every campaign, in play order.
    pub fn all() -> (r: [CampaignId; 4])
        ensures
            r@ == seq![CampaignId::Boudica, CampaignId::SixSkyEp1, CampaignId::SixSkyEp2, CampaignId::SixSkyEp3],
    {
        let r = [CampaignId::Boudica, CampaignId::SixSkyEp1, CampaignId::SixSkyEp2, CampaignId::SixSkyEp3];
        assert(r@ =~= seq![CampaignId::Boudica, CampaignId::SixSkyEp1, CampaignId::SixSkyEp2, CampaignId::SixSkyEp3]);
        r
    }

    /// Stable id for progress tracking and portal events.
    pub fn episode_id(self) -> (r: &'static str)
        ensures
            r@ == episode_key(self),
    {
        match self {
            CampaignId::Boudica => "boudica",
            CampaignId::SixSkyEp1 => "six_sky_ep1",
            CampaignId::SixSkyEp2 => "six_sky_ep2",
            CampaignId::SixSkyEp3 => "six_sky_ep3",
        }
    }

    /// The campaign with stable id `id`, if there is one.
    pub fn from_episode_id(id: &str) -> (r: Option<Self>)
        ensures
            forall|c: CampaignId| r == Some(c) <==> id@ == episode_key(c),
    {
        let r = if same_text(id, "boudica") {
            Some(CampaignId::Boudica)
        } else if same_text(id, "six_sky_ep1") {
            Some(CampaignId::SixSkyEp1)
        } else if same_text(id, "six_sky_ep2") {
            Some(CampaignId::SixSkyEp2)
        } else if same_text(id, "six_sky_ep3") {
            Some(CampaignId::SixSkyEp3)
        } else {
            None
        };
        assert forall|c: CampaignId| r == Some(c) <==> id@ == episode_key(c) by {
            if id@ == episode_key(c) {
                match r {
                    Some(d) => lemma_episode_keys_distinct(c, d),
                    None => {},
                }
            }
        }
        r
    }

    pub fn menu_title(self) -> (r: &'static str)
        ensures
            r@ == title_text(self),
    {
        match self {
            CampaignId::Boudica => "Rise of the Iceni",
            CampaignId::SixSkyEp1 => "Arrival",
            CampaignId::SixSkyEp2 => "Regent's Fire",
            CampaignId::SixSkyEp3 => "Moon Goddess",
        }
    }

    pub fn menu_subtitle(self) -> (r: &'static str)
        ensures
            r@ == subtitle_text(self),
    {
        match self {
            CampaignId::Boudica => "Tutorial · Boudica",
            CampaignId::SixSkyEp1 => "Lady Six Sky · 682 CE",
            CampaignId::SixSkyEp2 => "Lady Six Sky · 693 CE",
            CampaignId::SixSkyEp3 => "Lady Six Sky · 726–741 CE",
        }
    }

    /// Name of the leader who advises the player through the episode.
    pub fn advisor(self) -> (r: &'static str)
        ensures
            r@ == advisor_name(self),
    {
        match self {
            CampaignId::Boudica => "Boudica",
            _ => "LadySixSky",
        }
    }

    /// The episode is finished in `progress`.
    pub fn is_completed(self, progress: &PlayerProgress) -> (r: bool)
        ensures
            r == completed_in(self, progress),
    {
        match self {
            CampaignId::Boudica => progress.intro_completed.unwrap_or(false),
            _ => progress.completed_episodes.contains(&self.episode_id().to_owned()),
        }
    }

    /// The episode may be started with `progress`.
    pub fn is_unlocked(self, progress: &PlayerProgress) -> (r: bool)
        ensures
            r == unlocked_in(self, progress),
    {
        match self {
            CampaignId::Boudica => true,
            CampaignId::SixSkyEp1 => CampaignId::Boudica.is_completed(progress),
            CampaignId::SixSkyEp2 => CampaignId::SixSkyEp1.is_completed(progress),
            CampaignId::SixSkyEp3 => CampaignId::SixSkyEp2.is_completed(progress),
        }
    }
}

/// Stable ids and campaigns correspond one to one: two campaigns with the
/// same id are the same campaign.
pub proof fn law_episode_id_round_trip(a: CampaignId, b: CampaignId)
    ensures
        episode_key(a) == episode_key(b) <==> a == b,
{
    if episode_key(a) == episode_key(b) {
        lemma_episode_keys_distinct(a, b);
    }
}

/// Finishing an episode (recording its id, or finishing the intro for
/// Boudica) unlocks the next one.
pub proof fn law_completion_unlocks_successor(
    c: CampaignId,
    before: &PlayerProgress,
    after: &PlayerProgress,
    done: bool,
    leader: Seq<char>,
    reward: crate::player_progress::MatchReward,
)
    requires
        c != CampaignId::Boudica ==> PlayerProgress::episode_completion(
            before,
            after,
            done,
            episode_key(c),
            leader,
            reward,
        ),
        c == CampaignId::Boudica ==> PlayerProgress::tutorial_completion(before, after, done, reward)
            || after.intro_done(),
        successor(c) is Some,
    ensures
        completed_in(c, after),
        unlocked_in(successor(c).unwrap(), after),
{
}

/// Each episode after the first stays locked until the one before it is
/// finished: Six Sky episode 1 needs the Boudica intro, episode 2 needs
/// episode 1 and episode 3 needs episode 2 in the finished episodes;
/// Boudica is always open. So a profile that finished nothing opens only
/// Boudica.
pub proof fn law_episodes_unlock_in_order(c: CampaignId, p: &PlayerProgress)
    ensures
        unlocked_in(CampaignId::Boudica, p),
        unlocked_in(CampaignId::SixSkyEp1, p) ==> p.intro_completed == Some(true),
        unlocked_in(CampaignId::SixSkyEp2, p) ==> p.completed_episodes@.contains("six_sky_ep1"@),
        unlocked_in(CampaignId::SixSkyEp3, p) ==> p.completed_episodes@.contains("six_sky_ep2"@),
        p.intro_completed != Some(true) && p.completed_episodes@.is_empty() ==> (unlocked_in(c, p) <==> c
            == CampaignId::Boudica),
{
}

/// Side of a scripted faction.
#[derive(Clone, Copy, PartialEq, Eq, Debug, Structural)]
pub enum Team {
    Red,
    Blue,
}

/// The human's side in the rebellion.
pub const PLAYER_TEAM: Team = Team::Red;

/// A faction's role fixes its team, AI, color family, default leader and
/// starting troops. The difficulty ladder runs Independent (500) → Vassal
/// (1 000) → Boss (2 500) → BigBoss (5 000).
#[derive(Clone, Copy, PartialEq, Eq, Debug, Structural)]
pub enum Role {
    /// The player's kin and allies: the player's team and color, passive.
    Kin,
    /// Lone clan: gray, no team, passive, 500 troops.
    Independent,
    /// Client tribe of the enemy: enemy team, passive, 1 000 troops.
    Vassal,
    /// Enemy city: enemy team, expanding nation, 2 500 troops.
    Boss,
    /// The enemy capital: enemy team, expanding nation, 5 000 troops.
    BigBoss,
    /// Unaligned bystander: its own color, no team, passive, 500 troops.
    Neutral,
}

/// Role named `s` in a roster file.
pub open spec fn role_named(s: Seq<char>) -> Option<Role> {
    if s == "kin"@ {
        Some(Role::Kin)
    } else if s == "independent"@ {
        Some(Role::Independent)
    } else if s == "vassal"@ {
        Some(Role::Vassal)
    } else if s == "boss"@ {
        Some(Role::Boss)
    } else if s == "big_boss"@ {
        Some(Role::BigBoss)
    } else if s == "neutral"@ {
        Some(Role::Neutral)
    } else {
        None
    }
}

/// Starting troops of a role.
pub open spec fn role_troops(r: Role) -> u32 {
    match r {
        Role::Kin | Role::Independent | Role::Neutral => 500,
        Role::Vassal => 1000,
        Role::Boss => 2500,
        Role::BigBoss => 5000,
    }
}

/// Team of a role and whether it plays as an expanding nation.
pub open spec fn role_team_and_ai(r: Role) -> (Option<Team>, bool) {
    match r {
        Role::Kin => (Some(Team::Red), false),
        Role::Vassal => (Some(Team::Blue), false),
        Role::Boss | Role::BigBoss => (Some(Team::Blue), true),
        Role::Independent | Role::Neutral => (None, false),
    }
}

/// Civilization of a faction: the role's default or a named one from the
/// roster file.
#[derive(Clone, Debug)]
pub enum Civ {
    Iceni,
    Rome,
    Gallic,
    Named(String),
}

/// Civilization a role implies: kin are Iceni, the enemy's cities Rome, the
/// rest Gallic.
pub open spec fn role_civ(r: Role) -> Civ {
    match r {
        Role::Kin => Civ::Iceni,
        Role::Boss | Role::BigBoss => Civ::Rome,
        _ => Civ::Gallic,
    }
}

impl Role {
    /// Starting troop count of this tier.
    pub fn troops(self) -> (t: u32)
        ensures
            t == role_troops(self),
    {
        match self {
            Role::Kin | Role::Independent | Role::Neutral => 500,
            Role::Vassal => 1000,
            Role::Boss => 2500,
            Role::BigBoss => 5000,
        }
    }

    /// `(team, expanding nation?)`: only the bosses actively expand.
    pub fn team_and_ai(self) -> (r: (Option<Team>, bool))
        ensures
            r == role_team_and_ai(self),
    {
        match self {
            Role::Kin => (Some(Team::Red), false),
            Role::Vassal => (Some(Team::Blue), false),
            Role::Boss | Role::BigBoss => (Some(Team::Blue), true),
            Role::Independent | Role::Neutral => (None, false),
        }
    }

    /// Civilization implied by the role.
    pub fn civ(self) -> (c: Civ)
        ensures
            c == role_civ(self),
    {
        match self {
            Role::Kin => Civ::Iceni,
            Role::Boss | Role::BigBoss => Civ::Rome,
            _ => Civ::Gallic,
        }
    }

    /// The role named `s` in a roster file, if any.
    pub fn from_name(s: &str) -> (r: Option<Role>)
        ensures
            r == role_named(s@),
    {
        if same_text(s, "kin") {
            Some(Role::Kin)
        } else if same_text(s, "independent") {
            Some(Role::Independent)
        } else if same_text(s, "vassal") {
            Some(Role::Vassal)
        } else if same_text(s, "boss") {
            Some(Role::Boss)
        } else if same_text(s, "big_boss") {
            Some(Role::BigBoss)
        } else if same_text(s, "neutral") {
            Some(Role::Neutral)
        } else {
            None
        }
    }
}

/// One faction as a roster file lists it, with the civilization and leader
/// ids as written there.
#[derive(Clone, Debug)]
pub struct RosterEntry {
    pub name: String,
    pub x: u32,
    pub y: u32,
    pub role: String,
    pub iq: Option<u32>,
    pub civ: Option<String>,
    pub leader: Option<String>,
}

/// One placed faction of an episode roster.
#[derive(Clone, Debug)]
pub struct Faction {
    pub name: String,
    pub x: u32,
    pub y: u32,
    pub role: Role,
    pub civ: Civ,
    /// Bot intelligence override; `None` is the engine default.
    pub iq: Option<u32>,
    /// Leader override; `None` is the role's default leader.
    pub leader: Option<String>,
}

/// `c` is an ASCII letter or digit.
pub open spec fn ascii_alnum(c: char) -> bool {
    ('a' <= c && c <= 'z') || ('A' <= c && c <= 'Z') || ('0' <= c && c <= '9')
}

/// `c` in lower case, for an ASCII letter.
pub open spec fn ascii_lower(c: char) -> char {
    if 'A' <= c && c <= 'Z' {
        ((c as u32) + 32) as char
    } else {
        c
    }
}

/// The key a civilization id is matched by: its ASCII letters and digits,
/// in lower case (`"Maya Civilization"` gives `"mayacivilization"`).
pub open spec fn civ_key(s: Seq<char>) -> Seq<char>
    decreases s.len(),
{
    if s.len() == 0 {
        Seq::empty()
    } else if ascii_alnum(s.last()) {
        civ_key(s.drop_last()).push(ascii_lower(s.last()))
    } else {
        civ_key(s.drop_last())
    }
}

/// The matching key of a civilization id (see [`civ_key`]).
pub fn civ_id_key(s: &str) -> (r: String)
    ensures
        r@ == civ_key(s@),
{
    let n = s.unicode_len();
    let mut key = String::new();
    let mut i: usize = 0;
    while i < n
        invariant
            i <= n,
            n == s@.len(),
            key@ == civ_key(s@.take(i as int)),
        decreases n - i,
    {
        let c = s.get_char(i);
        assert(s@.take(i + 1).drop_last() =~= s@.take(i as int));
        if ('a' <= c && c <= 'z') || ('0' <= c && c <= '9') {
            push_char(&mut key, c);
        } else if 'A' <= c && c <= 'Z' {
            let lower = ((c as u8) + 32) as char;
            push_char(&mut key, lower);
        }
        i += 1;
    }
    assert(s@.take(n as int) =~= s@);
    key
}

/// `civ` is the civilization of an entry with role `role` and civilization
/// id `id`: the one the id names, matched by its key, or the role's own
/// where the id is absent or has no letter or digit.
pub open spec fn entry_civ(id: Option<String>, role: Role, civ: Civ) -> bool {
    match id {
        Some(c) => if civ_key(c@).len() > 0 {
            civ matches Civ::Named(k) && k@ == civ_key(c@)
        } else {
            civ == role_civ(role)
        },
        None => civ == role_civ(role),
    }
}

/// `f` is the faction that entry `e` with role `role` becomes: its name,
/// place and bot intelligence, its civilization (see [`entry_civ`]) and the
/// leader it names, a blank leader id counting as none.
pub open spec fn faction_of(f: Faction, e: RosterEntry, role: Role) -> bool {
    &&& f.name == e.name
    &&& f.x == e.x
    &&& f.y == e.y
    &&& f.role == role
    &&& entry_civ(e.civ, role, f.civ)
    &&& f.iq == e.iq
    &&& f.leader == match e.leader {
        Some(l) => if l@.len() > 0 { Some(l) } else { None },
        None => None,
    }
}

/// Every entry of the roster has a known role.
pub open spec fn roles_known(entries: Seq<RosterEntry>) -> bool {
    forall|i: int| 0 <= i < entries.len() ==> (#[trigger] role_named(entries[i].role@)) is Some
}

/// Player spawn used when a roster file names none.
pub open spec fn default_spawn() -> (u32, u32) {
    (696, 45)
}

/// Builds an episode roster from the entries of a roster file: a roster
/// with an unknown role, or with no faction at all, is refused (`None`);
/// otherwise each entry becomes its faction, in order. The player spawn
/// defaults to `(696, 45)`.
pub fn roster_from_entries(entries: Vec<RosterEntry>, player_spawn: Option<(u32, u32)>) -> (r: Option<(Vec<Faction>, (u32, u32))>)
    ensures
        !roles_known(entries@) || entries@.len() == 0 ==> r is None,
        roles_known(entries@) && entries@.len() > 0 ==> (r matches Some((f, spawn)) && f@.len() == entries@.len()
            && (forall|i: int| 0 <= i < entries@.len() ==> faction_of(#[trigger] f@[i], entries@[i], role_named(entries@[i].role@).unwrap()))
            && spawn == match player_spawn {
                Some(p) => p,
                None => default_spawn(),
            }),
{
    let ghost all = entries@;
    assert(all.len() == entries.len());
    let mut rest = entries;
    let mut factions: Vec<Faction> = Vec::new();
    let mut k: usize = 0;
    while rest.len() > 0
        invariant
            all == entries@,
            k <= all.len(),
            all.len() <= usize::MAX,
            rest@ == all.skip(k as int),
            rest@.len() == all.len() - k,
            factions@.len() == k,
            forall|i: int| 0 <= i < k ==> (#[trigger] role_named(all[i].role@)) is Some,
            forall|i: int| 0 <= i < k ==> faction_of(#[trigger] factions@[i], all[i], role_named(all[i].role@).unwrap()),
        decreases rest@.len(),
    {
        let e = rest.remove(0);
        assert(all[k as int] == e);
        let role = match Role::from_name(e.role.as_str()) {
            Some(role) => role,
            None => {
                assert(role_named(all[k as int].role@) is None);
                assert(!roles_known(all));
                return None;
            },
        };
        let civ = match &e.civ {
            Some(c) => {
                let key = civ_id_key(c.as_str());
                if key.as_str().unicode_len() > 0 {
                    Civ::Named(key)
                } else {
                    role.civ()
                }
            },
            None => role.civ(),
        };
        let leader = match e.leader {
            Some(l) => if l.as_str().unicode_len() > 0 {
                Some(l)
            } else {
                None
            },
            None => None,
        };
        factions.push(Faction { name: e.name, x: e.x, y: e.y, role, civ, iq: e.iq, leader });
        assert(rest@ =~= all.skip(k + 1));
        k = k + 1;
    }
    if factions.len() == 0 {
        return None;
    }
    let spawn = match player_spawn {
        Some(p) => p,
        None => (696, 45),
    };
    Some((factions, spawn))
}

/// Color family of a scripted faction; neutral factions cycle through a
/// palette of six own colors.
#[derive(Clone, Copy, PartialEq, Eq, Debug, Structural)]
pub enum SpawnColor {
    /// The player's (and kin's) color.
    Ally,
    /// The enemy's blue.
    EnemyBlue,
    /// Independent gray.
    TribeGray,
    /// Entry of the neutral palette, below 6.
    Neutral(u8),
}

/// Leader a scripted faction plays.
#[derive(Clone, Debug)]
pub enum LeaderPick {
    /// The engine's default leader.
    EngineDefault,
    Caesar,
    Boudica,
    /// A leader named by the roster file.
    Named(String),
}

/// How the engine places one scripted faction.
#[derive(Clone, Debug)]
pub struct SpawnPlan {
    pub name: String,
    pub x: u32,
    pub y: u32,
    pub team: Option<Team>,
    pub is_nation: bool,
    pub color: SpawnColor,
    pub leader: LeaderPick,
    pub civ: Civ,
    pub troops: u32,
    pub iq: Option<u32>,
}

/// Number of neutral factions among the first `i`.
pub open spec fn neutrals_before(f: Seq<Faction>, i: int) -> nat
    decreases i,
{
    if i <= 0 {
        0
    } else {
        neutrals_before(f, i - 1) + if f[i - 1].role == Role::Neutral { 1nat } else { 0nat }
    }
}

/// The spawn plan of faction `i` of `f`.
pub open spec fn plan_of(f: Seq<Faction>, i: int) -> SpawnPlan {
    let fi = f[i];
    SpawnPlan {
        name: fi.name,
        x: fi.x,
        y: fi.y,
        team: role_team_and_ai(fi.role).0,
        is_nation: role_team_and_ai(fi.role).1,
        color: match fi.role {
            Role::Kin => SpawnColor::Ally,
            Role::Vassal | Role::Boss | Role::BigBoss => SpawnColor::EnemyBlue,
            Role::Independent => SpawnColor::TribeGray,
            Role::Neutral => SpawnColor::Neutral((neutrals_before(f, i) % 6) as u8),
        },
        leader: match fi.leader {
            Some(l) => LeaderPick::Named(l),
            None => match fi.role {
                Role::Boss | Role::BigBoss => LeaderPick::Caesar,
                Role::Kin => LeaderPick::Boudica,
                _ => LeaderPick::EngineDefault,
            },
        },
        civ: fi.civ,
        troops: role_troops(fi.role),
        iq: fi.iq,
    }
}

/// Turns an episode's factions into engine-ready spawn plans: team, AI and
/// troops from the role, enemy blue for the enemy, and the neutral palette
/// handed out in turn to the neutral factions.
pub fn to_scripted(factions: &[Faction]) -> (r: Vec<SpawnPlan>)
    ensures
        r@.len() == factions@.len(),
        forall|i: int| 0 <= i < r@.len() ==> r@[i] == plan_of(factions@, i),
{
    let mut out: Vec<SpawnPlan> = Vec::new();
    let mut neutral_i: usize = 0;
    let mut i: usize = 0;
    while i < factions.len()
        invariant
            i <= factions@.len(),
            out@.len() == i,
            neutral_i == neutrals_before(factions@, i as int),
            neutral_i <= i,
            forall|j: int| 0 <= j < i ==> out@[j] == plan_of(factions@, j),
        decreases factions@.len() - i,
    {
        let f = &factions[i];
        let (team, is_nation) = f.role.team_and_ai();
        let color = match f.role {
            Role::Kin => SpawnColor::Ally,
            Role::Vassal | Role::Boss | Role::BigBoss => SpawnColor::EnemyBlue,
            Role::Independent => SpawnColor::TribeGray,
            Role::Neutral => {
                let c = SpawnColor::Neutral((neutral_i % 6) as u8);
                neutral_i = neutral_i + 1;
                c
            },
        };
        let leader = match &f.leader {
            Some(l) => LeaderPick::Named(l.clone()),
            None => match f.role {
                Role::Boss | Role::BigBoss => LeaderPick::Caesar,
                Role::Kin => LeaderPick::Boudica,
                _ => LeaderPick::EngineDefault,
            },
        };
        let civ = match &f.civ {
            Civ::Iceni => Civ::Iceni,
            Civ::Rome => Civ::Rome,
            Civ::Gallic => Civ::Gallic,
            Civ::Named(c) => Civ::Named(c.clone()),
        };
        let plan = SpawnPlan {
            name: f.name.clone(),
            x: f.x,
            y: f.y,
            team,
            is_nation,
            color,
            leader,
            civ,
            troops: f.role.troops(),
            iq: f.iq,
        };
        out.push(plan);
        i = i + 1;
    }
    out
}

/// Map a campaign is played on.
pub open spec fn campaign_map_name(c: CampaignId) -> Seq<char> {
    match c {
        CampaignId::Boudica => "eastanglia"@,
        _ => "northamerica"@,
    }
}

/// Size of a campaign's map.
pub open spec fn campaign_map_size(c: CampaignId) -> (u32, u32) {
    match c {
        CampaignId::Boudica => (896, 504),
        _ => (1000, 516),
    }
}

impl CampaignId {
    /// The map the campaign is played on.
    pub fn map_name(self) -> (r: &'static str)
        ensures
            r@ == campaign_map_name(self),
    {
        match self {
            CampaignId::Boudica => "eastanglia",
            _ => "northamerica",
        }
    }

    /// Width and height of the campaign's map.
    pub fn map_size(self) -> (r: (u32, u32))
        ensures
            r == campaign_map_size(self),
    {
        match self {
            CampaignId::Boudica => (896, 504),
            _ => (1000, 516),
        }
    }
}

/// A roster sent by the web shell must be for the campaign's map.
pub fn check_roster_map(campaign: CampaignId, roster_map: Option<&str>) -> (r: Result<(), &'static str>)
    ensures
        r is Ok <==> (roster_map matches Some(m) && m@ == campaign_map_name(campaign)),
        r is Err ==> r == Err::<(), &'static str>("Campaign roster references the wrong map."),
{
    let ok = match roster_map {
        Some(m) => same_text(m, campaign.map_name()),
        None => false,
    };
    if ok {
        Ok(())
    } else {
        Err("Campaign roster references the wrong map.")
    }
}

/// Every spawn of a roster (the player's and each faction's) lies on the
/// campaign's map.
pub fn check_spawns_on_map(campaign: CampaignId, factions: &[Faction], player_spawn: (u32, u32)) -> (r: Result<(), &'static str>)
    ensures
        ({
            let (w, h) = campaign_map_size(campaign);
            r is Ok <==> (player_spawn.0 < w && player_spawn.1 < h && forall|i: int|
                0 <= i < factions@.len() ==> #[trigger] factions@[i].x < w && factions@[i].y < h)
        }),
        r is Err ==> r == Err::<(), &'static str>("Campaign roster contains an out-of-bounds spawn."),
{
    let (w, h) = campaign.map_size();
    if player_spawn.0 >= w || player_spawn.1 >= h {
        return Err("Campaign roster contains an out-of-bounds spawn.");
    }
    let mut i: usize = 0;
    while i < factions.len()
        invariant
            i <= factions@.len(),
            (w, h) == campaign_map_size(campaign),
            forall|j: int| 0 <= j < i ==> #[trigger] factions@[j].x < w && factions@[j].y < h,
        decreases factions@.len() - i,
    {
        if factions[i].x >= w || factions[i].y >= h {
            return Err("Campaign roster contains an out-of-bounds spawn.");
        }
        i = i + 1;
    }
    Ok(())
}

/// Index of the first campaign setting that is neither `buildings_enabled`
/// nor `starting_troops`, if any.
pub fn first_disallowed_setting(keys: &[&str]) -> (r: Option<usize>)
    ensures
        match r {
            Some(i) => i < keys@.len() && keys@[i as int]@ != "buildings_enabled"@ && keys@[i as int]@
                != "starting_troops"@ && forall|j: int|
                0 <= j < i ==> #[trigger] keys@[j]@ == "buildings_enabled"@ || keys@[j]@ == "starting_troops"@,
            None => forall|j: int|
                0 <= j < keys@.len() ==> #[trigger] keys@[j]@ == "buildings_enabled"@ || keys@[j]@
                    == "starting_troops"@,
        },
{
    let mut i: usize = 0;
    while i < keys.len()
        invariant
            i <= keys@.len(),
            forall|j: int| 0 <= j < i ==> #[trigger] keys@[j]@ == "buildings_enabled"@ || keys@[j]@ == "starting_troops"@,
        decreases keys@.len() - i,
    {
        if !same_text(keys[i], "buildings_enabled") && !same_text(keys[i], "starting_troops") {
            return Some(i);
        }
        i = i + 1;
    }
    None
}

} // verus!
