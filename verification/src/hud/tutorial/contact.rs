//! How the tutorial's world notices the player: the first border contact
//! with a named faction, and the reactions of nearby factions to a conquest.

use vstd::prelude::*;
use crate::campaign::Team;

verus! {

/// Half the side of the box around a faction's center in which an owned
/// tile counts as contact.
pub const CONTACT_RADIUS: i32 = 7;

/// A faction the player may meet, with the center of its land (already
/// rounded to a tile).
#[derive(Clone, Copy, Debug, PartialEq, Eq, Structural)]
pub struct ContactCandidate {
    pub id: u16,
    pub alive: bool,
    pub tile_count: u32,
    pub center_x: i32,
    pub center_y: i32,
}

/// The tile `(x, y)` lies on the map and belongs to `me`.
pub open spec fn owned_at(owners: Seq<u16>, map_w: int, map_h: int, x: int, y: int, me: u16) -> bool {
    0 <= x < map_w && 0 <= y < map_h && owners[y * map_w + x] == me
}

/// `me` owns a tile within `CONTACT_RADIUS` (in both directions) of `(cx, cy)`.
pub open spec fn owns_near(owners: Seq<u16>, map_w: int, map_h: int, cx: int, cy: int, me: u16) -> bool {
    exists|x: int, y: int|
        cx - CONTACT_RADIUS <= x <= cx + CONTACT_RADIUS && cy - CONTACT_RADIUS <= y <= cy + CONTACT_RADIUS
            && #[trigger] owned_at(owners, map_w, map_h, x, y, me)
}

/// Candidate `c` is met now: another living faction with land, not met
/// before, whose center the player's land has reached.
pub open spec fn meets(
    c: ContactCandidate,
    met: Seq<u16>,
    owners: Seq<u16>,
    map_w: int,
    map_h: int,
    me: u16,
) -> bool {
    &&& c.id != me
    &&& c.alive
    &&& c.tile_count > 0
    &&& !met.contains(c.id)
    &&& owns_near(owners, map_w, map_h, c.center_x as int, c.center_y as int, me)
}

proof fn lemma_index_in_map(map_w: int, map_h: int, x: int, y: int)
    requires
        0 <= x < map_w,
        0 <= y < map_h,
    ensures
        0 <= y * map_w + x < map_w * map_h,
{
    assert(y * map_w + x < map_w * map_h) by (nonlinear_arith)
        requires
            0 <= x < map_w,
            0 <= y < map_h,
    {
    }
    assert(0 <= y * map_w) by (nonlinear_arith)
        requires
            0 <= y,
            0 <= map_w,
    {
    }
}

fn owned_at_exec(owners: &[u16], map_w: u32, map_h: u32, x: i64, y: i64, me: u16) -> (r: bool)
    requires
        owners@.len() == map_w * map_h,
    ensures
        r == owned_at(owners@, map_w as int, map_h as int, x as int, y as int, me),
{
    if x < 0 || y < 0 || x >= map_w as i64 || y >= map_h as i64 {
        return false;
    }
    let len = owners.len();
    proof {
        lemma_index_in_map(map_w as int, map_h as int, x as int, y as int);
        assert(len == map_w * map_h);
        assert((y as usize) * (map_w as usize) == y * map_w);
    }
    let idx = (y as usize) * (map_w as usize) + (x as usize);
    owners[idx] == me
}

/// Whether `me` owns a tile within `CONTACT_RADIUS` of `(cx, cy)` (see
/// [`owns_near`]).
pub fn owns_tile_near(owners: &[u16], map_w: u32, map_h: u32, cx: i32, cy: i32, me: u16) -> (r: bool)
    requires
        owners@.len() == map_w * map_h,
    ensures
        r == owns_near(owners@, map_w as int, map_h as int, cx as int, cy as int, me),
{
    let mut y: i64 = cy as i64 - CONTACT_RADIUS as i64;
    while y <= cy as i64 + CONTACT_RADIUS as i64
        invariant
            owners@.len() == map_w * map_h,
            cy - CONTACT_RADIUS <= y <= cy + CONTACT_RADIUS + 1,
            forall|x: int, yy: int|
                cx - CONTACT_RADIUS <= x <= cx + CONTACT_RADIUS && cy - CONTACT_RADIUS <= yy < y ==> !#[trigger] owned_at(
                    owners@,
                    map_w as int,
                    map_h as int,
                    x,
                    yy,
                    me,
                ),
        decreases cy + CONTACT_RADIUS + 1 - y,
    {
        let mut x: i64 = cx as i64 - CONTACT_RADIUS as i64;
        while x <= cx as i64 + CONTACT_RADIUS as i64
            invariant
                owners@.len() == map_w * map_h,
                cy - CONTACT_RADIUS <= y <= cy + CONTACT_RADIUS,
                cx - CONTACT_RADIUS <= x <= cx + CONTACT_RADIUS + 1,
                forall|xx: int, yy: int|
                    cx - CONTACT_RADIUS <= xx <= cx + CONTACT_RADIUS && cy - CONTACT_RADIUS <= yy < y ==> !#[trigger] owned_at(
                        owners@,
                        map_w as int,
                        map_h as int,
                        xx,
                        yy,
                        me,
                    ),
                forall|xx: int| cx - CONTACT_RADIUS <= xx < x ==> !#[trigger] owned_at(owners@, map_w as int, map_h as int, xx, y as int, me),
            decreases cx + CONTACT_RADIUS + 1 - x,
        {
            if owned_at_exec(owners, map_w, map_h, x, y, me) {
                assert(owned_at(owners@, map_w as int, map_h as int, x as int, y as int, me));
                return true;
            }
            x += 1;
        }
        y += 1;
    }
    false
}

/// The first candidate met now (see [`meets`]); it is recorded in `met` so
/// that it greets only once.
pub fn detect_first_contact(
    candidates: &[ContactCandidate],
    met: &mut Vec<u16>,
    owners: &[u16],
    map_w: u32,
    map_h: u32,
    me: u16,
) -> (r: Option<usize>)
    requires
        owners@.len() == map_w * map_h,
    ensures
        match r {
            Some(i) => {
                &&& i < candidates@.len()
                &&& meets(candidates@[i as int], old(met)@, owners@, map_w as int, map_h as int, me)
                &&& forall|j: int| 0 <= j < i ==> !meets(#[trigger] candidates@[j], old(met)@, owners@, map_w as int, map_h as int, me)
                &&& final(met)@ == old(met)@.push(candidates@[i as int].id)
            },
            None => {
                &&& forall|j: int| 0 <= j < candidates@.len() ==> !meets(#[trigger] candidates@[j], old(met)@, owners@, map_w as int, map_h as int, me)
                &&& final(met)@ == old(met)@
            },
        },
{
    let mut i: usize = 0;
    while i < candidates.len()
        invariant
            i <= candidates.len(),
            owners@.len() == map_w * map_h,
            met@ == old(met)@,
            forall|j: int| 0 <= j < i ==> !meets(#[trigger] candidates@[j], old(met)@, owners@, map_w as int, map_h as int, me),
        decreases candidates.len() - i,
    {
        let c = candidates[i];
        let mut seen = false;
        let mut k: usize = 0;
        while k < met.len()
            invariant
                k <= met.len(),
                met@ == old(met)@,
                seen == exists|j: int| 0 <= j < k && met@[j] == c.id,
            decreases met.len() - k,
        {
            if met[k] == c.id {
                seen = true;
            }
            k += 1;
        }
        assert(seen == met@.contains(c.id));
        if c.id != me && c.alive && c.tile_count > 0 && !seen && owns_tile_near(owners, map_w, map_h, c.center_x, c.center_y, me) {
            met.push(c.id);
            return Some(i);
        }
        i += 1;
    }
    None
}

/// The emote a faction shows at the player's conquest: a teammate cheers,
/// the blue bloc rages, anyone else recoils.
pub open spec fn reaction_to(team: Option<Team>, my_team: Option<Team>) -> Seq<char> {
    if team is Some && team == my_team {
        "🎉"@
    } else if team == Some(Team::Blue) {
        "😡"@
    } else {
        "😮"@
    }
}

/// The emote a faction shows at the player's conquest: `None` for the
/// player, a dead faction, one without land or one out of earshot
/// (`within_reach`); otherwise [`reaction_to`] its team.
pub fn conquest_reaction(
    id: u16,
    alive: bool,
    tile_count: u32,
    team: Option<Team>,
    my_id: u16,
    my_team: Option<Team>,
    within_reach: bool,
) -> (r: Option<&'static str>)
    ensures
        match r {
            None => id == my_id || !alive || tile_count == 0 || !within_reach,
            Some(e) => !(id == my_id || !alive || tile_count == 0 || !within_reach) && e@ == reaction_to(team, my_team),
        },
{
    if id == my_id || !alive || tile_count == 0 || !within_reach {
        return None;
    }
    if team.is_some() && team == my_team {
        Some("🎉")
    } else if team == Some(Team::Blue) {
        Some("😡")
    } else {
        Some("😮")
    }
}

/// Every faction greets once: after its contact is recorded, the same
/// faction is never met again.
pub proof fn law_contact_fires_once(
    c: ContactCandidate,
    met: Seq<u16>,
    owners: Seq<u16>,
    map_w: int,
    map_h: int,
    me: u16,
)
    ensures
        !meets(c, met.push(c.id), owners, map_w, map_h, me),
{
    assert(met.push(c.id)[met.len() as int] == c.id);
}

} // verus!
