//! Where a build click puts a structure: onto an own structure of the same
//! kind within stacking range, or else onto the nearest own land tile around
//! the click that keeps the structure spacing rules (and, for a port, lies
//! next to water), with a precise reason when there is none.

use vstd::prelude::*;

verus! {

/// A structure on the map, as the client's snapshot shows it.
#[derive(Clone, Copy, Debug, PartialEq, Eq, Structural)]
pub struct BuildingSnapshot {
    pub id: u64,
    pub owner_id: u16,
    /// Kind of structure (the engine's kind code).
    pub kind: u8,
    pub tile_idx: u32,
}

/// A new structure must keep `min_distance` (Euclidean, in tiles) from every
/// structure of kind `target_kind`.
#[derive(Clone, Copy, Debug, PartialEq, Eq, Structural)]
pub struct SpacingRule {
    pub target_kind: u8,
    pub min_distance: i32,
}

/// Column of a tile.
pub open spec fn col(tile: u32, map_w: u32) -> int {
    (tile % map_w) as int
}

/// Row of a tile.
pub open spec fn row(tile: u32, map_w: u32) -> int {
    (tile / map_w) as int
}

pub open spec fn abs(x: int) -> int {
    if x < 0 { -x } else { x }
}

/// Manhattan distance of a building from the click.
pub open spec fn stack_distance(b: BuildingSnapshot, click_x: i32, click_y: i32, map_w: u32) -> int {
    abs(click_x - col(b.tile_idx, map_w)) + abs(click_y - row(b.tile_idx, map_w))
}

/// `b` is an own structure of kind `kind` within stacking range.
pub open spec fn stackable(
    b: BuildingSnapshot,
    kind: u8,
    click_x: i32,
    click_y: i32,
    map_w: u32,
    my_id: u16,
    stack_dist: i32,
) -> bool {
    b.owner_id == my_id && b.kind == kind && stack_distance(b, click_x, click_y, map_w) <= stack_dist
}

/// `a` comes before `b`: nearer, or as near with a smaller id.
pub open spec fn stack_before(a: BuildingSnapshot, b: BuildingSnapshot, click_x: i32, click_y: i32, map_w: u32) -> bool {
    let da = stack_distance(a, click_x, click_y, map_w);
    let db = stack_distance(b, click_x, click_y, map_w);
    da < db || (da == db && a.id < b.id)
}

fn building_distance(b: &BuildingSnapshot, click_x: i32, click_y: i32, map_w: u32) -> (d: i64)
    requires
        map_w > 0,
    ensures
        d == stack_distance(*b, click_x, click_y, map_w),
{
    let bx = (b.tile_idx % map_w) as i64;
    let by = (b.tile_idx / map_w) as i64;
    let ddx = click_x as i64 - bx;
    let ddy = click_y as i64 - by;
    let ax = if ddx < 0 { -ddx } else { ddx };
    let ay = if ddy < 0 { -ddy } else { ddy };
    ax + ay
}

/// The tile of the own structure of kind `kind` nearest to the click within
/// stacking range (Manhattan distance at most `stack_dist`), the smaller id
/// first among equally near ones; `None` when there is none.
pub fn find_stack_target_tile(
    kind: u8,
    click_x: i32,
    click_y: i32,
    map_w: u32,
    my_id: u16,
    stack_dist: i32,
    buildings: &[BuildingSnapshot],
) -> (r: Option<u32>)
    requires
        forall|i: int|
            0 <= i < buildings@.len() && #[trigger] buildings@[i].owner_id == my_id && buildings@[i].kind == kind ==> map_w > 0,
    ensures
        r is None <==> forall|i: int|
            0 <= i < buildings@.len() ==> !stackable(#[trigger] buildings@[i], kind, click_x, click_y, map_w, my_id, stack_dist),
        r matches Some(t) ==> exists|i: int|
            0 <= i < buildings@.len() && #[trigger] buildings@[i].tile_idx == t && stackable(
                buildings@[i],
                kind,
                click_x,
                click_y,
                map_w,
                my_id,
                stack_dist,
            ) && forall|j: int|
                0 <= j < buildings@.len() && stackable(buildings@[j], kind, click_x, click_y, map_w, my_id, stack_dist)
                    && j != i ==> !stack_before(#[trigger] buildings@[j], buildings@[i], click_x, click_y, map_w),
{
    let mut best: Option<usize> = None;
    let mut i: usize = 0;
    while i < buildings.len()
        invariant
            i <= buildings@.len(),
            forall|k: int|
                0 <= k < buildings@.len() && #[trigger] buildings@[k].owner_id == my_id && buildings@[k].kind == kind ==> map_w > 0,
            best is None <==> forall|k: int|
                0 <= k < i ==> !stackable(#[trigger] buildings@[k], kind, click_x, click_y, map_w, my_id, stack_dist),
            best matches Some(bi) ==> bi < i && stackable(buildings@[bi as int], kind, click_x, click_y, map_w, my_id, stack_dist)
                && forall|j: int|
                0 <= j < i && stackable(buildings@[j], kind, click_x, click_y, map_w, my_id, stack_dist) && j
                    != bi ==> !stack_before(#[trigger] buildings@[j], buildings@[bi as int], click_x, click_y, map_w),
        decreases buildings@.len() - i,
    {
        let b = &buildings[i];
        if b.owner_id == my_id && b.kind == kind {
            let d = building_distance(b, click_x, click_y, map_w);
            if d <= stack_dist as i64 {
                match best {
                    None => {
                        best = Some(i);
                    },
                    Some(bi) => {
                        let bd = building_distance(&buildings[bi], click_x, click_y, map_w);
                        if d < bd || (d == bd && b.id < buildings[bi].id) {
                            best = Some(i);
                        }
                    },
                }
            }
        }
        i = i + 1;
    }
    match best {
        None => None,
        Some(bi) => {
            Some(buildings[bi].tile_idx)
        },
    }
}

/// Search radius around the click, in tiles.
pub const POKAYOKE_DIST: i32 = 25;

/// What a build click asks for.
pub struct PlacementQuery<'a> {
    /// Kind code of the structure to build.
    pub kind: u8,
    /// The structure is a city (whose spacing message differs).
    pub is_city: bool,
    /// The structure is a port, which must stand next to water.
    pub is_port: bool,
    /// Spacing rules of the structure's kind.
    pub spacing_rules: &'a [SpacingRule],
    pub click_x: i32,
    pub click_y: i32,
    pub map_w: u32,
    pub map_h: u32,
    /// Owner of each tile, row by row; missing tiles belong to nobody (0).
    pub owners: &'a [u16],
    /// Terrain byte of each tile; bit 0x80 marks land; missing tiles are water.
    pub terrain: &'a [u8],
    pub my_id: u16,
    pub buildings: &'a [BuildingSnapshot],
}

pub open spec fn owner_at(owners: Seq<u16>, i: int) -> u16 {
    if 0 <= i < owners.len() { owners[i] } else { 0 }
}

pub open spec fn terrain_at(terrain: Seq<u8>, i: int) -> u8 {
    if 0 <= i < terrain.len() { terrain[i] } else { 0 }
}

pub open spec fn land_code(t: u8) -> bool {
    t & 0x80 != 0
}

pub open spec fn in_map(q: PlacementQuery, x: int, y: int) -> bool {
    0 <= x < q.map_w && 0 <= y < q.map_h
}

pub open spec fn tile_at(q: PlacementQuery, x: int, y: int) -> int {
    y * q.map_w + x
}

pub open spec fn sq_dist(ax: int, ay: int, bx: int, by: int) -> int {
    (ax - bx) * (ax - bx) + (ay - by) * (ay - by)
}

/// A tile within the search disc around the click, on the map.
pub open spec fn candidate(q: PlacementQuery, x: int, y: int) -> bool {
    &&& in_map(q, x, y)
    &&& abs(x - q.click_x) <= POKAYOKE_DIST
    &&& abs(y - q.click_y) <= POKAYOKE_DIST
    &&& sq_dist(x, y, q.click_x as int, q.click_y as int) < POKAYOKE_DIST * POKAYOKE_DIST
}

pub open spec fn owned(q: PlacementQuery, x: int, y: int) -> bool {
    owner_at(q.owners@, tile_at(q, x, y)) == q.my_id
}

pub open spec fn on_land(q: PlacementQuery, x: int, y: int) -> bool {
    land_code(terrain_at(q.terrain@, tile_at(q, x, y)))
}

/// A structure near enough to the click to matter for spacing.
pub open spec fn relevant(q: PlacementQuery, b: BuildingSnapshot) -> bool {
    abs(col(b.tile_idx, q.map_w) - q.click_x) <= POKAYOKE_DIST + 6 && abs(row(b.tile_idx, q.map_w)
        - q.click_y) <= POKAYOKE_DIST + 6
}

/// Rule `r` forbids building at `(x, y)` because of structure `b`.
pub open spec fn rule_blocks(q: PlacementQuery, r: SpacingRule, b: BuildingSnapshot, x: int, y: int) -> bool {
    &&& relevant(q, b)
    &&& b.kind == r.target_kind
    &&& sq_dist(x, y, col(b.tile_idx, q.map_w), row(b.tile_idx, q.map_w)) < r.min_distance * r.min_distance
}

/// Some spacing rule forbids building at `(x, y)`.
pub open spec fn too_close(q: PlacementQuery, x: int, y: int) -> bool {
    exists|i: int, j: int|
        0 <= i < q.spacing_rules@.len() && 0 <= j < q.buildings@.len() && #[trigger] rule_blocks(
            q,
            q.spacing_rules@[i],
            q.buildings@[j],
            x,
            y,
        )
}

/// Some tile within two steps (each way) of `(x, y)` is water.
pub open spec fn near_water(q: PlacementQuery, x: int, y: int) -> bool {
    exists|dx: int, dy: int|
        -2 <= dx <= 2 && -2 <= dy <= 2 && in_map(q, x + dx, y + dy) && !land_code(
            #[trigger] terrain_at(q.terrain@, tile_at(q, x + dx, y + dy)),
        )
}

/// `(x, y)` may take the structure.
pub open spec fn valid_site(q: PlacementQuery, x: int, y: int) -> bool {
    &&& candidate(q, x, y)
    &&& owned(q, x, y)
    &&& on_land(q, x, y)
    &&& !too_close(q, x, y)
    &&& (q.is_port ==> near_water(q, x, y))
}

/// `(x, y)` is preferred to `(u, v)`: nearer the click, or as near with a
/// smaller tile index.
pub open spec fn site_before(q: PlacementQuery, x: int, y: int, u: int, v: int) -> bool {
    let d1 = sq_dist(x, y, q.click_x as int, q.click_y as int);
    let d2 = sq_dist(u, v, q.click_x as int, q.click_y as int);
    d1 < d2 || (d1 == d2 && tile_at(q, x, y) < tile_at(q, u, v))
}

pub open spec fn any_owned(q: PlacementQuery) -> bool {
    exists|x: int, y: int| #[trigger] candidate(q, x, y) && owned(q, x, y)
}

pub open spec fn any_land(q: PlacementQuery) -> bool {
    exists|x: int, y: int| #[trigger] candidate(q, x, y) && owned(q, x, y) && on_land(q, x, y)
}

pub open spec fn any_spaced(q: PlacementQuery) -> bool {
    exists|x: int, y: int|
        #[trigger] candidate(q, x, y) && owned(q, x, y) && on_land(q, x, y) && !too_close(q, x, y)
}

pub open spec fn any_valid(q: PlacementQuery) -> bool {
    exists|x: int, y: int| #[trigger] valid_site(q, x, y)
}

/// Why no tile around the click can take the structure.
pub open spec fn placement_error(q: PlacementQuery) -> &'static str {
    if !any_owned(q) {
        "Build inside your own land."
    } else if !any_land(q) {
        "Structures go on land, not water."
    } else if !any_spaced(q) {
        if q.is_city {
            "Too close to another City! Minimum spacing is 6 tiles."
        } else {
            "Too close to another structure! Spacing rules: City requires 6, other structures require 4."
        }
    } else {
        "No space nearby!"
    }
}

/// The placement inputs keep the tile arithmetic within `i32`, and tiles
/// can be located whenever there are structures.
pub open spec fn placement_inputs_ok(q: PlacementQuery) -> bool {
    &&& (q.map_w as int) * (q.map_h as int) <= i32::MAX
    &&& q.buildings@.len() > 0 ==> q.map_w > 0
}

proof fn lemma_tile_in_range(q: PlacementQuery, x: int, y: int)
    requires
        in_map(q, x, y),
        (q.map_w as int) * (q.map_h as int) <= i32::MAX,
    ensures
        0 <= tile_at(q, x, y) < (q.map_w as int) * (q.map_h as int),
{
    let w = q.map_w as int;
    let h = q.map_h as int;
    assert(0 <= y * w + x < w * h) by (nonlinear_arith)
        requires
            0 <= x < w,
            0 <= y < h,
    ;
}

fn tile_index(q: &PlacementQuery, x: i64, y: i64) -> (t: usize)
    requires
        in_map(*q, x as int, y as int),
        (q.map_w as int) * (q.map_h as int) <= i32::MAX,
    ensures
        t == tile_at(*q, x as int, y as int),
{
    proof {
        lemma_tile_in_range(*q, x as int, y as int);
    }
    (y * q.map_w as i64 + x) as usize
}

fn is_land_at(q: &PlacementQuery, t: usize) -> (r: bool)
    ensures
        r == land_code(terrain_at(q.terrain@, t as int)),
{
    let code: u8 = if t < q.terrain.len() { q.terrain[t] } else { 0 };
    code & 0x80 != 0
}

fn spacing_blocked(q: &PlacementQuery, x: i64, y: i64) -> (r: bool)
    requires
        placement_inputs_ok(*q),
        in_map(*q, x as int, y as int),
        abs(x - q.click_x) <= POKAYOKE_DIST,
        abs(y - q.click_y) <= POKAYOKE_DIST,
    ensures
        r == too_close(*q, x as int, y as int),
{
    let mut i: usize = 0;
    while i < q.spacing_rules.len()
        invariant
            placement_inputs_ok(*q),
            in_map(*q, x as int, y as int),
            abs(x - q.click_x) <= POKAYOKE_DIST,
            abs(y - q.click_y) <= POKAYOKE_DIST,
            i <= q.spacing_rules@.len(),
            forall|a: int, j: int|
                0 <= a < i && 0 <= j < q.buildings@.len() ==> !#[trigger] rule_blocks(
                    *q,
                    q.spacing_rules@[a],
                    q.buildings@[j],
                    x as int,
                    y as int,
                ),
        decreases q.spacing_rules@.len() - i,
    {
        let rule = q.spacing_rules[i];
        let min_d = rule.min_distance as i64;
        assert(0 <= min_d * min_d <= 0x4000_0000_0000_0000) by (nonlinear_arith)
            requires
                -0x8000_0000 <= min_d <= 0x7fff_ffff,
        ;
        let min_d_sq = min_d * min_d;
        let mut j: usize = 0;
        while j < q.buildings.len()
            invariant
                placement_inputs_ok(*q),
                in_map(*q, x as int, y as int),
                abs(x - q.click_x) <= POKAYOKE_DIST,
                abs(y - q.click_y) <= POKAYOKE_DIST,
                i < q.spacing_rules@.len(),
                rule == q.spacing_rules@[i as int],
                min_d_sq == rule.min_distance * rule.min_distance,
                j <= q.buildings@.len(),
                forall|k: int| 0 <= k < j ==> !#[trigger] rule_blocks(*q, rule, q.buildings@[k], x as int, y as int),
            decreases q.buildings@.len() - j,
        {
            let b = q.buildings[j];
            let bx = (b.tile_idx % q.map_w) as i64;
            let by = (b.tile_idx / q.map_w) as i64;
            let ox = bx - q.click_x as i64;
            let oy = by - q.click_y as i64;
            let near = -31 <= ox && ox <= 31 && -31 <= oy && oy <= 31;
            if near && b.kind == rule.target_kind {
                let bdx = x - bx;
                let bdy = y - by;
                assert(-56 <= bdx <= 56 && -56 <= bdy <= 56);
                assert(0 <= bdx * bdx <= 3136 && 0 <= bdy * bdy <= 3136) by (nonlinear_arith)
                    requires
                        -56 <= bdx <= 56,
                        -56 <= bdy <= 56,
                ;
                let sx = bdx * bdx;
                let sy = bdy * bdy;
                if sx + sy < min_d_sq {
                    assert(rule_blocks(*q, q.spacing_rules@[i as int], q.buildings@[j as int], x as int, y as int));
                    return true;
                }
            }
            j = j + 1;
        }
        i = i + 1;
    }
    false
}

fn water_nearby(q: &PlacementQuery, x: i64, y: i64) -> (r: bool)
    requires
        placement_inputs_ok(*q),
        in_map(*q, x as int, y as int),
    ensures
        r == near_water(*q, x as int, y as int),
{
    let mut wdy: i64 = -2;
    while wdy <= 2
        invariant
            placement_inputs_ok(*q),
            in_map(*q, x as int, y as int),
            -2 <= wdy <= 3,
            forall|dx: int, dy: int|
                -2 <= dx <= 2 && -2 <= dy < wdy && in_map(*q, x + dx, y + dy) ==> land_code(
                    #[trigger] terrain_at(q.terrain@, tile_at(*q, x + dx, y + dy)),
                ),
        decreases 3 - wdy,
    {
        let mut wdx: i64 = -2;
        while wdx <= 2
            invariant
                placement_inputs_ok(*q),
                in_map(*q, x as int, y as int),
                -2 <= wdy <= 2,
                -2 <= wdx <= 3,
                forall|dx: int, dy: int|
                    -2 <= dx <= 2 && -2 <= dy < wdy && in_map(*q, x + dx, y + dy) ==> land_code(
                        #[trigger] terrain_at(q.terrain@, tile_at(*q, x + dx, y + dy)),
                    ),
                forall|dx: int|
                    -2 <= dx < wdx && in_map(*q, x + dx, y + wdy) ==> land_code(
                        #[trigger] terrain_at(q.terrain@, tile_at(*q, x + dx, y + wdy)),
                    ),
            decreases 3 - wdx,
        {
            let nx = x + wdx;
            let ny = y + wdy;
            if nx >= 0 && nx < q.map_w as i64 && ny >= 0 && ny < q.map_h as i64 {
                let t = tile_index(q, nx, ny);
                if !is_land_at(q, t) {
                    assert(!land_code(terrain_at(q.terrain@, tile_at(*q, x + wdx, y + wdy))));
                    return true;
                }
            }
            wdx = wdx + 1;
        }
        wdy = wdy + 1;
    }
    false
}

/// `(x, y)` was visited before offset `(rx, ry)` from the click in a row by
/// row scan of the search square.
pub open spec fn scanned(q: PlacementQuery, ry: int, rx: int, x: int, y: int) -> bool {
    (y - q.click_y < ry) || (y - q.click_y == ry && x - q.click_x < rx)
}

pub open spec fn owned_seen(q: PlacementQuery, ry: int, rx: int) -> bool {
    exists|x: int, y: int| #[trigger] candidate(q, x, y) && scanned(q, ry, rx, x, y) && owned(q, x, y)
}

pub open spec fn land_seen(q: PlacementQuery, ry: int, rx: int) -> bool {
    exists|x: int, y: int|
        #[trigger] candidate(q, x, y) && scanned(q, ry, rx, x, y) && owned(q, x, y) && on_land(q, x, y)
}

pub open spec fn spaced_seen(q: PlacementQuery, ry: int, rx: int) -> bool {
    exists|x: int, y: int|
        #[trigger] candidate(q, x, y) && scanned(q, ry, rx, x, y) && owned(q, x, y) && on_land(q, x, y)
            && !too_close(q, x, y)
}

pub open spec fn valid_seen(q: PlacementQuery, ry: int, rx: int) -> bool {
    exists|x: int, y: int| #[trigger] valid_site(q, x, y) && scanned(q, ry, rx, x, y)
}

/// `(bx, by)` is the preferred valid site among those scanned.
pub open spec fn best_so_far(q: PlacementQuery, ry: int, rx: int, bx: int, by: int) -> bool {
    &&& valid_site(q, bx, by)
    &&& scanned(q, ry, rx, bx, by)
    &&& forall|x: int, y: int|
        #![trigger valid_site(q, x, y)]
        valid_site(q, x, y) && scanned(q, ry, rx, x, y) && (x != bx || y != by) ==> !site_before(
            q,
            x,
            y,
            bx,
            by,
        )
}

/// The scan state after visiting one more offset `(rx, ry)` whose tile
/// `(x, y)` failed at some step: nothing found so far changes.
proof fn lemma_scan_step(q: PlacementQuery, ry: int, rx: int)
    ensures
        forall|x: int, y: int|
            scanned(q, ry, rx + 1, x, y) <==> scanned(q, ry, rx, x, y) || (x == q.click_x + rx && y
                == q.click_y + ry),
{
}

/// The tile where a new structure goes: the own land tile nearest to the
/// click (ties: smaller tile index) within 25 tiles that keeps every spacing
/// rule and, for a port, lies within two tiles of water. Without one, the
/// reason: no own land nearby, only water, only sites too close to other
/// structures, or no space at all.
pub fn resolve_building_placement_tile(q: &PlacementQuery) -> (r: Result<u32, &'static str>)
    requires
        placement_inputs_ok(*q),
    ensures
        any_valid(*q) ==> (r matches Ok(t) && exists|x: int, y: int|
            #![trigger valid_site(*q, x, y)]
            valid_site(*q, x, y) && t == tile_at(*q, x, y) && forall|u: int, v: int|
                #![trigger valid_site(*q, u, v)]
                valid_site(*q, u, v) && (u != x || v != y) ==> !site_before(*q, u, v, x, y)),
        !any_valid(*q) ==> r == Err::<u32, &'static str>(placement_error(*q)),
{
    let cx = q.click_x as i64;
    let cy = q.click_y as i64;
    let mut found_owned = false;
    let mut found_land = false;
    let mut found_spaced = false;
    let mut best: Option<(i64, i64, i64, usize)> = None;
    let mut dy: i64 = -25;
    while dy <= 25
        invariant
            placement_inputs_ok(*q),
            cx == q.click_x,
            cy == q.click_y,
            -25 <= dy <= 26,
            found_owned == owned_seen(*q, dy as int, -25),
            found_land == land_seen(*q, dy as int, -25),
            found_spaced == spaced_seen(*q, dy as int, -25),
            best is None <==> !valid_seen(*q, dy as int, -25),
            best matches Some((bx, by, bd, bt)) ==> best_so_far(*q, dy as int, -25, bx as int, by as int)
                && bd == sq_dist(bx as int, by as int, cx as int, cy as int) && bt == tile_at(*q, bx as int, by as int),
        decreases 26 - dy,
    {
        let mut dx: i64 = -25;
        while dx <= 25
            invariant
                placement_inputs_ok(*q),
                cx == q.click_x,
                cy == q.click_y,
                -25 <= dy <= 25,
                -25 <= dx <= 26,
                found_owned == owned_seen(*q, dy as int, dx as int),
                found_land == land_seen(*q, dy as int, dx as int),
                found_spaced == spaced_seen(*q, dy as int, dx as int),
                best is None <==> !valid_seen(*q, dy as int, dx as int),
                best matches Some((bx, by, bd, bt)) ==> best_so_far(*q, dy as int, dx as int, bx as int, by as int)
                    && bd == sq_dist(bx as int, by as int, cx as int, cy as int) && bt == tile_at(*q, bx as int, by as int),
            decreases 26 - dx,
        {
            proof {
                lemma_scan_step(*q, dy as int, dx as int);
            }
            let tx = cx + dx;
            let ty = cy + dy;
            assert(0 <= dx * dx <= 625 && 0 <= dy * dy <= 625) by (nonlinear_arith)
                requires
                    -25 <= dx <= 25,
                    -25 <= dy <= 25,
            ;
            let d2 = dx * dx + dy * dy;
            assert(d2 == sq_dist(tx as int, ty as int, cx as int, cy as int));
            if tx >= 0 && tx < q.map_w as i64 && ty >= 0 && ty < q.map_h as i64 && d2 < 625 {
                assert(candidate(*q, tx as int, ty as int));
                let t = tile_index(q, tx, ty);
                let owner: u16 = if t < q.owners.len() { q.owners[t] } else { 0 };
                if owner == q.my_id {
                    found_owned = true;
                    if is_land_at(q, t) {
                        found_land = true;
                        if !spacing_blocked(q, tx, ty) {
                            found_spaced = true;
                            if !q.is_port || water_nearby(q, tx, ty) {
                                assert(valid_site(*q, tx as int, ty as int));
                                let take = match best {
                                    None => true,
                                    Some((_, _, bd, bt)) => d2 < bd || (d2 == bd && t < bt),
                                };
                                if take {
                                    best = Some((tx, ty, d2, t));
                                }
                            }
                        }
                    }
                }
            }
            dx = dx + 1;
        }
        proof {
            assert forall|x: int, y: int| candidate(*q, x, y) implies (scanned(*q, dy as int, 26, x, y)
                <==> scanned(*q, dy + 1, -25, x, y)) by {}
        }
        dy = dy + 1;
    }
    proof {
        assert forall|x: int, y: int| candidate(*q, x, y) implies scanned(*q, 26, -25, x, y) by {}
    }
    match best {
        Some((bx, by, _, t)) => {
            proof {
                lemma_tile_in_range(*q, bx as int, by as int);
                assert forall|u: int, v: int|
                    #![trigger valid_site(*q, u, v)]
                    valid_site(*q, u, v) && (u != bx || v != by) implies !site_before(*q, u, v, bx as int, by as int) by {
                    assert(scanned(*q, 26, -25, u, v));
                }
            }
            Ok(t as u32)
        },
        None => {
            if !found_owned {
                return Err("Build inside your own land.");
            }
            if !found_land {
                return Err("Structures go on land, not water.");
            }
            if !found_spaced {
                if q.is_city {
                    return Err("Too close to another City! Minimum spacing is 6 tiles.");
                } else {
                    return Err(
                        "Too close to another structure! Spacing rules: City requires 6, other structures require 4.",
                    );
                }
            }
            Err("No space nearby!")
        },
    }
}

/// Where a build click puts a structure: onto the nearest own structure of
/// the same kind within stacking range, else where
/// [`resolve_building_placement_tile`] puts it.
pub fn resolve_build_target_tile(q: &PlacementQuery, stack_dist: i32) -> (r: Result<u32, &'static str>)
    requires
        placement_inputs_ok(*q),
    ensures
        (exists|i: int|
            0 <= i < q.buildings@.len() && stackable(
                #[trigger] q.buildings@[i],
                q.kind,
                q.click_x,
                q.click_y,
                q.map_w,
                q.my_id,
                stack_dist,
            )) ==> (r matches Ok(t) && exists|i: int|
            0 <= i < q.buildings@.len() && #[trigger] q.buildings@[i].tile_idx == t && stackable(
                q.buildings@[i],
                q.kind,
                q.click_x,
                q.click_y,
                q.map_w,
                q.my_id,
                stack_dist,
            ) && forall|j: int|
                0 <= j < q.buildings@.len() && stackable(
                    q.buildings@[j],
                    q.kind,
                    q.click_x,
                    q.click_y,
                    q.map_w,
                    q.my_id,
                    stack_dist,
                ) && j != i ==> !stack_before(#[trigger] q.buildings@[j], q.buildings@[i], q.click_x, q.click_y, q.map_w)),
        (forall|i: int|
            0 <= i < q.buildings@.len() ==> !stackable(
                #[trigger] q.buildings@[i],
                q.kind,
                q.click_x,
                q.click_y,
                q.map_w,
                q.my_id,
                stack_dist,
            )) && !any_valid(*q) ==> r == Err::<u32, &'static str>(placement_error(*q)),
        (forall|i: int|
            0 <= i < q.buildings@.len() ==> !stackable(
                #[trigger] q.buildings@[i],
                q.kind,
                q.click_x,
                q.click_y,
                q.map_w,
                q.my_id,
                stack_dist,
            )) && any_valid(*q) ==> (r matches Ok(t) && exists|x: int, y: int|
            #![trigger valid_site(*q, x, y)]
            valid_site(*q, x, y) && t == tile_at(*q, x, y) && forall|u: int, v: int|
                #![trigger valid_site(*q, u, v)]
                valid_site(*q, u, v) && (u != x || v != y) ==> !site_before(*q, u, v, x, y)),
{
    match find_stack_target_tile(q.kind, q.click_x, q.click_y, q.map_w, q.my_id, stack_dist, q.buildings) {
        Some(t) => Ok(t),
        None => resolve_building_placement_tile(q),
    }
}

} // verus!
