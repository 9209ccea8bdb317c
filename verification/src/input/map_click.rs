//! Map click rules: the relation between the local player and a clicked tile,
//! the actions the map context menu offers for it, and the land-border test
//! that gates a click attack.

use vstd::prelude::*;

verus! {

/// An action offered by the map context menu.
#[derive(Clone, Copy, Debug, PartialEq, Eq, Structural)]
pub enum MapMenuAction {
    Spawn,
    Attack,
    Fleet,
    Transfer,
    Alliance,
    BuildCity,
    BuildFactory,
    BuildPort,
    BuildBunker,
    Nuke,
    UpgradeTile,
    UpgradeArsenal,
    UpgradePort,
    UpgradeFoundry,
    BuildWarship,
    BuildTradeShip,
}

/// Wire name of a menu action (the snake_case name the web shell sends).
pub open spec fn action_name(a: MapMenuAction) -> &'static str {
    match a {
        MapMenuAction::Spawn => "spawn",
        MapMenuAction::Attack => "attack",
        MapMenuAction::Fleet => "fleet",
        MapMenuAction::Transfer => "transfer",
        MapMenuAction::Alliance => "alliance",
        MapMenuAction::BuildCity => "build_city",
        MapMenuAction::BuildFactory => "build_factory",
        MapMenuAction::BuildPort => "build_port",
        MapMenuAction::BuildBunker => "build_bunker",
        MapMenuAction::Nuke => "nuke",
        MapMenuAction::UpgradeTile => "upgrade_tile",
        MapMenuAction::UpgradeArsenal => "upgrade_arsenal",
        MapMenuAction::UpgradePort => "upgrade_port",
        MapMenuAction::UpgradeFoundry => "upgrade_foundry",
        MapMenuAction::BuildWarship => "build_warship",
        MapMenuAction::BuildTradeShip => "build_trade_ship",
    }
}

impl MapMenuAction {
    /// The action's wire name.
    pub fn name(self) -> (r: &'static str)
        ensures
            r == action_name(self),
    {
        match self {
            MapMenuAction::Spawn => "spawn",
            MapMenuAction::Attack => "attack",
            MapMenuAction::Fleet => "fleet",
            MapMenuAction::Transfer => "transfer",
            MapMenuAction::Alliance => "alliance",
            MapMenuAction::BuildCity => "build_city",
            MapMenuAction::BuildFactory => "build_factory",
            MapMenuAction::BuildPort => "build_port",
            MapMenuAction::BuildBunker => "build_bunker",
            MapMenuAction::Nuke => "nuke",
            MapMenuAction::UpgradeTile => "upgrade_tile",
            MapMenuAction::UpgradeArsenal => "upgrade_arsenal",
            MapMenuAction::UpgradePort => "upgrade_port",
            MapMenuAction::UpgradeFoundry => "upgrade_foundry",
            MapMenuAction::BuildWarship => "build_warship",
            MapMenuAction::BuildTradeShip => "build_trade_ship",
        }
    }
}

/// What the local player knows about the owner of a clicked tile.
#[derive(Clone, Copy, Debug, PartialEq, Eq, Structural)]
pub struct MapTarget {
    /// Owner of the tile (0 = unclaimed).
    pub owner: u16,
    pub is_land: bool,
    /// The local player's id.
    pub my_id: u16,
    pub is_allied: bool,
    pub is_teammate: bool,
    /// The owner has asked the local player for an alliance.
    pub has_alliance_request: bool,
    /// The local player has asked the owner for an alliance.
    pub has_proposed_alliance: bool,
    /// An existing alliance is close enough to expiry to be renewed.
    pub is_in_renewal_window: bool,
}

impl MapTarget {
    pub open spec fn friendly(self) -> bool {
        self.is_allied || self.is_teammate
    }

    pub open spec fn other_player(self) -> bool {
        self.owner != 0 && self.owner != self.my_id
    }

    pub open spec fn enemy(self) -> bool {
        self.other_player() && !self.friendly()
    }

    pub open spec fn attackable(self) -> bool {
        self.owner == 0 || self.enemy()
    }

    /// The owner is an ally or a teammate.
    pub fn is_friendly(self) -> (r: bool)
        ensures
            r == self.friendly(),
    {
        self.is_allied || self.is_teammate
    }

    /// The tile belongs to a player other than the local one.
    pub fn is_player(self) -> (r: bool)
        ensures
            r == self.other_player(),
    {
        self.owner != 0 && self.owner != self.my_id
    }

    /// The tile belongs to another player who is neither ally nor teammate.
    pub fn is_enemy(self) -> (r: bool)
        ensures
            r == self.enemy(),
    {
        self.is_player() && !self.is_friendly()
    }

    /// The tile is unclaimed or an enemy's.
    pub fn is_attackable(self) -> (r: bool)
        ensures
            r == self.attackable(),
    {
        self.owner == 0 || self.is_enemy()
    }

    /// The actions the context menu offers on this tile, in display order.
    pub open spec fn menu(self, spawning: bool, can_attack: bool, can_fleet: bool) -> Seq<
        MapMenuAction,
    > {
        if spawning {
            if self.is_land {
                seq![MapMenuAction::Spawn]
            } else {
                seq![]
            }
        } else if self.owner == self.my_id && self.is_land {
            seq![
                MapMenuAction::BuildCity,
                MapMenuAction::BuildFactory,
                MapMenuAction::BuildPort,
                MapMenuAction::BuildBunker,
            ]
        } else if self.owner == 0 {
            (if self.is_land && can_attack {
                seq![MapMenuAction::Attack]
            } else {
                seq![]
            }) + (if can_fleet {
                seq![MapMenuAction::Fleet]
            } else {
                seq![]
            })
        } else if !self.other_player() {
            seq![]
        } else {
            let middle = if self.friendly() {
                (if self.is_allied && self.is_land {
                    seq![MapMenuAction::Attack]
                } else {
                    seq![]
                }) + (if !self.is_teammate {
                    seq![MapMenuAction::Fleet]
                } else {
                    seq![]
                })
            } else {
                (if self.is_land && can_attack {
                    seq![MapMenuAction::Attack]
                } else {
                    seq![]
                }) + seq![MapMenuAction::Fleet] + (if self.is_land {
                    seq![MapMenuAction::Nuke]
                } else {
                    seq![]
                })
            };
            seq![MapMenuAction::Transfer] + middle + (if !self.is_teammate {
                seq![MapMenuAction::Alliance]
            } else {
                seq![]
            })
        }
    }

    /// Context-menu actions for this tile: spawn while spawning, construction
    /// on own land, attack/fleet on unclaimed tiles, and for another player's
    /// tile transfer plus the actions the relation allows.
    pub fn menu_actions(self, spawning: bool, can_attack: bool, can_fleet: bool) -> (r: Vec<
        MapMenuAction,
    >)
        ensures
            r@ == self.menu(spawning, can_attack, can_fleet),
    {
        let mut actions: Vec<MapMenuAction> = Vec::new();
        if spawning {
            if self.is_land {
                actions.push(MapMenuAction::Spawn);
            }
            assert(actions@ =~= self.menu(spawning, can_attack, can_fleet));
            return actions;
        }
        if self.owner == self.my_id && self.is_land {
            actions.push(MapMenuAction::BuildCity);
            actions.push(MapMenuAction::BuildFactory);
            actions.push(MapMenuAction::BuildPort);
            actions.push(MapMenuAction::BuildBunker);
            assert(actions@ =~= self.menu(spawning, can_attack, can_fleet));
            return actions;
        }
        if self.owner == 0 {
            if self.is_land && can_attack {
                actions.push(MapMenuAction::Attack);
            }
            if can_fleet {
                actions.push(MapMenuAction::Fleet);
            }
            assert(actions@ =~= self.menu(spawning, can_attack, can_fleet));
            return actions;
        }
        if !self.is_player() {
            assert(actions@ =~= self.menu(spawning, can_attack, can_fleet));
            return actions;
        }
        actions.push(MapMenuAction::Transfer);
        if self.is_friendly() {
            if self.is_allied && self.is_land {
                actions.push(MapMenuAction::Attack);
            }
            if !self.is_teammate {
                actions.push(MapMenuAction::Fleet);
            }
        } else {
            if self.is_land && can_attack {
                actions.push(MapMenuAction::Attack);
            }
            actions.push(MapMenuAction::Fleet);
            if self.is_land {
                actions.push(MapMenuAction::Nuke);
            }
        }
        if !self.is_teammate {
            actions.push(MapMenuAction::Alliance);
        }
        assert(actions@ =~= self.menu(spawning, can_attack, can_fleet));
        actions
    }
}

/// The terrain byte at `idx` marks land (high bit set).
pub open spec fn land_at(terrain: Seq<u8>, idx: int) -> bool {
    0 <= idx < terrain.len() && terrain[idx] >= 128
}

/// Column and row offset of the `k`-th of the eight neighbours.
pub open spec fn neighbor_offset(k: int) -> (int, int) {
    if k == 0 {
        (1, 0)
    } else if k == 1 {
        (-1, 0)
    } else if k == 2 {
        (0, -1)
    } else if k == 3 {
        (0, 1)
    } else if k == 4 {
        (1, -1)
    } else if k == 5 {
        (-1, -1)
    } else if k == 6 {
        (1, 1)
    } else {
        (-1, 1)
    }
}

/// The `k`-th neighbour of tile (`col`, `row`) lies on the map, belongs to
/// `target` and is land.
pub open spec fn neighbor_is_target_land(
    owners: Seq<u16>,
    terrain: Seq<u8>,
    w: int,
    h: int,
    target: u16,
    col: int,
    row: int,
    k: int,
) -> bool {
    let nc = col + neighbor_offset(k).0;
    let nr = row + neighbor_offset(k).1;
    &&& 0 <= nc < w
    &&& 0 <= nr < h
    &&& nr * w + nc < owners.len()
    &&& owners[nr * w + nc] == target
    &&& land_at(terrain, nr * w + nc)
}

/// Tile (`col`, `row`) belongs to `my_id` and touches land of `target`.
pub open spec fn tile_touches(
    owners: Seq<u16>,
    terrain: Seq<u8>,
    w: int,
    h: int,
    my_id: u16,
    target: u16,
    col: int,
    row: int,
) -> bool {
    &&& row * w + col < owners.len()
    &&& owners[row * w + col] == my_id
    &&& exists|k: int|
        0 <= k < 8 && #[trigger] neighbor_is_target_land(owners, terrain, w, h, target, col, row, k)
}

/// Some tile of `my_id` touches (also diagonally) a land tile of `target`.
pub open spec fn land_border(
    owners: Seq<u16>,
    terrain: Seq<u8>,
    w: int,
    h: int,
    my_id: u16,
    target: u16,
) -> bool {
    &&& my_id != 0
    &&& my_id != target
    &&& w != 0
    &&& exists|col: int, row: int|
        0 <= col < w && 0 <= row < h && #[trigger] tile_touches(
            owners,
            terrain,
            w,
            h,
            my_id,
            target,
            col,
            row,
        )
}

/// Index of tile (`col`, `row`) in a map `w` tiles wide.
pub open spec fn tile_index(w: int, col: int, row: int) -> int {
    row * w + col
}

/// Two tiles border each other when one lies in any of the eight tiles
/// around the other: a tile of `my_id` whose neighbour in any direction,
/// diagonals included, is land of `target` on the map makes a land border.
pub proof fn law_border_counts_all_eight_neighbours(
    owners: Seq<u16>,
    terrain: Seq<u8>,
    w: int,
    h: int,
    my_id: u16,
    target: u16,
    col: int,
    row: int,
    dc: int,
    dr: int,
)
    requires
        my_id != 0,
        my_id != target,
        w > 0,
        0 <= col < w,
        0 <= row < h,
        tile_index(w, col, row) < owners.len(),
        owners[tile_index(w, col, row)] == my_id,
        -1 <= dc <= 1,
        -1 <= dr <= 1,
        dc != 0 || dr != 0,
        0 <= col + dc < w,
        0 <= row + dr < h,
        tile_index(w, col + dc, row + dr) < owners.len(),
        owners[tile_index(w, col + dc, row + dr)] == target,
        tile_index(w, col + dc, row + dr) < terrain.len(),
        terrain[tile_index(w, col + dc, row + dr)] >= 128,
    ensures
        land_border(owners, terrain, w, h, my_id, target),
{
    let k: int = if dc == 1 && dr == 0 {
        0
    } else if dc == -1 && dr == 0 {
        1
    } else if dc == 0 && dr == -1 {
        2
    } else if dc == 0 && dr == 1 {
        3
    } else if dc == 1 && dr == -1 {
        4
    } else if dc == -1 && dr == -1 {
        5
    } else if dc == 1 && dr == 1 {
        6
    } else {
        7
    };
    assert(neighbor_offset(k) == (dc, dr));
    assert(neighbor_is_target_land(owners, terrain, w, h, target, col, row, k));
    assert(tile_touches(owners, terrain, w, h, my_id, target, col, row));
}

/// Only neighbours count: a land border means some tile of `my_id` has a
/// neighbour (one step in each direction at most, not the tile itself) that
/// is land of `target` on the map.
pub proof fn law_border_is_between_neighbours(
    owners: Seq<u16>,
    terrain: Seq<u8>,
    w: int,
    h: int,
    my_id: u16,
    target: u16,
)
    requires
        land_border(owners, terrain, w, h, my_id, target),
    ensures
        exists|col: int, row: int, dc: int, dr: int|
            #![trigger tile_index(w, col, row), tile_index(w, col + dc, row + dr)]
            0 <= col < w && 0 <= row < h && -1 <= dc <= 1 && -1 <= dr <= 1 && (dc != 0 || dr != 0) && 0 <= col + dc < w
                && 0 <= row + dr < h && tile_index(w, col, row) < owners.len() && owners[tile_index(w, col, row)]
                == my_id && tile_index(w, col + dc, row + dr) < owners.len() && owners[tile_index(w, col + dc, row + dr)]
                == target && tile_index(w, col + dc, row + dr) < terrain.len() && terrain[tile_index(
                w,
                col + dc,
                row + dr,
            )] >= 128,
{
    let (col, row) = choose|col: int, row: int|
        0 <= col < w && 0 <= row < h && #[trigger] tile_touches(owners, terrain, w, h, my_id, target, col, row);
    let k = choose|k: int| 0 <= k < 8 && #[trigger] neighbor_is_target_land(owners, terrain, w, h, target, col, row, k);
    let (dc, dr) = neighbor_offset(k);
    assert(tile_index(w, col, row) == row * w + col);
    assert(tile_index(w, col + dc, row + dr) == (row + dr) * w + (col + dc));
}

/// On unclaimed land outside the spawn phase (for a known player), the menu
/// offers an attack exactly when the tile is land with a land border
/// (`can_attack`), and a fleet exactly when the sea route allows it; with no
/// land border it is just the fleet, if any.
pub proof fn law_unclaimed_attack_needs_border(t: MapTarget, can_attack: bool, can_fleet: bool)
    requires
        t.owner == 0,
        t.my_id != 0,
    ensures
        t.menu(false, can_attack, can_fleet).contains(MapMenuAction::Attack) <==> (t.is_land && can_attack),
        t.menu(false, can_attack, can_fleet).contains(MapMenuAction::Fleet) <==> can_fleet,
        !can_attack ==> t.menu(false, can_attack, can_fleet) == if can_fleet {
            seq![MapMenuAction::Fleet]
        } else {
            seq![]
        },
{
    let m = t.menu(false, can_attack, can_fleet);
    if t.is_land && can_attack {
        assert(m[0] == MapMenuAction::Attack);
    }
    if can_fleet {
        assert(m[m.len() - 1] == MapMenuAction::Fleet);
    }
    if !(t.is_land && can_attack) {
        assert(m =~= if can_fleet { seq![MapMenuAction::Fleet] } else { seq![] });
    }
    if !can_fleet {
        assert(m =~= if t.is_land && can_attack { seq![MapMenuAction::Attack] } else { seq![] });
    }
}

/// An attack is offered only outside the spawn phase, on land, and either
/// over a land border (`can_attack`) or against an ally (to break the
/// alliance).
pub proof fn law_attack_offered_only_when_possible(t: MapTarget, spawning: bool, can_attack: bool, can_fleet: bool)
    ensures
        t.menu(spawning, can_attack, can_fleet).contains(MapMenuAction::Attack) ==> !spawning && t.is_land && (
        can_attack || t.is_allied),
{
    let m = t.menu(spawning, can_attack, can_fleet);
    if m.contains(MapMenuAction::Attack) {
        let i = choose|i: int| 0 <= i < m.len() && m[i] == MapMenuAction::Attack;
        if spawning {
            assert(false);
        }
    }
}

fn neighbor_offset_exec(k: usize) -> (r: (i64, i64))
    requires
        k < 8,
    ensures
        r.0 as int == neighbor_offset(k as int).0,
        r.1 as int == neighbor_offset(k as int).1,
{
    if k == 0 {
        (1, 0)
    } else if k == 1 {
        (-1, 0)
    } else if k == 2 {
        (0, -1)
    } else if k == 3 {
        (0, 1)
    } else if k == 4 {
        (1, -1)
    } else if k == 5 {
        (-1, -1)
    } else if k == 6 {
        (1, 1)
    } else {
        (-1, 1)
    }
}

fn tile_touches_exec(
    owners: &[u16],
    terrain: &[u8],
    map_w: u32,
    map_h: u32,
    my_id: u16,
    target_owner: u16,
    col: u32,
    row: u32,
) -> (r: bool)
    requires
        (map_w as int) * (map_h as int) <= i32::MAX,
        col < map_w,
        row < map_h,
    ensures
        r == tile_touches(
            owners@,
            terrain@,
            map_w as int,
            map_h as int,
            my_id,
            target_owner,
            col as int,
            row as int,
        ),
{
    let w = map_w as i64;
    let h = map_h as i64;
    proof {
        assert((row as int) * (map_w as int) + (col as int) < (map_w as int) * (map_h as int)) by (nonlinear_arith)
            requires
                col < map_w,
                row < map_h,
        ;
    }
    let index = (row as i64) * w + (col as i64);
    if index as usize >= owners.len() || owners[index as usize] != my_id {
        return false;
    }
    let mut k: usize = 0;
    while k < 8
        invariant
            0 <= k <= 8,
            w == map_w as i64,
            h == map_h as i64,
            (map_w as int) * (map_h as int) <= i32::MAX,
            col < map_w,
            row < map_h,
            (row as int) * (map_w as int) + (col as int) < owners@.len(),
            owners@[(row as int) * (map_w as int) + (col as int)] == my_id,
            forall|j: int|
                0 <= j < k ==> !#[trigger] neighbor_is_target_land(
                    owners@,
                    terrain@,
                    map_w as int,
                    map_h as int,
                    target_owner,
                    col as int,
                    row as int,
                    j,
                ),
        decreases 8 - k,
    {
        let (dc, dr) = neighbor_offset_exec(k);
        let nc = col as i64 + dc;
        let nr = row as i64 + dr;
        if 0 <= nc && nc < w && 0 <= nr && nr < h {
            proof {
                assert((nr as int) * (map_w as int) + (nc as int) < (map_w as int) * (map_h as int)) by (nonlinear_arith)
                    requires
                        0 <= nc < map_w,
                        0 <= nr < map_h,
                ;
                assert(0 <= (nr as int) * (map_w as int)) by (nonlinear_arith)
                    requires
                        0 <= nr,
                ;
            }
            let n = (nr * w + nc) as usize;
            if n < owners.len() && owners[n] == target_owner && n < terrain.len() && terrain[n]
                >= 128 {
                assert(neighbor_is_target_land(
                    owners@,
                    terrain@,
                    map_w as int,
                    map_h as int,
                    target_owner,
                    col as int,
                    row as int,
                    k as int,
                ));
                return true;
            }
        }
        k = k + 1;
    }
    false
}

/// Whether a tile of `my_id` borders a land tile of `target_owner` (eight
/// neighbours, diagonals included); false for an unknown player, oneself or an
/// empty map. This gates click attacks.
pub fn shares_land_border(
    owners: &[u16],
    terrain: &[u8],
    map_w: u32,
    map_h: u32,
    my_id: u16,
    target_owner: u16,
) -> (r: bool)
    requires
        (map_w as int) * (map_h as int) <= i32::MAX,
    ensures
        r == land_border(owners@, terrain@, map_w as int, map_h as int, my_id, target_owner),
{
    if my_id == 0 || my_id == target_owner || map_w == 0 {
        return false;
    }
    let mut row: u32 = 0;
    while row < map_h
        invariant
            map_w != 0,
            my_id != 0,
            my_id != target_owner,
            (map_w as int) * (map_h as int) <= i32::MAX,
            row <= map_h,
            forall|c: int, r: int|
                0 <= c < map_w && 0 <= r < row ==> !#[trigger] tile_touches(
                    owners@,
                    terrain@,
                    map_w as int,
                    map_h as int,
                    my_id,
                    target_owner,
                    c,
                    r,
                ),
        decreases map_h - row,
    {
        let mut col: u32 = 0;
        while col < map_w
            invariant
                map_w != 0,
                my_id != 0,
                my_id != target_owner,
                (map_w as int) * (map_h as int) <= i32::MAX,
                row < map_h,
                col <= map_w,
                forall|c: int, r: int|
                    0 <= c < map_w && 0 <= r < row ==> !#[trigger] tile_touches(
                        owners@,
                        terrain@,
                        map_w as int,
                        map_h as int,
                        my_id,
                        target_owner,
                        c,
                        r,
                    ),
                forall|c: int|
                    0 <= c < col ==> !#[trigger] tile_touches(
                        owners@,
                        terrain@,
                        map_w as int,
                        map_h as int,
                        my_id,
                        target_owner,
                        c,
                        row as int,
                    ),
            decreases map_w - col,
        {
            if tile_touches_exec(owners, terrain, map_w, map_h, my_id, target_owner, col, row) {
                return true;
            }
            col = col + 1;
        }
        row = row + 1;
    }
    false
}

/// What a primary click on a map tile does.
#[derive(Clone, Copy, Debug, PartialEq, Eq, Structural)]
pub enum PrimaryAction {
    /// Water: show that the click landed in water.
    WaterFeedback,
    /// The player's own land: nothing.
    Nothing,
    /// A friend's land: open a troop transfer.
    Transfer,
    /// Anyone else's or unclaimed land: attack.
    Attack,
}

/// The primary click action for a tile.
pub fn primary_action(target: MapTarget) -> (a: PrimaryAction)
    ensures
        a == if !target.is_land {
            PrimaryAction::WaterFeedback
        } else if target.owner == target.my_id {
            PrimaryAction::Nothing
        } else if target.friendly() {
            PrimaryAction::Transfer
        } else {
            PrimaryAction::Attack
        },
{
    if !target.is_land {
        PrimaryAction::WaterFeedback
    } else if target.owner == target.my_id {
        PrimaryAction::Nothing
    } else if target.is_friendly() {
        PrimaryAction::Transfer
    } else {
        PrimaryAction::Attack
    }
}

/// A click attack on `tile` is possible: the player's land borders the
/// target's over land, and the tile itself is land.
pub fn can_attack(
    owners: &[u16],
    terrain: &[u8],
    map_w: u32,
    map_h: u32,
    my_id: u16,
    target_owner: u16,
    tile: u32,
) -> (r: bool)
    requires
        (map_w as int) * (map_h as int) <= i32::MAX,
    ensures
        r == (land_border(owners@, terrain@, map_w as int, map_h as int, my_id, target_owner) && (tile
            < terrain@.len() && terrain@[tile as int] & 0x80 != 0)),
{
    if !shares_land_border(owners, terrain, map_w, map_h, my_id, target_owner) {
        return false;
    }
    let t = tile as usize;
    t < terrain.len() && terrain[t] & 0x80 != 0
}

/// A module of a city.
#[derive(Clone, Copy, Debug, PartialEq, Eq, Structural)]
pub enum ModuleKind {
    Arsenal,
    Port,
    Foundry,
}

/// A city module can be raised one level: modules go up to level 5, the
/// arsenal only to 3 and only in a city of level 3 or more, and a port
/// module only on a coast tile (terrain bits 0xc0 both set).
pub fn city_module_is_available(
    module: ModuleKind,
    current_level: u8,
    city_level: u8,
    tile_terrain: Option<u8>,
) -> (r: bool)
    ensures
        r == ({
            let next = if current_level == 255 { 255 } else { current_level + 1 };
            &&& next <= 5
            &&& (module == ModuleKind::Arsenal ==> next <= 3 && city_level >= 3)
            &&& (module == ModuleKind::Port ==> (tile_terrain matches Some(t) && t & 0xc0 == 0xc0))
        }),
{
    let next = current_level.saturating_add(1);
    if next > 5 || (module == ModuleKind::Arsenal && next > 3) {
        return false;
    }
    if module == ModuleKind::Arsenal && city_level < 3 {
        return false;
    }
    if module == ModuleKind::Port {
        return match tile_terrain {
            Some(t) => t & 0xc0 == 0xc0,
            None => false,
        };
    }
    true
}

/// Kind of structure on an own tile, as far as the menu cares.
#[derive(Clone, Copy, Debug, PartialEq, Eq, Structural)]
pub enum StructureClass {
    City,
    Port,
    /// A factory or a bunker.
    Other,
}

/// A finished or unfinished structure on an own tile.
#[derive(Clone, Copy, Debug, PartialEq, Eq, Structural)]
pub struct OwnStructure {
    pub class: StructureClass,
    pub under_construction: bool,
    /// Level of the city itself.
    pub level: u8,
    pub arsenal_level: u8,
    pub port_level: u8,
    pub foundry_level: u8,
}

/// A city module may be raised (see [`city_module_is_available`]).
pub open spec fn module_available(module: ModuleKind, current_level: u8, city_level: u8, terrain: Option<u8>) -> bool {
    let next = if current_level == 255 { 255 } else { current_level + 1 };
    &&& next <= 5
    &&& (module == ModuleKind::Arsenal ==> next <= 3 && city_level >= 3)
    &&& (module == ModuleKind::Port ==> (terrain matches Some(t) && t & 0xc0 == 0xc0))
}

/// The menu of an own land tile outside the spawn phase: building choices
/// and a tile upgrade on an empty tile; module upgrades (and ships, once
/// the city has a port) on a finished city; ships on a finished port;
/// nothing otherwise.
pub open spec fn own_menu(structure: Option<OwnStructure>, terrain: Option<u8>) -> Seq<MapMenuAction> {
    match structure {
        None => seq![
            MapMenuAction::UpgradeTile,
            MapMenuAction::BuildCity,
            MapMenuAction::BuildFactory,
            MapMenuAction::BuildPort,
            MapMenuAction::BuildBunker,
        ],
        Some(b) => if b.under_construction {
            seq![]
        } else {
            match b.class {
                StructureClass::City => (if module_available(ModuleKind::Arsenal, b.arsenal_level, b.level, terrain) {
                    seq![MapMenuAction::UpgradeArsenal]
                } else {
                    seq![]
                }) + (if module_available(ModuleKind::Port, b.port_level, b.level, terrain) {
                    seq![MapMenuAction::UpgradePort]
                } else {
                    seq![]
                }) + (if module_available(ModuleKind::Foundry, b.foundry_level, b.level, terrain) {
                    seq![MapMenuAction::UpgradeFoundry]
                } else {
                    seq![]
                }) + (if b.port_level > 0 {
                    seq![MapMenuAction::BuildWarship, MapMenuAction::BuildTradeShip]
                } else {
                    seq![]
                }),
                StructureClass::Port => seq![MapMenuAction::BuildWarship, MapMenuAction::BuildTradeShip],
                StructureClass::Other => seq![],
            }
        },
    }
}

/// The context menu of a tile: the general menu, except on the player's own
/// land outside the spawn phase, where the structure on the tile decides.
pub fn map_menu_actions(
    target: MapTarget,
    spawning: bool,
    can_attack: bool,
    can_fleet: bool,
    structure: Option<OwnStructure>,
    tile_terrain: Option<u8>,
) -> (r: Vec<MapMenuAction>)
    ensures
        r@ == if target.owner != target.my_id || !target.is_land || spawning {
            target.menu(spawning, can_attack, can_fleet)
        } else {
            own_menu(structure, tile_terrain)
        },
{
    if target.owner != target.my_id || !target.is_land || spawning {
        return target.menu_actions(spawning, can_attack, can_fleet);
    }
    let mut actions: Vec<MapMenuAction> = Vec::new();
    match structure {
        None => {
            actions.push(MapMenuAction::UpgradeTile);
            actions.push(MapMenuAction::BuildCity);
            actions.push(MapMenuAction::BuildFactory);
            actions.push(MapMenuAction::BuildPort);
            actions.push(MapMenuAction::BuildBunker);
        },
        Some(b) => {
            if !b.under_construction {
                match b.class {
                    StructureClass::City => {
                        if city_module_is_available(ModuleKind::Arsenal, b.arsenal_level, b.level, tile_terrain) {
                            actions.push(MapMenuAction::UpgradeArsenal);
                        }
                        if city_module_is_available(ModuleKind::Port, b.port_level, b.level, tile_terrain) {
                            actions.push(MapMenuAction::UpgradePort);
                        }
                        if city_module_is_available(ModuleKind::Foundry, b.foundry_level, b.level, tile_terrain) {
                            actions.push(MapMenuAction::UpgradeFoundry);
                        }
                        if b.port_level > 0 {
                            actions.push(MapMenuAction::BuildWarship);
                            actions.push(MapMenuAction::BuildTradeShip);
                        }
                    },
                    StructureClass::Port => {
                        actions.push(MapMenuAction::BuildWarship);
                        actions.push(MapMenuAction::BuildTradeShip);
                    },
                    StructureClass::Other => {},
                }
            }
        },
    }
    assert(actions@ =~= own_menu(structure, tile_terrain));
    actions
}

/// What the alliance menu entry does for a tile's owner.
#[derive(Clone, Copy, Debug, PartialEq, Eq, Structural)]
pub enum AllianceAction {
    /// Not another player, or a teammate: nothing.
    Nothing,
    /// Accept the owner's (renewal) request.
    Accept,
    /// Ask the owner for an alliance (`renewal`: renew the current one).
    Propose { renewal: bool },
    /// Our request is already waiting (`renewal`: for a renewal).
    AlreadyPending { renewal: bool },
    /// Leave the alliance.
    Break,
}

/// The alliance action for a tile: with an ally, renew within the renewal
/// window (accepting their request, or waiting on ours) and break it
/// otherwise; with anyone else accept their request, wait on ours, or ask.
pub fn alliance_action(target: MapTarget) -> (a: AllianceAction)
    ensures
        a == if !target.other_player() || target.is_teammate {
            AllianceAction::Nothing
        } else if target.is_allied {
            if target.is_in_renewal_window {
                if target.has_alliance_request {
                    AllianceAction::Accept
                } else if target.has_proposed_alliance {
                    AllianceAction::AlreadyPending { renewal: true }
                } else {
                    AllianceAction::Propose { renewal: true }
                }
            } else {
                AllianceAction::Break
            }
        } else if target.has_alliance_request {
            AllianceAction::Accept
        } else if target.has_proposed_alliance {
            AllianceAction::AlreadyPending { renewal: false }
        } else {
            AllianceAction::Propose { renewal: false }
        },
{
    if !target.is_player() || target.is_teammate {
        return AllianceAction::Nothing;
    }
    if target.is_allied {
        if target.is_in_renewal_window {
            if target.has_alliance_request {
                AllianceAction::Accept
            } else if target.has_proposed_alliance {
                AllianceAction::AlreadyPending { renewal: true }
            } else {
                AllianceAction::Propose { renewal: true }
            }
        } else {
            AllianceAction::Break
        }
    } else if target.has_alliance_request {
        AllianceAction::Accept
    } else if target.has_proposed_alliance {
        AllianceAction::AlreadyPending { renewal: false }
    } else {
        AllianceAction::Propose { renewal: false }
    }
}

} // verus!
