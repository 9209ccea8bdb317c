//! What a tile means to the local player and what each map action on it
//! resolves to: the tile's relation to its owner, the gates that a click, a
//! menu choice or a shortcut passes before an intent is sent, and what the
//! price of a menu action depends on.

use vstd::prelude::*;
use crate::campaign::Team;
use crate::input::map_click::{MapTarget, MapMenuAction, ModuleKind, OwnStructure, StructureClass, module_available};
use crate::text::same_text;

verus! {

/// Alliance ticks assumed when no timer is known.
pub const DEFAULT_ALLIANCE_TIMER: u32 = 2400;

/// An alliance with at most this many ticks left may be renewed.
pub const RENEWAL_WINDOW_TICKS: u32 = 300;

/// The emoji a player shows after breaking an alliance.
pub const BETRAYAL_EMOJI: &'static str = "🗡️";

/// A player's diplomatic state, as the client's snapshot shows it.
pub struct PlayerView {
    pub id: u16,
    pub team: Option<Team>,
    pub active_emoji: Option<String>,
    /// Players this one is allied with.
    pub alliances: Vec<u16>,
    /// Players who asked this one for an alliance.
    pub alliance_requests: Vec<u16>,
    /// Ticks left of each alliance, by partner.
    pub alliance_timers: Vec<(u16, u32)>,
}

/// The first player with id `id`.
pub open spec fn find_player(players: Seq<PlayerView>, id: u16) -> Option<PlayerView>
    decreases players.len(),
{
    if players.len() == 0 {
        None
    } else if players[0].id == id {
        Some(players[0])
    } else {
        find_player(players.drop_first(), id)
    }
}

/// Ticks left of the alliance with `partner` (the first entry for it), or
/// the default when there is none.
pub open spec fn timer_for(timers: Seq<(u16, u32)>, partner: u16) -> u32
    decreases timers.len(),
{
    if timers.len() == 0 {
        DEFAULT_ALLIANCE_TIMER
    } else if timers[0].0 == partner {
        timers[0].1
    } else {
        timer_for(timers.drop_first(), partner)
    }
}

/// The player shows the betrayal emoji.
pub open spec fn shows_betrayal(p: PlayerView) -> bool {
    match p.active_emoji {
        Some(e) => e@ == BETRAYAL_EMOJI@,
        None => false,
    }
}

/// The two players are on the same team.
pub open spec fn same_team(me: Option<PlayerView>, other: Option<PlayerView>) -> bool {
    match (me, other) {
        (Some(m), Some(o)) => m.team is Some && m.team == o.team,
        _ => false,
    }
}

/// `me` is allied with `owner`, who does not show the betrayal emoji.
pub open spec fn allied_with(me: Option<PlayerView>, other: Option<PlayerView>, owner: u16) -> bool {
    let betrayer = match other {
        Some(o) => shows_betrayal(o),
        None => false,
    };
    match me {
        Some(m) => m.alliances@.contains(owner) && !betrayer,
        None => false,
    }
}

/// `p` has a request for an alliance from `from`.
pub open spec fn requested_by(p: Option<PlayerView>, from: u16) -> bool {
    match p {
        Some(q) => q.alliance_requests@.contains(from),
        None => false,
    }
}

/// Ticks left of `me`'s alliance with `owner`.
pub open spec fn alliance_ticks(me: Option<PlayerView>, owner: u16) -> u32 {
    match me {
        Some(m) => timer_for(m.alliance_timers@, owner),
        None => DEFAULT_ALLIANCE_TIMER,
    }
}

/// The relation of tile `tile` to the local player `my_id`: `None` outside
/// the map (or when the map size overflows); otherwise its owner (0 where
/// the owner table is short), whether it is land, and how the owner stands
/// with the local player.
pub open spec fn target_of(
    owners: Seq<u16>,
    terrain: Seq<u8>,
    map_w: u32,
    map_h: u32,
    my_id: u16,
    players: Seq<PlayerView>,
    tile: u32,
) -> Option<MapTarget> {
    if map_w * map_h > u32::MAX || tile >= map_w * map_h {
        None
    } else {
        let owner: u16 = if tile < owners.len() { owners[tile as int] } else { 0 };
        let me = find_player(players, my_id);
        let other = find_player(players, owner);
        let is_allied = allied_with(me, other, owner);
        Some(MapTarget {
            owner,
            is_land: tile < terrain.len() && terrain[tile as int] & 0x80 != 0,
            my_id,
            is_allied,
            is_teammate: same_team(me, other),
            has_alliance_request: requested_by(me, owner),
            has_proposed_alliance: requested_by(other, my_id),
            is_in_renewal_window: is_allied && alliance_ticks(me, owner) <= RENEWAL_WINDOW_TICKS,
        })
    }
}

fn contains_id(ids: &Vec<u16>, id: u16) -> (r: bool)
    ensures
        r == ids@.contains(id),
{
    let mut i: usize = 0;
    while i < ids.len()
        invariant
            i <= ids.len(),
            forall|j: int| 0 <= j < i ==> ids@[j] != id,
        decreases ids.len() - i,
    {
        if ids[i] == id {
            return true;
        }
        i += 1;
    }
    false
}

fn find_player_exec(players: &Vec<PlayerView>, id: u16) -> (r: Option<&PlayerView>)
    ensures
        match r {
            Some(p) => find_player(players@, id) == Some(*p),
            None => find_player(players@, id) is None,
        },
{
    let mut i: usize = 0;
    assert(players@.subrange(0, players@.len() as int) =~= players@);
    while i < players.len()
        invariant
            i <= players.len(),
            find_player(players@, id) == find_player(players@.subrange(i as int, players@.len() as int), id),
        decreases players.len() - i,
    {
        assert(players@.subrange(i as int, players@.len() as int).drop_first() =~= players@.subrange(
            i + 1,
            players@.len() as int,
        ));
        if players[i].id == id {
            return Some(&players[i]);
        }
        i += 1;
    }
    assert(players@.subrange(i as int, players@.len() as int).len() == 0);
    None
}

fn timer_for_exec(timers: &Vec<(u16, u32)>, partner: u16) -> (r: u32)
    ensures
        r == timer_for(timers@, partner),
{
    let mut i: usize = 0;
    assert(timers@.subrange(0, timers@.len() as int) =~= timers@);
    while i < timers.len()
        invariant
            i <= timers.len(),
            timer_for(timers@, partner) == timer_for(timers@.subrange(i as int, timers@.len() as int), partner),
        decreases timers.len() - i,
    {
        assert(timers@.subrange(i as int, timers@.len() as int).drop_first() =~= timers@.subrange(
            i + 1,
            timers@.len() as int,
        ));
        if timers[i].0 == partner {
            return timers[i].1;
        }
        i += 1;
    }
    assert(timers@.subrange(i as int, timers@.len() as int).len() == 0);
    DEFAULT_ALLIANCE_TIMER
}

fn shows_betrayal_exec(p: &PlayerView) -> (r: bool)
    ensures
        r == shows_betrayal(*p),
{
    match &p.active_emoji {
        Some(e) => same_text(e.as_str(), BETRAYAL_EMOJI),
        None => false,
    }
}

/// The relation of a tile to the local player (see [`target_of`]).
pub fn map_target(
    owners: &[u16],
    terrain: &[u8],
    map_w: u32,
    map_h: u32,
    my_id: u16,
    players: &Vec<PlayerView>,
    tile: u32,
) -> (r: Option<MapTarget>)
    ensures
        r == target_of(owners@, terrain@, map_w, map_h, my_id, players@, tile),
{
    let map_len = match map_w.checked_mul(map_h) {
        Some(n) => n,
        None => {
            return None;
        },
    };
    if tile >= map_len {
        return None;
    }
    let index = tile as usize;
    let owner: u16 = if index < owners.len() { owners[index] } else { 0 };
    let is_land = index < terrain.len() && terrain[index] & 0x80 != 0;
    let me = find_player_exec(players, my_id);
    let other = find_player_exec(players, owner);
    let betrayer = match other {
        Some(o) => shows_betrayal_exec(o),
        None => false,
    };
    let is_teammate = match (me, other) {
        (Some(m), Some(o)) => m.team.is_some() && m.team == o.team,
        _ => false,
    };
    let is_allied = match me {
        Some(m) => contains_id(&m.alliances, owner) && !betrayer,
        None => false,
    };
    let has_alliance_request = match me {
        Some(m) => contains_id(&m.alliance_requests, owner),
        None => false,
    };
    let has_proposed_alliance = match other {
        Some(o) => contains_id(&o.alliance_requests, my_id),
        None => false,
    };
    let ticks = match me {
        Some(m) => timer_for_exec(&m.alliance_timers, owner),
        None => DEFAULT_ALLIANCE_TIMER,
    };
    Some(MapTarget {
        owner,
        is_land,
        my_id,
        is_allied,
        is_teammate,
        has_alliance_request,
        has_proposed_alliance,
        is_in_renewal_window: is_allied && ticks <= RENEWAL_WINDOW_TICKS,
    })
}

/// Kind of structure on the map.
#[derive(Clone, Copy, Debug, PartialEq, Eq, Structural)]
pub enum StructureKind {
    City,
    Factory,
    Port,
    Bunker,
}

/// A structure with its levels, as the client's snapshot shows it.
#[derive(Clone, Copy, Debug, PartialEq, Eq, Structural)]
pub struct StructureSnapshot {
    pub id: u64,
    pub owner_id: u16,
    pub kind: StructureKind,
    pub tile_idx: u32,
    pub level: u8,
    pub under_construction: bool,
    pub arsenal_level: u8,
    pub port_level: u8,
    pub foundry_level: u8,
}

/// The first structure standing on `tile`.
pub open spec fn structure_on(buildings: Seq<StructureSnapshot>, tile: u32) -> Option<StructureSnapshot>
    decreases buildings.len(),
{
    if buildings.len() == 0 {
        None
    } else if buildings[0].tile_idx == tile {
        Some(buildings[0])
    } else {
        structure_on(buildings.drop_first(), tile)
    }
}

/// The first structure standing on `tile` (see [`structure_on`]).
pub fn structure_at(buildings: &[StructureSnapshot], tile: u32) -> (r: Option<StructureSnapshot>)
    ensures
        r == structure_on(buildings@, tile),
{
    let mut i: usize = 0;
    assert(buildings@.subrange(0, buildings@.len() as int) =~= buildings@);
    while i < buildings.len()
        invariant
            i <= buildings.len(),
            structure_on(buildings@, tile) == structure_on(buildings@.subrange(i as int, buildings@.len() as int), tile),
        decreases buildings.len() - i,
    {
        assert(buildings@.subrange(i as int, buildings@.len() as int).drop_first() =~= buildings@.subrange(
            i + 1,
            buildings@.len() as int,
        ));
        if buildings[i].tile_idx == tile {
            return Some(buildings[i]);
        }
        i += 1;
    }
    assert(buildings@.subrange(i as int, buildings@.len() as int).len() == 0);
    None
}

/// How the context menu sees a structure: cities and ports by name,
/// factories and bunkers alike.
pub open spec fn own_view(s: StructureSnapshot) -> OwnStructure {
    OwnStructure {
        class: match s.kind {
            StructureKind::City => StructureClass::City,
            StructureKind::Port => StructureClass::Port,
            _ => StructureClass::Other,
        },
        under_construction: s.under_construction,
        level: s.level,
        arsenal_level: s.arsenal_level,
        port_level: s.port_level,
        foundry_level: s.foundry_level,
    }
}

impl StructureSnapshot {
    /// The structure as the context menu sees it (see [`own_view`]).
    pub fn own_structure(self) -> (r: OwnStructure)
        ensures
            r == own_view(self),
    {
        OwnStructure {
            class: match self.kind {
                StructureKind::City => StructureClass::City,
                StructureKind::Port => StructureClass::Port,
                _ => StructureClass::Other,
            },
            under_construction: self.under_construction,
            level: self.level,
            arsenal_level: self.arsenal_level,
            port_level: self.port_level,
            foundry_level: self.foundry_level,
        }
    }

    /// Level of one of the city's modules.
    pub open spec fn module_level(self, module: ModuleKind) -> u8 {
        match module {
            ModuleKind::Arsenal => self.arsenal_level,
            ModuleKind::Port => self.port_level,
            ModuleKind::Foundry => self.foundry_level,
        }
    }

    /// Level of one of the city's modules.
    pub fn get_level(self, module: ModuleKind) -> (r: u8)
        ensures
            r == self.module_level(module),
    {
        match module {
            ModuleKind::Arsenal => self.arsenal_level,
            ModuleKind::Port => self.port_level,
            ModuleKind::Foundry => self.foundry_level,
        }
    }
}

/// The tile can be upgraded: it is the local player's land.
pub fn tile_upgrade_allowed(target: Option<MapTarget>) -> (r: bool)
    ensures
        r == (target matches Some(t) && (t.is_land && t.owner == t.my_id)),
{
    match target {
        Some(t) => t.is_land && t.owner == t.my_id,
        None => false,
    }
}

/// The structure whose module an upgrade raises: a finished city on the
/// local player's land whose module can go one level up.
pub fn module_upgrade_building(
    target: Option<MapTarget>,
    structure: Option<StructureSnapshot>,
    module: ModuleKind,
    tile_terrain: Option<u8>,
) -> (r: Option<u64>)
    ensures
        r == match (target, structure) {
            (Some(t), Some(b)) => if t.owner == t.my_id && t.is_land && b.kind == StructureKind::City
                && !b.under_construction && module_available(module, b.module_level(module), b.level, tile_terrain) {
                Some(b.id)
            } else {
                None
            },
            _ => None,
        },
{
    let t = match target {
        Some(t) => t,
        None => {
            return None;
        },
    };
    if t.owner != t.my_id || !t.is_land {
        return None;
    }
    let b = match structure {
        Some(b) => b,
        None => {
            return None;
        },
    };
    if b.kind != StructureKind::City || b.under_construction {
        return None;
    }
    let current = b.get_level(module);
    let next = current.saturating_add(1);
    if next > 5 || (module == ModuleKind::Arsenal && next > 3) {
        return None;
    }
    if module == ModuleKind::Arsenal && b.level < 3 {
        return None;
    }
    if module == ModuleKind::Port {
        let coast = match tile_terrain {
            Some(x) => x & 0xc0 == 0xc0,
            None => false,
        };
        if !coast {
            return None;
        }
    }
    Some(b.id)
}

/// A ship can be built on the tile: it is the local player's land and holds
/// a finished port, or a finished city with a port module.
pub fn ship_build_allowed(target: Option<MapTarget>, structure: Option<StructureSnapshot>) -> (r: bool)
    ensures
        r == match (target, structure) {
            (Some(t), Some(b)) => t.owner == t.my_id && t.is_land && !b.under_construction
                && (b.kind == StructureKind::Port || (b.kind == StructureKind::City && b.port_level > 0)),
            _ => false,
        },
{
    match (target, structure) {
        (Some(t), Some(b)) => t.owner == t.my_id && t.is_land && !b.under_construction && (b.kind
            == StructureKind::Port || (b.kind == StructureKind::City && b.port_level > 0)),
        _ => false,
    }
}

/// A nuke can be launched at the tile: it is an enemy's land.
pub fn nuke_allowed(target: Option<MapTarget>) -> (r: bool)
    ensures
        r == (target matches Some(t) && (t.is_land && t.enemy())),
{
    match target {
        Some(t) => t.is_land && t.is_enemy(),
        None => false,
    }
}

/// What an attack order on a tile does.
#[derive(Clone, Copy, Debug, PartialEq, Eq, Structural)]
pub enum AttackStep {
    /// No such tile, a teammate's tile, or no troops to send: nothing.
    Ignore,
    /// The tile is water: show that the click landed in water.
    WaterFeedback,
    /// The owner is an ally: ask to confirm breaking the alliance first.
    ConfirmBetrayal,
    /// The tile is not an attack target over a land border: say so.
    OutOfReach,
    /// Send the attack.
    Send,
}

/// The attack order's outcome (see [`attack_step`]).
pub open spec fn attack_outcome(target: Option<MapTarget>, has_troops: bool, reachable: bool) -> AttackStep {
    match target {
        None => AttackStep::Ignore,
        Some(t) => if !t.is_land {
            AttackStep::WaterFeedback
        } else if t.is_teammate || !has_troops {
            AttackStep::Ignore
        } else if t.is_allied {
            AttackStep::ConfirmBetrayal
        } else if !t.attackable() || !reachable {
            AttackStep::OutOfReach
        } else {
            AttackStep::Send
        },
    }
}

/// The attack order on a tile: water is shown as such; teammates are never
/// attacked, and nothing is sent without troops; an ally's tile asks for a
/// confirmation; the rest is sent when the tile is attackable and
/// `reachable` (the local land borders the owner's over land).
pub fn attack_step(target: Option<MapTarget>, has_troops: bool, reachable: bool) -> (r: AttackStep)
    ensures
        r == attack_outcome(target, has_troops, reachable),
{
    let t = match target {
        Some(t) => t,
        None => {
            return AttackStep::Ignore;
        },
    };
    if !t.is_land {
        return AttackStep::WaterFeedback;
    }
    if t.is_teammate || !has_troops {
        return AttackStep::Ignore;
    }
    if t.is_allied {
        return AttackStep::ConfirmBetrayal;
    }
    if !t.is_attackable() || !reachable {
        return AttackStep::OutOfReach;
    }
    AttackStep::Send
}

/// A click on the map starts an attack only in a running match, for a
/// player who is neither watching nor placing a structure or a nuke, and on
/// land that is neither the player's own nor a friend's.
pub fn click_attack_allowed(
    observing: bool,
    in_game: bool,
    placing: bool,
    match_running: bool,
    target: Option<MapTarget>,
) -> (r: bool)
    ensures
        r == (!observing && in_game && !placing && match_running && (target matches Some(t) && (t.is_land
            && t.owner != t.my_id && !t.friendly()))),
{
    if observing || !in_game || placing || !match_running {
        return false;
    }
    match target {
        Some(t) => t.is_land && t.owner != t.my_id && !t.is_friendly(),
        None => false,
    }
}

/// What a fleet order on a tile does.
#[derive(Clone, Copy, Debug, PartialEq, Eq, Structural)]
pub enum FleetStep {
    /// No such tile: nothing.
    Ignore,
    /// A teammate's tile: refused.
    TeammateRefused,
    /// An ally's tile: refused until the alliance is broken.
    AllyRefused,
    /// The player's own territory: refused.
    OwnTerritoryRefused,
    /// No sea route to the tile.
    RouteUnavailable,
    /// Fewer troops than a fleet needs.
    TooFewTroops,
    /// Launch the fleet.
    Launch,
}

/// The fleet order's outcome (see [`fleet_step`]).
pub open spec fn fleet_outcome(target: Option<MapTarget>, route_ok: bool, enough_troops: bool) -> FleetStep {
    match target {
        None => FleetStep::Ignore,
        Some(t) => if t.is_teammate {
            FleetStep::TeammateRefused
        } else if t.is_allied {
            FleetStep::AllyRefused
        } else if t.owner != 0 && !t.enemy() {
            FleetStep::OwnTerritoryRefused
        } else if !route_ok {
            FleetStep::RouteUnavailable
        } else if !enough_troops {
            FleetStep::TooFewTroops
        } else {
            FleetStep::Launch
        },
    }
}

/// The fleet order on a tile: teammates, allies and the player's own land
/// are refused; otherwise the fleet needs `route_ok` (a sea route to the
/// tile) and `enough_troops`.
pub fn fleet_step(target: Option<MapTarget>, route_ok: bool, enough_troops: bool) -> (r: FleetStep)
    ensures
        r == fleet_outcome(target, route_ok, enough_troops),
{
    let t = match target {
        Some(t) => t,
        None => {
            return FleetStep::Ignore;
        },
    };
    if t.is_teammate {
        FleetStep::TeammateRefused
    } else if t.is_allied {
        FleetStep::AllyRefused
    } else if t.owner != 0 && !t.is_enemy() {
        FleetStep::OwnTerritoryRefused
    } else if !route_ok {
        FleetStep::RouteUnavailable
    } else if !enough_troops {
        FleetStep::TooFewTroops
    } else {
        FleetStep::Launch
    }
}

/// Where a primary click on the map goes.
#[derive(Clone, Copy, Debug, PartialEq, Eq, Structural)]
pub enum ClickRoute {
    /// A watcher clicked: a friendly notice, and placement is cleared.
    ObserverNotice,
    /// Off the map: nothing.
    Ignore,
    /// Spawn phase: choose the spawn tile.
    Spawn,
    /// A nuke is selected: launch it at the tile.
    LaunchNuke,
    /// A structure is selected: place it.
    PlaceStructure,
    /// The click hit the player's warships: select them.
    SelectWarships,
    /// Clear the warship selection and act on the tile.
    Primary,
    /// Clear the warship selection only (the match is not running).
    ClearSelection,
}

/// The route of a primary click: watchers get a notice; then, on the map,
/// the spawn phase, a selected nuke, a selected structure and a hit on the
/// player's warships take the click in that order; otherwise the warship
/// selection is cleared and, while the match runs, the tile's primary
/// action follows.
pub fn click_route(
    observing: bool,
    on_map: bool,
    spawning: bool,
    nuke_selected: bool,
    structure_selected: bool,
    warships_hit: bool,
    match_running: bool,
) -> (r: ClickRoute)
    ensures
        r == if observing {
            ClickRoute::ObserverNotice
        } else if !on_map {
            ClickRoute::Ignore
        } else if spawning {
            ClickRoute::Spawn
        } else if nuke_selected {
            ClickRoute::LaunchNuke
        } else if structure_selected {
            ClickRoute::PlaceStructure
        } else if warships_hit {
            ClickRoute::SelectWarships
        } else if match_running {
            ClickRoute::Primary
        } else {
            ClickRoute::ClearSelection
        },
{
    if observing {
        ClickRoute::ObserverNotice
    } else if !on_map {
        ClickRoute::Ignore
    } else if spawning {
        ClickRoute::Spawn
    } else if nuke_selected {
        ClickRoute::LaunchNuke
    } else if structure_selected {
        ClickRoute::PlaceStructure
    } else if warships_hit {
        ClickRoute::SelectWarships
    } else if match_running {
        ClickRoute::Primary
    } else {
        ClickRoute::ClearSelection
    }
}

/// What a request for the context menu does.
#[derive(Clone, Copy, Debug, PartialEq, Eq, Structural)]
pub enum ContextMenuStep {
    /// A watcher asked: a friendly notice.
    ObserverNotice,
    /// Not in a match: nothing.
    Ignore,
    /// Off the map: close any open menu.
    Close,
    /// Nothing to offer on the tile: say why and close the menu.
    Unavailable,
    /// Open the menu under a new session number.
    Open { session: u64 },
}

/// The context-menu request: watchers get a notice, nothing happens
/// outside a match, a click off the map closes the menu, a tile with no
/// action says why, and otherwise the menu opens with the next session
/// number (wrapping).
pub fn context_menu_step(
    observing: bool,
    in_game: bool,
    on_map: bool,
    menu_empty: bool,
    last_session: u64,
) -> (r: ContextMenuStep)
    ensures
        r == if observing {
            ContextMenuStep::ObserverNotice
        } else if !in_game {
            ContextMenuStep::Ignore
        } else if !on_map {
            ContextMenuStep::Close
        } else if menu_empty {
            ContextMenuStep::Unavailable
        } else {
            ContextMenuStep::Open {
                session: if last_session == u64::MAX { 0 } else { (last_session + 1) as u64 },
            }
        },
{
    if observing {
        ContextMenuStep::ObserverNotice
    } else if !in_game {
        ContextMenuStep::Ignore
    } else if !on_map {
        ContextMenuStep::Close
    } else if menu_empty {
        ContextMenuStep::Unavailable
    } else {
        let session = if last_session == u64::MAX { 0 } else { last_session + 1 };
        ContextMenuStep::Open { session }
    }
}

/// What choosing an entry of the context menu does.
#[derive(Clone, Copy, Debug, PartialEq, Eq, Structural)]
pub enum MenuChoiceStep {
    /// No menu is open, or the choice belongs to an older menu or another
    /// tile: ignored.
    Stale,
    /// The tile no longer offers the action: say why and close.
    Unavailable,
    /// The action costs more gold than the player has: say so and close.
    NeedGold,
    /// Carry the action out and close.
    Run(MapMenuAction),
}

fn offers(offered: &[MapMenuAction], action: MapMenuAction) -> (r: bool)
    ensures
        r == offered@.contains(action),
{
    let mut i: usize = 0;
    while i < offered.len()
        invariant
            i <= offered.len(),
            forall|j: int| 0 <= j < i ==> offered@[j] != action,
        decreases offered.len() - i,
    {
        if offered[i] == action {
            return true;
        }
        i += 1;
    }
    false
}

/// A menu choice is carried out only for the open menu (same session and
/// tile), when the tile still `offered` the action and the player can pay
/// for it (`unaffordable`: its price is known and exceeds the gold, or is
/// not a finite number).
pub fn menu_choice_step(
    open_menu: Option<(u64, u32)>,
    session: u64,
    tile: u32,
    action: MapMenuAction,
    offered: &[MapMenuAction],
    unaffordable: bool,
) -> (r: MenuChoiceStep)
    ensures
        r == match open_menu {
            None => MenuChoiceStep::Stale,
            Some((s, t)) => if s != session || t != tile {
                MenuChoiceStep::Stale
            } else if !offered@.contains(action) {
                MenuChoiceStep::Unavailable
            } else if unaffordable {
                MenuChoiceStep::NeedGold
            } else {
                MenuChoiceStep::Run(action)
            },
        },
{
    let (s, t) = match open_menu {
        Some(m) => m,
        None => {
            return MenuChoiceStep::Stale;
        },
    };
    if s != session || t != tile {
        return MenuChoiceStep::Stale;
    }
    if !offers(offered, action) {
        return MenuChoiceStep::Unavailable;
    }
    if unaffordable {
        return MenuChoiceStep::NeedGold;
    }
    MenuChoiceStep::Run(action)
}

/// A kind of ship.
#[derive(Clone, Copy, Debug, PartialEq, Eq, Structural)]
pub enum ShipKind {
    Warship,
    TradeShip,
}

/// What a menu action sets off.
#[derive(Clone, Copy, Debug, PartialEq, Eq, Structural)]
pub enum MenuCommand {
    Spawn,
    Attack,
    Fleet,
    Transfer,
    Alliance,
    /// Select a structure to place with the next click.
    SelectStructure(StructureKind),
    Nuke,
    UpgradeTile,
    UpgradeModule(ModuleKind),
    BuildShip(ShipKind),
}

/// The command of each menu action.
pub open spec fn command_of(action: MapMenuAction) -> MenuCommand {
    match action {
        MapMenuAction::Spawn => MenuCommand::Spawn,
        MapMenuAction::Attack => MenuCommand::Attack,
        MapMenuAction::Fleet => MenuCommand::Fleet,
        MapMenuAction::Transfer => MenuCommand::Transfer,
        MapMenuAction::Alliance => MenuCommand::Alliance,
        MapMenuAction::BuildCity => MenuCommand::SelectStructure(StructureKind::City),
        MapMenuAction::BuildFactory => MenuCommand::SelectStructure(StructureKind::Factory),
        MapMenuAction::BuildPort => MenuCommand::SelectStructure(StructureKind::Port),
        MapMenuAction::BuildBunker => MenuCommand::SelectStructure(StructureKind::Bunker),
        MapMenuAction::Nuke => MenuCommand::Nuke,
        MapMenuAction::UpgradeTile => MenuCommand::UpgradeTile,
        MapMenuAction::UpgradeArsenal => MenuCommand::UpgradeModule(ModuleKind::Arsenal),
        MapMenuAction::UpgradePort => MenuCommand::UpgradeModule(ModuleKind::Port),
        MapMenuAction::UpgradeFoundry => MenuCommand::UpgradeModule(ModuleKind::Foundry),
        MapMenuAction::BuildWarship => MenuCommand::BuildShip(ShipKind::Warship),
        MapMenuAction::BuildTradeShip => MenuCommand::BuildShip(ShipKind::TradeShip),
    }
}

/// The command a menu action sets off (see [`command_of`]).
pub fn menu_command(action: MapMenuAction) -> (r: MenuCommand)
    ensures
        r == command_of(action),
{
    match action {
        MapMenuAction::Spawn => MenuCommand::Spawn,
        MapMenuAction::Attack => MenuCommand::Attack,
        MapMenuAction::Fleet => MenuCommand::Fleet,
        MapMenuAction::Transfer => MenuCommand::Transfer,
        MapMenuAction::Alliance => MenuCommand::Alliance,
        MapMenuAction::BuildCity => MenuCommand::SelectStructure(StructureKind::City),
        MapMenuAction::BuildFactory => MenuCommand::SelectStructure(StructureKind::Factory),
        MapMenuAction::BuildPort => MenuCommand::SelectStructure(StructureKind::Port),
        MapMenuAction::BuildBunker => MenuCommand::SelectStructure(StructureKind::Bunker),
        MapMenuAction::Nuke => MenuCommand::Nuke,
        MapMenuAction::UpgradeTile => MenuCommand::UpgradeTile,
        MapMenuAction::UpgradeArsenal => MenuCommand::UpgradeModule(ModuleKind::Arsenal),
        MapMenuAction::UpgradePort => MenuCommand::UpgradeModule(ModuleKind::Port),
        MapMenuAction::UpgradeFoundry => MenuCommand::UpgradeModule(ModuleKind::Foundry),
        MapMenuAction::BuildWarship => MenuCommand::BuildShip(ShipKind::Warship),
        MapMenuAction::BuildTradeShip => MenuCommand::BuildShip(ShipKind::TradeShip),
    }
}

/// Why a tile's context menu has nothing to offer.
#[derive(Clone, Copy, Debug, PartialEq, Eq, Structural)]
pub enum UnavailableReason {
    /// Unclaimed land out of the fleet's reach.
    FleetUnavailable,
    /// A teammate's tile.
    Teammate,
    /// The player's own tile is water.
    NeedOwnedLand,
    /// The structure on the tile is still being built.
    UnderConstruction,
    /// The structure on the tile offers nothing at its level.
    NoStructureAction { kind: StructureKind, level: u8 },
    /// The player's own empty land offers no construction.
    NoConstructionAction,
    /// Anything else.
    NothingHere,
}

/// Why a tile offers nothing: for unclaimed land, whether a fleet could
/// reach it (`fleet_route_ok`); then teammates, the player's own water, and
/// on the player's own land the structure that stands there.
pub fn unavailable_reason(
    target: Option<MapTarget>,
    fleet_route_ok: bool,
    structure: Option<StructureSnapshot>,
) -> (r: UnavailableReason)
    ensures
        r == match target {
            None => UnavailableReason::NothingHere,
            Some(t) => if t.owner == 0 {
                if fleet_route_ok { UnavailableReason::NothingHere } else { UnavailableReason::FleetUnavailable }
            } else if t.is_teammate {
                UnavailableReason::Teammate
            } else if t.owner == t.my_id && !t.is_land {
                UnavailableReason::NeedOwnedLand
            } else if t.owner == t.my_id {
                match structure {
                    Some(b) => if b.under_construction {
                        UnavailableReason::UnderConstruction
                    } else {
                        UnavailableReason::NoStructureAction { kind: b.kind, level: b.level }
                    },
                    None => UnavailableReason::NoConstructionAction,
                }
            } else {
                UnavailableReason::NothingHere
            },
        },
{
    let t = match target {
        Some(t) => t,
        None => {
            return UnavailableReason::NothingHere;
        },
    };
    if t.owner == 0 {
        if fleet_route_ok {
            UnavailableReason::NothingHere
        } else {
            UnavailableReason::FleetUnavailable
        }
    } else if t.is_teammate {
        UnavailableReason::Teammate
    } else if t.owner == t.my_id && !t.is_land {
        UnavailableReason::NeedOwnedLand
    } else if t.owner == t.my_id {
        match structure {
            Some(b) => if b.under_construction {
                UnavailableReason::UnderConstruction
            } else {
                UnavailableReason::NoStructureAction { kind: b.kind, level: b.level }
            },
            None => UnavailableReason::NoConstructionAction,
        }
    } else {
        UnavailableReason::NothingHere
    }
}

/// Sum of the levels of `owner`'s structures of kind `kind`.
pub open spec fn owned_levels(buildings: Seq<StructureSnapshot>, owner: u16, kind: StructureKind) -> int
    decreases buildings.len(),
{
    if buildings.len() == 0 {
        0
    } else {
        owned_levels(buildings.drop_last(), owner, kind) + if buildings.last().owner_id == owner
            && buildings.last().kind == kind {
            buildings.last().level as int
        } else {
            0
        }
    }
}

proof fn lemma_owned_levels_prefix(buildings: Seq<StructureSnapshot>, owner: u16, kind: StructureKind, i: int)
    requires
        0 <= i <= buildings.len(),
    ensures
        0 <= owned_levels(buildings.take(i), owner, kind) <= owned_levels(buildings, owner, kind),
    decreases buildings.len(),
{
    if buildings.len() > 0 {
        if i == buildings.len() {
            assert(buildings.take(i) =~= buildings);
            lemma_owned_levels_prefix(buildings.drop_last(), owner, kind, i - 1);
        } else {
            lemma_owned_levels_prefix(buildings.drop_last(), owner, kind, i);
            assert(buildings.drop_last().take(i) =~= buildings.take(i));
        }
    }
}

/// Sum of the levels of `owner`'s structures of kind `kind` (see
/// [`owned_levels`]); the price of another such structure grows with it.
pub fn owned_level_sum(buildings: &[StructureSnapshot], owner: u16, kind: StructureKind) -> (r: u32)
    requires
        owned_levels(buildings@, owner, kind) <= u32::MAX,
    ensures
        r == owned_levels(buildings@, owner, kind),
{
    let mut sum: u32 = 0;
    let mut i: usize = 0;
    while i < buildings.len()
        invariant
            i <= buildings.len(),
            owned_levels(buildings@, owner, kind) <= u32::MAX,
            sum == owned_levels(buildings@.take(i as int), owner, kind),
        decreases buildings.len() - i,
    {
        proof {
            assert(buildings@.take(i + 1).drop_last() =~= buildings@.take(i as int));
            lemma_owned_levels_prefix(buildings@, owner, kind, i + 1);
        }
        let b = buildings[i];
        if b.owner_id == owner && b.kind == kind {
            sum = sum + b.level as u32;
        }
        i += 1;
    }
    assert(buildings@.take(i as int) =~= buildings@);
    sum
}

/// What the price of a menu action depends on; the gold amount itself comes
/// from the engine's price tables.
#[derive(Clone, Copy, Debug, PartialEq, Eq, Structural)]
pub enum CostBasis {
    /// The action is free.
    Free,
    /// Upgrading a tile from its current upgrade level.
    Tile { level: u32 },
    /// Raising a city module to `next_level`.
    Module { module: ModuleKind, next_level: u8 },
    /// Building a ship.
    Ship(ShipKind),
    /// Building a structure while the player's structures of that kind add
    /// up to `owned_levels` levels.
    Structure { kind: StructureKind, owned_levels: u32 },
}

/// Upgrade level of a tile (0 where none is recorded).
pub open spec fn tile_level(tile_upgrades: Seq<u32>, tile: u32) -> u32 {
    if tile < tile_upgrades.len() { tile_upgrades[tile as int] } else { 0 }
}

/// The price basis of a menu action and the level shown beside it.
pub open spec fn cost_basis_of(
    action: MapMenuAction,
    tile_upgrades: Seq<u32>,
    tile: u32,
    buildings: Seq<StructureSnapshot>,
    my_id: u16,
) -> (CostBasis, Option<u8>) {
    match command_of(action) {
        MenuCommand::UpgradeTile => {
            let level = tile_level(tile_upgrades, tile);
            (CostBasis::Tile { level }, Some((level % 256) as u8))
        },
        MenuCommand::UpgradeModule(module) => {
            let level: u8 = match structure_on(buildings, tile) {
                Some(b) => b.module_level(module),
                None => 0,
            };
            (
                CostBasis::Module { module, next_level: if level == 255 { 255 } else { (level + 1) as u8 } },
                Some(level),
            )
        },
        MenuCommand::BuildShip(kind) => (CostBasis::Ship(kind), None),
        MenuCommand::SelectStructure(kind) => (
            CostBasis::Structure { kind, owned_levels: owned_levels(buildings, my_id, kind) as u32 },
            None,
        ),
        _ => (CostBasis::Free, None),
    }
}

/// The price basis of a menu action on `tile` and the level shown beside
/// it: a tile upgrade goes by the tile's upgrade level, a module upgrade by
/// the module's level on the structure there, a ship by its kind, and a new
/// structure by the levels of the player's structures of that kind; the
/// other actions are free.
pub fn menu_cost_basis(
    action: MapMenuAction,
    tile_upgrades: &[u32],
    tile: u32,
    buildings: &[StructureSnapshot],
    my_id: u16,
) -> (r: (CostBasis, Option<u8>))
    requires
        command_of(action) matches MenuCommand::SelectStructure(kind) ==> owned_levels(buildings@, my_id, kind) <= u32::MAX,
    ensures
        r == cost_basis_of(action, tile_upgrades@, tile, buildings@, my_id),
{
    match menu_command(action) {
        MenuCommand::UpgradeTile => {
            let idx = tile as usize;
            let level: u32 = if idx < tile_upgrades.len() { tile_upgrades[idx] } else { 0 };
            (CostBasis::Tile { level }, Some((level % 256) as u8))
        },
        MenuCommand::UpgradeModule(module) => {
            let level: u8 = match structure_at(buildings, tile) {
                Some(b) => b.get_level(module),
                None => 0,
            };
            (CostBasis::Module { module, next_level: level.saturating_add(1) }, Some(level))
        },
        MenuCommand::BuildShip(kind) => (CostBasis::Ship(kind), None),
        MenuCommand::SelectStructure(kind) => {
            let owned = owned_level_sum(buildings, my_id, kind);
            (CostBasis::Structure { kind, owned_levels: owned }, None)
        },
        _ => (CostBasis::Free, None),
    }
}

/// Friends are never hit by a plain order: an attack is sent, and a fleet
/// launched, only at a tile whose owner is neither an ally nor a teammate,
/// and a fleet only at unclaimed land or another player's.
pub proof fn law_friends_are_never_targeted(
    target: MapTarget,
    has_troops: bool,
    reachable: bool,
    route_ok: bool,
    enough_troops: bool,
)
    ensures
        attack_outcome(Some(target), has_troops, reachable) == AttackStep::Send ==> !target.friendly(),
        fleet_outcome(Some(target), route_ok, enough_troops) == FleetStep::Launch ==> !target.friendly()
            && (target.owner == 0 || target.owner != target.my_id),
{
}

/// An alliance can only be up for renewal when the two players are allied.
pub proof fn law_renewal_needs_alliance(
    owners: Seq<u16>,
    terrain: Seq<u8>,
    map_w: u32,
    map_h: u32,
    my_id: u16,
    players: Seq<PlayerView>,
    tile: u32,
)
    ensures
        target_of(owners, terrain, map_w, map_h, my_id, players, tile) matches Some(t) ==> (t.is_in_renewal_window
            ==> t.is_allied),
{
}

proof fn lemma_find_player_first(players: Seq<PlayerView>, id: u16, i: int)
    requires
        0 <= i < players.len(),
        players[i].id == id,
        forall|j: int| 0 <= j < i ==> players[j].id != id,
    ensures
        find_player(players, id) == Some(players[i]),
    decreases i,
{
    if i > 0 {
        lemma_find_player_first(players.drop_first(), id, i - 1);
    }
}

proof fn lemma_timer_first(timers: Seq<(u16, u32)>, partner: u16, i: int)
    requires
        0 <= i < timers.len(),
        timers[i].0 == partner,
        forall|j: int| 0 <= j < i ==> timers[j].0 != partner,
    ensures
        timer_for(timers, partner) == timers[i].1,
    decreases i,
{
    if i > 0 {
        lemma_timer_first(timers.drop_first(), partner, i - 1);
    }
}

proof fn lemma_timer_absent(timers: Seq<(u16, u32)>, partner: u16)
    requires
        forall|j: int| 0 <= j < timers.len() ==> timers[j].0 != partner,
    ensures
        timer_for(timers, partner) == DEFAULT_ALLIANCE_TIMER,
    decreases timers.len(),
{
    if timers.len() > 0 {
        assert(timers[0].0 != partner);
        lemma_timer_absent(timers.drop_first(), partner);
    }
}

/// The renewal window of a tile's alliance goes by the timer of the
/// alliance with that tile's owner alone: with the local player's first
/// entry `players[me]`, and its first timer for the owner `timers[ti]`, the
/// tile is in the window exactly when the owner is an ally and that timer
/// shows at most 300 ticks; without a timer for the owner (2400 ticks are
/// assumed) it never is. Timers of other partners play no part.
pub proof fn law_renewal_uses_the_owners_timer(
    owners: Seq<u16>,
    terrain: Seq<u8>,
    map_w: u32,
    map_h: u32,
    my_id: u16,
    players: Seq<PlayerView>,
    tile: u32,
    me: int,
    ti: int,
)
    requires
        target_of(owners, terrain, map_w, map_h, my_id, players, tile) is Some,
        0 <= me < players.len(),
        players[me].id == my_id,
        forall|j: int| 0 <= j < me ==> players[j].id != my_id,
    ensures
        ({
            let t = target_of(owners, terrain, map_w, map_h, my_id, players, tile).unwrap();
            let timers = players[me].alliance_timers@;
            &&& (0 <= ti < timers.len() && timers[ti].0 == t.owner && (forall|j: int| 0 <= j < ti ==> timers[j].0 != t.owner))
                ==> (t.is_in_renewal_window <==> t.is_allied && timers[ti].1 <= 300)
            &&& (forall|j: int| 0 <= j < timers.len() ==> timers[j].0 != t.owner) ==> !t.is_in_renewal_window
            &&& t.is_in_renewal_window ==> t.is_allied
        }),
{
    lemma_find_player_first(players, my_id, me);
    let t = target_of(owners, terrain, map_w, map_h, my_id, players, tile).unwrap();
    let timers = players[me].alliance_timers@;
    if 0 <= ti < timers.len() && timers[ti].0 == t.owner && (forall|j: int| 0 <= j < ti ==> timers[j].0 != t.owner) {
        lemma_timer_first(timers, t.owner, ti);
    }
    if forall|j: int| 0 <= j < timers.len() ==> timers[j].0 != t.owner {
        lemma_timer_absent(timers, t.owner);
    }
}

/// A fleet is launched only with a sea route and enough troops, and never
/// at a teammate, an ally or the player's own land; at unclaimed land or
/// an enemy's without a sea route the answer is that the route is missing.
pub proof fn law_fleet_needs_route_and_troops(target: Option<MapTarget>, route_ok: bool, enough_troops: bool)
    ensures
        fleet_outcome(target, route_ok, enough_troops) == FleetStep::Launch ==> route_ok && enough_troops && (target matches Some(
            t,
        ) && (!t.is_teammate && !t.is_allied && (t.owner == 0 || t.owner != t.my_id))),
        (target matches Some(t) && (!t.is_teammate && !t.is_allied && (t.owner == 0 || t.owner != t.my_id))) && !route_ok
            ==> fleet_outcome(target, route_ok, enough_troops) == FleetStep::RouteUnavailable,
        (target matches Some(t) && (!t.is_teammate && !t.is_allied && (t.owner == 0 || t.owner != t.my_id))) && route_ok
            && !enough_troops ==> fleet_outcome(target, route_ok, enough_troops) == FleetStep::TooFewTroops,
{
}

} // verus!
