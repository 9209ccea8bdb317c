use sow_client::input::placement::{
    find_stack_target_tile, resolve_build_target_tile, resolve_building_placement_tile,
    BuildingSnapshot, PlacementQuery, SpacingRule,
};

const CITY: u8 = 0;
const PORT: u8 = 2;

fn query<'a>(
    kind: u8,
    is_port: bool,
    click: (i32, i32),
    w: u32,
    h: u32,
    owners: &'a [u16],
    terrain: &'a [u8],
    buildings: &'a [BuildingSnapshot],
    rules: &'a [SpacingRule],
) -> PlacementQuery<'a> {
    PlacementQuery {
        kind,
        is_city: kind == CITY,
        is_port,
        spacing_rules: rules,
        click_x: click.0,
        click_y: click.1,
        map_w: w,
        map_h: h,
        owners,
        terrain,
        my_id: 1,
        buildings,
    }
}

#[test]
fn the_clicked_own_land_tile_is_taken() {
    let owners = vec![1u16; 100];
    let terrain = vec![0x80u8; 100];
    let q = query(CITY, false, (4, 5), 10, 10, &owners, &terrain, &[], &[]);
    assert_eq!(resolve_building_placement_tile(&q), Ok(54));
}

#[test]
fn the_nearest_own_land_is_chosen_with_the_smaller_tile_on_ties() {
    let mut owners = vec![0u16; 100];
    owners[3] = 1;
    owners[5] = 1;
    let terrain = vec![0x80u8; 100];
    let q = query(CITY, false, (4, 0), 10, 10, &owners, &terrain, &[], &[]);
    assert_eq!(resolve_building_placement_tile(&q), Ok(3));
}

#[test]
fn each_failure_has_its_reason() {
    let terrain_land = vec![0x80u8; 16];
    let terrain_water = vec![0x00u8; 16];
    let nobody = vec![0u16; 16];
    let mine = vec![1u16; 16];
    let q = query(CITY, false, (1, 1), 4, 4, &nobody, &terrain_land, &[], &[]);
    assert_eq!(resolve_building_placement_tile(&q), Err("Build inside your own land."));
    let q = query(CITY, false, (1, 1), 4, 4, &mine, &terrain_water, &[], &[]);
    assert_eq!(resolve_building_placement_tile(&q), Err("Structures go on land, not water."));
    let city = [BuildingSnapshot { id: 9, owner_id: 2, kind: CITY, tile_idx: 5 }];
    let rules = [SpacingRule { target_kind: CITY, min_distance: 6 }];
    let q = query(CITY, false, (1, 1), 4, 4, &mine, &terrain_land, &city, &rules);
    assert_eq!(
        resolve_building_placement_tile(&q),
        Err("Too close to another City! Minimum spacing is 6 tiles.")
    );
    let q = query(3, false, (1, 1), 4, 4, &mine, &terrain_land, &city, &rules);
    assert_eq!(
        resolve_building_placement_tile(&q),
        Err("Too close to another structure! Spacing rules: City requires 6, other structures require 4.")
    );
    let q = query(PORT, true, (1, 1), 4, 4, &mine, &terrain_land, &[], &[]);
    assert_eq!(resolve_building_placement_tile(&q), Err("No space nearby!"));
}

#[test]
fn a_port_needs_water_within_two_tiles() {
    let owners = vec![1u16; 10];
    let mut terrain = vec![0x80u8; 10];
    terrain[9] = 0x00;
    let q = query(PORT, true, (0, 0), 10, 1, &owners, &terrain, &[], &[]);
    assert_eq!(resolve_building_placement_tile(&q), Ok(7));
}

#[test]
fn stacking_prefers_the_nearest_then_the_smaller_id() {
    let buildings = [
        BuildingSnapshot { id: 5, owner_id: 1, kind: CITY, tile_idx: 12 },
        BuildingSnapshot { id: 3, owner_id: 1, kind: CITY, tile_idx: 14 },
        BuildingSnapshot { id: 1, owner_id: 2, kind: CITY, tile_idx: 13 },
        BuildingSnapshot { id: 2, owner_id: 1, kind: PORT, tile_idx: 13 },
    ];
    assert_eq!(find_stack_target_tile(CITY, 3, 1, 10, 1, 2, &buildings), Some(14));
    assert_eq!(find_stack_target_tile(CITY, 9, 9, 10, 1, 2, &buildings), None);
    let owners = vec![1u16; 100];
    let terrain = vec![0x80u8; 100];
    let q = query(CITY, false, (3, 1), 10, 10, &owners, &terrain, &buildings, &[]);
    assert_eq!(resolve_build_target_tile(&q, 2), Ok(14));
}
