use sow_client::input::map_click::{
    can_attack, city_module_is_available, map_menu_actions, primary_action, shares_land_border,
    MapMenuAction, MapTarget, ModuleKind, OwnStructure, PrimaryAction, StructureClass,
};

#[test]
fn land_border_is_required_for_a_click_attack() {
    let owners = [1, 2, 0, 0];
    let terrain = [0x80, 0x80, 0x80, 0x80];
    assert!(shares_land_border(&owners, &terrain, 2, 2, 1, 2));
    assert!(shares_land_border(&owners, &terrain, 2, 2, 1, 0));
    assert!(!shares_land_border(&owners, &terrain, 2, 2, 1, 3));
}

#[test]
fn neutral_land_is_a_valid_attack_target() {
    let neutral = MapTarget {
        owner: 0,
        is_land: true,
        my_id: 1,
        is_allied: false,
        is_teammate: false,
        has_alliance_request: false,
        has_proposed_alliance: false,
        is_in_renewal_window: false,
    };
    assert!(neutral.is_attackable());
    assert_eq!(neutral.menu_actions(false, true, false), vec![MapMenuAction::Attack]);
    assert_eq!(
        neutral.menu_actions(false, true, true),
        vec![MapMenuAction::Attack, MapMenuAction::Fleet]
    );
}

#[test]
fn map_menu_keeps_actions_on_the_rust_route() {
    let enemy = MapTarget {
        owner: 2,
        is_land: true,
        my_id: 1,
        is_allied: false,
        is_teammate: false,
        has_alliance_request: false,
        has_proposed_alliance: false,
        is_in_renewal_window: false,
    };
    assert_eq!(
        enemy.menu_actions(false, true, false),
        vec![
            MapMenuAction::Transfer,
            MapMenuAction::Attack,
            MapMenuAction::Fleet,
            MapMenuAction::Nuke,
            MapMenuAction::Alliance,
        ]
    );
    assert_eq!(
        enemy.menu_actions(false, false, false),
        vec![
            MapMenuAction::Transfer,
            MapMenuAction::Fleet,
            MapMenuAction::Nuke,
            MapMenuAction::Alliance
        ]
    );

    let ally = MapTarget { is_allied: true, ..enemy };
    assert_eq!(
        ally.menu_actions(false, true, false),
        vec![
            MapMenuAction::Transfer,
            MapMenuAction::Attack,
            MapMenuAction::Fleet,
            MapMenuAction::Alliance,
        ]
    );

    let teammate = MapTarget { is_teammate: true, ..enemy };
    assert_eq!(teammate.menu_actions(false, true, false), vec![MapMenuAction::Transfer]);

    let own_land = MapTarget { owner: 1, ..enemy };
    assert_eq!(
        own_land.menu_actions(false, false, false),
        vec![
            MapMenuAction::BuildCity,
            MapMenuAction::BuildFactory,
            MapMenuAction::BuildPort,
            MapMenuAction::BuildBunker,
        ]
    );

    assert_eq!(enemy.menu_actions(true, false, false), vec![MapMenuAction::Spawn]);
}

#[test]
fn menu_action_names_are_the_wire_names() {
    assert_eq!(MapMenuAction::BuildTradeShip.name(), "build_trade_ship");
    assert_eq!(MapMenuAction::Attack.name(), "attack");
}

#[test]
fn water_between_players_is_no_land_border() {
    let owners = [1, 2];
    let terrain = [0x80, 0x00];
    assert!(!shares_land_border(&owners, &terrain, 2, 1, 1, 2));
}

#[test]
fn a_primary_click_attacks_transfers_or_explains_water() {
    let enemy = MapTarget {
        owner: 2,
        is_land: true,
        my_id: 1,
        is_allied: false,
        is_teammate: false,
        has_alliance_request: false,
        has_proposed_alliance: false,
        is_in_renewal_window: false,
    };
    assert_eq!(primary_action(enemy), PrimaryAction::Attack);
    assert_eq!(primary_action(MapTarget { is_teammate: true, ..enemy }), PrimaryAction::Transfer);
    assert_eq!(primary_action(MapTarget { owner: 1, ..enemy }), PrimaryAction::Nothing);
    assert_eq!(primary_action(MapTarget { is_land: false, ..enemy }), PrimaryAction::WaterFeedback);
}

#[test]
fn click_attacks_need_a_land_border_and_a_land_tile() {
    let owners = [1, 2, 0, 0];
    let terrain = [0x80, 0x80, 0x80, 0x00];
    assert!(can_attack(&owners, &terrain, 2, 2, 1, 2, 1));
    assert!(!can_attack(&owners, &terrain, 2, 2, 1, 0, 3));
    assert!(!can_attack(&owners, &terrain, 2, 2, 1, 2, 9));
}

#[test]
fn city_modules_have_level_caps() {
    assert!(city_module_is_available(ModuleKind::Foundry, 4, 1, None));
    assert!(!city_module_is_available(ModuleKind::Foundry, 5, 1, None));
    assert!(!city_module_is_available(ModuleKind::Arsenal, 3, 5, None));
    assert!(!city_module_is_available(ModuleKind::Arsenal, 0, 2, None));
    assert!(city_module_is_available(ModuleKind::Arsenal, 2, 3, None));
    assert!(city_module_is_available(ModuleKind::Port, 0, 1, Some(0xc0)));
    assert!(!city_module_is_available(ModuleKind::Port, 0, 1, Some(0x80)));
}

#[test]
fn own_tiles_offer_what_their_structure_allows() {
    let own = MapTarget {
        owner: 1,
        is_land: true,
        my_id: 1,
        is_allied: false,
        is_teammate: false,
        has_alliance_request: false,
        has_proposed_alliance: false,
        is_in_renewal_window: false,
    };
    assert_eq!(
        map_menu_actions(own, false, false, false, None, Some(0x80)),
        vec![
            MapMenuAction::UpgradeTile,
            MapMenuAction::BuildCity,
            MapMenuAction::BuildFactory,
            MapMenuAction::BuildPort,
            MapMenuAction::BuildBunker,
        ]
    );
    let city = OwnStructure {
        class: StructureClass::City,
        under_construction: false,
        level: 3,
        arsenal_level: 0,
        port_level: 1,
        foundry_level: 5,
    };
    assert_eq!(
        map_menu_actions(own, false, false, false, Some(city), Some(0xc0)),
        vec![
            MapMenuAction::UpgradeArsenal,
            MapMenuAction::UpgradePort,
            MapMenuAction::BuildWarship,
            MapMenuAction::BuildTradeShip,
        ]
    );
    let building = OwnStructure { under_construction: true, ..city };
    assert!(map_menu_actions(own, false, false, false, Some(building), Some(0xc0)).is_empty());
    assert_eq!(
        map_menu_actions(own, true, false, false, None, Some(0x80)),
        vec![MapMenuAction::Spawn]
    );
}
