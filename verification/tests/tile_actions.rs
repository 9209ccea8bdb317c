use sow_client::campaign::Team;
use sow_client::input::map_click::{MapMenuAction, MapTarget, ModuleKind, OwnStructure, StructureClass};
use sow_client::input::tile_actions::{
    attack_step, click_attack_allowed, click_route, context_menu_step, fleet_step, map_target,
    menu_choice_step, menu_command, menu_cost_basis, module_upgrade_building, nuke_allowed,
    owned_level_sum, ship_build_allowed, structure_at, tile_upgrade_allowed, unavailable_reason,
    AttackStep, ClickRoute, ContextMenuStep, CostBasis, FleetStep, MenuChoiceStep, MenuCommand,
    PlayerView, ShipKind, StructureKind, StructureSnapshot, UnavailableReason,
};

fn player(id: u16, team: Option<Team>) -> PlayerView {
    PlayerView {
        id,
        team,
        active_emoji: None,
        alliances: Vec::new(),
        alliance_requests: Vec::new(),
        alliance_timers: Vec::new(),
    }
}

fn target(owner: u16) -> MapTarget {
    MapTarget {
        owner,
        is_land: true,
        my_id: 1,
        is_allied: false,
        is_teammate: false,
        has_alliance_request: false,
        has_proposed_alliance: false,
        is_in_renewal_window: false,
    }
}

fn city(tile: u32) -> StructureSnapshot {
    StructureSnapshot {
        id: 77,
        owner_id: 1,
        kind: StructureKind::City,
        tile_idx: tile,
        level: 3,
        under_construction: false,
        arsenal_level: 1,
        port_level: 0,
        foundry_level: 5,
    }
}

#[test]
fn map_target_reads_owner_terrain_and_relations() {
    let owners = [0u16, 2, 3, 1];
    let terrain = [0x80u8, 0x80, 0x00, 0x80];
    let mut me = player(1, Some(Team::Red));
    me.alliances = vec![2];
    me.alliance_requests = vec![3];
    me.alliance_timers = vec![(2, 250)];
    let mut two = player(2, Some(Team::Blue));
    two.alliance_requests = vec![1];
    let three = player(3, Some(Team::Red));
    let players = vec![me, two, three];

    let t = map_target(&owners, &terrain, 2, 2, 1, &players, 1).unwrap();
    assert_eq!(t.owner, 2);
    assert!(t.is_land && t.is_allied && !t.is_teammate);
    assert!(t.has_proposed_alliance && !t.has_alliance_request);
    assert!(t.is_in_renewal_window);

    let t = map_target(&owners, &terrain, 2, 2, 1, &players, 2).unwrap();
    assert_eq!(t.owner, 3);
    assert!(!t.is_land && t.is_teammate && t.has_alliance_request && !t.is_allied);

    assert!(map_target(&owners, &terrain, 2, 2, 1, &players, 4).is_none());
    assert!(map_target(&owners, &terrain, u32::MAX, 2, 1, &players, 0).is_none());
}

#[test]
fn betrayer_is_no_longer_an_ally_and_timer_defaults() {
    let owners = [2u16];
    let terrain = [0x80u8];
    let mut me = player(1, None);
    me.alliances = vec![2];
    let mut two = player(2, None);
    two.active_emoji = Some("🗡️".to_string());
    let t = map_target(&owners, &terrain, 1, 1, 1, &vec![me, two], 0).unwrap();
    assert!(!t.is_allied && !t.is_in_renewal_window && !t.is_teammate);

    let mut me = player(1, None);
    me.alliances = vec![2];
    let t = map_target(&owners, &terrain, 1, 1, 1, &vec![me, player(2, None)], 0).unwrap();
    assert!(t.is_allied && !t.is_in_renewal_window);
}

#[test]
fn structure_lookup_and_gates() {
    let buildings = [city(5), StructureSnapshot { id: 9, ..city(5) }];
    assert_eq!(structure_at(&buildings, 5).unwrap().id, 77);
    assert!(structure_at(&buildings, 6).is_none());
    let own = city(5).own_structure();
    assert_eq!(
        own,
        OwnStructure {
            class: StructureClass::City,
            under_construction: false,
            level: 3,
            arsenal_level: 1,
            port_level: 0,
            foundry_level: 5,
        }
    );

    let mine = Some(target(1));
    assert!(tile_upgrade_allowed(mine));
    assert!(!tile_upgrade_allowed(Some(target(2))));
    assert_eq!(module_upgrade_building(mine, Some(city(5)), ModuleKind::Arsenal, Some(0x80)), Some(77));
    assert_eq!(module_upgrade_building(mine, Some(city(5)), ModuleKind::Foundry, Some(0x80)), None);
    assert_eq!(module_upgrade_building(mine, Some(city(5)), ModuleKind::Port, Some(0x80)), None);
    assert_eq!(module_upgrade_building(mine, Some(city(5)), ModuleKind::Port, Some(0xc0)), Some(77));
    assert!(!ship_build_allowed(mine, Some(city(5))));
    assert!(ship_build_allowed(mine, Some(StructureSnapshot { port_level: 1, ..city(5) })));
    assert!(ship_build_allowed(mine, Some(StructureSnapshot { kind: StructureKind::Port, ..city(5) })));
    assert!(nuke_allowed(Some(target(2))));
    assert!(!nuke_allowed(Some(MapTarget { is_allied: true, ..target(2) })));
    assert!(!nuke_allowed(Some(target(0))));
}

#[test]
fn attack_and_fleet_orders() {
    assert_eq!(attack_step(None, true, true), AttackStep::Ignore);
    assert_eq!(
        attack_step(Some(MapTarget { is_land: false, ..target(2) }), true, true),
        AttackStep::WaterFeedback
    );
    assert_eq!(attack_step(Some(target(2)), false, true), AttackStep::Ignore);
    assert_eq!(
        attack_step(Some(MapTarget { is_allied: true, ..target(2) }), true, false),
        AttackStep::ConfirmBetrayal
    );
    assert_eq!(attack_step(Some(target(2)), true, false), AttackStep::OutOfReach);
    assert_eq!(attack_step(Some(target(2)), true, true), AttackStep::Send);
    assert_eq!(attack_step(Some(target(1)), true, true), AttackStep::OutOfReach);

    assert!(click_attack_allowed(false, true, false, true, Some(target(2))));
    assert!(!click_attack_allowed(true, true, false, true, Some(target(2))));
    assert!(!click_attack_allowed(false, true, true, true, Some(target(2))));
    assert!(!click_attack_allowed(false, true, false, true, Some(target(1))));

    assert_eq!(
        fleet_step(Some(MapTarget { is_teammate: true, ..target(2) }), true, true),
        FleetStep::TeammateRefused
    );
    assert_eq!(
        fleet_step(Some(MapTarget { is_allied: true, ..target(2) }), true, true),
        FleetStep::AllyRefused
    );
    assert_eq!(fleet_step(Some(target(1)), true, true), FleetStep::OwnTerritoryRefused);
    assert_eq!(fleet_step(Some(target(0)), false, true), FleetStep::RouteUnavailable);
    assert_eq!(fleet_step(Some(target(0)), true, false), FleetStep::TooFewTroops);
    assert_eq!(fleet_step(Some(target(2)), true, true), FleetStep::Launch);
}

#[test]
fn clicks_and_context_menu() {
    assert_eq!(click_route(true, true, true, true, true, true, true), ClickRoute::ObserverNotice);
    assert_eq!(click_route(false, false, true, true, true, true, true), ClickRoute::Ignore);
    assert_eq!(click_route(false, true, true, true, true, true, true), ClickRoute::Spawn);
    assert_eq!(click_route(false, true, false, true, true, true, true), ClickRoute::LaunchNuke);
    assert_eq!(click_route(false, true, false, false, true, true, true), ClickRoute::PlaceStructure);
    assert_eq!(click_route(false, true, false, false, false, true, true), ClickRoute::SelectWarships);
    assert_eq!(click_route(false, true, false, false, false, false, true), ClickRoute::Primary);
    assert_eq!(click_route(false, true, false, false, false, false, false), ClickRoute::ClearSelection);

    assert_eq!(context_menu_step(true, true, true, false, 0), ContextMenuStep::ObserverNotice);
    assert_eq!(context_menu_step(false, false, true, false, 0), ContextMenuStep::Ignore);
    assert_eq!(context_menu_step(false, true, false, false, 0), ContextMenuStep::Close);
    assert_eq!(context_menu_step(false, true, true, true, 0), ContextMenuStep::Unavailable);
    assert_eq!(context_menu_step(false, true, true, false, 41), ContextMenuStep::Open { session: 42 });
    assert_eq!(context_menu_step(false, true, true, false, u64::MAX), ContextMenuStep::Open { session: 0 });
}

#[test]
fn menu_choices_run_only_for_the_open_menu() {
    let offered = [MapMenuAction::Attack, MapMenuAction::Fleet];
    let open = Some((7u64, 12u32));
    assert_eq!(menu_choice_step(None, 7, 12, MapMenuAction::Attack, &offered, false), MenuChoiceStep::Stale);
    assert_eq!(menu_choice_step(open, 6, 12, MapMenuAction::Attack, &offered, false), MenuChoiceStep::Stale);
    assert_eq!(menu_choice_step(open, 7, 13, MapMenuAction::Attack, &offered, false), MenuChoiceStep::Stale);
    assert_eq!(menu_choice_step(open, 7, 12, MapMenuAction::Nuke, &offered, false), MenuChoiceStep::Unavailable);
    assert_eq!(menu_choice_step(open, 7, 12, MapMenuAction::Fleet, &offered, true), MenuChoiceStep::NeedGold);
    assert_eq!(
        menu_choice_step(open, 7, 12, MapMenuAction::Fleet, &offered, false),
        MenuChoiceStep::Run(MapMenuAction::Fleet)
    );
    assert_eq!(menu_command(MapMenuAction::BuildPort), MenuCommand::SelectStructure(StructureKind::Port));
    assert_eq!(menu_command(MapMenuAction::UpgradeFoundry), MenuCommand::UpgradeModule(ModuleKind::Foundry));
    assert_eq!(menu_command(MapMenuAction::BuildTradeShip), MenuCommand::BuildShip(ShipKind::TradeShip));
    assert_eq!(menu_command(MapMenuAction::Alliance), MenuCommand::Alliance);
}

#[test]
fn unavailable_reasons() {
    assert_eq!(unavailable_reason(None, true, None), UnavailableReason::NothingHere);
    assert_eq!(unavailable_reason(Some(target(0)), false, None), UnavailableReason::FleetUnavailable);
    assert_eq!(unavailable_reason(Some(target(0)), true, None), UnavailableReason::NothingHere);
    assert_eq!(
        unavailable_reason(Some(MapTarget { is_teammate: true, ..target(2) }), true, None),
        UnavailableReason::Teammate
    );
    assert_eq!(
        unavailable_reason(Some(MapTarget { is_land: false, ..target(1) }), true, None),
        UnavailableReason::NeedOwnedLand
    );
    assert_eq!(
        unavailable_reason(Some(target(1)), true, Some(StructureSnapshot { under_construction: true, ..city(3) })),
        UnavailableReason::UnderConstruction
    );
    assert_eq!(
        unavailable_reason(Some(target(1)), true, Some(city(3))),
        UnavailableReason::NoStructureAction { kind: StructureKind::City, level: 3 }
    );
    assert_eq!(unavailable_reason(Some(target(1)), true, None), UnavailableReason::NoConstructionAction);
    assert_eq!(unavailable_reason(Some(target(2)), true, None), UnavailableReason::NothingHere);
}

#[test]
fn menu_prices_follow_levels() {
    let buildings = [
        city(4),
        StructureSnapshot { id: 2, level: 2, tile_idx: 9, ..city(0) },
        StructureSnapshot { id: 3, owner_id: 5, level: 7, ..city(0) },
        StructureSnapshot { id: 4, kind: StructureKind::Port, level: 4, ..city(0) },
    ];
    assert_eq!(owned_level_sum(&buildings, 1, StructureKind::City), 5);
    assert_eq!(owned_level_sum(&buildings, 1, StructureKind::Port), 4);
    assert_eq!(owned_level_sum(&buildings, 9, StructureKind::City), 0);

    let upgrades = [0u32, 300, 2];
    assert_eq!(
        menu_cost_basis(MapMenuAction::UpgradeTile, &upgrades, 1, &buildings, 1),
        (CostBasis::Tile { level: 300 }, Some(44))
    );
    assert_eq!(
        menu_cost_basis(MapMenuAction::UpgradeTile, &upgrades, 7, &buildings, 1),
        (CostBasis::Tile { level: 0 }, Some(0))
    );
    assert_eq!(
        menu_cost_basis(MapMenuAction::UpgradeArsenal, &upgrades, 4, &buildings, 1),
        (CostBasis::Module { module: ModuleKind::Arsenal, next_level: 2 }, Some(1))
    );
    assert_eq!(
        menu_cost_basis(MapMenuAction::UpgradePort, &upgrades, 8, &buildings, 1),
        (CostBasis::Module { module: ModuleKind::Port, next_level: 1 }, Some(0))
    );
    assert_eq!(
        menu_cost_basis(MapMenuAction::BuildWarship, &upgrades, 4, &buildings, 1),
        (CostBasis::Ship(ShipKind::Warship), None)
    );
    assert_eq!(
        menu_cost_basis(MapMenuAction::BuildCity, &upgrades, 4, &buildings, 1),
        (CostBasis::Structure { kind: StructureKind::City, owned_levels: 5 }, None)
    );
    assert_eq!(menu_cost_basis(MapMenuAction::Attack, &upgrades, 4, &buildings, 1), (CostBasis::Free, None));
}
