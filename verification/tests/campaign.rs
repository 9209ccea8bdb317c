use sow_client::campaign::dialog::{first_contact, first_contact_for, Line};
use sow_client::campaign::lady_six_sky::{episode_roster, roster, roster_file, FALLBACK_SPAWN};
use sow_client::campaign::{
    check_roster_map, check_spawns_on_map, first_disallowed_setting, roster_from_entries, to_scripted, CampaignId, Civ, LeaderPick, Role, RosterEntry, SpawnColor, Team,
};

fn entry(name: &str, role: &str) -> RosterEntry {
    RosterEntry {
        name: name.to_string(),
        x: 10,
        y: 20,
        role: role.to_string(),
        iq: None,
        civ: None,
        leader: None,
    }
}

#[test]
fn episode_ids_round_trip() {
    for c in CampaignId::all() {
        assert_eq!(CampaignId::from_episode_id(c.episode_id()), Some(c));
    }
    assert_eq!(CampaignId::from_episode_id("six_sky_ep4"), None);
    assert_eq!(CampaignId::SixSkyEp2.menu_title(), "Regent's Fire");
    assert_eq!(CampaignId::SixSkyEp3.menu_subtitle(), "Lady Six Sky · 726–741 CE");
    assert_eq!(CampaignId::Boudica.advisor(), "Boudica");
}

#[test]
fn roles_parse_and_fix_team_ai_and_troops() {
    assert!(matches!(Role::from_name("big_boss"), Some(Role::BigBoss)));
    assert!(Role::from_name("pirate").is_none());
    assert_eq!(Role::Boss.troops(), 2500);
    assert_eq!(Role::Vassal.team_and_ai(), (Some(Team::Blue), false));
    assert_eq!(Role::BigBoss.team_and_ai(), (Some(Team::Blue), true));
    assert_eq!(Role::Neutral.team_and_ai(), (None, false));
    assert!(matches!(Role::Kin.civ(), Civ::Iceni));
}

#[test]
fn rosters_refuse_unknown_roles_and_default_the_spawn() {
    assert!(roster_from_entries(
        vec![entry("Cassi", "independent"), entry("Ghosts", "phantom"), entry("Rome", "big_boss")],
        None,
    )
    .is_none());
    assert!(roster_from_entries(vec![entry("A", "kin"), entry("B", "pirate")], None).is_none());
    assert!(roster_from_entries(vec![entry("Ghosts", "phantom")], Some((1, 2))).is_none());
    assert!(roster_from_entries(Vec::new(), Some((1, 2))).is_none());
    let (factions, spawn) =
        roster_from_entries(vec![entry("Cassi", "independent"), entry("Rome", "big_boss")], None).unwrap();
    assert_eq!(spawn, (696, 45));
    assert_eq!(factions.len(), 2);
    assert_eq!(factions[1].name, "Rome");
    let (_, spawn) = roster_from_entries(vec![entry("Cassi", "kin")], Some((5, 6))).unwrap();
    assert_eq!(spawn, (5, 6));
}

#[test]
fn roster_civ_ids_are_matched_by_key_and_blank_ids_keep_defaults() {
    let mut named = entry("Maya", "vassal");
    named.civ = Some("Maya Civilization".to_string());
    named.leader = Some("lady_six_sky".to_string());
    let mut blank = entry("Cassi", "kin");
    blank.civ = Some(" - ".to_string());
    blank.leader = Some(String::new());
    let (factions, _) = roster_from_entries(vec![named, blank], None).unwrap();
    assert!(matches!(&factions[0].civ, Civ::Named(k) if k == "mayacivilization"));
    assert_eq!(factions[0].leader.as_deref(), Some("lady_six_sky"));
    assert!(matches!(factions[1].civ, Civ::Iceni));
    assert_eq!(factions[1].leader, None);
}

#[test]
fn neutral_factions_cycle_through_the_palette() {
    let mut entries = Vec::new();
    for i in 0..8 {
        entries.push(entry(&format!("n{i}"), "neutral"));
    }
    entries.insert(2, entry("Rome", "boss"));
    let (factions, _) = roster_from_entries(entries, None).unwrap();
    let plans = to_scripted(&factions);
    assert_eq!(plans[0].color, SpawnColor::Neutral(0));
    assert_eq!(plans[2].color, SpawnColor::EnemyBlue);
    assert!(matches!(plans[2].leader, LeaderPick::Caesar));
    assert_eq!(plans[3].color, SpawnColor::Neutral(2));
    assert_eq!(plans[8].color, SpawnColor::Neutral(1));
    assert_eq!(plans[2].troops, 2500);
}

#[test]
fn six_sky_rosters_fall_back_to_episode_one_and_naranjo() {
    assert_eq!(roster_file(2), "assets/campaign/lady_six_sky_ep2.json");
    assert_eq!(roster_file(9), "assets/campaign/lady_six_sky_ep1.json");
    let (factions, spawn) = roster(None);
    assert!(factions.is_empty());
    assert_eq!(spawn, FALLBACK_SPAWN);
}

#[test]
fn first_contact_lines_are_written_or_generic() {
    let l: Line = first_contact("Rome");
    assert_eq!(l.speaker, "Rome");
    assert_eq!(l.title, "The Empire");
    let g = first_contact("Picts");
    assert_eq!(g.title, "A people of Britain");
    assert_eq!(
        g.body,
        "The Picts watch your rising, queen of the Iceni. This is not yet our fight."
    );
    let m = first_contact_for(CampaignId::SixSkyEp2, "Yaxha Lookouts");
    assert_eq!(m.title, "Lakeside people");
    let n = first_contact_for(CampaignId::SixSkyEp1, "Mutal");
    assert_eq!(n.title, "A city of the lowlands");
}

#[test]
fn web_launches_are_checked_against_the_campaign_map() {
    assert_eq!(check_roster_map(CampaignId::Boudica, Some("eastanglia")), Ok(()));
    assert_eq!(
        check_roster_map(CampaignId::SixSkyEp1, Some("eastanglia")),
        Err("Campaign roster references the wrong map.")
    );
    assert!(check_roster_map(CampaignId::Boudica, None).is_err());
    let (factions, _) = roster_from_entries(vec![entry("Cassi", "kin")], None).unwrap();
    assert_eq!(check_spawns_on_map(CampaignId::Boudica, &factions, (895, 503)), Ok(()));
    assert_eq!(
        check_spawns_on_map(CampaignId::Boudica, &factions, (896, 0)),
        Err("Campaign roster contains an out-of-bounds spawn.")
    );
    assert_eq!(first_disallowed_setting(&["starting_troops", "buildings_enabled"]), None);
    assert_eq!(first_disallowed_setting(&["starting_troops", "bots", "x"]), Some(1));
}

#[test]
fn unknown_episodes_play_episode_one() {
    let ep1 = roster_from_entries(vec![entry("Mutal", "boss")], Some((1, 2)));
    let ep2 = roster_from_entries(vec![entry("Caracol", "vassal")], Some((3, 4)));
    let (f, spawn) = episode_roster(7, ep1.clone(), ep2.clone(), None);
    assert_eq!(spawn, (1, 2));
    assert_eq!(f[0].name, "Mutal");
    let (f, spawn) = episode_roster(2, ep1.clone(), ep2, None);
    assert_eq!((f[0].name.as_str(), spawn), ("Caracol", (3, 4)));
    let (f, spawn) = episode_roster(3, ep1, None, None);
    assert!(f.is_empty());
    assert_eq!(spawn, FALLBACK_SPAWN);
}
