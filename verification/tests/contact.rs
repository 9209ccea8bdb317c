use sow_client::campaign::Team;
use sow_client::hud::tutorial::contact::{
    conquest_reaction, detect_first_contact, owns_tile_near, ContactCandidate,
};

fn grid(w: usize, h: usize, mine: &[(usize, usize)]) -> Vec<u16> {
    let mut g = vec![0u16; w * h];
    for &(x, y) in mine {
        g[y * w + x] = 1;
    }
    g
}

fn tribe(id: u16, x: i32, y: i32) -> ContactCandidate {
    ContactCandidate { id, alive: true, tile_count: 10, center_x: x, center_y: y }
}

#[test]
fn contact_box_reaches_seven_tiles() {
    let owners = grid(30, 30, &[(10, 10)]);
    assert!(owns_tile_near(&owners, 30, 30, 17, 17, 1));
    assert!(owns_tile_near(&owners, 30, 30, 3, 10, 1));
    assert!(!owns_tile_near(&owners, 30, 30, 18, 10, 1));
    assert!(!owns_tile_near(&owners, 30, 30, 10, 18, 1));
    assert!(owns_tile_near(&owners, 30, 30, -3, 10, 1) == false);
    assert!(owns_tile_near(&owners, 30, 30, 10, 10, 1));
}

#[test]
fn first_contact_fires_once_per_faction() {
    let owners = grid(40, 20, &[(5, 5)]);
    let candidates = [
        tribe(1, 5, 5),
        ContactCandidate { alive: false, ..tribe(2, 6, 6) },
        ContactCandidate { tile_count: 0, ..tribe(3, 6, 6) },
        tribe(4, 30, 5),
        tribe(5, 9, 9),
        tribe(6, 8, 8),
    ];
    let mut met = Vec::new();
    assert_eq!(detect_first_contact(&candidates, &mut met, &owners, 40, 20, 1), Some(4));
    assert_eq!(met, vec![5]);
    assert_eq!(detect_first_contact(&candidates, &mut met, &owners, 40, 20, 1), Some(5));
    assert_eq!(met, vec![5, 6]);
    assert_eq!(detect_first_contact(&candidates, &mut met, &owners, 40, 20, 1), None);
    assert_eq!(met, vec![5, 6]);
}

#[test]
fn nearby_factions_react_by_allegiance() {
    let red = Some(Team::Red);
    assert_eq!(conquest_reaction(2, true, 5, red, 1, red, true), Some("🎉"));
    assert_eq!(conquest_reaction(2, true, 5, Some(Team::Blue), 1, red, true), Some("😡"));
    assert_eq!(conquest_reaction(2, true, 5, None, 1, red, true), Some("😮"));
    assert_eq!(conquest_reaction(2, true, 5, None, 1, None, true), Some("😮"));
    assert_eq!(conquest_reaction(1, true, 5, red, 1, red, true), None);
    assert_eq!(conquest_reaction(2, false, 5, red, 1, red, true), None);
    assert_eq!(conquest_reaction(2, true, 0, red, 1, red, true), None);
    assert_eq!(conquest_reaction(2, true, 5, red, 1, red, false), None);
}
