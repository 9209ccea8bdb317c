use sow_client::net::lobby::{broadcast_merge, first_of_each_id, upsert_position, JoinedLobby};

#[test]
fn repeated_lobby_ids_keep_the_first_entry() {
    assert_eq!(first_of_each_id(&[1, 1]), vec![0]);
    assert_eq!(first_of_each_id(&[3, 1, 3, 2, 1]), vec![0, 1, 3]);
    assert!(first_of_each_id(&[]).is_empty());
}

#[test]
fn lobby_update_replaces_one_entry_or_appends() {
    assert_eq!(upsert_position(&[1, 1], 1), (vec![0], Some(0)));
    assert_eq!(upsert_position(&[2, 2, 5], 5), (vec![0, 2], Some(1)));
    assert_eq!(upsert_position(&[2, 3], 7), (vec![0, 1], None));
}

#[test]
fn joined_lobby_survives_a_broadcast_only_while_waiting() {
    let m = broadcast_merge(true, Some(1), &[1], &[2]);
    assert_eq!(m.listed, vec![0]);
    assert_eq!(m.joined, JoinedLobby::CarriedForward { snapshot: 0 });

    let m = broadcast_merge(false, None, &[2, 1], &[3]);
    assert_eq!(m.listed, vec![0]);
    assert_eq!(m.joined, JoinedLobby::NotWaiting);

    let m = broadcast_merge(false, Some(1), &[1], &[3]);
    assert_eq!(m.joined, JoinedLobby::NotWaiting);

    let m = broadcast_merge(true, Some(4), &[9, 4], &[4, 4, 6]);
    assert_eq!(m.listed, vec![0, 2]);
    assert_eq!(m.joined, JoinedLobby::Listed { listed: 0, snapshot: Some(1) });

    let m = broadcast_merge(true, Some(8), &[1], &[2]);
    assert_eq!(m.joined, JoinedLobby::Dropped);
}

#[test]
fn broadcast_deduplicates_ids() {
    let m = broadcast_merge(false, None, &[], &[1, 1]);
    assert_eq!(m.listed, vec![0]);
}
