use std::collections::BTreeSet;
use sow_client::anonymous_identity::{
    clear_account_id, clear_pending_display_name, load_account_id, load_account_secret,
    load_pending_display_name, save_pending_display_name, boot_pending_display_name,
    load_pending_reward_receipt_ids, pending_reward_receipts_storage_key, save_account_id,
    save_account_secret, save_pending_reward_receipt_ids, LocalStorage,
    PENDING_DISPLAY_NAME_STORAGE_KEY,
};

#[test]
fn account_id_and_secret_round_trip_through_storage() {
    let mut store = LocalStorage::new();
    assert_eq!(load_account_id(&store), None);
    save_account_id(&mut store, "cafe");
    save_account_secret(&mut store, "s3cret");
    assert_eq!(load_account_id(&store).as_deref(), Some("cafe"));
    assert_eq!(load_account_secret(&store).as_deref(), Some("s3cret"));
    clear_account_id(&mut store);
    assert_eq!(load_account_id(&store), None);
    assert_eq!(load_account_secret(&store).as_deref(), Some("s3cret"));
}

#[test]
fn an_empty_stored_id_reads_as_none() {
    let mut store = LocalStorage::new();
    save_account_id(&mut store, "");
    assert_eq!(load_account_id(&store), None);
}

#[test]
fn clearing_the_pending_display_name_removes_its_entry() {
    let mut store = LocalStorage::new();
    store.set_item(PENDING_DISPLAY_NAME_STORAGE_KEY, "{\"name\":\"x\"}");
    clear_pending_display_name(&mut store);
    assert_eq!(store.get_item(PENDING_DISPLAY_NAME_STORAGE_KEY), None);
}

#[test]
fn receipt_keys_trim_and_bound_the_account_id() {
    assert_eq!(
        pending_reward_receipts_storage_key("  cafe \n").as_deref(),
        Some("sow_pending_reward_receipts_v1:cafe")
    );
    assert_eq!(pending_reward_receipts_storage_key("   "), None);
    assert_eq!(pending_reward_receipts_storage_key(&"a".repeat(129)), None);
    assert!(pending_reward_receipts_storage_key(&"a".repeat(128)).is_some());
}

#[test]
fn pending_receipts_are_saved_loaded_and_removed_when_empty() {
    let mut store = LocalStorage::new();
    let mut ids = BTreeSet::new();
    ids.insert("r2".to_string());
    ids.insert("r1".to_string());
    save_pending_reward_receipt_ids(&mut store, "cafe", &ids);
    assert_eq!(
        store.get_item("sow_pending_reward_receipts_v1:cafe").as_deref(),
        Some("[\"r1\",\"r2\"]")
    );
    assert_eq!(load_pending_reward_receipt_ids(&store, "cafe"), ids);
    assert!(load_pending_reward_receipt_ids(&store, "other").is_empty());
    save_pending_reward_receipt_ids(&mut store, "cafe", &BTreeSet::new());
    assert_eq!(store.get_item("sow_pending_reward_receipts_v1:cafe"), None);
}

#[test]
fn unreadable_receipt_lists_load_as_empty() {
    let mut store = LocalStorage::new();
    store.set_item("sow_pending_reward_receipts_v1:cafe", "not json");
    assert!(load_pending_reward_receipt_ids(&store, "cafe").is_empty());
}

#[test]
fn pending_display_name_reads_back_trimmed() {
    let mut store = LocalStorage::new();
    assert_eq!(load_pending_display_name(&store), None);
    save_pending_display_name(&mut store, Some(" acc-1 "), "  Boudica  ");
    assert_eq!(
        load_pending_display_name(&store),
        Some((Some("acc-1".to_string()), "Boudica".to_string()))
    );
    save_pending_display_name(&mut store, None, "Cassi");
    assert_eq!(load_pending_display_name(&store), Some((None, "Cassi".to_string())));
    save_pending_display_name(&mut store, Some("acc"), "   ");
    assert_eq!(load_pending_display_name(&store), None);
    store.set_item(PENDING_DISPLAY_NAME_STORAGE_KEY, "{\"name\":\"Rome\",\"account_id\":7}");
    assert_eq!(load_pending_display_name(&store), Some((None, "Rome".to_string())));
    store.set_item(PENDING_DISPLAY_NAME_STORAGE_KEY, "not json");
    assert_eq!(load_pending_display_name(&store), None);
}

#[test]
fn boot_takes_up_a_pending_name_only_for_the_stored_account() {
    let mut store = LocalStorage::new();
    assert_eq!(boot_pending_display_name(&store), None);
    save_pending_display_name(&mut store, None, "Cassi");
    assert_eq!(boot_pending_display_name(&store).as_deref(), Some("Cassi"));
    save_pending_display_name(&mut store, Some("acc-1"), "Rome");
    assert_eq!(boot_pending_display_name(&store), None);
    save_account_id(&mut store, "acc-1");
    assert_eq!(boot_pending_display_name(&store).as_deref(), Some("Rome"));
    save_account_id(&mut store, "acc-2");
    assert_eq!(boot_pending_display_name(&store), None);
}
