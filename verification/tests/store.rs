use sow_client::anonymous_identity::{save_account_secret, LocalStorage};
use sow_client::app::store::{receipt_ack_plan, receipt_batches, store_request, StoreRequest};

fn ids(n: usize) -> Vec<String> {
    (0..n).map(|i| format!("r{i}")).collect()
}

#[test]
fn store_requests_need_credentials() {
    let empty = LocalStorage::new();
    assert!(matches!(
        store_request(true, Some("acc"), "poki", &empty, "https://db/", "/store/skins/unlock"),
        StoreRequest::Busy
    ));
    assert!(matches!(
        store_request(false, None, "poki", &empty, "https://db/", "/store/skins/unlock"),
        StoreRequest::ProfileLoading
    ));
    assert!(matches!(
        store_request(false, Some("acc"), "anonymous", &empty, "https://db/", "/store/skins/unlock"),
        StoreRequest::AccountSetupRequired
    ));
    match store_request(false, Some("acc"), "poki", &empty, "https://db//", "/store/skins/unlock") {
        StoreRequest::Post { url, account_id, auth_secret } => {
            assert_eq!(url, "https://db/store/skins/unlock");
            assert_eq!(account_id, "acc");
            assert_eq!(auth_secret, None);
        }
        _ => panic!("expected a post"),
    }
    let mut store = LocalStorage::new();
    save_account_secret(&mut store, "s3cret");
    match store_request(false, Some("acc"), "anonymous", &store, "https://db", "/store/leaders/unlock") {
        StoreRequest::Post { url, auth_secret, .. } => {
            assert_eq!(url, "https://db/store/leaders/unlock");
            assert_eq!(auth_secret.as_deref(), Some("s3cret"));
        }
        _ => panic!("expected a post"),
    }
}

#[test]
fn receipts_are_acknowledged_in_batches_of_32() {
    assert!(receipt_batches(&ids(0)).is_empty());
    let b = receipt_batches(&ids(70));
    assert_eq!(b.iter().map(Vec::len).collect::<Vec<_>>(), vec![32, 32, 6]);
    assert_eq!(b.concat(), ids(70));
    assert_eq!(receipt_batches(&ids(64)).len(), 2);
    assert_eq!(b[1][0], "r32");
}

#[test]
fn receipt_ack_needs_an_account() {
    let empty = LocalStorage::new();
    assert!(receipt_ack_plan(None, "poki", &empty, "https://db", &ids(3)).is_none());
    assert!(receipt_ack_plan(Some("acc"), "anonymous", &empty, "https://db", &ids(3)).is_none());
    let ack = receipt_ack_plan(Some("acc"), "poki", &empty, "https://db/", &ids(33)).unwrap();
    assert_eq!(ack.url, "https://db/profile/reward-receipts/ack");
    assert_eq!(ack.account_id, "acc");
    assert_eq!(ack.auth_secret, None);
    assert_eq!(ack.batches.len(), 2);
    assert_eq!(ack.batches[1], vec!["r32".to_string()]);
}
