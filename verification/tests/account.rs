use sow_client::app::account::{
    account_hint, make_auth_proof, match_detail_url, next_identity_request_id,
    platform_auth_headers, poll_reward_profile_sync, portal_profile_url, profile_fetch_plan,
    profile_history_url, profile_reply_action, profile_search_url, ProfileFetch, ProfileReplyAction,
    ProfileSync, RenameAck, RenamePlan, should_portal_auto_intro, pending_name_after_load,
    profile_switch, settle_pending_receipts, TutorialReport,
};
use sow_client::collections::{StrMap, StrSet};
use sow_client::player_progress::RewardReceipt;
use sow_client::platform_identity::PlatformIdentity;
use sow_client::ClientPhase;

#[test]
fn account_hints_show_eight_characters() {
    assert_eq!(account_hint(Some("0123456789")), "01234567");
    assert_eq!(account_hint(Some("abc")), "abc");
    assert_eq!(account_hint(Some("")), "none");
    assert_eq!(account_hint(None), "none");
}

#[test]
fn identity_request_ids_skip_zero() {
    let mut seq = u64::MAX - 1;
    assert_eq!(next_identity_request_id(&mut seq), u64::MAX);
    assert_eq!(next_identity_request_id(&mut seq), 1);
    assert_eq!(next_identity_request_id(&mut seq), 2);
}

#[test]
fn a_missing_account_is_replaced_once() {
    assert_eq!(
        profile_reply_action(true, false, 404, false, true, true),
        ProfileReplyAction::RetryWithoutAccount
    );
    assert_eq!(
        profile_reply_action(true, false, 404, false, false, true),
        ProfileReplyAction::Failed { status: Some(404) }
    );
    assert_eq!(profile_reply_action(true, true, 200, true, true, true), ProfileReplyAction::Loaded);
    assert_eq!(
        profile_reply_action(true, true, 200, false, true, true),
        ProfileReplyAction::Failed { status: Some(200) }
    );
    assert_eq!(
        profile_reply_action(false, false, 0, false, true, true),
        ProfileReplyAction::Failed { status: None }
    );
}

#[test]
fn joins_carry_the_portal_token_or_the_anonymous_secret() {
    let mut cg = PlatformIdentity::self_hosted("P".to_string());
    cg.provider = "crazygames";
    cg.external_id = Some("ext".to_string());
    cg.auth_token = Some("tok".to_string());
    let p = make_auth_proof(false, &cg, None, None).unwrap();
    assert_eq!(p.provider, "crazygames");
    assert_eq!(p.account_id, None);
    assert_eq!(p.token, "tok");
    assert!(make_auth_proof(true, &cg, None, None).is_none());
    let me = PlatformIdentity::self_hosted("P".to_string());
    assert!(make_auth_proof(false, &me, Some("id".to_string()), None).is_none());
    let p = make_auth_proof(false, &me, Some("id".to_string()), Some("sec".to_string())).unwrap();
    assert_eq!(p.provider, "anonymous");
    assert_eq!(p.account_id.as_deref(), Some("id"));
    let mut wou = cg.clone();
    wou.provider = "wou";
    assert_eq!(make_auth_proof(false, &wou, None, None).unwrap().account_id.as_deref(), Some("ext"));
    wou.auth_token = Some(String::new());
    assert!(make_auth_proof(false, &wou, None, None).is_none());
}

#[test]
fn platform_auth_headers_name_the_provider_off_site() {
    let mut id = PlatformIdentity::self_hosted("P".to_string());
    assert_eq!(platform_auth_headers(&id), (None, None));
    id.auth_token = Some("t".to_string());
    assert_eq!(platform_auth_headers(&id), (Some("t".to_string()), None));
    id.provider = "poki";
    assert_eq!(platform_auth_headers(&id), (Some("t".to_string()), Some("poki".to_string())));
}

#[test]
fn profile_urls_are_form_encoded() {
    assert_eq!(
        portal_profile_url("https://db/", "crazygames", "a b&c"),
        "https://db/profile?provider=crazygames&external_id=a+b%26c"
    );
    assert_eq!(
        profile_history_url("https://db", "é", 40),
        "https://db/profiles/%C3%A9/matches?cursor=40&limit=20"
    );
    assert_eq!(profile_search_url("https://db", "x*y"), "https://db/profiles/search?q=x*y&limit=20");
    assert_eq!(match_detail_url("https://db//", "m/1"), "https://db/matches/m%2F1");
}

#[test]
fn profile_fetches_queue_behind_other_requests() {
    assert_eq!(profile_fetch_plan(true, false, "wou", Some("x")), ProfileFetch::Queue);
    assert_eq!(profile_fetch_plan(false, false, "wou", Some("x")), ProfileFetch::Portal);
    assert_eq!(profile_fetch_plan(false, false, "wou", Some("")), ProfileFetch::Anonymous);
    assert_eq!(profile_fetch_plan(false, false, "self", Some("x")), ProfileFetch::Anonymous);
}

#[test]
fn reward_sync_retries_every_thirty_seconds_from_the_menu() {
    let mut retry = Some(1_000);
    assert!(!poll_reward_profile_sync(true, ClientPhase::Playing, true, false, false, &mut retry, 2_000));
    assert!(poll_reward_profile_sync(true, ClientPhase::MainMenu, true, false, false, &mut retry, 2_000));
    assert_eq!(retry, Some(32_000));
    assert!(!poll_reward_profile_sync(true, ClientPhase::MainMenu, true, false, false, &mut retry, 3_000));
}

#[test]
fn stale_profile_and_rename_answers_are_ignored() {
    let mut sync = ProfileSync {
        last_applied_request: 5,
        request_in_flight: true,
        display_name_save_request_id: Some(9),
        refresh_pending: true,
        pending_display_name: Some("New".to_string()),
    };
    assert_eq!(sync.profile_loaded(5), None);
    assert_eq!(sync.profile_loaded(6), Some(false));
    assert!(sync.refresh_pending);
    assert!(matches!(sync.display_name_saved(8, "a", "New", Some("a")), RenameAck::Stale));
    assert!(matches!(
        sync.display_name_saved(9, "a", "New", Some("a")),
        RenameAck::Confirmed { refresh: true }
    ));
    assert_eq!(sync.pending_display_name, None);
    assert!(!sync.refresh_pending);
}

#[test]
fn a_rename_overtaken_by_another_name_is_resent() {
    let mut sync = ProfileSync {
        last_applied_request: 0,
        request_in_flight: false,
        display_name_save_request_id: Some(3),
        refresh_pending: false,
        pending_display_name: Some("Newer".to_string()),
    };
    match sync.display_name_saved(3, "a", "New", Some("a")) {
        RenameAck::Resend { name } => assert_eq!(name, "Newer"),
        _ => panic!("expected a resend"),
    }
    assert_eq!(sync.display_name_save_failed(3), None);
}

#[test]
fn portal_intro_gives_way_to_invites() {
    assert!(should_portal_auto_intro(true, false, true));
    assert!(!should_portal_auto_intro(true, true, false));
    assert!(!should_portal_auto_intro(false, false, true));
    assert!(should_portal_auto_intro(false, false, false));
}

fn idle_sync() -> ProfileSync {
    ProfileSync {
        last_applied_request: 0,
        request_in_flight: false,
        display_name_save_request_id: None,
        refresh_pending: false,
        pending_display_name: None,
    }
}

#[test]
fn renames_are_trimmed_queued_or_sent() {
    let me = PlatformIdentity::self_hosted("P".to_string());
    let mut seq = 7;
    let mut sync = idle_sync();
    assert!(matches!(sync.begin_rename("   ", true, "anonymous", &me, None, &mut seq), RenamePlan::Refused));
    assert_eq!(sync.pending_display_name, None);
    match sync.begin_rename("  Ada ", true, "anonymous", &me, Some("sec".to_string()), &mut seq) {
        RenamePlan::SendAnonymous { request_id, name, secret } => {
            assert_eq!((request_id, name.as_str(), secret.as_str()), (8, "Ada", "sec"));
        }
        other => panic!("unexpected {other:?}"),
    }
    assert_eq!(sync.display_name_save_request_id, Some(8));
    assert!(matches!(sync.begin_rename("Bea", true, "anonymous", &me, None, &mut seq), RenamePlan::Queued));
    assert_eq!(sync.pending_display_name.as_deref(), Some("Bea"));
    let mut fresh = idle_sync();
    assert!(matches!(fresh.begin_rename("Cy", true, "crazygames", &me, None, &mut seq), RenamePlan::CannotSave));
    assert!(matches!(
        fresh.begin_rename("Cy", true, "anonymous", &me, None, &mut seq),
        RenamePlan::MissingSecret { request_id: 9 }
    ));
    let mut portal = PlatformIdentity::self_hosted("P".to_string());
    portal.provider = "crazygames";
    portal.external_id = Some("e".to_string());
    portal.auth_token = Some("t".to_string());
    let mut other = idle_sync();
    assert!(matches!(
        other.begin_rename("Dee", true, "crazygames", &portal, None, &mut seq),
        RenamePlan::SendPlatform { request_id: 10, .. }
    ));
}

#[test]
fn loaded_profiles_are_classified() {
    let same = profile_switch(Some("a"), "a", true, false);
    assert!(!same.changed && !same.switched && same.retry_tutorial);
    let first = profile_switch(None, "a", true, false);
    assert!(first.changed && !first.switched && !first.retry_tutorial);
    let other = profile_switch(Some("b"), "a", false, false);
    assert!(other.changed && other.switched);
}

fn receipt(id: &str, pending: bool) -> RewardReceipt {
    RewardReceipt { id: id.to_string(), pending_verification: pending }
}

#[test]
fn settled_receipts_leave_the_pending_set() {
    let mut pending = StrSet::new();
    pending.insert("r1".to_string());
    pending.insert("r2".to_string());
    let mut cloud = StrMap::new();
    cloud.insert("r1".to_string(), receipt("r1", false));
    cloud.insert("r2".to_string(), receipt("r2", true));
    let mut progress = StrMap::new();
    progress.insert("r3".to_string(), receipt("r3", true));
    progress.insert("r4".to_string(), receipt("r4", false));
    let (still, done) = settle_pending_receipts(&pending, &cloud, &progress);
    assert_eq!(done, vec!["r1".to_string()]);
    let mut left = still.to_vec();
    left.sort();
    assert_eq!(left, vec!["r2".to_string(), "r3".to_string()]);
}

#[test]
fn stored_pending_names_apply_to_their_account_only() {
    let (p, drop, shown) =
        pending_name_after_load(None, Some((Some("a".to_string()), "Ada".to_string())), "a", "Old");
    assert_eq!((p.as_deref(), drop, shown.as_str()), (Some("Ada"), false, "Ada"));
    let (p, drop, shown) =
        pending_name_after_load(None, Some((Some("b".to_string()), "Ada".to_string())), "a", "Old");
    assert_eq!((p, drop, shown.as_str()), (None, true, "Old"));
    let (p, drop, _) = pending_name_after_load(Some("Old".to_string()), None, "a", "Old");
    assert_eq!((p, drop), (None, true));
}

#[test]
fn tutorial_reports_need_an_authorization_and_a_free_slot() {
    let me = PlatformIdentity::self_hosted("P".to_string());
    let mut seq = 0;
    let mut sync = idle_sync();
    assert!(matches!(sync.begin_tutorial_report(false, &me, Some("s".to_string()), &mut seq), TutorialReport::Skip));
    assert!(matches!(sync.begin_tutorial_report(true, &me, None, &mut seq), TutorialReport::Skip));
    match sync.begin_tutorial_report(true, &me, Some("s".to_string()), &mut seq) {
        TutorialReport::Send { request_id, secret, provider } => {
            assert_eq!((request_id, secret.as_deref(), provider.as_str()), (1, Some("s"), "anonymous"));
        }
        other => panic!("unexpected {other:?}"),
    }
    assert!(sync.request_in_flight);
    assert!(matches!(sync.begin_tutorial_report(true, &me, Some("s".to_string()), &mut seq), TutorialReport::Wait));
    sync.refresh_pending = true;
    assert!(sync.tutorial_report_failed());
    assert!(!sync.request_in_flight && !sync.refresh_pending);
    let mut portal = PlatformIdentity::self_hosted("P".to_string());
    portal.provider = "wou";
    portal.external_id = Some("e".to_string());
    portal.auth_token = Some("t".to_string());
    match sync.begin_tutorial_report(true, &portal, Some("s".to_string()), &mut seq) {
        TutorialReport::Send { request_id, secret, provider } => {
            assert_eq!((request_id, secret, provider.as_str()), (2, None, "wou"));
        }
        other => panic!("unexpected {other:?}"),
    }
}

#[test]
fn a_rename_answer_with_no_name_waiting_changes_nothing() {
    let mut sync = ProfileSync {
        last_applied_request: 0,
        request_in_flight: false,
        display_name_save_request_id: Some(4),
        refresh_pending: true,
        pending_display_name: None,
    };
    assert!(matches!(sync.display_name_saved(4, "a", "New", Some("a")), RenameAck::NothingPending));
    assert!(sync.refresh_pending);
    assert_eq!(sync.display_name_save_request_id, None);
}
