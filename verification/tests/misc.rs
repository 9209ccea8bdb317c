use sow_client::app::state::{
    viewport_alert_replaces, HoverPointer, LoadPhase, LoadTelemetry, TutorialObservation,
    ViewportAlertKind,
};
use sow_client::asset_config::AssetConfig;
use sow_client::audio::wav::{encode_wav, WavError, SAMPLE_RATE};
use sow_client::input::keys::{handle_key_event, BuildChoice, Key, KeyAction, PanKeys};
use sow_client::map_cache::{base64_decode, base64_encode, decode_base64, encode_base64};
use sow_client::platform_identity::PlatformIdentity;
use sow_client::text::{contains_text, trim_trailing_slashes, trim_white_space};

#[test]
fn base64_round_trips() {
    let data: Vec<u8> = (0u8..=255).collect();
    let text = encode_base64(&data);
    assert_eq!(decode_base64(&text), Ok(data.clone()));
    assert_eq!(encode_base64(b"Ma"), "TWE=");
    assert_eq!(base64_encode(b"Man"), Some("TWFu".to_string()));
    assert_eq!(base64_decode("TWE="), Some(b"Ma".to_vec()));
    assert_eq!(base64_decode("T"), None);
    assert_eq!(base64_decode("T!=="), None);
}

#[test]
fn wav_files_have_the_pcm_header() {
    let frames = [[0i16, -1], [i16::MAX, i16::MIN]];
    let wav = encode_wav(&frames).unwrap();
    assert_eq!(wav.len(), 44 + 8);
    assert_eq!(&wav[0..4], b"RIFF");
    assert_eq!(u32::from_le_bytes(wav[4..8].try_into().unwrap()), 44);
    assert_eq!(&wav[8..16], b"WAVEfmt ");
    assert_eq!(u16::from_le_bytes([wav[22], wav[23]]), 2);
    assert_eq!(u32::from_le_bytes(wav[24..28].try_into().unwrap()), SAMPLE_RATE);
    assert_eq!(u32::from_le_bytes(wav[28..32].try_into().unwrap()), SAMPLE_RATE * 4);
    assert_eq!(&wav[36..40], b"data");
    assert_eq!(u32::from_le_bytes(wav[40..44].try_into().unwrap()), 8);
    assert_eq!(&wav[44..], &[0x00, 0x00, 0xff, 0xff, 0xff, 0x7f, 0x00, 0x80]);
    assert_eq!(encode_wav(&[]), Err(WavError::Empty));
}

#[test]
fn asset_urls_drop_trailing_slashes_and_bust_caches() {
    let c = AssetConfig::resolve(
        "https://maps/".to_string(),
        "https://assets//".to_string(),
        "https://db".to_string(),
        Some("1700"),
    );
    assert_eq!(c.map_url("world", "map.bin.br"), "https://maps/world/map.bin.br");
    assert_eq!(c.avatar_url("a.png"), "https://assets/gameplay/avatars/a.png?v=1700");
    assert_eq!(c.leader_portrait_url("b.png"), "https://assets/shell/leaders/b.png?v=1700");
    assert_eq!(c.boot_ui_asset_url("c.png"), "https://assets/shell/loader/c.png?v=1700");
    assert_eq!(AssetConfig::resolve_cache_bust(Some("__BUILD_TS__")), "");
    assert_eq!(AssetConfig::resolve_cache_bust(None), "");
    let plain = AssetConfig::resolve("m".to_string(), "a".to_string(), "d".to_string(), None);
    assert_eq!(plain.avatar_url("x"), "a/gameplay/avatars/x");
}

#[test]
fn self_hosted_identity_has_only_a_name() {
    let p = PlatformIdentity::self_hosted("Ada".to_string());
    assert_eq!(p.provider, "self");
    assert_eq!(p.display_name, "Ada");
    assert!(p.external_id.is_none() && p.avatar_url.is_none() && p.auth_token.is_none());
}

#[test]
fn higher_alerts_win_and_persistent_ones_keep_their_timer() {
    assert!(viewport_alert_replaces(None, ViewportAlertKind::UnderAttack));
    assert!(!viewport_alert_replaces(Some(ViewportAlertKind::Victory), ViewportAlertKind::Betrayal));
    assert!(viewport_alert_replaces(Some(ViewportAlertKind::UnderAttack), ViewportAlertKind::AllianceRequest));
    assert!(!viewport_alert_replaces(Some(ViewportAlertKind::UnderAttack), ViewportAlertKind::UnderAttack));
    assert!(viewport_alert_replaces(Some(ViewportAlertKind::Betrayal), ViewportAlertKind::Betrayal));
    assert_ne!(HoverPointer::Absent, HoverPointer::Touch);
}

#[test]
fn load_phases_are_marked_once() {
    let mut t = LoadTelemetry::new();
    assert_eq!(t.mark_once(LoadPhase::RelayConnected, 10), Some(None));
    t.reset_for_relay_handoff(100);
    assert_eq!(t.mark_once(LoadPhase::RelayConnected, 150), Some(Some(50)));
    assert_eq!(t.mark_once(LoadPhase::RelayConnected, 200), None);
    assert_eq!(t.relay_connected_at, Some(150));
}

#[test]
fn tutorial_observation_resets_to_nothing_seen() {
    let mut o = TutorialObservation::new();
    o.seen_attacks.insert(4);
    o.seen_defeated_names.insert("Rome".to_string());
    o.reset();
    assert!(o.seen_attacks.is_empty() && o.seen_defeated_names.is_empty());
}

#[test]
fn keys_pan_and_pick_structures_only_in_a_match() {
    let mut pan = PanKeys { up: false, down: false, left: false, right: false };
    assert_eq!(handle_key_event(&mut pan, true, false, true, Key::W), KeyAction::Nothing);
    assert!(pan.up);
    assert_eq!(handle_key_event(&mut pan, true, false, true, Key::Numpad(3)), KeyAction::SelectBuilding(BuildChoice::Port));
    assert_eq!(handle_key_event(&mut pan, true, false, true, Key::Digit(0)), KeyAction::ToggleAtomBomb);
    assert_eq!(handle_key_event(&mut pan, true, false, false, Key::B), KeyAction::Nothing);
    assert_eq!(handle_key_event(&mut pan, true, false, true, Key::Escape), KeyAction::Cancel);
    assert_eq!(handle_key_event(&mut pan, false, false, true, Key::B), KeyAction::Nothing);
    assert!(!pan.up);
}

#[test]
fn text_helpers() {
    assert_eq!(trim_trailing_slashes("a//"), "a");
    assert_eq!(trim_white_space("\u{3000} x y\t"), "x y");
    assert!(contains_text("Requeueing now", "Requeueing"));
    assert!(!contains_text("Req", "Requeueing"));
    assert!(contains_text("abc", ""));
}

#[test]
fn legacy_currency_moves_to_crowns_once() {
    let mut m = sow_client::collections::StrMap::new();
    m.insert("laurels".to_string(), "725".to_string());
    m.insert("xp".to_string(), "10".to_string());
    sow_client::player_progress::migrate_legacy_currency_json(&mut m);
    assert_eq!(m.get(&"crowns".to_string()).map(String::as_str), Some("725"));
    assert!(!m.contains_key(&"laurels".to_string()));
    let mut n = sow_client::collections::StrMap::new();
    n.insert("laurels".to_string(), "40".to_string());
    n.insert("crowns".to_string(), "725".to_string());
    sow_client::player_progress::migrate_legacy_currency_json(&mut n);
    assert_eq!(n.get(&"crowns".to_string()).map(String::as_str), Some("725"));
    assert_eq!(n.get(&"laurels".to_string()).map(String::as_str), Some("40"));
}

#[test]
fn empty_props_are_dropped() {
    assert_eq!(sow_client::analytics::queued_props("{\"idx\":3}").as_deref(), Some("{\"idx\":3}"));
    assert_eq!(sow_client::analytics::queued_props("{}"), None);
    assert_eq!(sow_client::analytics::queued_props("null"), None);
    assert_eq!(sow_client::analytics::queued_props("not json"), None);
    assert_eq!(sow_client::analytics::queued_props("[1]").as_deref(), Some("[1]"));
}
