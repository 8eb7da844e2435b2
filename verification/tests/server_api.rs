use soundtime::admin::{
    check_ban, known_instances, parse_role, plan_import, ImportDomainEntry, Role,
};
use soundtime::editorial::{
    ai_base_url, ai_configured, ai_model, bearer, chat_completions_url, check_api_key,
    clean_ai_content, generate_result, needs_regeneration, order_by_position, plan_playlists,
    playlist_shape, should_auto_generate, system_prompt, user_prompt, AiPlaylist, AlbumCover,
    EditorialError, EditorialTrack,
};
use soundtime::history::{recent_fetch_size, recent_limit, recent_listens, taste_update_due};
use soundtime::lastfm::{
    connected_status, decrypt_session_key, encrypt_session_key, encrypt_session_key_with_nonce, reportable_track,
    scrobble_reply, scrobble_result, session_from_reply, session_request_params,
    track_call_params, ScrobbleReply,
};
use soundtime::library::{check_track_owner, CheckFavoritesParams};
use soundtime::lyrics::{choose_source, LyricsSource};
use soundtime::moderation::{
    check_report_reason, report_stats, resolve_report, tos_response, ResolveReportRequest,
    TrackOutcome, DEFAULT_TOS,
};
use soundtime::p2p::{add_peer_message, remove_peer_message, PingOutcome};
use soundtime::plugin_api::{plugin_system_disabled, PLUGIN_SYSTEM_DISABLED};
use soundtime::radio::{
    batch_size, candidate_pool, excluded_tracks, fallback_pool_size, next_batch,
    phase_pool_size, radio_seed, RadioSeed, RadioSeedType,
};
use soundtime::setup::{
    admin_account, admin_refusal, check_admin_request, check_setup_step, setup_status, SetupAdminRequest,
};

fn s(x: &str) -> String {
    x.to_string()
}

// ─── Last.fm ────────────────────────────────────────────────────────────

#[test]
fn test_build_api_sig() {
    let params = session_request_params("test_key", "test_token");
    let sig = params.api_sig("test_secret");
    // MD5 of "api_keytest_keymethodauth.getSessiontokentest_tokentest_secret"
    assert_eq!(sig.len(), 32);
    assert!(sig.chars().all(|c| c.is_ascii_hexdigit()));
}

#[test]
fn api_sig_is_md5_of_sorted_pairs_and_secret() {
    let params = session_request_params("test_key", "test_token");
    let sig = params.api_sig("test_secret");
    let expected = format!(
        "{:x}",
        md5::compute("api_keytest_keymethodauth.getSessiontokentest_tokentest_secret".as_bytes())
    );
    assert_eq!(sig, expected);
}

#[test]
fn test_encrypt_decrypt_session_key() {
    let key = "session-key-12345";
    let secret = "my-jwt-secret-for-testing";
    let encrypted = encrypt_session_key(key, secret).unwrap();
    assert_ne!(encrypted, key);
    let decrypted = decrypt_session_key(&encrypted, secret).unwrap();
    assert_eq!(decrypted, key);
}

#[test]
fn test_decrypt_wrong_secret_fails() {
    let key = "session-key-12345";
    let encrypted = encrypt_session_key(key, "correct-secret").unwrap();
    let result = decrypt_session_key(&encrypted, "wrong-secret");
    assert!(result.is_err());
}

#[test]
fn stored_session_key_is_padded_base64_of_nonce_ciphertext_and_tag() {
    // 12 nonce bytes + 17 key bytes + 16 tag bytes = 45 bytes, 60 base64 characters.
    let encrypted = encrypt_session_key("session-key-12345", "secret").unwrap();
    assert_eq!(encrypted.len(), 60);
    assert!(encrypted.len() > "session-key-12345".len());
}

#[test]
fn decrypt_refuses_short_or_garbled_input() {
    assert!(decrypt_session_key("", "secret").is_err());
    assert!(decrypt_session_key("not base64 !!", "secret").is_err());
}

#[test]
fn scrobble_params_are_signed_in_key_order() {
    let p = track_call_params(
        "track.scrobble",
        "KEY",
        "SK",
        "Artist",
        "Title",
        215,
        Some(1_700_000_000),
        Some("Album"),
    );
    let sig = p.api_sig("SECRET");
    let input = "albumAlbumapi_keyKEYartistArtistduration215methodtrack.scrobbleskSKtimestamp1700000000trackTitleSECRET";
    assert_eq!(sig, format!("{:x}", md5::compute(input.as_bytes())));
}

#[test]
fn now_playing_params_leave_out_timestamp_and_missing_album() {
    let p = track_call_params("track.updateNowPlaying", "K", "S", "A", "T", 0, None, None);
    let input = "api_keyKartistAduration0methodtrack.updateNowPlayingskStrackTSECRET";
    assert_eq!(p.api_sig("SECRET"), format!("{:x}", md5::compute(input.as_bytes())));
}

#[test]
fn scrobble_replies_are_classified() {
    assert_eq!(scrobble_reply(200), ScrobbleReply::Accepted);
    assert_eq!(scrobble_reply(204), ScrobbleReply::Accepted);
    assert_eq!(scrobble_reply(403), ScrobbleReply::SessionRevoked);
    assert_eq!(scrobble_reply(500), ScrobbleReply::Failed);
    assert!(scrobble_result(ScrobbleReply::Accepted, "200 OK").is_ok());
    assert_eq!(
        scrobble_result(ScrobbleReply::SessionRevoked, "403 Forbidden").unwrap_err(),
        "Last.fm session revoked"
    );
    assert_eq!(
        scrobble_result(ScrobbleReply::Failed, "500 Internal Server Error").unwrap_err(),
        "Last.fm scrobble failed: 500 Internal Server Error"
    );
}

#[test]
fn session_reply_needs_session_key_and_name() {
    assert_eq!(session_from_reply(false, None, None).unwrap_err(), "No session in Last.fm response");
    assert_eq!(
        session_from_reply(true, None, Some(s("bob"))).unwrap_err(),
        "No session key in Last.fm response"
    );
    assert_eq!(
        session_from_reply(true, Some(s("k")), None).unwrap_err(),
        "No username in Last.fm response"
    );
    assert_eq!(session_from_reply(true, Some(s("k")), Some(s("bob"))).unwrap(), (s("k"), s("bob")));
    let st = connected_status(s("bob"));
    assert!(st.connected && st.scrobble_enabled);
    assert_eq!(st.username.as_deref(), Some("bob"));
}

#[test]
fn reportable_track_needs_artist_and_title() {
    assert!(reportable_track("A", "T"));
    assert!(!reportable_track("", "T"));
    assert!(!reportable_track("A", ""));
}

// ─── Favorites ──────────────────────────────────────────────────────────

#[test]
fn test_check_favorites_params_parsing() {
    let params = CheckFavoritesParams {
        track_ids: "550e8400-e29b-41d4-a716-446655440000,invalid,660e8400-e29b-41d4-a716-446655440001".to_string(),
    };
    let ids = params.ids();
    assert_eq!(ids.len(), 2);
    assert_eq!(ids[0], 0x550e8400_e29b_41d4_a716_446655440000u128);
    assert_eq!(ids[1], 0x660e8400_e29b_41d4_a716_446655440001u128);
}

#[test]
fn test_check_favorites_params_empty() {
    let params = CheckFavoritesParams { track_ids: "".to_string() };
    assert!(params.ids().is_empty());
}

#[test]
fn favorites_ids_are_trimmed() {
    let params = CheckFavoritesParams {
        track_ids: " 550e8400-e29b-41d4-a716-446655440000 , x".to_string(),
    };
    assert_eq!(params.ids(), vec![0x550e8400_e29b_41d4_a716_446655440000u128]);
}

#[test]
fn track_owner_is_checked() {
    assert!(check_track_owner(Some(7), 7, "edit").is_ok());
    assert_eq!(check_track_owner(Some(8), 7, "edit").unwrap_err(), "You can only edit your own tracks");
    assert_eq!(check_track_owner(None, 7, "delete").unwrap_err(), "You can only delete your own tracks");
}

// ─── Plugins API ────────────────────────────────────────────────────────

#[test]
fn test_plugin_system_disabled() {
    let (status, error) = plugin_system_disabled();
    assert_eq!(status, 503);
    assert_eq!(error, "Plugin system is not enabled");
    assert_eq!(PLUGIN_SYSTEM_DISABLED, "Plugin system is not enabled");
}

// ─── Admin ──────────────────────────────────────────────────────────────

#[test]
fn roles_and_bans() {
    assert_eq!(parse_role("admin").unwrap(), Role::Admin);
    assert_eq!(parse_role("user").unwrap(), Role::User);
    assert_eq!(parse_role("root").unwrap_err(), "Invalid role. Use 'admin' or 'user'");
    assert!(check_ban(Role::User).is_ok());
    assert_eq!(check_ban(Role::Admin).unwrap_err(), "Cannot ban an admin user");
}

#[test]
fn known_instances_count_and_order_domains() {
    let domains = vec![s("a.example"), s("b.example"), s("a.example"), s("c.example"), s("a.example"), s("b.example")];
    let blocked = vec![s("b.example")];
    let r = known_instances(&domains, &blocked);
    assert_eq!(r.len(), 3);
    assert_eq!(r[0].domain, "a.example");
    assert_eq!(r[0].track_count, 3);
    assert!(!r[0].is_blocked);
    assert_eq!(r[1].domain, "b.example");
    assert_eq!(r[1].track_count, 2);
    assert!(r[1].is_blocked);
    assert_eq!(r[2].domain, "c.example");
    assert_eq!(r[2].track_count, 1);
}

#[test]
fn known_instances_of_nothing() {
    assert!(known_instances(&vec![], &vec![s("x")]).is_empty());
}

#[test]
fn import_skips_blocked_and_empty_domains() {
    let entries = vec![
        ImportDomainEntry { domain: s(" Evil.Example "), reason: Some(s("spam")) },
        ImportDomainEntry { domain: s("   "), reason: None },
        ImportDomainEntry { domain: s("known.example"), reason: None },
    ];
    let plan = plan_import(&entries, &vec![s("known.example")]);
    assert_eq!(plan.result.imported, 1);
    assert_eq!(plan.result.skipped, 2);
    assert_eq!(plan.to_block[0].0, "evil.example");
    assert_eq!(plan.to_block[0].1.as_deref(), Some("spam"));
}

// ─── Moderation ─────────────────────────────────────────────────────────

#[test]
fn report_reasons_are_trimmed_and_bounded() {
    assert_eq!(check_report_reason("  spam  ").unwrap(), "spam");
    assert!(check_report_reason("   ").is_err());
    assert!(check_report_reason(&"x".repeat(501)).is_err());
    assert!(check_report_reason(&"x".repeat(500)).is_ok());
}

#[test]
fn resolving_a_report() {
    let req = ResolveReportRequest { action: s("resolved"), track_action: Some(s("delete")), admin_note: None };
    let r = resolve_report(&req, true).unwrap();
    assert_eq!(r.track, TrackOutcome::DeleteLocal);
    assert_eq!(r.status, "resolved");
    assert_eq!(r.message, "Signalement resolved. Piste locale supprimée.");
    let r = resolve_report(&req, false).unwrap();
    assert_eq!(r.track, TrackOutcome::Keep);
    assert_eq!(r.message, "Signalement resolved. ");
    let req = ResolveReportRequest { action: s("dismissed"), track_action: Some(s("delete")), admin_note: None };
    assert_eq!(resolve_report(&req, true).unwrap().track, TrackOutcome::Keep);
    let req = ResolveReportRequest { action: s("ignored"), track_action: None, admin_note: None };
    assert_eq!(resolve_report(&req, true).unwrap_err(), "Action invalide (resolved ou dismissed).");
}

#[test]
fn terms_of_service_fall_back_to_default() {
    let r = tos_response(None);
    assert!(r.is_default);
    assert_eq!(r.content, DEFAULT_TOS);
    let r = tos_response(Some(s("custom")));
    assert!(!r.is_default);
    assert_eq!(r.content, "custom");
    let st = report_stats(1, 2, 3);
    assert_eq!(st.total, 6);
}

// ─── Setup ──────────────────────────────────────────────────────────────

#[test]
fn setup_status_and_checks() {
    let st = setup_status(Some("true"), 0, None);
    assert!(st.setup_complete && !st.has_admin && !st.instance_private);
    let req = SetupAdminRequest { username: s("ad"), email: s("a@b.c"), password: s("longenough") };
    assert_eq!(check_admin_request(0, &req).unwrap_err(), "Username must be between 3 and 64 characters");
    assert_eq!(check_admin_request(1, &req).unwrap_err(), "Admin account already exists");
    let req = SetupAdminRequest { username: s("admin"), email: s("a@b.c"), password: s("short") };
    assert_eq!(check_admin_request(0, &req).unwrap_err(), "Password must be at least 8 characters");
    let req = SetupAdminRequest { username: s("admin"), email: s("a@b.c"), password: s("longenough") };
    assert!(check_admin_request(0, &req).is_ok());
    assert_eq!(check_setup_step("user", false).unwrap_err(), "Admin access required");
    assert_eq!(check_setup_step("admin", true).unwrap_err(), "Setup already complete");
    assert!(check_setup_step("admin", false).is_ok());
}

#[test]
fn setup_admin_refusals_and_account() {
    let ok = SetupAdminRequest { username: s("admin"), email: s("a@b.c"), password: s("longenough") };
    assert_eq!(admin_refusal(2, &ok), Some((403, "Admin account already exists")));
    assert_eq!(admin_refusal(0, &ok), None);
    let short = SetupAdminRequest { username: s("ad"), email: s("a@b.c"), password: s("longenough") };
    assert_eq!(admin_refusal(0, &short), Some((400, "Username must be between 3 and 64 characters")));
    let weak = SetupAdminRequest { username: s("admin"), email: s("a@b.c"), password: s("1234567") };
    assert_eq!(admin_refusal(0, &weak), Some((400, "Password must be at least 8 characters")));
    let a = admin_account(ok, s("$argon2id$hash"));
    assert_eq!(a.username, "admin");
    assert_eq!(a.email, "a@b.c");
    assert_eq!(a.password_hash, "$argon2id$hash");
    assert_eq!(a.role, Role::Admin);
    assert!(!a.is_banned);
}

// ─── P2P ────────────────────────────────────────────────────────────────

#[test]
fn peer_messages() {
    assert_eq!(
        add_peer_message("abc", &PingOutcome::Pong { track_count: 12 }).message,
        "peer abc added and responded to ping (12 tracks)"
    );
    assert_eq!(
        add_peer_message("abc", &PingOutcome::Unexpected).message,
        "peer abc added (unexpected response type)"
    );
    assert_eq!(
        add_peer_message("abc", &PingOutcome::Failed { error: s("timeout") }).message,
        "peer abc added but ping failed: timeout"
    );
    assert_eq!(remove_peer_message("abc").message, "peer abc removed");
}

// ─── Lyrics ─────────────────────────────────────────────────────────────

#[test]
fn lyrics_source_follows_settings() {
    assert!(matches!(choose_source(&vec![]).unwrap(), LyricsSource::Off));
    let settings = vec![(s("lyrics_provider"), s("musixmatch"))];
    assert_eq!(choose_source(&settings).unwrap_err(), "Musixmatch API key not configured");
    let settings = vec![(s("lyrics_provider"), s("musixmatch")), (s("lyrics_musixmatch_key"), s("K"))];
    match choose_source(&settings).unwrap() {
        LyricsSource::Musixmatch { api_key } => assert_eq!(api_key, "K"),
        _ => panic!("expected musixmatch"),
    }
    let settings = vec![(s("lyrics_provider"), s("lyricscom"))];
    assert_eq!(choose_source(&settings).unwrap_err(), "Lyrics.com API key not configured");
}

// ─── Radio ──────────────────────────────────────────────────────────────

#[test]
fn test_radio_seed_type_variants() {
    let variants = [
        (RadioSeedType::Track, "Track"),
        (RadioSeedType::Artist, "Artist"),
        (RadioSeedType::Genre, "Genre"),
        (RadioSeedType::PersonalMix, "PersonalMix"),
        (RadioSeedType::Similar, "Similar"),
    ];
    for (st, expected_debug) in variants {
        assert!(format!("{:?}", st).contains(expected_debug));
    }
}

#[test]
fn radio_batch_sizes() {
    assert_eq!(batch_size(None), 5);
    assert_eq!(batch_size(Some(7)), 7);
    assert_eq!(batch_size(Some(100)), 20);
    assert_eq!(phase_pool_size(5), 10);
    assert_eq!(fallback_pool_size(5), 15);
    assert_eq!(fallback_pool_size(20), 60);
}

#[test]
fn radio_seeds_need_their_ids() {
    assert_eq!(radio_seed(RadioSeedType::Track, None, None).unwrap_err(), "seed_id is required for seed_type=track");
    assert_eq!(radio_seed(RadioSeedType::Genre, Some(1), None).unwrap_err(), "genre is required for seed_type=genre");
    assert!(matches!(radio_seed(RadioSeedType::Similar, Some(9), None).unwrap(), RadioSeed::Similar(9)));
    assert!(matches!(radio_seed(RadioSeedType::PersonalMix, None, None).unwrap(), RadioSeed::PersonalMix));
}

#[test]
fn radio_exclude_list_is_capped() {
    let ex: Vec<u128> = (0..2500u128).collect();
    let kept = excluded_tracks(&ex);
    assert_eq!(kept.len(), 2000);
    assert_eq!(kept[1999], 1999);
}

#[test]
fn radio_pool_applies_quotas_then_dedups() {
    let phases = vec![vec![1u128, 2, 3, 4], vec![2u128, 5, 6], vec![7u128, 1]];
    let quotas = vec![3usize, 2, 5];
    assert_eq!(candidate_pool(&phases, &quotas), vec![1, 2, 3, 5, 7]);
    let batch = next_batch(vec![1, 2, 3, 5, 7], 3);
    assert_eq!(batch.len(), 3);
    for x in &batch {
        assert!([1u128, 2, 3, 5, 7].contains(x));
    }
    assert!(batch[0] != batch[1] && batch[1] != batch[2] && batch[0] != batch[2]);
    assert_eq!(next_batch(vec![4, 6], 5).len(), 2);
    assert!(next_batch(vec![], 5).is_empty());
}

// ─── Editorial playlists ────────────────────────────────────────────────

#[test]
fn editorial_needs_a_key_and_tracks() {
    assert!(!ai_configured(&None));
    assert!(!ai_configured(&Some(s(""))));
    assert!(ai_configured(&Some(s("k"))));
    assert_eq!(check_api_key(None).unwrap_err(), EditorialError::KeyNotConfigured);
    assert_eq!(check_api_key(Some(s(""))).unwrap_err(), EditorialError::KeyEmpty);
    assert_eq!(check_api_key(Some(s("k"))).unwrap(), "k");
    assert_eq!(EditorialError::NotEnoughTracks.response_message(), "Not enough tracks to generate playlists (minimum 5)");
    assert_eq!(EditorialError::NotEnoughTracks.message(), "Not enough tracks");
    assert_eq!(playlist_shape(4).unwrap_err(), EditorialError::NotEnoughTracks);
    assert_eq!(playlist_shape(5).unwrap(), (2, 5));
    assert_eq!(playlist_shape(14).unwrap(), (2, 7));
    assert_eq!(playlist_shape(40).unwrap(), (4, 10));
    assert_eq!(playlist_shape(600).unwrap(), (6, 25));
}

#[test]
fn editorial_request_parts() {
    assert_eq!(ai_base_url(None), "https://api.openai.com/v1");
    assert_eq!(ai_model(Some(s("m"))), "m");
    assert_eq!(ai_model(None), "gpt-4o-mini");
    assert_eq!(chat_completions_url("https://x/v1"), "https://x/v1/chat/completions");
    assert_eq!(bearer("k"), "Bearer k");
    assert_eq!(user_prompt("[]"), "Here are the available tracks:\n[]");
    let p = system_prompt(4, 10, true);
    assert!(p.starts_with("You are a music curator for a streaming platform. Create exactly 4 themed playlists"));
    assert!(p.contains("- Each playlist should have 10 to 15 tracks\n- Each playlist needs a creative French name (e.g. \"Nuit Électrique\", \"Voyage Acoustique\")\n"));
    assert!(p.ends_with("\"track_ids\": [\"uuid1\", \"uuid2\", ...]\n  }\n]"));
    let q = system_prompt(2, 5, false);
    assert!(q.contains("- Each playlist should have 5 to 10 tracks\n- Each playlist needs a creative name\n- Each playlist needs a short description (1-2 sentences)\n"));
}

#[test]
fn editorial_answer_is_cleaned_of_fences() {
    assert_eq!(clean_ai_content(Some("```json\n[1]\n```")), "[1]");
    assert_eq!(clean_ai_content(Some("  ```\n[]```  ")), "[]");
    assert_eq!(clean_ai_content(None), "[]");
    assert_eq!(clean_ai_content(Some("[{\"a\":1}]")), "[{\"a\":1}]");
}

#[test]
fn editorial_plans_keep_existing_tracks_only() {
    let t1 = 0x550e8400_e29b_41d4_a716_446655440000u128;
    let t2 = 0x660e8400_e29b_41d4_a716_446655440001u128;
    let tracks = vec![
        EditorialTrack { id: t1, album_id: Some(10) },
        EditorialTrack { id: t2, album_id: None },
    ];
    let albums = vec![AlbumCover { id: 10, cover_url: Some(s("covers/x.jpg")) }];
    let ai = vec![
        AiPlaylist {
            name: s("Nuit"),
            description: s("Calme"),
            track_ids: vec![s("550e8400-e29b-41d4-a716-446655440000"), s("nope"), s("660e8400-e29b-41d4-a716-446655440001")],
        },
        AiPlaylist { name: s("Vide"), description: s("-"), track_ids: vec![s("unknown")] },
        AiPlaylist { name: s("Seul"), description: s("d"), track_ids: vec![s("660e8400-e29b-41d4-a716-446655440001")] },
    ];
    let plans = plan_playlists(ai, &tracks, &albums);
    assert_eq!(plans.len(), 2);
    assert_eq!(plans[0].name, "Nuit");
    assert_eq!(plans[0].track_ids, vec![t1, t2]);
    assert_eq!(plans[0].cover_url.as_deref(), Some("/api/media/covers/x.jpg"));
    assert_eq!(plans[1].name, "Seul");
    assert_eq!(plans[1].track_ids, vec![t2]);
    assert!(plans[1].cover_url.is_none());
    assert_eq!(generate_result(2).message, "2 playlists éditoriales créées avec succès");
}

#[test]
fn editorial_tracks_follow_positions() {
    assert_eq!(order_by_position(&vec![3, 1, 9, 2], &vec![1, 2, 3]), vec![2, 0, 1]);
}

#[test]
fn editorial_schedule() {
    assert!(needs_regeneration(true, None));
    assert!(!needs_regeneration(false, None));
    assert!(needs_regeneration(false, Some(None)));
    assert!(needs_regeneration(true, Some(Some(7))));
    assert!(!needs_regeneration(true, Some(Some(6))));
    let key = Some(s("k"));
    assert!(should_auto_generate(&key, None, 2));
    assert!(should_auto_generate(&key, Some(Some(6)), 5));
    assert!(!should_auto_generate(&key, Some(Some(6)), 4));
    assert!(!should_auto_generate(&key, Some(Some(5)), 5));
    assert!(!should_auto_generate(&Some(s("")), None, 5));
}

// ─── History ────────────────────────────────────────────────────────────

#[test]
fn recent_history_keeps_newest_listen_per_track() {
    assert_eq!(recent_limit(None), 6);
    assert_eq!(recent_limit(Some(80)), 50);
    assert_eq!(recent_fetch_size(6), 60);
    assert_eq!(recent_listens(&vec![5, 3, 5, 7, 3, 9], 10), vec![0, 1, 3, 5]);
    assert_eq!(recent_listens(&vec![5, 3, 5, 7, 3, 9], 2), vec![0, 1]);
    assert!(taste_update_due(20));
    assert!(!taste_update_due(21));
}

// ─── Plugin configuration and UI ────────────────────────────────────────

use soundtime::plugin_api::{update_config, ui_refusal, ConfigEntry, UiProbe, UiRefusal, UpdateConfigRequest};

#[test]
fn config_update_keeps_the_last_value_per_key() {
    let stored = vec![(s("a"), s("1")), (s("b"), s("2"))];
    let req = UpdateConfigRequest {
        config: vec![
            ConfigEntry { key: s("b"), value: s("20") },
            ConfigEntry { key: s("c"), value: s("3") },
            ConfigEntry { key: s("b"), value: s("21") },
        ],
    };
    let (after, resp) = update_config(stored, &req);
    assert_eq!(resp.updated, 3);
    assert_eq!(after, vec![(s("a"), s("1")), (s("b"), s("21")), (s("c"), s("3"))]);
}

#[test]
fn ui_files_are_refused_in_order() {
    let ok = UiProbe { found: true, has_dir: true, ui_exists: true, resolved: true, dir_resolved: true, inside: true, is_file: true };
    assert_eq!(ui_refusal(&ok), None);
    let r = ui_refusal(&UiProbe { inside: false, ..ok }).unwrap();
    assert_eq!(r, UiRefusal::PathTraversal);
    assert_eq!(r.status(), 403);
    assert_eq!(r.message(), "Path traversal detected");
    let r = ui_refusal(&UiProbe { ui_exists: false, inside: false, ..ok }).unwrap();
    assert_eq!(r.message(), "Plugin has no UI");
    assert_eq!(ui_refusal(&UiProbe { has_dir: false, ..ok }).unwrap().status(), 500);
}

// ─── Theme activation and assets ────────────────────────────────────────

use soundtime::themes::{
    active_theme_id, active_theme_setting, asset_refusal, themes_to_disable, AssetProbe,
    AssetRefusal, ThemeStatus,
};

#[test]
fn enabling_a_theme_disables_the_enabled_ones() {
    let themes = vec![
        ThemeStatus { id: 1, enabled: false },
        ThemeStatus { id: 2, enabled: true },
        ThemeStatus { id: 3, enabled: true },
    ];
    assert_eq!(themes_to_disable(&themes), vec![2, 3]);
    let (k, v) = active_theme_setting(0x2a);
    assert_eq!(k, "active_theme_id");
    assert_eq!(v, "00000000-0000-0000-0000-00000000002a");
    assert_eq!(active_theme_id(None).unwrap(), None);
    assert_eq!(active_theme_id(Some("00000000-0000-0000-0000-00000000002a")).unwrap(), Some(0x2a));
    assert_eq!(active_theme_id(Some("nope")).unwrap_err(), "invalid active_theme_id setting");
}

#[test]
fn theme_assets_are_refused_in_order() {
    let ok = AssetProbe { active: true, has_assets: true, dir_exists: true, resolved: true, dir_resolved: true, inside: true, is_file: true };
    assert_eq!(asset_refusal(&ok), None);
    assert_eq!(asset_refusal(&AssetProbe { active: false, ..ok }).unwrap(), AssetRefusal::NoActiveTheme);
    let r = asset_refusal(&AssetProbe { dir_resolved: false, ..ok }).unwrap();
    assert_eq!(r.status(), 500);
    assert_eq!(r.message(), "Theme assets directory error");
    assert_eq!(asset_refusal(&AssetProbe { is_file: false, ..ok }).unwrap().message(), "File not found");
}

// ─── Laws on concrete values ────────────────────────────────────────────

use soundtime::library::{
    apply_playlist_update, best_copy, playlist_position, PlaylistFields, UpdatePlaylistRequest,
};
use soundtime::media::public_cover_url;

#[test]
fn playlist_update_applied_twice_changes_nothing_more() {
    let f = PlaylistFields { name: s("Mix"), description: None, is_public: false, cover_url: Some(s("c.jpg")) };
    let req = UpdatePlaylistRequest { name: Some(s("New")), description: Some(s("d")), is_public: None, cover_url: None };
    let once = apply_playlist_update(f, &req);
    let twice = apply_playlist_update(once.clone(), &req);
    assert_eq!(once.name, twice.name);
    assert_eq!(once.description, twice.description);
    assert_eq!(once.is_public, twice.is_public);
    assert_eq!(once.cover_url, twice.cover_url);
    assert_eq!(twice.name, "New");
    assert_eq!(twice.cover_url.as_deref(), Some("c.jpg"));
}

#[test]
fn cover_urls_are_normalised_once() {
    let once = public_cover_url("covers/a.jpg");
    assert_eq!(once, "/api/media/covers/a.jpg");
    assert_eq!(public_cover_url(&once), once);
    assert_eq!(public_cover_url("https://x/y.jpg"), "https://x/y.jpg");
}

#[test]
fn playlist_position_goes_after_the_last_track() {
    assert_eq!(playlist_position(&vec![], None), 0);
    assert_eq!(playlist_position(&vec![0, 1, 5, 2], None), 6);
    assert_eq!(playlist_position(&vec![-5], None), -4);
    assert_eq!(playlist_position(&vec![0, 1, 5], Some(3)), 3);
}

#[test]
fn best_copy_prefers_the_highest_bitrate_first_seen() {
    let remotes = vec![
        (Some(256), "a.example".to_string()),
        (Some(320), "b.example".to_string()),
        (Some(1411), "c.example".to_string()),
        (Some(1411), "d.example".to_string()),
        (None, "e.example".to_string()),
    ];
    assert_eq!(best_copy(Some(320), &remotes), Some((1411, "c.example".to_string())));
    assert_eq!(best_copy(Some(128), &vec![]), Some((128, "local".to_string())));
    assert_eq!(best_copy(Some(320), &vec![(Some(320), "x.example".to_string())]), Some((320, "local".to_string())));
    assert_eq!(best_copy(None, &vec![(None, "x.example".to_string())]), None);
    assert_eq!(best_copy(None, &vec![]), None);
}


#[test]
fn stored_session_key_starts_with_the_base64_nonce() {
    // Twelve zero bytes are sixteen `A`s in standard base64.
    let t = encrypt_session_key_with_nonce("k", "secret", [0u8; 12]).unwrap();
    assert!(t.starts_with("AAAAAAAAAAAAAAAA"));
    assert_eq!(t.len(), 40);
    assert_eq!(decrypt_session_key(&t, "secret").unwrap(), "k");
}
