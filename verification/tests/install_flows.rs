use soundtime::error::PluginError;
use soundtime::manifest::{BuildConfig, Permissions, PluginManifest, PluginMeta, UiConfig};
use soundtime::plugin_flow::{FlowAction, FlowEvent, InstalledPlugin, PluginFlow, Stage};
use soundtime::theme_flow::{InstalledTheme, ThemeAction, ThemeEvent, ThemeFlow, ThemeStage};
use soundtime::themes::{ThemeAssets, ThemeInfo, ThemeManifest};

fn s(x: &str) -> String {
    x.to_string()
}

fn manifest(name: &str, ui_entry: Option<&str>) -> PluginManifest {
    PluginManifest {
        plugin: PluginMeta {
            name: s(name),
            version: s("1.2.3"),
            description: s("A test plugin"),
            author: Some(s("me")),
            license: None,
            min_soundtime_version: None,
            homepage: None,
        },
        build: BuildConfig { wasm: s("target/plugin.wasm") },
        permissions: Permissions::default(),
        ui: UiConfig {
            enabled: ui_entry.is_some(),
            slot: ui_entry.map(|_| s("settings-panel")),
            entry: ui_entry.map(s),
        },
    }
}

fn wasm_bytes() -> Vec<u8> {
    vec![0x00, 0x61, 0x73, 0x6D, 0x01, 0x00, 0x00, 0x00]
}

fn step(f: PluginFlow, ev: FlowEvent) -> (PluginFlow, FlowAction) {
    f.advance(ev)
}

/// Runs an installation up to the WASM checks.
fn to_wasm_checked(f: PluginFlow, m: PluginManifest) -> (PluginFlow, FlowAction) {
    let (f, a) = step(f, FlowEvent::Begin);
    assert!(matches!(a, FlowAction::MakeTempDir));
    let (f, a) = step(f, FlowEvent::Done(Ok(())));
    assert!(matches!(a, FlowAction::Clone));
    let (f, a) = step(f, FlowEvent::Done(Ok(())));
    assert!(matches!(a, FlowAction::CheckManifest));
    let (f, a) = step(f, FlowEvent::Exists(true));
    assert!(matches!(a, FlowAction::ReadManifest));
    let (f, a) = step(f, FlowEvent::Text(Ok(s("..."))));
    assert!(matches!(a, FlowAction::ParseManifest(_)));
    let (f, a) = step(f, FlowEvent::Parsed(Ok(m)));
    match &a {
        FlowAction::LocateWasm(p) => assert_eq!(p, "target/plugin.wasm"),
        other => panic!("unexpected {other:?}"),
    }
    let (f, a) = step(f, FlowEvent::Located(Ok(Some(true))));
    assert!(matches!(a, FlowAction::StatWasm));
    let (f, a) = step(f, FlowEvent::Size(Ok(8)));
    assert!(matches!(a, FlowAction::ReadWasm));
    step(f, FlowEvent::Bytes(Ok(wasm_bytes())))
}

#[test]
fn plugin_install_runs_to_a_disabled_record() {
    let f = PluginFlow::install(s("https://github.com/example/plugin.git"), Some(42), 1024, s("/data/plugins"));
    let (f, a) = to_wasm_checked(f, manifest("my-plugin", None));
    match &a {
        FlowAction::LookupName(n) => assert_eq!(n, "my-plugin"),
        other => panic!("unexpected {other:?}"),
    }
    let (f, a) = step(f, FlowEvent::Found(Ok(false)));
    match &a {
        FlowAction::CleanInstallDir(d) => assert_eq!(d, "my-plugin-1.2.3"),
        other => panic!("unexpected {other:?}"),
    }
    let (f, a) = step(f, FlowEvent::Done(Ok(())));
    assert!(matches!(a, FlowAction::CreateInstallDir(_)));
    let (f, a) = step(f, FlowEvent::Done(Ok(())));
    assert!(matches!(a, FlowAction::CopyWasm(ref d) if d == "/data/plugins/my-plugin-1.2.3/plugin.wasm"));
    let (f, a) = step(f, FlowEvent::Copied(Ok(())));
    assert!(matches!(a, FlowAction::CopyManifest));
    let (f, a) = step(f, FlowEvent::Done(Ok(())));
    let record = match a {
        FlowAction::SaveNew(r) => r,
        other => panic!("unexpected {other:?}"),
    };
    assert_eq!(record.name, "my-plugin");
    assert_eq!(record.version, "1.2.3");
    assert_eq!(record.description.as_deref(), Some("A test plugin"));
    assert_eq!(record.status, "disabled");
    assert_eq!(record.installed_by, Some(42));
    assert_eq!(record.wasm_path, "/data/plugins/my-plugin-1.2.3/plugin.wasm");
    assert_eq!(record.git_url, "https://github.com/example/plugin.git");
    let (f, a) = step(f, FlowEvent::Saved(Ok(())));
    assert!(matches!(a, FlowAction::Finish));
    assert_eq!(f.stage, Stage::Finished);
}

#[test]
fn plugin_install_refuses_a_bad_url_first() {
    let f = PluginFlow::install(s("http://github.com/x.git"), None, 1024, s("/data/plugins"));
    let (f, a) = step(f, FlowEvent::Begin);
    match a {
        FlowAction::Fail(PluginError::Installation(m)) => {
            assert_eq!(m, "only HTTPS git URLs are allowed, got scheme 'http' in 'http://github.com/x.git'")
        },
        other => panic!("unexpected {other:?}"),
    }
    assert_eq!(f.stage, Stage::Finished);
}

#[test]
fn plugin_install_reports_outside_failures() {
    let f = PluginFlow::install(s("https://github.com/example/plugin.git"), None, 1024, s("/data/plugins"));
    let (f, _) = step(f, FlowEvent::Begin);
    let (_, a) = step(f, FlowEvent::Done(Err(s("disk full"))));
    match a {
        FlowAction::Fail(PluginError::Installation(m)) => assert_eq!(m, "failed to create temp dir: disk full"),
        other => panic!("unexpected {other:?}"),
    }
    let f = PluginFlow::install(s("https://github.com/example/plugin.git"), None, 1024, s("/data/plugins"));
    let (f, _) = step(f, FlowEvent::Begin);
    let (f, _) = step(f, FlowEvent::Done(Ok(())));
    let (f, _) = step(f, FlowEvent::Done(Ok(())));
    let (_, a) = step(f, FlowEvent::Exists(false));
    match a {
        FlowAction::Fail(PluginError::Installation(m)) => assert_eq!(m, "plugin.toml not found in repository root"),
        other => panic!("unexpected {other:?}"),
    }
}

#[test]
fn plugin_install_refuses_taken_names_and_large_binaries() {
    let f = PluginFlow::install(s("https://github.com/example/plugin.git"), None, 1024, s("/data/plugins"));
    let (f, _) = to_wasm_checked(f, manifest("my-plugin", None));
    let (_, a) = step(f, FlowEvent::Found(Ok(true)));
    match a {
        FlowAction::Fail(e) => assert_eq!(e.message(), "plugin already exists: my-plugin"),
        other => panic!("unexpected {other:?}"),
    }
    let f = PluginFlow::install(s("https://github.com/example/plugin.git"), None, 4, s("/data/plugins"));
    let (f, _) = step(f, FlowEvent::Begin);
    let (f, _) = step(f, FlowEvent::Done(Ok(())));
    let (f, _) = step(f, FlowEvent::Done(Ok(())));
    let (f, _) = step(f, FlowEvent::Exists(true));
    let (f, _) = step(f, FlowEvent::Text(Ok(s(""))));
    let (f, _) = step(f, FlowEvent::Parsed(Ok(manifest("my-plugin", None))));
    let (f, _) = step(f, FlowEvent::Located(Ok(Some(true))));
    let (_, a) = step(f, FlowEvent::Size(Ok(8)));
    match a {
        FlowAction::Fail(PluginError::WasmValidation(m)) => assert_eq!(m, "WASM binary too large: 8 bytes (max: 4 bytes)"),
        other => panic!("unexpected {other:?}"),
    }
}

#[test]
fn plugin_install_refuses_escaping_paths() {
    let f = PluginFlow::install(s("https://github.com/example/plugin.git"), None, 1024, s("/data/plugins"));
    let (f, _) = step(f, FlowEvent::Begin);
    let (f, _) = step(f, FlowEvent::Done(Ok(())));
    let (f, _) = step(f, FlowEvent::Done(Ok(())));
    let (f, _) = step(f, FlowEvent::Exists(true));
    let (f, _) = step(f, FlowEvent::Text(Ok(s(""))));
    let (f, _) = step(f, FlowEvent::Parsed(Ok(manifest("my-plugin", None))));
    let (_, a) = step(f, FlowEvent::Located(Ok(Some(false))));
    match a {
        FlowAction::Fail(PluginError::Installation(m)) => {
            assert_eq!(m, "WASM path escapes repository directory (path traversal)")
        },
        other => panic!("unexpected {other:?}"),
    }
}

#[test]
fn plugin_install_copies_the_ui_directory() {
    let f = PluginFlow::install(s("https://github.com/example/plugin.git"), None, 1024, s("/data/plugins"));
    let (f, _) = to_wasm_checked(f, manifest("my-plugin", Some("ui/index.html")));
    let (f, _) = step(f, FlowEvent::Found(Ok(false)));
    let (f, _) = step(f, FlowEvent::Done(Ok(())));
    let (f, _) = step(f, FlowEvent::Done(Ok(())));
    let (f, _) = step(f, FlowEvent::Copied(Ok(())));
    let (f, a) = step(f, FlowEvent::Done(Ok(())));
    match &a {
        FlowAction::LocateUiEntry(e) => assert_eq!(e, "ui/index.html"),
        other => panic!("unexpected {other:?}"),
    }
    let (f, a) = step(f, FlowEvent::Located(Ok(Some(true))));
    match &a {
        FlowAction::CopyUiDir(d) => assert_eq!(d, "ui"),
        other => panic!("unexpected {other:?}"),
    }
    let (_, a) = step(f, FlowEvent::Done(Ok(())));
    assert!(matches!(a, FlowAction::SaveNew(_)));
}

#[test]
fn plugin_update_keeps_the_name_and_restores_on_failure() {
    let found = Some(InstalledPlugin {
        id: 1,
        name: s("my-plugin"),
        git_url: s("https://github.com/example/plugin.git"),
        wasm_path: s("/data/plugins/my-plugin-1.0.0/plugin.wasm"),
    });
    let f = PluginFlow::update(1, Ok(found.clone()), 1024, s("/data/plugins")).unwrap();
    let (_, a) = {
        let (f, _) = step(f, FlowEvent::Begin);
        let (f, _) = step(f, FlowEvent::Done(Ok(())));
        let (f, _) = step(f, FlowEvent::Done(Ok(())));
        let (f, _) = step(f, FlowEvent::Exists(true));
        let (f, _) = step(f, FlowEvent::Text(Ok(s(""))));
        step(f, FlowEvent::Parsed(Ok(manifest("other-name", None))))
    };
    match a {
        FlowAction::Fail(PluginError::Installation(m)) => {
            assert_eq!(m, "plugin name mismatch: expected 'my-plugin', got 'other-name'")
        },
        other => panic!("unexpected {other:?}"),
    }
    let f = PluginFlow::update(1, Ok(found), 1024, s("/data/plugins")).unwrap();
    let (f, a) = to_wasm_checked(f, manifest("my-plugin", None));
    let (orig, bak) = match a {
        FlowAction::Backup(o, b) => (o, b),
        other => panic!("unexpected {other:?}"),
    };
    assert_eq!(orig, "/data/plugins/my-plugin-1.0.0");
    assert_eq!(bak, "/data/plugins/my-plugin-1.0.bak");
    let (f, _) = step(f, FlowEvent::Done(Ok(())));
    let (_, a) = step(f, FlowEvent::Done(Err(s("busy"))));
    match a {
        FlowAction::Restore(o, b, PluginError::Installation(m)) => {
            assert_eq!(o, orig);
            assert_eq!(b, bak);
            assert_eq!(m, "failed to clean install dir: busy");
        },
        other => panic!("unexpected {other:?}"),
    }
}

#[test]
fn plugin_update_of_unknown_plugin() {
    let r = PluginFlow::update(0x2a, Ok(None), 1024, s("/data/plugins"));
    match r {
        Err(PluginError::NotFound(m)) => assert_eq!(m, "00000000-0000-0000-0000-00000000002a"),
        _ => panic!("expected not found"),
    }
    match PluginFlow::update(1, Err(s("down")), 1024, s("/data/plugins")) {
        Err(PluginError::Database(m)) => assert_eq!(m, "down"),
        _ => panic!("expected database error"),
    }
}

fn theme(name: &str, assets_dir: Option<&str>) -> ThemeManifest {
    ThemeManifest {
        theme: ThemeInfo {
            name: s(name),
            version: s("2.0.0"),
            description: Some(s("Dark")),
            author: None,
            license: None,
            homepage: None,
        },
        assets: ThemeAssets { css: s("theme.css"), assets_dir: assets_dir.map(s) },
    }
}

fn theme_to_css(f: ThemeFlow, m: ThemeManifest) -> (ThemeFlow, ThemeAction) {
    let (f, a) = f.advance(ThemeEvent::Begin);
    assert!(matches!(a, ThemeAction::MakeTempDir));
    let (f, _) = f.advance(ThemeEvent::Done(Ok(())));
    let (f, _) = f.advance(ThemeEvent::Done(Ok(())));
    let (f, _) = f.advance(ThemeEvent::Exists(true));
    let (f, _) = f.advance(ThemeEvent::Text(Ok(s(""))));
    let (f, a) = f.advance(ThemeEvent::Parsed(Ok(m)));
    assert!(matches!(a, ThemeAction::CheckFiles));
    let (f, a) = f.advance(ThemeEvent::Done(Ok(())));
    assert!(matches!(a, ThemeAction::MeasureSize));
    let (f, a) = f.advance(ThemeEvent::Size(Ok(100)));
    match &a {
        ThemeAction::LocateCss(p) => assert_eq!(p, "theme.css"),
        other => panic!("unexpected {other:?}"),
    }
    f.advance(ThemeEvent::Located(Ok(Some(true))))
}

#[test]
fn theme_install_runs_to_a_disabled_record() {
    let f = ThemeFlow::install(s("https://github.com/example/theme.git"), Some(3), 1000, s("/data/themes"));
    let (f, a) = theme_to_css(f, theme("dark-mode", Some("assets")));
    assert!(matches!(a, ThemeAction::LookupName(_)));
    let (f, a) = f.advance(ThemeEvent::Found(Ok(false)));
    match &a {
        ThemeAction::CleanInstallDir(d) => assert_eq!(d, "dark-mode-2.0.0"),
        other => panic!("unexpected {other:?}"),
    }
    let (f, _) = f.advance(ThemeEvent::Done(Ok(())));
    let (f, a) = f.advance(ThemeEvent::Done(Ok(())));
    assert!(matches!(a, ThemeAction::CopyCss(ref d) if d == "/data/themes/dark-mode-2.0.0/theme.css"));
    let (f, a) = f.advance(ThemeEvent::Copied(Ok(())));
    assert!(matches!(a, ThemeAction::LocateAssets(_)));
    let (f, a) = f.advance(ThemeEvent::Located(Ok(Some(true))));
    assert!(matches!(a, ThemeAction::CopyAssets(ref d) if d == "/data/themes/dark-mode-2.0.0/assets"));
    let (f, a) = f.advance(ThemeEvent::Copied(Ok(())));
    let r = match a {
        ThemeAction::SaveNew(r) => r,
        other => panic!("unexpected {other:?}"),
    };
    assert_eq!(r.name, "dark-mode");
    assert_eq!(r.status, "disabled");
    assert_eq!(r.css_path, "/data/themes/dark-mode-2.0.0/theme.css");
    assert_eq!(r.assets_path.as_deref(), Some("/data/themes/dark-mode-2.0.0/assets"));
    assert_eq!(r.installed_by, Some(3));
    let (_, a) = f.advance(ThemeEvent::Done(Ok(())));
    assert!(matches!(a, ThemeAction::Finish));
}

#[test]
fn theme_install_refuses_large_packages_and_taken_names() {
    let f = ThemeFlow::install(s("https://github.com/example/theme.git"), None, 50, s("/data/themes"));
    let (f, _) = f.advance(ThemeEvent::Begin);
    let (f, _) = f.advance(ThemeEvent::Done(Ok(())));
    let (f, _) = f.advance(ThemeEvent::Done(Ok(())));
    let (f, _) = f.advance(ThemeEvent::Exists(true));
    let (f, _) = f.advance(ThemeEvent::Text(Ok(s(""))));
    let (f, _) = f.advance(ThemeEvent::Parsed(Ok(theme("dark-mode", None))));
    let (f, _) = f.advance(ThemeEvent::Done(Ok(())));
    let (_, a) = f.advance(ThemeEvent::Size(Ok(100)));
    match a {
        ThemeAction::Fail(m) => assert_eq!(m, "theme package too large: 100 bytes (max: 50 bytes)"),
        other => panic!("unexpected {other:?}"),
    }
    let f = ThemeFlow::install(s("https://github.com/example/theme.git"), None, 1000, s("/data/themes"));
    let (f, _) = theme_to_css(f, theme("dark-mode", None));
    let (_, a) = f.advance(ThemeEvent::Found(Ok(true)));
    match a {
        ThemeAction::Fail(m) => assert_eq!(m, "theme 'dark-mode' is already installed"),
        other => panic!("unexpected {other:?}"),
    }
}

#[test]
fn theme_update_keeps_the_backup_on_failure() {
    let found = InstalledTheme {
        id: 5,
        name: s("dark-mode"),
        git_url: s("https://github.com/example/theme.git"),
        css_path: s("/data/themes/dark-mode-1.0.0/theme.css"),
    };
    let f = ThemeFlow::update(5, Ok(Some(found)), 1000, s("/data/themes")).unwrap();
    let (f, a) = theme_to_css(f, theme("dark-mode", None));
    let (orig, bak) = match a {
        ThemeAction::Backup(o, b) => (o, b),
        other => panic!("unexpected {other:?}"),
    };
    assert_eq!(orig, "/data/themes/dark-mode-1.0.0");
    let (f, _) = f.advance(ThemeEvent::Done(Ok(())));
    let (f, _) = f.advance(ThemeEvent::Done(Ok(())));
    let (f, _) = f.advance(ThemeEvent::Done(Ok(())));
    let (f, a) = f.advance(ThemeEvent::Copied(Ok(())));
    let changes = match a {
        ThemeAction::SaveChanges(c) => c,
        other => panic!("unexpected {other:?}"),
    };
    assert_eq!(changes.version, "2.0.0");
    assert_eq!(changes.css_path, "/data/themes/dark-mode-2.0.0/theme.css");
    assert!(changes.assets_path.is_none());
    assert!(bak.ends_with(".bak"));
    let (_, a) = f.advance(ThemeEvent::Done(Err(s("conflict"))));
    match a {
        ThemeAction::Fail(m) => assert_eq!(m, "failed to update theme record: conflict"),
        other => panic!("unexpected {other:?}"),
    }
    match ThemeFlow::update(0x10, Ok(None), 1, s("/data/themes")) {
        Err(m) => assert_eq!(m, "theme not found: 00000000-0000-0000-0000-000000000010"),
        Ok(_) => panic!("expected not found"),
    }
}

// ─── Uploads ────────────────────────────────────────────────────────────

use soundtime::media::{AudioTags, UploadForm};
use soundtime::upload_flow::{
    batch_refusal, batch_result, BatchItem, UploadAction, UploadEvent, UploadFlow, UploadMode, UploadStage,
    UploadedTrack,
};
use soundtime::media::UploadNames;

fn flac_bytes() -> Vec<u8> {
    let mut d = b"fLaC".to_vec();
    d.extend_from_slice(&[0u8; 12]);
    d
}

fn no_form() -> UploadForm {
    UploadForm { title: None, album: None, artist: None }
}

#[test]
fn upload_refuses_unsupported_or_disguised_files() {
    let f = UploadFlow::new(UploadMode::Single, 1, s("song.txt"), no_form(), &flac_bytes());
    match f.advance(UploadEvent::Begin { supported: false, needs_conversion: false }).1 {
        UploadAction::Fail(e) => {
            assert_eq!(e.status, 400);
            assert_eq!(e.message, "Unsupported format: txt");
        },
        other => panic!("unexpected {other:?}"),
    }
    let f = UploadFlow::new(UploadMode::Batch, 1, s("song.FLAC"), no_form(), b"%PDF-1.4 not audio");
    assert_eq!(f.ext, "flac");
    match f.advance(UploadEvent::Begin { supported: true, needs_conversion: false }).1 {
        UploadAction::Fail(e) => assert_eq!(e.message, "File content does not match a recognized audio format"),
        other => panic!("unexpected {other:?}"),
    }
}

#[test]
fn upload_files_a_converted_track() {
    let form = UploadForm { title: None, album: Some(s("Live")), artist: None };
    let f = UploadFlow::new(UploadMode::Single, 9, s("take.aiff"), form, &flac_bytes());
    let (f, a) = f.advance(UploadEvent::Begin { supported: true, needs_conversion: true });
    match &a {
        UploadAction::StoreFile(album) => assert_eq!(album.as_deref(), Some("Live")),
        other => panic!("unexpected {other:?}"),
    }
    let (f, a) = f.advance(UploadEvent::Path(Ok(s("9/Live/take.aiff"))));
    assert!(matches!(a, UploadAction::EnsureLocal(_)));
    let (f, a) = f.advance(UploadEvent::Path(Ok(s("/tmp/take.aiff"))));
    assert!(matches!(a, UploadAction::ConvertToFlac(_)));
    let (f, a) = f.advance(UploadEvent::Path(Ok(s("/tmp/take.flac"))));
    assert!(matches!(a, UploadAction::ReadTags(_)));
    assert_eq!(f.stored_path, "9/Live/take.flac");
    let tags = AudioTags { title: None, artist: Some(s("Band")), album: None, album_artist: None };
    let (f, a) = f.advance(UploadEvent::Tags(Ok((tags, true))));
    match &a {
        UploadAction::FindArtist(n) => assert_eq!(n, "Band"),
        other => panic!("unexpected {other:?}"),
    }
    let (f, a) = f.advance(UploadEvent::Found(Ok(None)));
    assert!(matches!(a, UploadAction::CreateArtist(_)));
    // The album artist is the artist: no second lookup.
    let (f, a) = f.advance(UploadEvent::Created(Ok(77)));
    match &a {
        UploadAction::FindAlbum(t, id) => {
            assert_eq!(t, "Live");
            assert_eq!(*id, 77);
        },
        other => panic!("unexpected {other:?}"),
    }
    let (f, a) = f.advance(UploadEvent::Found(Ok(None)));
    assert!(matches!(a, UploadAction::CreateAlbum(_, 77)));
    let (f, a) = f.advance(UploadEvent::Created(Ok(88)));
    assert!(matches!(a, UploadAction::StoreCover(_)));
    let (f, a) = f.advance(UploadEvent::Path(Ok(s("covers/live.jpg"))));
    match &a {
        UploadAction::SetCover(id, url) => {
            assert_eq!(*id, 88);
            assert_eq!(url, "/api/media/covers/live.jpg");
        },
        other => panic!("unexpected {other:?}"),
    }
    let (f, a) = f.advance(UploadEvent::Done(Ok(())));
    match &a {
        UploadAction::InsertTrack(t) => {
            assert_eq!(t.title, "take");
            assert_eq!(t.album_id, 88);
            assert_eq!(t.artist_id, 77);
            assert_eq!(t.file_path, "9/Live/take.flac");
            assert_eq!(t.uploaded_by, 9);
        },
        other => panic!("unexpected {other:?}"),
    }
    let (f, a) = f.advance(UploadEvent::Done(Ok(())));
    match a {
        UploadAction::Finish(t) => {
            assert_eq!(t.message, "Track uploaded successfully");
            assert_eq!(t.names.artist, "Band");
        },
        other => panic!("unexpected {other:?}"),
    }
    assert_eq!(f.stage, UploadStage::Finished);
}

#[test]
fn batch_upload_errors_carry_the_cause() {
    let f = UploadFlow::new(UploadMode::Batch, 1, s("a.mp3"), no_form(), &flac_bytes());
    let (f, _) = f.advance(UploadEvent::Begin { supported: true, needs_conversion: false });
    match f.advance(UploadEvent::Path(Err(s("quota")))).1 {
        UploadAction::Fail(e) => assert_eq!(e.message, "Storage error: quota"),
        other => panic!("unexpected {other:?}"),
    }
    let f = UploadFlow::new(UploadMode::Single, 1, s("a.mp3"), no_form(), &flac_bytes());
    let (f, _) = f.advance(UploadEvent::Begin { supported: true, needs_conversion: false });
    match f.advance(UploadEvent::Path(Err(s("quota")))).1 {
        UploadAction::Fail(e) => {
            assert_eq!(e.status, 500);
            assert_eq!(e.message, "Failed to store file");
        },
        other => panic!("unexpected {other:?}"),
    }
}

// ─── Editorial generation ───────────────────────────────────────────────

use soundtime::editorial::{AiPlaylist, AlbumCover, EditorialTrack};
use soundtime::editorial_flow::{AiReply, EditorialAction, EditorialEvent, EditorialFlow, EditorialMode};

fn uuid(n: u128) -> String {
    format!("00000000-0000-0000-0000-{:012x}", n)
}

fn library() -> (Vec<EditorialTrack>, Vec<AlbumCover>, String) {
    let tracks = (1..=5).map(|i| EditorialTrack { id: i, album_id: Some(100) }).collect();
    let albums = vec![AlbumCover { id: 100, cover_url: Some(s("covers/a.jpg")) }];
    (tracks, albums, s("[]"))
}

fn settings(key: Option<&str>) -> EditorialEvent {
    EditorialEvent::Settings { api_key: key.map(s), base_url: None, model: None }
}

fn failure_of(a: EditorialAction) -> (u16, String) {
    match a {
        EditorialAction::Fail(f) => (f.status, f.message),
        _ => panic!("expected a failure"),
    }
}

fn asked(mode: EditorialMode) -> (EditorialFlow, EditorialAction) {
    let (f, a) = EditorialFlow::start(mode);
    assert!(matches!(a, EditorialAction::ReadSettings));
    let (f, a) = f.advance(settings(Some("sk-test")));
    assert!(matches!(a, EditorialAction::LoadTracks));
    f.advance(EditorialEvent::Tracks(Ok(library())))
}

#[test]
fn editorial_run_creates_the_valid_proposals() {
    let (f, a) = asked(EditorialMode::Manual);
    match a {
        EditorialAction::CallAi { url, authorization, model, system_prompt, user_prompt } => {
            assert_eq!(url, "https://api.openai.com/v1/chat/completions");
            assert_eq!(authorization, "Bearer sk-test");
            assert_eq!(model, "gpt-4o-mini");
            assert!(system_prompt.starts_with("You are a music curator for a streaming platform. Create exactly 2 themed playlists"));
            assert!(system_prompt.contains("Each playlist should have 5 to 10 tracks"));
            assert!(system_prompt.contains("creative French name"));
            assert_eq!(user_prompt, "Here are the available tracks:\n[]");
        },
        _ => panic!("expected the request"),
    }
    let (f, a) = f.advance(EditorialEvent::Reply(AiReply::Content(Some(s("```json\n[{\"x\":1}]\n```")))));
    match a {
        EditorialAction::ParseJson(t) => assert_eq!(t, "[{\"x\":1}]"),
        _ => panic!("expected the JSON"),
    }
    let proposals = vec![
        AiPlaylist { name: s("Nuit"), description: s("calme"), track_ids: vec![uuid(2), uuid(99), uuid(3)] },
        AiPlaylist { name: s("Vide"), description: s("rien"), track_ids: vec![uuid(77)] },
        AiPlaylist { name: s("Jour"), description: s("vif"), track_ids: vec![uuid(5)] },
    ];
    let (f, a) = f.advance(EditorialEvent::Parsed(Ok(proposals)));
    assert!(matches!(a, EditorialAction::DeleteOldEditorials));
    assert_eq!(f.planned.len(), 2);
    assert_eq!(f.planned[0].track_ids, vec![2, 3]);
    assert_eq!(f.planned[0].cover_url, Some(s("/api/media/covers/a.jpg")));
    let (f, a) = f.advance(EditorialEvent::Done);
    assert!(matches!(a, EditorialAction::FindAdmin));
    let (f, a) = f.advance(EditorialEvent::Admin(Ok(Some(9))));
    assert!(matches!(a, EditorialAction::CreatePlaylist { index: 0, admin: 9 }));
    let (f, a) = f.advance(EditorialEvent::Inserted(true));
    assert!(matches!(a, EditorialAction::CreatePlaylist { index: 1, admin: 9 }));
    let (f, a) = f.advance(EditorialEvent::Inserted(false));
    assert!(matches!(a, EditorialAction::StampGenerated));
    let (_, a) = f.advance(EditorialEvent::Done);
    match a {
        EditorialAction::Finish(r) => {
            assert_eq!(r.playlists_created, 1);
            assert_eq!(r.message, "1 playlists éditoriales créées avec succès");
        },
        _ => panic!("expected the end"),
    }
}

#[test]
fn editorial_run_refuses_missing_keys_and_small_libraries() {
    let (f, _) = EditorialFlow::start(EditorialMode::Manual);
    let (_, a) = f.advance(settings(None));
    assert_eq!(failure_of(a), (400, s("AI API key not configured. Set 'ai_api_key' in settings.")));
    let (f, _) = EditorialFlow::start(EditorialMode::Scheduled);
    let (_, a) = f.advance(settings(None));
    assert_eq!(failure_of(a).1, "AI API key not configured");
    let (f, _) = EditorialFlow::start(EditorialMode::Manual);
    let (_, a) = f.advance(settings(Some("")));
    assert_eq!(failure_of(a), (400, s("AI API key is empty")));
    for (mode, text) in [
        (EditorialMode::Manual, "Not enough tracks to generate playlists (minimum 5)"),
        (EditorialMode::Scheduled, "Not enough tracks"),
    ] {
        let (f, _) = EditorialFlow::start(mode);
        let (f, _) = f.advance(settings(Some("k")));
        let (tracks, albums, json) = library();
        let (_, a) = f.advance(EditorialEvent::Tracks(Ok((tracks[..4].to_vec(), albums, json))));
        assert_eq!(failure_of(a), (400, s(text)));
    }
    let (f, _) = EditorialFlow::start(EditorialMode::Manual);
    let (f, _) = f.advance(settings(Some("k")));
    let (_, a) = f.advance(EditorialEvent::Tracks(Err(s("connection reset"))));
    assert_eq!(failure_of(a), (500, s("DB error: connection reset")));
}

#[test]
fn editorial_run_reports_service_failures_before_touching_playlists() {
    let cases = [
        (AiReply::SendFailed, "AI API request failed"),
        (AiReply::Status(s("500 Internal Server Error")), "AI API returned status 500 Internal Server Error"),
        (AiReply::BadBody(s("expected value")), "Failed to parse AI response: expected value"),
    ];
    for (reply, text) in cases {
        let (f, _) = asked(EditorialMode::Scheduled);
        let (_, a) = f.advance(EditorialEvent::Reply(reply));
        assert_eq!(failure_of(a), (502, s(text)));
    }
    let (f, _) = asked(EditorialMode::Manual);
    let (f, a) = f.advance(EditorialEvent::Reply(AiReply::Content(None)));
    match a {
        EditorialAction::ParseJson(t) => assert_eq!(t, "[]"),
        _ => panic!("expected the JSON"),
    }
    let (_, a) = f.advance(EditorialEvent::Parsed(Err(s("trailing characters"))));
    assert_eq!(failure_of(a), (502, s("AI returned invalid JSON: trailing characters")));
    let (f, _) = asked(EditorialMode::Manual);
    let (f, _) = f.advance(EditorialEvent::Reply(AiReply::Content(Some(s("[]")))));
    let (f, _) = f.advance(EditorialEvent::Parsed(Ok(vec![])));
    let (f, _) = f.advance(EditorialEvent::Done);
    let (_, a) = f.advance(EditorialEvent::Admin(Ok(None)));
    assert_eq!(failure_of(a), (500, s("No admin user found")));
}

#[test]
fn single_upload_without_file_is_refused() {
    let form = UploadForm { title: None, album: None, artist: None };
    let err = UploadFlow::start_single(1, None, form).unwrap_err();
    assert_eq!(err.status, 400);
    assert_eq!(err.message, "No file provided");
}

#[test]
fn single_upload_with_file_starts_the_flow() {
    let form = UploadForm { title: None, album: Some("A".into()), artist: None };
    let mut data = vec![b'I', b'D', b'3', 4, 0, 0];
    data.resize(16, 0);
    let (flow, bytes) = UploadFlow::start_single(9, Some(("song.MP3".into(), data.clone())), form).unwrap();
    assert_eq!(bytes, data);
    assert_eq!(flow.mode, UploadMode::Single);
    assert_eq!(flow.uploader, 9);
    assert_eq!(flow.filename, "song.MP3");
    assert_eq!(flow.ext, "mp3");
    assert!(flow.looks_like_audio);
    assert_eq!(flow.stage, UploadStage::Start);
}

#[test]
fn batch_without_files_or_with_too_many_is_refused() {
    let e = batch_refusal(0).unwrap();
    assert_eq!((e.status, e.message.as_str()), (400, "No files provided"));
    let e = batch_refusal(51).unwrap();
    assert_eq!((e.status, e.message.as_str()), (400, "Too many files. Maximum is 50"));
    assert!(batch_refusal(1).is_none());
    assert!(batch_refusal(50).is_none());
}

#[test]
fn batch_result_counts_and_keeps_order() {
    let track = UploadedTrack {
        names: UploadNames { artist: "X".into(), album_artist: "X".into(), album: "Y".into(), title: "Z".into() },
        message: "Track uploaded successfully".into(),
    };
    let items = vec![
        BatchItem { filename: "a.mp3".into(), result: Ok(track) },
        BatchItem { filename: "b.txt".into(), result: Err("Unsupported format: txt".into()) },
        BatchItem { filename: "c.mp3".into(), result: Err("Invalid audio content".into()) },
    ];
    let r = batch_result(items);
    assert_eq!((r.total, r.success, r.failed), (3, 1, 2));
    let names: Vec<&str> = r.results.iter().map(|i| i.filename.as_str()).collect();
    assert_eq!(names, vec!["a.mp3", "b.txt", "c.mp3"]);
    assert!(r.results[0].result.is_ok());
}
