use soundtime::themes::{plan_enable, ThemeStatus};
use soundtime::plugin_api::{
    config_response, plugin_ui_content_type, plugin_ui_file_type, LogsQuery, PLUGIN_UI_CSP,
};
use soundtime::themes::{
    allowed_theme_extensions, check_theme_entry, check_theme_name_free, check_theme_size,
    check_theme_update_name, copy_entry_action, is_allowed_extension,
    theme_asset_content_type, validate_theme_git_url, CopyAction, EntryKind, EntryVerdict,
    ThemeAssets, ThemeInfo, ThemeManifest, ThemeSettings, DEFAULT_MAX_THEME_SIZE_MB,
    THEME_NAME_PATTERN,
};

/// Reads a `theme.toml` text into the library's manifest type, as the
/// server's TOML reader does; the error is the reader's message.
fn theme_from_toml(text: &str) -> Result<ThemeManifest, String> {
    let v: toml::Value = text.parse::<toml::Value>().map_err(|e| e.to_string())?;
    let theme = v.get("theme").ok_or("missing field `theme`")?;
    let assets = v.get("assets").ok_or("missing field `assets`")?;
    let req = |t: &toml::Value, k: &str| -> Result<String, String> {
        t.get(k).and_then(|x| x.as_str()).map(|s| s.to_string()).ok_or(format!("missing field `{k}`"))
    };
    let opt = |t: &toml::Value, k: &str| t.get(k).and_then(|x| x.as_str()).map(|s| s.to_string());
    Ok(ThemeManifest {
        theme: ThemeInfo {
            name: req(theme, "name")?,
            version: req(theme, "version")?,
            description: opt(theme, "description"),
            author: opt(theme, "author"),
            license: opt(theme, "license"),
            homepage: opt(theme, "homepage"),
        },
        assets: ThemeAssets { css: req(assets, "css")?, assets_dir: opt(assets, "assets_dir") },
    })
}

fn parse_and_validate(text: &str) -> Result<ThemeManifest, String> {
    ThemeManifest::parse_and_validate(theme_from_toml(text))
}

// ─── Theme manifests ────────────────────────────────────────────────────

#[test]
fn themes_test_parse_valid_manifest() {
    let toml_str = r#"
[theme]
name = "dark-mode"
version = "1.0.0"
description = "A dark theme"
author = "Test Author"
license = "MIT"

[assets]
css = "theme.css"
assets_dir = "assets"
"#;
    let manifest = parse_and_validate(toml_str).unwrap();
    assert_eq!(manifest.theme.name, "dark-mode");
    assert_eq!(manifest.theme.version, "1.0.0");
    assert_eq!(manifest.assets.css, "theme.css");
    assert_eq!(manifest.assets.assets_dir, Some("assets".to_string()));
}

#[test]
fn test_parse_manifest_invalid_name() {
    let toml_str = "\n[theme]\nname = \"INVALID\"\nversion = \"1.0.0\"\n\n[assets]\ncss = \"theme.css\"\n";
    let err = parse_and_validate(toml_str).unwrap_err();
    assert!(err.contains("invalid theme name"));
}

#[test]
fn test_parse_manifest_invalid_version() {
    let toml_str = "\n[theme]\nname = \"valid-name\"\nversion = \"1\"\n\n[assets]\ncss = \"theme.css\"\n";
    let err = parse_and_validate(toml_str).unwrap_err();
    assert!(err.contains("invalid theme version"));
}

#[test]
fn test_parse_manifest_invalid_css_path() {
    let toml_str = "\n[theme]\nname = \"valid-name\"\nversion = \"1.0.0\"\n\n[assets]\ncss = \"theme.js\"\n";
    let err = parse_and_validate(toml_str).unwrap_err();
    assert!(err.contains("must end with .css"));
}

#[test]
fn test_parse_manifest_css_path_traversal() {
    let toml_str = "\n[theme]\nname = \"valid-name\"\nversion = \"1.0.0\"\n\n[assets]\ncss = \"../../../etc/passwd.css\"\n";
    let err = parse_and_validate(toml_str).unwrap_err();
    assert!(err.contains("no '..'"));
}

#[test]
fn test_parse_manifest_css_absolute_path() {
    let toml_str = "\n[theme]\nname = \"valid-name\"\nversion = \"1.0.0\"\n\n[assets]\ncss = \"/etc/theme.css\"\n";
    let err = parse_and_validate(toml_str).unwrap_err();
    assert!(err.contains("relative"));
}

#[test]
fn test_parse_manifest_assets_dir_traversal() {
    let toml_str = "\n[theme]\nname = \"valid-name\"\nversion = \"1.0.0\"\n\n[assets]\ncss = \"theme.css\"\nassets_dir = \"../secrets\"\n";
    let err = parse_and_validate(toml_str).unwrap_err();
    assert!(err.contains("no '..'"));
}

#[test]
fn theme_manifest_unparsable_text() {
    let err = parse_and_validate("not [ toml").unwrap_err();
    assert!(err.starts_with("invalid theme.toml: "));
}

#[test]
fn test_theme_name_pattern_valid() {
    let re = regex::Regex::new(THEME_NAME_PATTERN).unwrap();
    let is_match = |s: &str| re.is_match(s);
    assert!(is_match("dark-mode"));
    assert!(is_match("my-theme-v2"));
    assert!(is_match("ab"));
    assert!(!is_match("A"));
    assert!(!is_match("a"));
    assert!(!is_match("-start"));
    assert!(!is_match("1start"));
}

// ─── Git URLs ───────────────────────────────────────────────────────────

#[test]
fn themes_test_validate_git_url_valid_https() {
    assert!(validate_theme_git_url("https://github.com/org/repo.git").is_ok());
}

#[test]
fn themes_test_validate_git_url_reject_http() {
    let err = validate_theme_git_url("http://example.com/repo").unwrap_err();
    assert!(err.contains("HTTPS"));
}

#[test]
fn themes_test_validate_git_url_reject_file() {
    let err = validate_theme_git_url("file:///etc/passwd").unwrap_err();
    assert!(err.contains("HTTPS"));
}

#[test]
fn themes_test_validate_git_url_reject_localhost() {
    let err = validate_theme_git_url("https://localhost/repo").unwrap_err();
    assert!(err.contains("blocked"));
}

#[test]
fn themes_test_validate_git_url_reject_private_ip() {
    let err = validate_theme_git_url("https://192.168.1.1/repo").unwrap_err();
    assert!(err.contains("private IP"));
}

#[test]
fn themes_test_validate_git_url_reject_metadata() {
    let err = validate_theme_git_url("https://169.254.169.254/latest").unwrap_err();
    assert!(err.contains("blocked"));
}

#[test]
fn themes_test_validate_git_url_reject_empty() {
    assert!(validate_theme_git_url("").is_err());
}

// ─── Package contents ───────────────────────────────────────────────────

#[test]
fn test_is_allowed_extension() {
    assert!(is_allowed_extension("theme.css"));
    assert!(is_allowed_extension("font.woff2"));
    assert!(is_allowed_extension("logo.png"));
    assert!(is_allowed_extension("icon.svg"));
    assert!(!is_allowed_extension("script.js"));
    assert!(!is_allowed_extension("index.html"));
    assert!(!is_allowed_extension("noext"));
}

#[test]
fn test_default_max_theme_size() {
    assert_eq!(DEFAULT_MAX_THEME_SIZE_MB, 20);
}

#[test]
fn test_allowed_extensions_contains_css() {
    let allowed = allowed_theme_extensions();
    assert!(allowed.contains(&"css"));
    assert!(allowed.contains(&"woff2"));
    assert!(!allowed.contains(&"js"));
    assert!(!allowed.contains(&"html"));
}

#[test]
fn theme_package_entries() {
    assert_eq!(check_theme_entry(".git", EntryKind::Directory, "/t/.git"), EntryVerdict::Skip);
    assert_eq!(check_theme_entry("img", EntryKind::Directory, "/t/img"), EntryVerdict::Descend);
    assert_eq!(check_theme_entry("theme.toml", EntryKind::File, "/t/theme.toml"), EntryVerdict::Skip);
    assert_eq!(check_theme_entry("a.css", EntryKind::File, "/t/a.css"), EntryVerdict::Accept);
    assert_eq!(
        check_theme_entry("x.js", EntryKind::File, "/t/x.js"),
        EntryVerdict::Reject(
            "disallowed file in theme package: /t/x.js (allowed extensions: [\"css\", \"png\", \"jpg\", \"jpeg\", \"svg\", \"webp\", \"woff2\", \"woff\", \"ttf\", \"otf\"])"
                .to_string()
        )
    );
    assert_eq!(
        check_theme_entry("l", EntryKind::Symlink, "/t/l"),
        EntryVerdict::Reject("symlinks are not allowed in theme packages: /t/l".to_string())
    );
    assert_eq!(copy_entry_action("l", EntryKind::Symlink), CopyAction::Skip);
    assert_eq!(copy_entry_action("a.png", EntryKind::File), CopyAction::Copy);
    assert_eq!(copy_entry_action("a.html", EntryKind::File), CopyAction::Skip);
    assert_eq!(copy_entry_action("sub", EntryKind::Directory), CopyAction::Descend);
}

#[test]
fn theme_installer_checks() {
    let s = ThemeSettings::from_settings(None, None);
    assert_eq!(s.theme_dir, "/data/themes");
    assert_eq!(s.max_theme_size, 20 * 1024 * 1024);
    let s = ThemeSettings::from_settings(Some("/srv/t"), Some("abc"));
    assert_eq!((s.theme_dir.as_str(), s.max_theme_size), ("/srv/t", 20 * 1024 * 1024));
    let s = ThemeSettings::from_settings(None, Some("1"));
    assert_eq!(s.max_theme_size, 1024 * 1024);
    assert!(check_theme_size(10, 10).is_ok());
    assert_eq!(check_theme_size(11, 10).unwrap_err(), "theme package too large: 11 bytes (max: 10 bytes)");
    assert_eq!(
        check_theme_update_name("a", "b").unwrap_err(),
        "theme name mismatch: expected 'a', got 'b'"
    );
    assert_eq!(check_theme_name_free("dark", true).unwrap_err(), "theme 'dark' is already installed");
    assert!(check_theme_name_free("dark", false).is_ok());
    assert_eq!(theme_asset_content_type("fonts/a.woff2"), "font/woff2");
    assert_eq!(theme_asset_content_type("a.svg"), "image/svg+xml");
    assert_eq!(theme_asset_content_type("a.exe"), "application/octet-stream");
}

// ─── Plugin administration ──────────────────────────────────────────────

#[test]
fn test_logs_query_pagination_defaults() {
    let q = LogsQuery { page: None, per_page: None };
    assert_eq!(q.page(), 1);
    assert_eq!(q.per_page(), 50);
    let q = LogsQuery { page: Some(0), per_page: Some(200) };
    assert_eq!(q.page(), 1);
    assert_eq!(q.per_page(), 100);
    let q = LogsQuery { page: Some(3), per_page: Some(25) };
    assert_eq!(q.page(), 3);
    assert_eq!(q.per_page(), 25);
}

#[test]
fn test_content_type_mapping() {
    assert_eq!(plugin_ui_content_type("html"), "text/html; charset=utf-8");
    assert_eq!(plugin_ui_content_type("js"), "application/javascript");
    assert_eq!(plugin_ui_content_type("mjs"), "application/javascript");
    assert_eq!(plugin_ui_content_type("css"), "text/css");
    assert_eq!(plugin_ui_content_type("json"), "application/json");
    assert_eq!(plugin_ui_content_type("svg"), "image/svg+xml");
    assert_eq!(plugin_ui_content_type("png"), "image/png");
    assert_eq!(plugin_ui_content_type("jpg"), "image/jpeg");
    assert_eq!(plugin_ui_content_type("jpeg"), "image/jpeg");
    assert_eq!(plugin_ui_content_type("webp"), "image/webp");
    assert_eq!(plugin_ui_content_type("woff"), "font/woff");
    assert_eq!(plugin_ui_content_type("woff2"), "font/woff2");
    assert_eq!(plugin_ui_content_type("ttf"), "font/ttf");
    assert_eq!(plugin_ui_content_type("exe"), "application/octet-stream");
    assert_eq!(plugin_ui_content_type(""), "application/octet-stream");
    assert_eq!(plugin_ui_file_type("ui/panel.html"), "text/html; charset=utf-8");
    assert_eq!(plugin_ui_file_type("ui/README"), "application/octet-stream");
}

#[test]
fn test_csp_header_value() {
    let csp = PLUGIN_UI_CSP;
    assert!(csp.contains("default-src 'self'"));
    assert!(csp.contains("frame-ancestors 'self'"));
    assert!(csp.contains("script-src 'self' 'unsafe-inline'"));
}

#[test]
fn plugin_config_response_keeps_order() {
    let r = config_response(&vec![("a".into(), "1".into()), ("b".into(), "2".into())]);
    assert_eq!(r.config.len(), 2);
    assert_eq!((r.config[0].key.as_str(), r.config[0].value.as_str()), ("a", "1"));
    assert_eq!((r.config[1].key.as_str(), r.config[1].value.as_str()), ("b", "2"));
}

#[test]
fn enabling_an_unknown_theme_is_refused() {
    let themes = vec![ThemeStatus { id: 1, enabled: true }, ThemeStatus { id: 2, enabled: false }];
    assert_eq!(plan_enable(&themes, 3).unwrap_err(), (404, "Theme not found"));
    assert_eq!(plan_enable(&themes, 2).unwrap(), vec![1]);
    assert_eq!(plan_enable(&themes, 1).unwrap(), vec![1]);
    assert_eq!(plan_enable(&vec![], 1).unwrap_err().0, 404);
}

#[test]
fn theme_names_follow_the_documented_shape() {
    let make = |name: &str| ThemeManifest {
        theme: ThemeInfo {
            name: name.into(),
            version: "1.0.0".into(),
            description: None,
            author: None,
            license: None,
            homepage: None,
        },
        assets: ThemeAssets { css: "theme.css".into(), assets_dir: None },
    };
    assert!(ThemeManifest::parse_and_validate(Ok(make("dark-mode"))).is_ok());
    assert!(ThemeManifest::parse_and_validate(Ok(make("a1"))).is_ok());
    assert!(ThemeManifest::parse_and_validate(Ok(make("Dark"))).is_err());
    assert!(ThemeManifest::parse_and_validate(Ok(make("1abc"))).is_err());
    assert!(ThemeManifest::parse_and_validate(Ok(make("a"))).is_err());
    assert!(ThemeManifest::parse_and_validate(Ok(make(&"a".repeat(65)))).is_err());
    assert!(ThemeManifest::parse_and_validate(Ok(make(&"a".repeat(64)))).is_ok());
    assert!(ThemeManifest::parse_and_validate(Ok(make("dark\n"))).is_err());
}
