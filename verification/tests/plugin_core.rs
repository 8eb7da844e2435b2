use soundtime::error::PluginError;
use soundtime::events::{known_events, PluginEvent};
use soundtime::host::{response_body, sanitize_log_message, user_info, HostContext, MAX_LOG_MESSAGE_LEN};
use soundtime::installer::{
    allowed_import_namespaces, install_dir_name, validate_git_url, validate_wasm,
    validate_wasm_imports, DEFAULT_MAX_WASM_SIZE_MB, WASM_MAGIC,
};
use soundtime::manifest::{BuildConfig, Permissions, PluginManifest, PluginMeta, UiConfig};
use soundtime::registry::{
    plan_host_requests, EventDispatch, EventOutcome, HostAction, HostRequest, PluginTable, Subscriptions,
};
use soundtime::sandbox::{call_outcome, PluginSandbox, SandboxConfig};

// ─── Helpers ────────────────────────────────────────────────────────────

fn toml_err(msg: &str) -> PluginError {
    PluginError::TomlParse(msg.to_string())
}

fn opt_str(t: Option<&toml::Value>, key: &str) -> Option<String> {
    t.and_then(|t| t.get(key)).and_then(|v| v.as_str()).map(|s| s.to_string())
}

fn str_list(t: Option<&toml::Value>, key: &str) -> Vec<String> {
    t.and_then(|t| t.get(key))
        .and_then(|v| v.as_array())
        .map(|a| a.iter().filter_map(|x| x.as_str().map(|s| s.to_string())).collect())
        .unwrap_or_default()
}

fn flag(t: Option<&toml::Value>, key: &str) -> bool {
    t.and_then(|t| t.get(key)).and_then(|v| v.as_bool()).unwrap_or(false)
}

/// Reads a `plugin.toml` text into the library's manifest type, as the
/// server's TOML reader does.
fn manifest_from_toml(text: &str) -> Result<PluginManifest, PluginError> {
    let v: toml::Value = text.parse::<toml::Value>().map_err(|e| toml_err(&e.to_string()))?;
    let plugin = v.get("plugin").ok_or_else(|| toml_err("missing field `plugin`"))?;
    let build = v.get("build").ok_or_else(|| toml_err("missing field `build`"))?;
    let req = |t: &toml::Value, k: &str| -> Result<String, PluginError> {
        t.get(k)
            .and_then(|x| x.as_str())
            .map(|s| s.to_string())
            .ok_or_else(|| toml_err(&format!("missing field `{k}`")))
    };
    let perms = v.get("permissions");
    let ui = v.get("ui");
    Ok(PluginManifest {
        plugin: PluginMeta {
            name: req(plugin, "name")?,
            version: req(plugin, "version")?,
            description: req(plugin, "description")?,
            author: opt_str(Some(plugin), "author"),
            license: opt_str(Some(plugin), "license"),
            min_soundtime_version: opt_str(Some(plugin), "min_soundtime_version"),
            homepage: opt_str(Some(plugin), "homepage"),
        },
        build: BuildConfig { wasm: req(build, "wasm")? },
        permissions: Permissions {
            http_hosts: str_list(perms, "http_hosts"),
            events: str_list(perms, "events"),
            write_tracks: flag(perms, "write_tracks"),
            config_access: flag(perms, "config_access"),
            read_users: flag(perms, "read_users"),
        },
        ui: UiConfig {
            enabled: flag(ui, "enabled"),
            slot: opt_str(ui, "slot"),
            entry: opt_str(ui, "entry"),
        },
    })
}

const FULL_VALID_TOML: &str = r#"
[plugin]
name = "my-cool-plugin"
version = "1.2.3"
description = "A cool plugin for SoundTime"
author = "Jane Doe"
license = "MIT"
min_soundtime_version = "0.5.0"
homepage = "https://example.com"

[build]
wasm = "target/plugin.wasm"

[permissions]
http_hosts = ["api.example.com", "*.cdn.example.com"]
events = ["on_track_added", "on_track_played"]
write_tracks = true
config_access = false
read_users = false

[ui]
enabled = true
slot = "track-detail-sidebar"
entry = "ui/panel.html"
"#;

const MINIMAL_VALID_TOML: &str = r#"
[plugin]
name = "ab"
version = "0.1.0"
description = "Minimal plugin"

[build]
wasm = "plugin.wasm"
"#;

fn test_context(http_hosts: Vec<String>) -> HostContext {
    test_context_with_perms(http_hosts, false, false, false)
}

fn test_context_with_perms(
    http_hosts: Vec<String>,
    write_tracks: bool,
    config_access: bool,
    read_users: bool,
) -> HostContext {
    let perms = Permissions {
        http_hosts,
        write_tracks,
        config_access,
        read_users,
        events: vec![],
    };
    HostContext::new(
        0x6f1c_2a3b_4d5e_4f60_8a7b_9c8d_0e1f_2a3bu128,
        "test-plugin".to_string(),
        perms,
        10,
        "localhost".to_string(),
        "0.1.0".to_string(),
    )
}

fn validate_text(text: &str) -> Result<(), PluginError> {
    manifest_from_toml(text).unwrap().validate()
}

// ─── Error messages ─────────────────────────────────────────────────────

#[test]
fn test_display_manifest() {
    let err = PluginError::Manifest("missing name field".into());
    assert_eq!(err.message(), "manifest error: missing name field");
}

#[test]
fn test_display_invalid_manifest() {
    let err = PluginError::InvalidManifest("bad version".into());
    assert_eq!(err.message(), "invalid manifest: bad version");
}

#[test]
fn test_display_sandbox() {
    let err = PluginError::Sandbox("wasm trap".into());
    assert_eq!(err.message(), "sandbox error: wasm trap");
}

#[test]
fn test_display_not_found() {
    let err = PluginError::NotFound("my-plugin".into());
    assert_eq!(err.message(), "plugin not found: my-plugin");
}

#[test]
fn test_display_already_exists() {
    let err = PluginError::AlreadyExists("my-plugin".into());
    assert_eq!(err.message(), "plugin already exists: my-plugin");
}

#[test]
fn test_display_permission_denied() {
    let err = PluginError::PermissionDenied("http_get requires http_hosts".into());
    assert_eq!(err.message(), "permission denied: http_get requires http_hosts");
}

#[test]
fn test_display_host_function() {
    let err = PluginError::HostFunction("get_track failed".into());
    assert_eq!(err.message(), "host function error: get_track failed");
}

#[test]
fn test_display_installation() {
    let err = PluginError::Installation("clone failed".into());
    assert_eq!(err.message(), "installation error: clone failed");
}

#[test]
fn test_display_wasm_validation() {
    let err = PluginError::WasmValidation("unauthorized import".into());
    assert_eq!(err.message(), "WASM validation error: unauthorized import");
}

#[test]
fn test_display_fuel_exhausted() {
    let err = PluginError::FuelExhausted("my-plugin".into());
    assert_eq!(err.message(), "execution timeout: plugin my-plugin exceeded fuel limit");
}

#[test]
fn test_display_memory_exceeded() {
    let err = PluginError::MemoryExceeded("my-plugin".into());
    assert_eq!(err.message(), "memory limit exceeded: plugin my-plugin");
}

#[test]
fn test_display_http() {
    let err = PluginError::Http("timeout".into());
    assert_eq!(err.message(), "HTTP error: timeout");
}

#[test]
fn test_from_io_error() {
    let io_err = std::io::Error::new(std::io::ErrorKind::NotFound, "file missing");
    let err = PluginError::Io(io_err.to_string());
    assert!(matches!(err, PluginError::Io(_)));
    assert!(err.message().contains("file missing"));
}

#[test]
fn test_debug_formatting() {
    let err = PluginError::NotFound("test".into());
    let debug = format!("{:?}", err);
    assert!(debug.contains("NotFound"));
    assert!(debug.contains("test"));
}

#[test]
fn test_error_source_io() {
    let err = PluginError::Io("pipe broken".into());
    assert!(err.has_source());
}

#[test]
fn test_error_source_string_variants() {
    let err = PluginError::Sandbox("timeout".into());
    assert!(!err.has_source());
}

// ─── Events ─────────────────────────────────────────────────────────────

#[test]
fn test_known_events_contains_expected() {
    assert!(PluginEvent::is_known_event("on_track_added"));
    assert!(PluginEvent::is_known_event("on_track_played"));
    assert!(PluginEvent::is_known_event("on_peer_connected"));
    assert!(!PluginEvent::is_known_event("on_unknown_event"));
}

#[test]
fn test_event_creation() {
    let payload: serde_json::Value =
        serde_json::from_str(r#"{"track_id": "abc123", "title": "Test Track"}"#).unwrap();
    let event = PluginEvent::new("on_track_added".to_string(), payload);
    assert_eq!(event.name, "on_track_added");
    assert_eq!(event.payload["track_id"], "abc123");
}

#[test]
fn test_known_events_count() {
    assert_eq!(known_events().len(), 10);
}

// ─── Host functions ─────────────────────────────────────────────────────

#[test]
fn test_sanitize_log_message() {
    assert_eq!(sanitize_log_message("hello world"), "hello world");
    assert_eq!(sanitize_log_message("line1\nline2"), "line1\nline2");
    assert_eq!(sanitize_log_message("tab\there"), "tab\there");
    assert_eq!(sanitize_log_message("bad\x00\x01\x02chars"), "badchars");
    let long = "x".repeat(3000);
    let result = sanitize_log_message(&long);
    assert!(result.len() < 3000);
    assert!(result.ends_with("… (truncated)"));
}

#[test]
fn test_http_host_glob_matching() {
    let pattern = "*.cdn.example.com";
    let suffix = pattern.strip_prefix("*.").unwrap();
    assert!(
        "img.cdn.example.com" == suffix || "img.cdn.example.com".ends_with(&format!(".{suffix}"))
    );
    assert!("a.b.cdn.example.com".ends_with(&format!(".{suffix}")));
    assert!(!"evil.com".ends_with(&format!(".{suffix}")));
    assert!(soundtime::host::host_matches_pattern("img.cdn.example.com", pattern));
    assert!(soundtime::host::host_matches_pattern("a.b.cdn.example.com", pattern));
    assert!(!soundtime::host::host_matches_pattern("evil.com", pattern));
}

#[test]
fn test_check_http_host_no_permissions() {
    let ctx = test_context(vec![]);
    let err = ctx.check_http_host("https://example.com/path").unwrap_err();
    assert!(matches!(err, PluginError::PermissionDenied(_)));
    assert!(err.message().contains("no http_hosts permission"));
}

#[test]
fn test_check_http_host_wildcard_allows_all() {
    let ctx = test_context(vec!["*".into()]);
    ctx.check_http_host("https://anything.example.com/path").unwrap();
    ctx.check_http_host("https://evil.com/hack").unwrap();
    ctx.check_http_host("https://192.168.1.1/admin").unwrap();
}

#[test]
fn test_check_http_host_exact_match() {
    let ctx = test_context(vec!["api.example.com".into()]);
    ctx.check_http_host("https://api.example.com/path").unwrap();
    ctx.check_http_host("https://api.example.com/other?q=1").unwrap();
    ctx.check_http_host("http://api.example.com/").unwrap();
}

#[test]
fn test_check_http_host_exact_match_reject() {
    let ctx = test_context(vec!["api.example.com".into()]);
    let err = ctx.check_http_host("https://evil.com/path").unwrap_err();
    assert!(matches!(err, PluginError::PermissionDenied(_)));
    assert!(err.message().contains("not allowed to access host"));
}

#[test]
fn test_check_http_host_glob_match() {
    let ctx = test_context(vec!["*.example.com".into()]);
    ctx.check_http_host("https://sub.example.com/path").unwrap();
    ctx.check_http_host("https://api.example.com/v1").unwrap();
}

#[test]
fn test_check_http_host_glob_nested() {
    let ctx = test_context(vec!["*.example.com".into()]);
    ctx.check_http_host("https://a.b.example.com/path").unwrap();
    ctx.check_http_host("https://deep.nested.sub.example.com/").unwrap();
}

#[test]
fn test_check_http_host_glob_no_match() {
    let ctx = test_context(vec!["*.example.com".into()]);
    let err = ctx.check_http_host("https://evil.com/path").unwrap_err();
    assert!(matches!(err, PluginError::PermissionDenied(_)));
}

#[test]
fn test_check_http_host_glob_base_domain() {
    let ctx = test_context(vec!["*.example.com".into()]);
    ctx.check_http_host("https://example.com/path").unwrap();
}

#[test]
fn test_check_http_host_invalid_url() {
    let ctx = test_context(vec!["example.com".into()]);
    let err = ctx.check_http_host("not a url at all").unwrap_err();
    assert!(matches!(err, PluginError::HostFunction(_)));
    assert!(err.message().contains("invalid URL"));
}

#[test]
fn test_check_http_host_url_no_host() {
    let ctx = test_context(vec!["example.com".into()]);
    let err = ctx.check_http_host("data:text/html,<h1>hi</h1>").unwrap_err();
    assert!(matches!(err, PluginError::HostFunction(_)));
    assert!(err.message().contains("no host"));
}

#[test]
fn test_check_http_host_multiple_patterns() {
    let ctx = test_context(vec!["api.example.com".into(), "*.cdn.example.com".into()]);
    ctx.check_http_host("https://api.example.com/v1").unwrap();
    ctx.check_http_host("https://img.cdn.example.com/pic.jpg").unwrap();
    let err = ctx.check_http_host("https://evil.com/").unwrap_err();
    assert!(matches!(err, PluginError::PermissionDenied(_)));
}

#[test]
fn test_check_private_ip_localhost() {
    let ctx = test_context(vec!["*".into()]);
    let err = ctx.check_private_ip("https://localhost/path").unwrap_err();
    assert!(matches!(err, PluginError::PermissionDenied(_)));
    assert!(err.message().contains("blocked"));
}

#[test]
fn test_check_private_ip_127_0_0_1() {
    let ctx = test_context(vec!["*".into()]);
    let err = ctx.check_private_ip("https://127.0.0.1/path").unwrap_err();
    assert!(matches!(err, PluginError::PermissionDenied(_)));
}

#[test]
fn test_check_private_ip_0_0_0_0() {
    let ctx = test_context(vec!["*".into()]);
    let err = ctx.check_private_ip("https://0.0.0.0/path").unwrap_err();
    assert!(matches!(err, PluginError::PermissionDenied(_)));
}

#[test]
fn test_check_private_ip_ipv6_loopback() {
    let ctx = test_context(vec!["*".into()]);
    let err = ctx.check_private_ip("https://[::1]/path").unwrap_err();
    assert!(matches!(err, PluginError::PermissionDenied(_)));
}

#[test]
fn test_check_private_ip_aws_metadata() {
    let ctx = test_context(vec!["*".into()]);
    let err = ctx.check_private_ip("https://169.254.169.254/latest/meta-data/").unwrap_err();
    assert!(matches!(err, PluginError::PermissionDenied(_)));
}

#[test]
fn test_check_private_ip_gcp_metadata() {
    let ctx = test_context(vec!["*".into()]);
    let err = ctx
        .check_private_ip("https://metadata.google.internal/computeMetadata/v1/")
        .unwrap_err();
    assert!(matches!(err, PluginError::PermissionDenied(_)));
}

#[test]
fn test_check_private_ip_10_range() {
    let ctx = test_context(vec!["*".into()]);
    let err = ctx.check_private_ip("https://10.0.0.1/path").unwrap_err();
    assert!(matches!(err, PluginError::PermissionDenied(_)));
    assert!(err.message().contains("private IP"));
}

#[test]
fn test_check_private_ip_172_16_range() {
    let ctx = test_context(vec!["*".into()]);
    let err = ctx.check_private_ip("https://172.16.0.1/path").unwrap_err();
    assert!(matches!(err, PluginError::PermissionDenied(_)));
}

#[test]
fn test_check_private_ip_192_168_range() {
    let ctx = test_context(vec!["*".into()]);
    let err = ctx.check_private_ip("https://192.168.1.1/path").unwrap_err();
    assert!(matches!(err, PluginError::PermissionDenied(_)));
}

#[test]
fn test_check_private_ip_public_ip_ok() {
    let ctx = test_context(vec!["*".into()]);
    ctx.check_private_ip("https://8.8.8.8/path").unwrap();
}

#[test]
fn test_check_private_ip_public_domain_ok() {
    let ctx = test_context(vec!["*".into()]);
    ctx.check_private_ip("https://api.example.com/path").unwrap();
}

#[test]
fn test_check_private_ip_link_local() {
    let ctx = test_context(vec!["*".into()]);
    let err = ctx.check_private_ip("https://169.254.0.1/path").unwrap_err();
    assert!(matches!(err, PluginError::PermissionDenied(_)));
}

#[test]
fn test_check_private_ip_127_other_loopback() {
    let ctx = test_context(vec!["*".into()]);
    let err = ctx.check_private_ip("https://127.0.0.2/path").unwrap_err();
    assert!(matches!(err, PluginError::PermissionDenied(_)));
}

#[test]
fn test_set_track_metadata_no_permission() {
    let ctx = test_context_with_perms(vec![], false, false, false);
    let err = ctx.require_write_tracks().unwrap_err();
    assert!(matches!(err, PluginError::PermissionDenied(_)));
    assert!(err.message().contains("write_tracks"));
}

#[test]
fn test_set_track_lyrics_no_permission() {
    let ctx = test_context_with_perms(vec![], false, false, false);
    let err = ctx.lyrics_config_key("00000000-0000-0000-0000-000000000000").unwrap_err();
    assert!(matches!(err, PluginError::PermissionDenied(_)));
    assert!(err.message().contains("write_tracks"));
}

#[test]
fn test_get_config_no_permission() {
    let ctx = test_context_with_perms(vec![], false, false, false);
    let err = ctx.require_config_access().unwrap_err();
    assert!(matches!(err, PluginError::PermissionDenied(_)));
    assert!(err.message().contains("config_access"));
}

#[test]
fn test_set_config_no_permission() {
    let ctx = test_context_with_perms(vec![], false, false, false);
    let err = ctx.require_config_access().unwrap_err();
    assert!(matches!(err, PluginError::PermissionDenied(_)));
    assert!(err.message().contains("config_access"));
}

#[test]
fn test_get_user_info_no_permission() {
    let ctx = test_context_with_perms(vec![], false, false, false);
    let err = ctx.require_read_users().unwrap_err();
    assert!(matches!(err, PluginError::PermissionDenied(_)));
    assert!(err.message().contains("read_users"));
}

#[test]
fn test_emit_event_empty_name() {
    let ctx = test_context(vec![]);
    let err = ctx.emit_event("", "{}").unwrap_err();
    assert!(matches!(err, PluginError::HostFunction(_)));
    assert!(err.message().contains("event name cannot be empty"));
}

#[test]
fn test_emit_event_valid() {
    let ctx = test_context(vec![]);
    let result = ctx.emit_event("my_event", "{\"key\": \"value\"}").unwrap();
    assert!(result);
}

#[test]
fn test_emit_event_with_payload() {
    let ctx = test_context(vec![]);
    let result = ctx.emit_event("track_processed", "").unwrap();
    assert!(result);
}

#[test]
fn test_get_current_timestamp_format() {
    let ctx = test_context(vec![]);
    let ts = ctx.get_current_timestamp();
    let parsed = chrono::DateTime::parse_from_rfc3339(&ts);
    assert!(parsed.is_ok(), "timestamp not valid RFC 3339: {ts}");
}

#[test]
fn test_get_current_timestamp_is_recent() {
    let ctx = test_context(vec![]);
    let ts = ctx.get_current_timestamp();
    let parsed = chrono::DateTime::parse_from_rfc3339(&ts).unwrap();
    let now = chrono::Utc::now();
    let diff = now.signed_duration_since(parsed);
    assert!(diff.num_seconds().abs() < 2, "timestamp too far from now: {ts}");
}

#[test]
fn current_timestamp_has_the_utc_shape() {
    let ctx = test_context(vec![]);
    let ts = ctx.get_current_timestamp();
    assert!(ts.len() >= 25);
    assert!(ts.contains('T'));
    assert!(ts.ends_with("+00:00"));
}

#[test]
fn test_sanitize_log_message_empty() {
    assert_eq!(sanitize_log_message(""), "");
}

#[test]
fn test_sanitize_log_message_carriage_return_stripped() {
    assert_eq!(sanitize_log_message("hello\r\nworld"), "hello\nworld");
}

#[test]
fn test_sanitize_log_message_bell_stripped() {
    assert_eq!(sanitize_log_message("alert\x07!"), "alert!");
}

#[test]
fn test_sanitize_log_message_escape_stripped() {
    assert_eq!(sanitize_log_message("\x1b[31mred\x1b[0m"), "[31mred[0m");
}

#[test]
fn test_sanitize_log_message_exact_max_length() {
    let msg = "x".repeat(MAX_LOG_MESSAGE_LEN);
    let result = sanitize_log_message(&msg);
    assert_eq!(result.len(), MAX_LOG_MESSAGE_LEN);
    assert!(!result.ends_with("… (truncated)"));
}

#[test]
fn test_sanitize_log_message_one_over_max() {
    let msg = "x".repeat(MAX_LOG_MESSAGE_LEN + 1);
    let result = sanitize_log_message(&msg);
    assert!(result.ends_with("… (truncated)"));
}

#[test]
fn test_host_context_plugin_name() {
    let ctx = test_context(vec![]);
    assert_eq!(ctx.plugin_name(), "test-plugin");
}

#[test]
fn test_host_context_permissions() {
    let ctx = test_context_with_perms(vec!["example.com".into()], true, false, true);
    let perms = ctx.permissions();
    assert!(perms.write_tracks);
    assert!(!perms.config_access);
    assert!(perms.read_users);
    assert_eq!(perms.http_hosts, vec!["example.com"]);
}

// ─── Installer ──────────────────────────────────────────────────────────

#[test]
fn test_wasm_magic_bytes() {
    assert_eq!(&WASM_MAGIC, b"\0asm");
    assert_eq!(WASM_MAGIC[0], 0x00);
    assert_eq!(WASM_MAGIC[1], 0x61);
    assert_eq!(WASM_MAGIC[2], 0x73);
    assert_eq!(WASM_MAGIC[3], 0x6D);
}

#[test]
fn test_allowed_import_namespaces() {
    let allowed = allowed_import_namespaces();
    assert!(allowed.contains(&"env"));
    assert!(allowed.contains(&"wasi_snapshot_preview1"));
    assert!(!allowed.contains(&"forbidden_module"));
}

#[test]
fn test_wasm_magic_check() {
    let valid_header = [0x00u8, 0x61, 0x73, 0x6D, 0x01, 0x00, 0x00, 0x00];
    assert_eq!(&valid_header[..4], &WASM_MAGIC);
    let invalid_header = [0x7Fu8, 0x45, 0x4C, 0x46];
    assert_ne!(&invalid_header[..4], WASM_MAGIC.as_slice());
}

#[test]
fn test_default_max_wasm_size() {
    assert_eq!(DEFAULT_MAX_WASM_SIZE_MB, 50);
}

#[test]
fn test_install_dir_naming() {
    let plugin_dir = std::path::PathBuf::from("/data/plugins");
    let install_dir = plugin_dir.join(install_dir_name("my-plugin", "1.2.3"));
    assert_eq!(install_dir, std::path::PathBuf::from("/data/plugins/my-plugin-1.2.3"));
}

#[test]
fn installer_test_validate_git_url_valid_https() {
    assert!(validate_git_url("https://github.com/org/repo.git").is_ok());
}

#[test]
fn installer_test_validate_git_url_reject_file() {
    let err = validate_git_url("file:///etc/passwd").unwrap_err();
    assert!(matches!(err, PluginError::Installation(_)));
    assert!(err.message().contains("HTTPS"));
}

#[test]
fn installer_test_validate_git_url_reject_http() {
    let err = validate_git_url("http://example.com/repo").unwrap_err();
    assert!(matches!(err, PluginError::Installation(_)));
    assert!(err.message().contains("HTTPS"));
}

#[test]
fn installer_test_validate_git_url_reject_localhost() {
    let err = validate_git_url("https://localhost/repo").unwrap_err();
    assert!(matches!(err, PluginError::Installation(_)));
    assert!(err.message().contains("blocked"));
}

#[test]
fn installer_test_validate_git_url_reject_private_ip() {
    let err = validate_git_url("https://192.168.1.1/repo").unwrap_err();
    assert!(matches!(err, PluginError::Installation(_)));
    assert!(err.message().contains("private IP"));
}

#[test]
fn installer_test_validate_git_url_reject_metadata() {
    let err = validate_git_url("https://169.254.169.254/latest").unwrap_err();
    assert!(matches!(err, PluginError::Installation(_)));
    assert!(err.message().contains("blocked"));
}

#[test]
fn test_validate_git_url_reject_ssh() {
    let err = validate_git_url("git@github.com:org/repo.git").unwrap_err();
    assert!(matches!(err, PluginError::Installation(_)));
    assert!(err.message().contains("invalid git URL"));
}

#[test]
fn test_validate_git_url_reject_git_protocol() {
    let err = validate_git_url("git://github.com/org/repo.git").unwrap_err();
    assert!(matches!(err, PluginError::Installation(_)));
    assert!(err.message().contains("HTTPS"));
}

#[test]
fn test_validate_git_url_reject_172_16_private() {
    let err = validate_git_url("https://172.16.0.1/repo").unwrap_err();
    assert!(matches!(err, PluginError::Installation(_)));
    assert!(err.message().contains("private IP"));
}

#[test]
fn test_validate_git_url_reject_10_private() {
    let err = validate_git_url("https://10.0.0.1/repo").unwrap_err();
    assert!(matches!(err, PluginError::Installation(_)));
    assert!(err.message().contains("private IP"));
}

#[test]
fn test_validate_git_url_reject_ipv6_loopback() {
    let err = validate_git_url("https://[::1]/repo").unwrap_err();
    assert!(matches!(err, PluginError::Installation(_)));
    assert!(err.message().contains("blocked"));
}

#[test]
fn test_validate_git_url_reject_zero_ip() {
    let err = validate_git_url("https://0.0.0.0/repo").unwrap_err();
    assert!(matches!(err, PluginError::Installation(_)));
    assert!(err.message().contains("blocked"));
}

#[test]
fn test_validate_git_url_reject_gcp_metadata() {
    let err = validate_git_url("https://metadata.google.internal/repo").unwrap_err();
    assert!(matches!(err, PluginError::Installation(_)));
    assert!(err.message().contains("blocked"));
}

#[test]
fn test_validate_git_url_valid_with_path() {
    assert!(validate_git_url("https://gitlab.com/group/subgroup/repo.git").is_ok());
}

#[test]
fn installer_test_validate_git_url_reject_empty() {
    let err = validate_git_url("").unwrap_err();
    assert!(matches!(err, PluginError::Installation(_)));
}

#[test]
fn test_validate_wasm_file_too_large() {
    let mut data = vec![0x00u8, 0x61, 0x73, 0x6D, 0x01, 0x00, 0x00, 0x00];
    data.extend(vec![0u8; 100]);
    let err = validate_wasm(data.len() as u64, 50, &data).unwrap_err();
    assert!(matches!(err, PluginError::WasmValidation(_)));
    assert!(err.message().contains("too large"));
}

#[test]
fn test_validate_wasm_invalid_magic() {
    let data = vec![0x7Fu8, 0x45, 0x4C, 0x46, 0x01, 0x00, 0x00, 0x00];
    let err = validate_wasm(data.len() as u64, 50 * 1024 * 1024, &data).unwrap_err();
    assert!(matches!(err, PluginError::WasmValidation(_)));
    assert!(err.message().contains("magic bytes"));
}

#[test]
fn test_validate_wasm_too_short() {
    let data = vec![0x00u8, 0x61];
    let err = validate_wasm(data.len() as u64, 50 * 1024 * 1024, &data).unwrap_err();
    assert!(matches!(err, PluginError::WasmValidation(_)));
    assert!(err.message().contains("magic bytes"));
}

#[test]
fn test_validate_wasm_imports_valid_env() {
    let wasm = vec![
        0x00, 0x61, 0x73, 0x6D, 0x01, 0x00, 0x00, 0x00, 0x02, 0x0F, 0x01, 0x03, b'e', b'n', b'v',
        0x06, b'm', b'e', b'm', b'o', b'r', b'y', 0x02, 0x00, 0x01,
    ];
    assert!(validate_wasm_imports(&wasm).is_ok());
}

#[test]
fn test_validate_wasm_imports_forbidden_namespace() {
    let wasm = vec![
        0x00, 0x61, 0x73, 0x6D, 0x01, 0x00, 0x00, 0x00, 0x02, 0x0D, 0x01, 0x04, b'e', b'v', b'i',
        b'l', 0x04, b'f', b'u', b'n', b'c', 0x00, 0x00,
    ];
    let err = validate_wasm_imports(&wasm).unwrap_err();
    assert!(matches!(err, PluginError::WasmValidation(_)));
    assert!(err.message().contains("unauthorized import namespace"));
    assert!(err.message().contains("evil"));
}

#[test]
fn test_validate_wasm_imports_no_imports() {
    let wasm = vec![0x00, 0x61, 0x73, 0x6D, 0x01, 0x00, 0x00, 0x00];
    assert!(validate_wasm_imports(&wasm).is_ok());
}

// ─── Manifest ───────────────────────────────────────────────────────────

#[test]
fn manifest_test_parse_valid_manifest() {
    let manifest = manifest_from_toml(FULL_VALID_TOML).unwrap();
    assert_eq!(manifest.plugin.name, "my-cool-plugin");
    assert_eq!(manifest.plugin.version, "1.2.3");
    assert_eq!(manifest.plugin.description, "A cool plugin for SoundTime");
    assert_eq!(manifest.plugin.author.as_deref(), Some("Jane Doe"));
    assert_eq!(manifest.plugin.license.as_deref(), Some("MIT"));
    assert_eq!(manifest.plugin.min_soundtime_version.as_deref(), Some("0.5.0"));
    assert_eq!(manifest.plugin.homepage.as_deref(), Some("https://example.com"));
    assert_eq!(manifest.build.wasm, "target/plugin.wasm");
    assert_eq!(manifest.permissions.http_hosts, vec!["api.example.com", "*.cdn.example.com"]);
    assert_eq!(manifest.permissions.events, vec!["on_track_added", "on_track_played"]);
    assert!(manifest.permissions.write_tracks);
    assert!(!manifest.permissions.config_access);
    assert!(!manifest.permissions.read_users);
    assert!(manifest.ui.enabled);
    assert_eq!(manifest.ui.slot.as_deref(), Some("track-detail-sidebar"));
    assert_eq!(manifest.ui.entry.as_deref(), Some("ui/panel.html"));
}

#[test]
fn test_parse_minimal_manifest() {
    let manifest = manifest_from_toml(MINIMAL_VALID_TOML).unwrap();
    assert_eq!(manifest.plugin.name, "ab");
    assert_eq!(manifest.plugin.version, "0.1.0");
    assert_eq!(manifest.plugin.description, "Minimal plugin");
    assert!(manifest.plugin.author.is_none());
    assert!(manifest.plugin.license.is_none());
    assert!(manifest.plugin.min_soundtime_version.is_none());
    assert!(manifest.plugin.homepage.is_none());
    assert_eq!(manifest.build.wasm, "plugin.wasm");
    assert!(manifest.permissions.http_hosts.is_empty());
    assert!(manifest.permissions.events.is_empty());
    assert!(!manifest.permissions.write_tracks);
    assert!(!manifest.permissions.config_access);
    assert!(!manifest.permissions.read_users);
    assert!(!manifest.ui.enabled);
    assert!(manifest.ui.slot.is_none());
    assert!(manifest.ui.entry.is_none());
    assert!(manifest.validate().is_ok());
}

#[test]
fn test_validate_invalid_name_uppercase() {
    let err = validate_text(
        "[plugin]\nname = \"MyPlugin\"\nversion = \"1.0.0\"\ndescription = \"Bad name\"\n[build]\nwasm = \"p.wasm\"\n",
    )
    .unwrap_err();
    assert!(matches!(err, PluginError::InvalidManifest(_)));
    let msg = err.message();
    assert!(
        msg.contains("uppercase") || msg.contains("invalid character") || msg.contains("lowercase")
    );
}

#[test]
fn test_validate_invalid_name_too_short() {
    let err = validate_text(
        "[plugin]\nname = \"a\"\nversion = \"1.0.0\"\ndescription = \"Too short\"\n[build]\nwasm = \"p.wasm\"\n",
    )
    .unwrap_err();
    assert!(matches!(err, PluginError::InvalidManifest(_)));
    assert!(err.message().contains("2-64 characters"));
    let err = validate_text(
        "[plugin]\nname = \"\"\nversion = \"1.0.0\"\ndescription = \"Empty\"\n[build]\nwasm = \"p.wasm\"\n",
    )
    .unwrap_err();
    assert!(matches!(err, PluginError::InvalidManifest(_)));
    assert!(err.message().contains("2-64 characters"));
}

#[test]
fn test_validate_invalid_version() {
    let err = validate_text(
        "[plugin]\nname = \"my-plugin\"\nversion = \"not.a.version\"\ndescription = \"Bad version\"\n[build]\nwasm = \"p.wasm\"\n",
    )
    .unwrap_err();
    assert!(matches!(err, PluginError::InvalidManifest(_)));
    assert!(err.message().contains("semver"));
}

#[test]
fn test_validate_invalid_description_empty() {
    let err = validate_text(
        "[plugin]\nname = \"my-plugin\"\nversion = \"1.0.0\"\ndescription = \"\"\n[build]\nwasm = \"p.wasm\"\n",
    )
    .unwrap_err();
    assert!(matches!(err, PluginError::InvalidManifest(_)));
    assert!(err.message().contains("1-500 characters"));
}

#[test]
fn test_validate_invalid_wasm_extension() {
    let err = validate_text(
        "[plugin]\nname = \"my-plugin\"\nversion = \"1.0.0\"\ndescription = \"Bad wasm\"\n[build]\nwasm = \"plugin.js\"\n",
    )
    .unwrap_err();
    assert!(matches!(err, PluginError::InvalidManifest(_)));
    assert!(err.message().contains(".wasm"));
}

#[test]
fn test_validate_unknown_event() {
    let err = validate_text(
        "[plugin]\nname = \"my-plugin\"\nversion = \"1.0.0\"\ndescription = \"Unknown event\"\n[build]\nwasm = \"p.wasm\"\n[permissions]\nevents = [\"on_foo_bar\"]\n",
    )
    .unwrap_err();
    assert!(matches!(err, PluginError::InvalidManifest(_)));
    assert!(err.message().contains("on_foo_bar"));
}

#[test]
fn test_validate_valid_events() {
    let events_toml: String =
        known_events().iter().map(|e| format!("\"{e}\"")).collect::<Vec<_>>().join(", ");
    let toml = format!(
        "\n[plugin]\nname = \"my-plugin\"\nversion = \"1.0.0\"\ndescription = \"All events\"\n[build]\nwasm = \"p.wasm\"\n[permissions]\nevents = [{events_toml}]\n"
    );
    let manifest = PluginManifest::parse_and_validate(manifest_from_toml(&toml)).unwrap();
    assert_eq!(manifest.permissions.events.len(), known_events().len());
}

#[test]
fn test_validate_ui_enabled_missing_slot() {
    let err = validate_text(
        "[plugin]\nname = \"my-plugin\"\nversion = \"1.0.0\"\ndescription = \"Missing slot\"\n[build]\nwasm = \"p.wasm\"\n[ui]\nenabled = true\nentry = \"panel.html\"\n",
    )
    .unwrap_err();
    assert!(matches!(err, PluginError::InvalidManifest(_)));
    assert!(err.message().contains("ui.slot"));
}

#[test]
fn test_validate_ui_enabled_missing_entry() {
    let err = validate_text(
        "[plugin]\nname = \"my-plugin\"\nversion = \"1.0.0\"\ndescription = \"Missing entry\"\n[build]\nwasm = \"p.wasm\"\n[ui]\nenabled = true\nslot = \"settings-panel\"\n",
    )
    .unwrap_err();
    assert!(matches!(err, PluginError::InvalidManifest(_)));
    assert!(err.message().contains("ui.entry"));
}

#[test]
fn test_validate_ui_invalid_slot() {
    let err = validate_text(
        "[plugin]\nname = \"my-plugin\"\nversion = \"1.0.0\"\ndescription = \"Invalid slot\"\n[build]\nwasm = \"p.wasm\"\n[ui]\nenabled = true\nslot = \"nonexistent-slot\"\nentry = \"panel.html\"\n",
    )
    .unwrap_err();
    assert!(matches!(err, PluginError::InvalidManifest(_)));
    assert!(err.message().contains("nonexistent-slot"));
}

#[test]
fn test_validate_http_hosts_wildcard() {
    let toml = "[plugin]\nname = \"my-plugin\"\nversion = \"1.0.0\"\ndescription = \"Wildcard host\"\n[build]\nwasm = \"p.wasm\"\n[permissions]\nhttp_hosts = [\"*\"]\n";
    let manifest = PluginManifest::parse_and_validate(manifest_from_toml(toml)).unwrap();
    assert_eq!(manifest.permissions.http_hosts, vec!["*"]);
}

#[test]
fn test_validate_http_hosts_valid_domain() {
    let toml = "[plugin]\nname = \"my-plugin\"\nversion = \"1.0.0\"\ndescription = \"Valid domain\"\n[build]\nwasm = \"p.wasm\"\n[permissions]\nhttp_hosts = [\"api.example.com\"]\n";
    let manifest = PluginManifest::parse_and_validate(manifest_from_toml(toml)).unwrap();
    assert_eq!(manifest.permissions.http_hosts, vec!["api.example.com"]);
}

#[test]
fn test_validate_http_hosts_empty_string() {
    let err = validate_text(
        "[plugin]\nname = \"my-plugin\"\nversion = \"1.0.0\"\ndescription = \"Empty host\"\n[build]\nwasm = \"p.wasm\"\n[permissions]\nhttp_hosts = [\"\"]\n",
    )
    .unwrap_err();
    assert!(matches!(err, PluginError::InvalidManifest(_)));
    assert!(err.message().contains("empty"));
}

#[test]
fn test_parse_and_validate_valid() {
    let manifest = PluginManifest::parse_and_validate(manifest_from_toml(FULL_VALID_TOML)).unwrap();
    assert_eq!(manifest.plugin.name, "my-cool-plugin");
    assert_eq!(manifest.plugin.version, "1.2.3");
    assert!(manifest.ui.enabled);
}

#[test]
fn test_parse_invalid_toml() {
    let err = manifest_from_toml("this is not valid {{{{ toml").unwrap_err();
    assert!(matches!(err, PluginError::TomlParse(_)));
    let err = PluginManifest::parse_and_validate(manifest_from_toml("this is not valid {{{{ toml"))
        .unwrap_err();
    assert!(matches!(err, PluginError::TomlParse(_)));
}

#[test]
fn test_validate_path_traversal_wasm() {
    let err = validate_text(
        "[plugin]\nname = \"my-plugin\"\nversion = \"1.0.0\"\ndescription = \"Path traversal\"\n[build]\nwasm = \"../../etc/plugin.wasm\"\n",
    )
    .unwrap_err();
    assert!(matches!(err, PluginError::InvalidManifest(_)));
    assert!(err.message().contains(".."));
}

#[test]
fn test_validate_absolute_path_wasm() {
    let err = validate_text(
        "[plugin]\nname = \"my-plugin\"\nversion = \"1.0.0\"\ndescription = \"Absolute path\"\n[build]\nwasm = \"/etc/plugin.wasm\"\n",
    )
    .unwrap_err();
    assert!(matches!(err, PluginError::InvalidManifest(_)));
    assert!(err.message().contains("absolute"));
}

#[test]
fn test_validate_path_traversal_ui_entry() {
    let err = validate_text(
        "[plugin]\nname = \"my-plugin\"\nversion = \"1.0.0\"\ndescription = \"UI path traversal\"\n[build]\nwasm = \"plugin.wasm\"\n[ui]\nenabled = true\nslot = \"settings-panel\"\nentry = \"../../../etc/panel.html\"\n",
    )
    .unwrap_err();
    assert!(matches!(err, PluginError::InvalidManifest(_)));
    assert!(err.message().contains(".."));
}

// ─── Sandbox and registry ───────────────────────────────────────────────

#[test]
fn test_sandbox_config_defaults() {
    let config = SandboxConfig::default();
    assert_eq!(config.memory_limit, 32 * 1024 * 1024);
    assert_eq!(config.fuel_limit, 1_000_000);
    assert_eq!(config.http_timeout_secs, 10);
    assert!(!config.wasi_enabled);
}

#[test]
fn test_sandbox_config_default() {
    let config = SandboxConfig::default();
    assert_eq!(config.memory_limit, 32 * 1024 * 1024);
    assert_eq!(config.fuel_limit, 1_000_000);
    assert_eq!(config.http_timeout_secs, 10);
    assert!(!config.wasi_enabled);
}

#[test]
fn test_sandbox_config_from_env() {
    let config = SandboxConfig::from_settings(Some("64"), Some("2000000"), Some("30"), Some("true"));
    assert_eq!(config.memory_limit, 64 * 1024 * 1024);
    assert_eq!(config.fuel_limit, 2_000_000);
    assert_eq!(config.http_timeout_secs, 30);
    assert!(config.wasi_enabled);
    let config_default = SandboxConfig::from_settings(None, None, None, None);
    assert!(!config_default.wasi_enabled);
}

#[test]
fn test_subscription_add_and_remove() {
    let mut subscriptions = Subscriptions::new();
    let plugin_a = 0xa1u128;
    let plugin_b = 0xb2u128;
    let plugin_c = 0xc3u128;

    subscriptions.subscribe(plugin_a, &vec!["on_track_added".to_string(), "on_track_played".to_string()]);
    subscriptions.subscribe(plugin_b, &vec!["on_track_added".to_string(), "on_user_login".to_string()]);
    subscriptions.subscribe_one(plugin_c, "on_track_added");

    assert_eq!(subscriptions.subscribers("on_track_added").len(), 3);
    assert_eq!(subscriptions.subscribers("on_track_played").len(), 1);
    assert_eq!(subscriptions.subscribers("on_user_login").len(), 1);
    assert_eq!(subscriptions.subscribers("on_track_added"), vec![plugin_a, plugin_b, plugin_c]);

    subscriptions.unsubscribe(plugin_b);
    assert_eq!(subscriptions.subscribers("on_track_added").len(), 2);
    assert_eq!(subscriptions.subscribers("on_track_played").len(), 1);
    assert_eq!(subscriptions.subscribers("on_user_login").len(), 0);
    assert_eq!(subscriptions.subscribers("on_track_added"), vec![plugin_a, plugin_c]);

    subscriptions.unsubscribe(plugin_a);
    assert_eq!(subscriptions.subscribers("on_track_added"), vec![plugin_c]);
    assert_eq!(subscriptions.subscribers("on_track_played").len(), 0);

    subscriptions.unsubscribe(plugin_c);
    for e in ["on_track_added", "on_track_played", "on_user_login"] {
        assert!(subscriptions.subscribers(e).is_empty());
    }
}

#[test]
fn test_subscription_duplicate_event() {
    let mut subscriptions = Subscriptions::new();
    let plugin = 0xd4u128;
    subscriptions.subscribe_one(plugin, "on_upload");
    subscriptions.subscribe_one(plugin, "on_upload");
    assert_eq!(subscriptions.subscribers("on_upload").len(), 2);
    subscriptions.unsubscribe(plugin);
    assert_eq!(subscriptions.subscribers("on_upload").len(), 0);
}

#[test]
fn test_load_invalid_wasm() {
    let config = SandboxConfig::default();
    let result = PluginSandbox::load(b"this is not valid wasm at all".to_vec(), config, "bad-plugin");
    assert!(result.is_err());
    let err = match result {
        Err(e) => e,
        Ok(_) => unreachable!(),
    };
    assert!(matches!(err, PluginError::Sandbox(_)), "expected Sandbox error, got: {err:?}");
}

#[test]
fn plugin_table_unload_undoes_load() {
    let mut table: PluginTable<()> = PluginTable::new();
    let a = 1u128;
    let b = 2u128;
    table.load(a, "alpha".into(), (), &vec!["on_track_added".into()]);
    let before = table.subscribers("on_track_added");
    table.load(b, "beta".into(), (), &vec!["on_track_added".into(), "on_track_added".into()]);
    assert_eq!(table.subscribers("on_track_added"), vec![a, b, b]);
    assert!(table.is_loaded(b));
    assert_eq!(table.unload(b).unwrap(), "beta");
    assert_eq!(table.subscribers("on_track_added"), before);
    assert!(!table.is_loaded(b));
    assert_eq!(table.loaded_count(), 1);
    assert_eq!(table.loaded_plugins(), vec![(a, "alpha".to_string())]);
    let err = table.unload(b).unwrap_err();
    assert_eq!(err.message(), "plugin not found: 00000000-0000-0000-0000-000000000002");
}

#[test]
fn plugin_table_calls_nothing_for_unloaded_plugin() {
    let mut table: PluginTable<PluginSandbox> = PluginTable::new();
    assert!(table.call_handler(9, "handle_x", b"{}").is_none());
    assert_eq!(table.loaded_count(), 0);
}

#[test]
fn memory_limit_in_pages() {
    let config = SandboxConfig { memory_limit: 64 * 1024 * 1024, fuel_limit: 500_000, http_timeout_secs: 5, wasi_enabled: false };
    assert_eq!(config.memory_pages(), 1024);
    assert_eq!(SandboxConfig::default().memory_pages(), 512);
}

#[test]
fn event_outcome_labels() {
    let outcome = |result| EventOutcome { plugin_id: 1, plugin_name: "p".into(), result };
    assert_eq!(outcome(Ok(vec![1, 2])).label(), "success");
    assert_eq!(outcome(Err(PluginError::FuelExhausted("p".into()))).label(), "timeout");
    assert_eq!(outcome(Err(PluginError::MemoryExceeded("p".into()))).label(), "error");
    assert_eq!(outcome(Err(PluginError::Sandbox("trap".into()))).label(), "error");
}

#[test]
fn call_outcome_passes_output_and_classifies_failures() {
    assert_eq!(call_outcome("p", Ok(vec![1, 2, 3])).unwrap(), vec![1, 2, 3]);
    assert!(matches!(call_outcome("p", Err("all fuel consumed".into())), Err(PluginError::FuelExhausted(n)) if n == "p"));
    assert!(matches!(call_outcome("p", Err("out of memory".into())), Err(PluginError::MemoryExceeded(n)) if n == "p"));
    assert!(matches!(call_outcome("p", Err("trap".into())), Err(PluginError::Sandbox(m)) if m == "trap"));
}


#[test]
fn plugin_table_load_twice_keeps_one_entry() {
    let mut table: PluginTable<()> = PluginTable::new();
    table.load(5, "first".into(), (), &vec![]);
    table.load(5, "second".into(), (), &vec!["on_track_added".into()]);
    assert_eq!(table.loaded_count(), 1);
    assert_eq!(table.loaded_plugins(), vec![(5, "second".to_string())]);
    assert_eq!(table.unload(5).unwrap(), "second");
    assert!(!table.is_loaded(5));
    assert!(table.subscribers("on_track_added").is_empty());
}

#[test]
fn event_dispatch_without_subscribers_is_done() {
    let mut table: PluginTable<PluginSandbox> = PluginTable::new();
    let mut run = EventDispatch::start(&table, "on_track_added");
    assert!(run.is_done());
    assert!(run.step(&mut table, b"{}").is_none());
}

#[test]
fn host_requests_planned_in_order() {
    let reqs = vec![
        HostRequest { function: "log_info".into(), args: vec![("message".into(), "hi".into())] },
        HostRequest { function: "drop_tables".into(), args: vec![] },
        HostRequest {
            function: "set_config".into(),
            args: vec![("key".into(), "k".into()), ("value".into(), "v".into()), ("key".into(), "later".into())],
        },
    ];
    let actions = plan_host_requests(&reqs);
    assert_eq!(actions.len(), 3);
    assert!(matches!(&actions[0], HostAction::LogInfo { message } if message == "hi"));
    assert!(matches!(&actions[1], HostAction::Unknown { function } if function == "drop_tables"));
    assert!(matches!(&actions[2], HostAction::SetConfig { key, value } if key == "k" && value == "v"));
}

#[test]
fn response_bodies_are_read_lossily_within_the_limit() {
    assert_eq!(response_body(b"plain text").unwrap(), "plain text");
    assert_eq!(response_body(&[b'a', 0xFF, b'b']).unwrap(), "a\u{FFFD}b");
    let big = vec![b'x'; 10 * 1024 * 1024 + 1];
    assert_eq!(
        response_body(&big).unwrap_err().message(),
        "HTTP error: response body too large: 10485761 bytes (max: 10485760 bytes)"
    );
}

#[test]
fn user_info_carries_the_hyphenated_id() {
    let u = user_info(
        0x0123456789abcdef0123456789abcdef,
        "alice".into(),
        Some("Alice".into()),
        "admin",
        "2024-01-01T00:00:00+00:00".into(),
    );
    assert_eq!(u.id, "01234567-89ab-cdef-0123-456789abcdef");
    assert_eq!(u.username, "alice");
    assert_eq!(u.display_name.as_deref(), Some("Alice"));
    assert_eq!(u.role, "admin");
    assert_eq!(u.created_at, "2024-01-01T00:00:00+00:00");
}

#[test]
fn private_ipv6_hosts_are_refused() {
    let ctx = test_context(vec!["*".into()]);
    for url in [
        "https://[fd00::1]/x",
        "https://[fc12:3456::9]/x",
        "https://[fe80::1]/x",
        "https://[febf::1]/x",
        "https://[::ffff:127.0.0.1]/x",
        "https://[::ffff:10.1.2.3]/x",
        "https://[::ffff:c0a8:101]/x",
        "https://[0:0:0:0:0:0:0:1]/x",
    ] {
        let err = ctx.check_private_ip(url).unwrap_err();
        assert!(matches!(err, PluginError::PermissionDenied(_)), "{url}");
    }
}

#[test]
fn public_ipv6_hosts_pass() {
    let ctx = test_context(vec!["*".into()]);
    ctx.check_private_ip("https://[2001:db8::1]/x").unwrap();
    ctx.check_private_ip("https://[::ffff:8.8.8.8]/x").unwrap();
    ctx.check_private_ip("https://[fec0::1]/x").unwrap();
}

#[test]
fn git_urls_to_private_ipv6_hosts_are_refused() {
    assert!(validate_git_url("https://[fd00::1]/repo.git").is_err());
    assert!(validate_git_url("https://[fe80::1]/repo.git").is_err());
    assert!(validate_git_url("https://[::ffff:192.168.0.1]/repo.git").is_err());
    assert!(validate_git_url("https://[2001:db8::1]/repo.git").is_ok());
}
