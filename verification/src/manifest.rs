//! Plugin manifest (`plugin.toml`) model and validation.
use vstd::prelude::*;

use crate::error::PluginError;
use crate::events::{is_known_name, known_event_names};
use crate::text::{
    byte_len, chars_of, dec, has_char, is_ascii_digit, is_ascii_lower, lemma_byte_len,
    lemma_chars_within_bytes, push_decimal, push_str, str_eq, string_of, width_sum,
};

verus! {

/// Plugin manifest, as read from `plugin.toml`.
#[derive(Debug, Clone)]
pub struct PluginManifest {
    pub plugin: PluginMeta,
    pub build: BuildConfig,
    pub permissions: Permissions,
    pub ui: UiConfig,
}

/// The `[plugin]` section.
#[derive(Debug, Clone)]
pub struct PluginMeta {
    pub name: String,
    pub version: String,
    pub description: String,
    pub author: Option<String>,
    pub license: Option<String>,
    pub min_soundtime_version: Option<String>,
    pub homepage: Option<String>,
}

/// The `[build]` section.
#[derive(Debug, Clone)]
pub struct BuildConfig {
    pub wasm: String,
}

/// The `[permissions]` section.
#[derive(Debug, Clone)]
pub struct Permissions {
    pub http_hosts: Vec<String>,
    pub events: Vec<String>,
    pub write_tracks: bool,
    pub config_access: bool,
    pub read_users: bool,
}

/// The `[ui]` section of plugins with a frontend panel.
#[derive(Debug, Clone)]
pub struct UiConfig {
    pub enabled: bool,
    pub slot: Option<String>,
    pub entry: Option<String>,
}

impl Default for Permissions {
    fn default() -> (p: Self)
        ensures
            p.http_hosts@.len() == 0,
            p.events@.len() == 0,
            !p.write_tracks,
            !p.config_access,
            !p.read_users,
    {
        Permissions {
            http_hosts: Vec::new(),
            events: Vec::new(),
            write_tracks: false,
            config_access: false,
            read_users: false,
        }
    }
}

impl Default for UiConfig {
    fn default() -> (u: Self)
        ensures
            !u.enabled,
            u.slot is None,
            u.entry is None,
    {
        UiConfig { enabled: false, slot: None, entry: None }
    }
}

// ─── Outside call: semantic versions ───────────────────────────────────

/// Whether `semver::Version::parse` accepts the text.
pub uninterp spec fn semver_parses(text: Seq<char>) -> bool;

/// Trusted: calls `semver::Version::parse` and reports whether it succeeded;
/// claims only that the answer is `semver_parses` of the text.
#[verifier::external_body]
fn semver_is_valid(text: &str) -> (b: bool)
    ensures
        b == semver_parses(text@),
{
    semver::Version::parse(text).is_ok()
}

// ─── Specification of the checks ──────────────────────────────────────

/// The first of two optional errors.
pub open spec fn first_err(a: Option<Seq<char>>, b: Option<Seq<char>>) -> Option<Seq<char>> {
    if a is Some {
        a
    } else {
        b
    }
}

/// A character allowed after the first one of a plugin name.
pub open spec fn name_tail_char_ok(c: char) -> bool {
    is_ascii_lower(c) || is_ascii_digit(c) || c == '-'
}

/// The first character of `s` that is not allowed in a plugin name.
pub open spec fn first_bad_name_char(s: Seq<char>) -> Option<char>
    decreases s.len(),
{
    if s.len() == 0 {
        None
    } else if !name_tail_char_ok(s[0]) {
        Some(s[0])
    } else {
        first_bad_name_char(s.drop_first())
    }
}

/// The error for a plugin name, if any: 2-64 bytes, a lowercase ASCII letter
/// first, then lowercase ASCII letters, digits or hyphens.
pub open spec fn name_error(name: Seq<char>) -> Option<Seq<char>> {
    let len = byte_len(name);
    if !(2 <= len && len <= 64) {
        Some("plugin name must be 2-64 characters, got "@ + dec(len))
    } else if !is_ascii_lower(name[0]) {
        Some("plugin name must start with a lowercase letter, got '"@ + seq![name[0]] + "'"@)
    } else if let Some(c) = first_bad_name_char(name.drop_first()) {
        Some("plugin name contains invalid character '"@ + seq![c] + "'"@)
    } else {
        None
    }
}

/// What `^[a-z][a-z0-9-]{1,63}$` accepts: 2 to 64 characters, a lowercase
/// ASCII letter, then lowercase ASCII letters, ASCII digits or `-`.
pub open spec fn matches_plugin_name_pattern(name: Seq<char>) -> bool {
    &&& 2 <= name.len() <= 64
    &&& 'a' <= name[0] && name[0] <= 'z'
    &&& forall|i: int|
        1 <= i < name.len() ==> ('a' <= #[trigger] name[i] && name[i] <= 'z') || ('0' <= name[i]
            && name[i] <= '9') || name[i] == '-'
}

proof fn lemma_first_bad_none(s: Seq<char>)
    ensures
        first_bad_name_char(s) is None <==> forall|i: int| 0 <= i < s.len() ==> name_tail_char_ok(
            #[trigger] s[i],
        ),
    decreases s.len(),
{
    if s.len() > 0 {
        lemma_first_bad_none(s.drop_first());
        if forall|i: int| 0 <= i < s.len() ==> name_tail_char_ok(#[trigger] s[i]) {
            assert forall|i: int| 0 <= i < s.drop_first().len() implies name_tail_char_ok(
                #[trigger] s.drop_first()[i],
            ) by {
                assert(s.drop_first()[i] == s[i + 1]);
            }
        }
        if first_bad_name_char(s) is None {
            assert forall|i: int| 0 <= i < s.len() implies name_tail_char_ok(#[trigger] s[i]) by {
                if i > 0 {
                    assert(s[i] == s.drop_first()[i - 1]);
                }
            }
        }
    }
}

proof fn lemma_ascii_width(s: Seq<char>)
    requires
        forall|i: int| 0 <= i < s.len() ==> (#[trigger] s[i] as u32) < 128,
    ensures
        width_sum(s) == s.len(),
    decreases s.len(),
{
    if s.len() > 0 {
        assert forall|i: int| 0 <= i < s.drop_first().len() implies (#[trigger] s.drop_first()[i] as u32)
            < 128 by {
            assert(s.drop_first()[i] == s[i + 1]);
        }
        lemma_ascii_width(s.drop_first());
    }
}

/// The plugin-name check is the documented pattern: a name has no error
/// exactly when it matches `^[a-z][a-z0-9-]{1,63}$` (so `mp3-tagger` is
/// accepted, and a name with an upper-case letter, a `_` or a non-ASCII
/// character is not).
pub proof fn law_plugin_name_pattern(name: Seq<char>)
    ensures
        name_error(name) is None <==> matches_plugin_name_pattern(name),
{
    lemma_first_bad_none(name.drop_first());
    lemma_chars_within_bytes(name);
    lemma_byte_len(name);
    if name_error(name) is None {
        assert(name.len() > 0) by {
            if name.len() == 0 {
                assert(name =~= Seq::<char>::empty());
            }
        }
        assert forall|i: int| 0 <= i < name.len() implies (#[trigger] name[i] as u32) < 128 by {
            if i > 0 {
                assert(name[i] == name.drop_first()[i - 1]);
                assert(name_tail_char_ok(name.drop_first()[i - 1]));
            }
        }
        lemma_ascii_width(name);
        assert forall|i: int| 1 <= i < name.len() implies ('a' <= #[trigger] name[i] && name[i]
            <= 'z') || ('0' <= name[i] && name[i] <= '9') || name[i] == '-' by {
            assert(name[i] == name.drop_first()[i - 1]);
            assert(name_tail_char_ok(name.drop_first()[i - 1]));
        }
    }
    if matches_plugin_name_pattern(name) {
        assert forall|i: int| 0 <= i < name.len() implies (#[trigger] name[i] as u32) < 128 by {
            if i > 0 {
                assert(('a' <= name[i] && name[i] <= 'z') || ('0' <= name[i] && name[i] <= '9')
                    || name[i] == '-');
            }
        }
        lemma_ascii_width(name);
        assert forall|i: int| 0 <= i < name.drop_first().len() implies name_tail_char_ok(
            #[trigger] name.drop_first()[i],
        ) by {
            assert(name.drop_first()[i] == name[i + 1]);
            assert(('a' <= name[i + 1] && name[i + 1] <= 'z') || ('0' <= name[i + 1] && name[i + 1]
                <= '9') || name[i + 1] == '-');
        }
    }
}

/// The error for a version field, if `value` is not a semantic version.
pub open spec fn semver_error(value: Seq<char>, field: Seq<char>) -> Option<Seq<char>> {
    if semver_parses(value) {
        None
    } else {
        Some(field + " is not valid semver: '"@ + value + "'"@)
    }
}

/// `p` is an absolute path.
pub open spec fn is_absolute_path(p: Seq<char>) -> bool {
    p.len() > 0 && p[0] == '/'
}

/// `p` has a `..` component at index `i`.
pub open spec fn dotdot_at(p: Seq<char>, i: int) -> bool {
    &&& 0 <= i && i + 2 <= p.len()
    &&& p[i] == '.' && p[i + 1] == '.'
    &&& (i == 0 || p[i - 1] == '/')
    &&& (i + 2 == p.len() || p[i + 2] == '/')
}

/// `p` has a `..` (parent directory) component.
pub open spec fn has_parent_component(p: Seq<char>) -> bool {
    exists|i: int| dotdot_at(p, i)
}

/// The error for a path that must stay inside the package, if any.
pub open spec fn path_error(path: Seq<char>, field: Seq<char>) -> Option<Seq<char>> {
    if is_absolute_path(path) {
        Some(field + " must be a relative path, got absolute: '"@ + path + "'"@)
    } else if has_parent_component(path) {
        Some(field + " must not contain '..': '"@ + path + "'"@)
    } else {
        None
    }
}

/// The error for an optional text field of 1 to `max` bytes, if any.
pub open spec fn len_error(value: Seq<char>, field: Seq<char>, range: Seq<char>, max: nat) -> Option<
    Seq<char>,
> {
    let len = byte_len(value);
    if len == 0 || len > max {
        Some(field + " must be "@ + range + " characters, got "@ + dec(len))
    } else {
        None
    }
}

/// The error for an `http_hosts` entry, if any.
pub open spec fn host_error(host: Seq<char>) -> Option<Seq<char>> {
    if host.len() == 0 {
        Some("http_hosts entry must not be empty"@)
    } else if host.contains(' ') {
        Some("http_hosts entry must not contain spaces: '"@ + host + "'"@)
    } else if host != "*"@ && host != "localhost"@ && !host.contains('.') {
        Some("http_hosts entry is not a valid domain: '"@ + host + "'"@)
    } else {
        None
    }
}

/// The error for the first unknown event of `events`, if any.
pub open spec fn events_error(events: Seq<String>) -> Option<Seq<char>>
    decreases events.len(),
{
    if events.len() == 0 {
        None
    } else if !known_event_names().contains(events[0]@) {
        Some("unknown event '"@ + events[0]@ + "'; known events: "@ + known_events_text())
    } else {
        events_error(events.drop_first())
    }
}

/// The error for the first invalid host of `hosts`, if any.
pub open spec fn hosts_error(hosts: Seq<String>) -> Option<Seq<char>>
    decreases hosts.len(),
{
    if hosts.len() == 0 {
        None
    } else if host_error(hosts[0]@) is Some {
        host_error(hosts[0]@)
    } else {
        hosts_error(hosts.drop_first())
    }
}

/// The known event names, separated by commas.
pub open spec fn known_events_text() -> Seq<char> {
    "on_track_added, on_track_played, on_track_deleted, on_library_scan_complete, on_user_registered, on_user_login, on_playlist_created, on_peer_connected, on_peer_disconnected, on_plugin_event"@
}

/// The UI slots where plugins can place a panel.
pub open spec fn valid_ui_slots() -> Seq<Seq<char>> {
    seq![
        "track-detail-sidebar"@,
        "player-extra-controls"@,
        "library-toolbar"@,
        "settings-panel"@,
    ]
}

/// The valid UI slots, separated by commas.
pub open spec fn ui_slots_text() -> Seq<char> {
    "track-detail-sidebar, player-extra-controls, library-toolbar, settings-panel"@
}

/// `s` ends with `suffix`.
pub open spec fn has_suffix(s: Seq<char>, suffix: Seq<char>) -> bool {
    suffix.len() <= s.len() && s.subrange(s.len() - suffix.len(), s.len() as int) == suffix
}

/// The error for a UI entry file, if any.
pub open spec fn entry_error(entry: Seq<char>) -> Option<Seq<char>> {
    first_err(
        path_error(entry, "ui.entry"@),
        if has_suffix(entry, ".html"@) {
            None
        } else {
            Some("ui.entry must end with '.html', got '"@ + entry + "'"@)
        },
    )
}

/// The error for the `[ui]` section, if any.
pub open spec fn ui_error(ui: UiConfig) -> Option<Seq<char>> {
    if ui.enabled {
        match ui.slot {
            None => Some("ui.slot is required when ui.enabled is true"@),
            Some(slot) => if !valid_ui_slots().contains(slot@) {
                Some("invalid ui.slot '"@ + slot@ + "'; valid slots: "@ + ui_slots_text())
            } else {
                match ui.entry {
                    None => Some("ui.entry is required when ui.enabled is true"@),
                    Some(entry) => entry_error(entry@),
                }
            },
        }
    } else {
        match ui.entry {
            None => None,
            Some(entry) => entry_error(entry@),
        }
    }
}

/// The error for an optional length-limited field, if any.
pub open spec fn opt_len_error(value: Option<String>, field: Seq<char>, range: Seq<char>, max: nat) -> Option<
    Seq<char>,
> {
    match value {
        None => None,
        Some(v) => len_error(v@, field, range, max),
    }
}

/// The error for the build section, if any.
pub open spec fn build_error(wasm: Seq<char>) -> Option<Seq<char>> {
    first_err(
        path_error(wasm, "build.wasm"@),
        if has_suffix(wasm, ".wasm"@) {
            None
        } else {
            Some("build.wasm must end with '.wasm', got '"@ + wasm + "'"@)
        },
    )
}

/// The first problem of a manifest, in the order the checks run;
/// `None` for a valid manifest.
pub open spec fn manifest_error(m: PluginManifest) -> Option<Seq<char>> {
    first_err(
        name_error(m.plugin.name@),
        first_err(
            semver_error(m.plugin.version@, "plugin.version"@),
            first_err(
                len_error(m.plugin.description@, "plugin.description"@, "1-500"@, 500),
                first_err(
                    opt_len_error(m.plugin.author, "plugin.author"@, "1-255"@, 255),
                    first_err(
                        opt_len_error(m.plugin.license, "plugin.license"@, "1-50"@, 50),
                        first_err(
                            match m.plugin.min_soundtime_version {
                                None => None,
                                Some(v) => semver_error(v@, "plugin.min_soundtime_version"@),
                            },
                            first_err(
                                build_error(m.build.wasm@),
                                first_err(
                                    events_error(m.permissions.events@),
                                    first_err(hosts_error(m.permissions.http_hosts@), ui_error(m.ui)),
                                ),
                            ),
                        ),
                    ),
                ),
            ),
        ),
    )
}

/// The text fields of a manifest have byte lengths that fit in `usize`
/// (true of every string held in memory).
pub open spec fn lengths_fit(m: PluginManifest) -> bool {
    &&& byte_len(m.plugin.name@) <= usize::MAX
    &&& byte_len(m.plugin.description@) <= usize::MAX
    &&& (m.plugin.author matches Some(a) ==> byte_len(a@) <= usize::MAX)
    &&& (m.plugin.license matches Some(l) ==> byte_len(l@) <= usize::MAX)
}

/// The outcome of validating a manifest with the given first problem.
pub open spec fn check_outcome(r: Result<(), PluginError>, err: Option<Seq<char>>) -> bool {
    match err {
        None => r is Ok,
        Some(msg) => r matches Err(PluginError::InvalidManifest(m)) && m@ == msg,
    }
}

// ─── Exec checks ───────────────────────────────────────────────────────

fn invalid(msg: &Vec<char>) -> (e: PluginError)
    ensures
        e matches PluginError::InvalidManifest(m) && m@ == msg@,
{
    PluginError::InvalidManifest(string_of(msg))
}

/// Checks a plugin name against `^[a-z][a-z0-9-]{1,63}$` (by bytes).
pub fn validate_plugin_name(name: &str) -> (r: Result<(), PluginError>)
    requires
        byte_len(name@) <= usize::MAX,
    ensures
        check_outcome(r, name_error(name@)),
{
    let len = name.len();
    if !(2 <= len && len <= 64) {
        let mut m: Vec<char> = Vec::new();
        push_str(&mut m, "plugin name must be 2-64 characters, got ");
        push_decimal(&mut m, len as u64);
        return Err(invalid(&m));
    }
    let cs = chars_of(name);
    proof {
        vstd::utf8::encode_utf8_decode_utf8(name@);
        assert(cs@.len() > 0) by {
            if cs@.len() == 0 {
                assert(name@ =~= Seq::<char>::empty());
                assert(vstd::utf8::encode_utf8(name@) =~= Seq::<u8>::empty());
            }
        }
    }
    let first = cs[0];
    if !('a' <= first && first <= 'z') {
        let mut m: Vec<char> = Vec::new();
        push_str(&mut m, "plugin name must start with a lowercase letter, got '");
        m.push(first);
        push_str(&mut m, "'");
        proof {
            assert(m@ =~= "plugin name must start with a lowercase letter, got '"@ + seq![first]
                + "'"@);
        }
        return Err(invalid(&m));
    }
    let mut i: usize = 1;
    proof {
        assert(cs@.drop_first() =~= cs@.skip(1));
    }
    while i < cs.len()
        invariant
            1 <= i <= cs@.len(),
            cs@ == name@,
            is_ascii_lower(cs@[0]),
            2 <= byte_len(name@) <= 64,
            first_bad_name_char(cs@.drop_first()) == first_bad_name_char(cs@.skip(i as int)),
        decreases cs.len() - i,
    {
        let c = cs[i];
        proof {
            assert(cs@.skip(i as int).drop_first() =~= cs@.skip(i + 1));
            assert(cs@.skip(i as int)[0] == c);
        }
        if !(('a' <= c && c <= 'z') || ('0' <= c && c <= '9') || c == '-') {
            let mut m: Vec<char> = Vec::new();
            push_str(&mut m, "plugin name contains invalid character '");
            m.push(c);
            push_str(&mut m, "'");
            proof {
                assert(m@ =~= "plugin name contains invalid character '"@ + seq![c] + "'"@);
            }
            return Err(invalid(&m));
        }
        i = i + 1;
    }
    proof {
        assert(cs@.skip(cs@.len() as int) =~= Seq::<char>::empty());
    }
    Ok(())
}

/// Checks that a version field is a semantic version.
pub fn validate_semver(value: &str, field_name: &str) -> (r: Result<(), PluginError>)
    ensures
        check_outcome(r, semver_error(value@, field_name@)),
{
    if semver_is_valid(value) {
        Ok(())
    } else {
        let mut m: Vec<char> = Vec::new();
        push_str(&mut m, field_name);
        push_str(&mut m, " is not valid semver: '");
        push_str(&mut m, value);
        push_str(&mut m, "'");
        proof {
            assert(m@ =~= field_name@ + " is not valid semver: '"@ + value@ + "'"@);
        }
        Err(invalid(&m))
    }
}

/// Whether the path has a `..` component.
pub fn has_parent_dir(p: &Vec<char>) -> (b: bool)
    ensures
        b == has_parent_component(p@),
{
    if p.len() < 2 {
        return false;
    }
    let mut i: usize = 0;
    while i < p.len() - 1
        invariant
            p.len() >= 2,
            i <= p.len() - 1,
            forall|k: int| 0 <= k < i ==> !dotdot_at(p@, k),
        decreases p.len() - i,
    {
        if p[i] == '.' && p[i + 1] == '.' && (i == 0 || p[i - 1] == '/') && (i + 2 == p.len()
            || p[i + 2] == '/') {
            assert(dotdot_at(p@, i as int));
            return true;
        }
        i = i + 1;
    }
    assert forall|k: int| !dotdot_at(p@, k) by {
        if 0 <= k && k + 2 <= p@.len() {
            assert(k < i);
        }
    }
    false
}

/// Checks that a path is relative and has no `..` component.
pub fn validate_path_safety(path: &str, field_name: &str) -> (r: Result<(), PluginError>)
    ensures
        check_outcome(r, path_error(path@, field_name@)),
{
    let p = chars_of(path);
    if p.len() > 0 && p[0] == '/' {
        let mut m: Vec<char> = Vec::new();
        push_str(&mut m, field_name);
        push_str(&mut m, " must be a relative path, got absolute: '");
        push_str(&mut m, path);
        push_str(&mut m, "'");
        proof {
            assert(m@ =~= field_name@ + " must be a relative path, got absolute: '"@ + path@
                + "'"@);
        }
        return Err(invalid(&m));
    }
    if has_parent_dir(&p) {
        let mut m: Vec<char> = Vec::new();
        push_str(&mut m, field_name);
        push_str(&mut m, " must not contain '..': '");
        push_str(&mut m, path);
        push_str(&mut m, "'");
        proof {
            assert(m@ =~= field_name@ + " must not contain '..': '"@ + path@ + "'"@);
        }
        return Err(invalid(&m));
    }
    Ok(())
}

/// Checks an `http_hosts` entry: non-empty, no spaces, and `*`,
/// `localhost` or a name with a dot.
pub fn validate_http_host(host: &str) -> (r: Result<(), PluginError>)
    ensures
        check_outcome(r, host_error(host@)),
{
    let h = chars_of(host);
    if h.len() == 0 {
        let mut m: Vec<char> = Vec::new();
        push_str(&mut m, "http_hosts entry must not be empty");
        return Err(invalid(&m));
    }
    if has_char(&h, ' ') {
        let mut m: Vec<char> = Vec::new();
        push_str(&mut m, "http_hosts entry must not contain spaces: '");
        push_str(&mut m, host);
        push_str(&mut m, "'");
        proof {
            assert(m@ =~= "http_hosts entry must not contain spaces: '"@ + host@ + "'"@);
        }
        return Err(invalid(&m));
    }
    if !str_eq(host, "*") && !str_eq(host, "localhost") && !has_char(&h, '.') {
        let mut m: Vec<char> = Vec::new();
        push_str(&mut m, "http_hosts entry is not a valid domain: '");
        push_str(&mut m, host);
        push_str(&mut m, "'");
        proof {
            assert(m@ =~= "http_hosts entry is not a valid domain: '"@ + host@ + "'"@);
        }
        return Err(invalid(&m));
    }
    Ok(())
}

/// Checks the byte length of a text field against `1..=max`.
fn validate_len(value: &str, field: &str, range: &str, max: usize) -> (r: Result<(), PluginError>)
    requires
        byte_len(value@) <= usize::MAX,
    ensures
        check_outcome(r, len_error(value@, field@, range@, max as nat)),
{
    let len = value.len();
    if len == 0 || len > max {
        let mut m: Vec<char> = Vec::new();
        push_str(&mut m, field);
        push_str(&mut m, " must be ");
        push_str(&mut m, range);
        push_str(&mut m, " characters, got ");
        push_decimal(&mut m, len as u64);
        proof {
            assert(m@ =~= field@ + " must be "@ + range@ + " characters, got "@ + dec(
                byte_len(value@),
            ));
        }
        return Err(invalid(&m));
    }
    Ok(())
}

/// Whether `s` ends with `suffix`.
fn str_ends_with(s: &str, suffix: &str) -> (b: bool)
    ensures
        b == has_suffix(s@, suffix@),
{
    let a = chars_of(s);
    let b = chars_of(suffix);
    crate::text::ends_with(&a, &b)
}

/// Checks a UI entry file: a safe relative path ending in `.html`.
fn validate_entry(entry: &str) -> (r: Result<(), PluginError>)
    ensures
        check_outcome(r, entry_error(entry@)),
{
    validate_path_safety(entry, "ui.entry")?;
    if !str_ends_with(entry, ".html") {
        let mut m: Vec<char> = Vec::new();
        push_str(&mut m, "ui.entry must end with '.html', got '");
        push_str(&mut m, entry);
        push_str(&mut m, "'");
        proof {
            assert(m@ =~= "ui.entry must end with '.html', got '"@ + entry@ + "'"@);
        }
        return Err(invalid(&m));
    }
    Ok(())
}

/// Whether `slot` is one of the valid UI slots.
pub fn is_valid_ui_slot(slot: &str) -> (b: bool)
    ensures
        b == valid_ui_slots().contains(slot@),
{
    let slots: Vec<&'static str> = vec![
        "track-detail-sidebar",
        "player-extra-controls",
        "library-toolbar",
        "settings-panel",
    ];
    let mut i: usize = 0;
    while i < slots.len()
        invariant
            slots@.len() == 4,
            slots@[0]@ == "track-detail-sidebar"@,
            slots@[1]@ == "player-extra-controls"@,
            slots@[2]@ == "library-toolbar"@,
            slots@[3]@ == "settings-panel"@,
            i <= 4,
            forall|j: int| 0 <= j < i ==> valid_ui_slots()[j] != slot@,
        decreases slots.len() - i,
    {
        if str_eq(slots[i], slot) {
            assert(valid_ui_slots()[i as int] == slot@);
            return true;
        }
        i = i + 1;
    }
    assert forall|j: int| 0 <= j < 4 implies valid_ui_slots()[j] != slot@ by {
        assert(j < i);
    }
    false
}

/// Checks every event name against the known events.
fn validate_events(events: &Vec<String>) -> (r: Result<(), PluginError>)
    ensures
        check_outcome(r, events_error(events@)),
{
    let mut i: usize = 0;
    proof {
        assert(events@.skip(0) =~= events@);
    }
    while i < events.len()
        invariant
            i <= events@.len(),
            events_error(events@) == events_error(events@.skip(i as int)),
        decreases events.len() - i,
    {
        proof {
            assert(events@.skip(i as int).drop_first() =~= events@.skip(i + 1));
            assert(events@.skip(i as int)[0] == events@[i as int]);
        }
        if !is_known_name(events[i].as_str()) {
            let mut m: Vec<char> = Vec::new();
            push_str(&mut m, "unknown event '");
            push_str(&mut m, events[i].as_str());
            push_str(&mut m, "'; known events: ");
            push_str(
                &mut m,
                "on_track_added, on_track_played, on_track_deleted, on_library_scan_complete, on_user_registered, on_user_login, on_playlist_created, on_peer_connected, on_peer_disconnected, on_plugin_event",
            );
            proof {
                assert(m@ =~= "unknown event '"@ + events@[i as int]@ + "'; known events: "@
                    + known_events_text());
            }
            return Err(invalid(&m));
        }
        i = i + 1;
    }
    proof {
        assert(events@.skip(i as int) =~= Seq::<String>::empty());
    }
    Ok(())
}

/// Checks every `http_hosts` entry.
fn validate_hosts(hosts: &Vec<String>) -> (r: Result<(), PluginError>)
    ensures
        check_outcome(r, hosts_error(hosts@)),
{
    let mut i: usize = 0;
    proof {
        assert(hosts@.skip(0) =~= hosts@);
    }
    while i < hosts.len()
        invariant
            i <= hosts@.len(),
            hosts_error(hosts@) == hosts_error(hosts@.skip(i as int)),
        decreases hosts.len() - i,
    {
        proof {
            assert(hosts@.skip(i as int).drop_first() =~= hosts@.skip(i + 1));
            assert(hosts@.skip(i as int)[0] == hosts@[i as int]);
        }
        validate_http_host(hosts[i].as_str())?;
        i = i + 1;
    }
    proof {
        assert(hosts@.skip(i as int) =~= Seq::<String>::empty());
    }
    Ok(())
}

/// Checks the `[ui]` section.
fn validate_ui(ui: &UiConfig) -> (r: Result<(), PluginError>)
    ensures
        check_outcome(r, ui_error(*ui)),
{
    if ui.enabled {
        match &ui.slot {
            None => {
                let mut m: Vec<char> = Vec::new();
                push_str(&mut m, "ui.slot is required when ui.enabled is true");
                Err(invalid(&m))
            },
            Some(slot) => {
                if !is_valid_ui_slot(slot.as_str()) {
                    let mut m: Vec<char> = Vec::new();
                    push_str(&mut m, "invalid ui.slot '");
                    push_str(&mut m, slot.as_str());
                    push_str(&mut m, "'; valid slots: ");
                    push_str(
                        &mut m,
                        "track-detail-sidebar, player-extra-controls, library-toolbar, settings-panel",
                    );
                    proof {
                        assert(m@ =~= "invalid ui.slot '"@ + slot@ + "'; valid slots: "@
                            + ui_slots_text());
                    }
                    return Err(invalid(&m));
                }
                match &ui.entry {
                    None => {
                        let mut m: Vec<char> = Vec::new();
                        push_str(&mut m, "ui.entry is required when ui.enabled is true");
                        Err(invalid(&m))
                    },
                    Some(entry) => validate_entry(entry.as_str()),
                }
            },
        }
    } else {
        match &ui.entry {
            None => Ok(()),
            Some(entry) => validate_entry(entry.as_str()),
        }
    }
}

impl PluginManifest {
    /// Validates every field; on failure reports the first problem found, as
    /// an `InvalidManifest` error.
    pub fn validate(&self) -> (r: Result<(), PluginError>)
        requires
            lengths_fit(*self),
        ensures
            check_outcome(r, manifest_error(*self)),
            r is Ok <==> manifest_error(*self) is None,
    {
        validate_plugin_name(self.plugin.name.as_str())?;
        validate_semver(self.plugin.version.as_str(), "plugin.version")?;
        validate_len(self.plugin.description.as_str(), "plugin.description", "1-500", 500)?;
        if let Some(author) = &self.plugin.author {
            validate_len(author.as_str(), "plugin.author", "1-255", 255)?;
        }
        if let Some(license) = &self.plugin.license {
            validate_len(license.as_str(), "plugin.license", "1-50", 50)?;
        }
        if let Some(min_ver) = &self.plugin.min_soundtime_version {
            validate_semver(min_ver.as_str(), "plugin.min_soundtime_version")?;
        }
        validate_path_safety(self.build.wasm.as_str(), "build.wasm")?;
        if !str_ends_with(self.build.wasm.as_str(), ".wasm") {
            let mut m: Vec<char> = Vec::new();
            push_str(&mut m, "build.wasm must end with '.wasm', got '");
            push_str(&mut m, self.build.wasm.as_str());
            push_str(&mut m, "'");
            proof {
                assert(m@ =~= "build.wasm must end with '.wasm', got '"@ + self.build.wasm@
                    + "'"@);
            }
            return Err(invalid(&m));
        }
        validate_events(&self.permissions.events)?;
        validate_hosts(&self.permissions.http_hosts)?;
        validate_ui(&self.ui)
    }

    /// Validates the outcome of parsing `plugin.toml`: a parse error is
    /// handed back unchanged; a parsed manifest is returned when valid.
    pub fn parse_and_validate(parsed: Result<PluginManifest, PluginError>) -> (r: Result<
        PluginManifest,
        PluginError,
    >)
        requires
            parsed matches Ok(m) ==> lengths_fit(m),
        ensures
            parsed is Err ==> r == parsed,
            parsed matches Ok(m) ==> {
                &&& (r is Ok <==> manifest_error(m) is None)
                &&& (r matches Ok(v) ==> v == m)
                &&& (r matches Err(e) ==> check_outcome(Err(e), manifest_error(m)))
            },
    {
        match parsed {
            Err(e) => Err(e),
            Ok(m) => {
                match m.validate() {
                    Ok(()) => Ok(m),
                    Err(e) => Err(e),
                }
            },
        }
    }

    /// Whether the manifest declares a frontend panel.
    pub fn has_ui(&self) -> (b: bool)
        ensures
            b == self.ui.enabled,
    {
        self.ui.enabled
    }
}

} // verus!
