//! The plugin administration endpoints' request and response shapes, the
//! paging of plugin logs, and how plugin UI files are served.
use vstd::prelude::*;

use crate::pagination::{page_number, page_of, page_size, page_size_of};
use crate::paths::{extension_of, path_extension};
use crate::text::{str_eq, string_of};

verus! {

/// The error every plugin endpoint answers while the plugin system is off.
pub const PLUGIN_SYSTEM_DISABLED: &'static str = "Plugin system is not enabled";

/// The answer of every plugin endpoint while the plugin system is off:
/// 503 Service Unavailable, with `PLUGIN_SYSTEM_DISABLED` as the error.
pub fn plugin_system_disabled() -> (r: (u16, &'static str))
    ensures
        r.0 == 503,
        r.1@ == PLUGIN_SYSTEM_DISABLED@,
{
    (503, PLUGIN_SYSTEM_DISABLED)
}

/// The Content-Security-Policy plugin UI pages are served with: only
/// same-origin scripts, styles and framing.
pub const PLUGIN_UI_CSP: &'static str = "default-src 'self'; script-src 'self' 'unsafe-inline'; style-src 'self' 'unsafe-inline'; frame-ancestors 'self'";

/// A request to install a plugin from a repository.
#[derive(Debug, Clone)]
pub struct InstallRequest {
    pub git_url: String,
}

/// One configuration value sent by an administrator.
#[derive(Debug, Clone)]
pub struct ConfigEntry {
    pub key: String,
    pub value: String,
}

/// New configuration values for a plugin.
#[derive(Debug, Clone)]
pub struct UpdateConfigRequest {
    pub config: Vec<ConfigEntry>,
}

/// One stored configuration value.
#[derive(Debug, Clone)]
pub struct ConfigEntryResponse {
    pub key: String,
    pub value: String,
}

/// A plugin's stored configuration.
#[derive(Debug, Clone)]
pub struct ConfigResponse {
    pub config: Vec<ConfigEntryResponse>,
}

/// How many configuration values were written.
#[derive(Debug, Clone, Copy, PartialEq, Eq, Structural)]
pub struct UpdateConfigResponse {
    pub updated: usize,
}

/// Paging of a plugin's event log.
#[derive(Debug, Clone, Copy, PartialEq, Eq, Structural)]
pub struct LogsQuery {
    pub page: Option<u64>,
    pub per_page: Option<u64>,
}

impl LogsQuery {
    /// The page shown: `page` (default 1), at least 1.
    pub fn page(&self) -> (p: u64)
        ensures
            p == page_of(self.page),
    {
        page_number(self.page)
    }

    /// The page size: `per_page` (default 50), at most 100.
    pub fn per_page(&self) -> (n: u64)
        ensures
            n == page_size_of(self.per_page, 50, 100),
    {
        page_size(self.per_page, 50, 100)
    }
}

/// The configuration as returned to an administrator, one entry per stored
/// key and value, in order.
pub fn config_response(stored: &Vec<(String, String)>) -> (r: ConfigResponse)
    ensures
        r.config@.len() == stored@.len(),
        forall|i: int| 0 <= i < stored@.len() ==> #[trigger] r.config@[i].key@ == stored@[i].0@
            && r.config@[i].value@ == stored@[i].1@,
{
    let mut config: Vec<ConfigEntryResponse> = Vec::new();
    let mut i: usize = 0;
    while i < stored.len()
        invariant
            i <= stored@.len(),
            config@.len() == i,
            forall|j: int| 0 <= j < i ==> #[trigger] config@[j].key@ == stored@[j].0@
                && config@[j].value@ == stored@[j].1@,
        decreases stored.len() - i,
    {
        let key = string_of(&crate::text::chars_of(stored[i].0.as_str()));
        let value = string_of(&crate::text::chars_of(stored[i].1.as_str()));
        config.push(ConfigEntryResponse { key, value });
        i = i + 1;
    }
    ConfigResponse { config }
}

/// The MIME type of a plugin UI file, by extension.
pub open spec fn plugin_ui_mime(ext: Seq<char>) -> Seq<char> {
    if ext == "html"@ {
        "text/html; charset=utf-8"@
    } else if ext == "js"@ || ext == "mjs"@ {
        "application/javascript"@
    } else if ext == "css"@ {
        "text/css"@
    } else if ext == "json"@ {
        "application/json"@
    } else if ext == "svg"@ {
        "image/svg+xml"@
    } else if ext == "png"@ {
        "image/png"@
    } else if ext == "jpg"@ || ext == "jpeg"@ {
        "image/jpeg"@
    } else if ext == "webp"@ {
        "image/webp"@
    } else if ext == "woff"@ {
        "font/woff"@
    } else if ext == "woff2"@ {
        "font/woff2"@
    } else if ext == "ttf"@ {
        "font/ttf"@
    } else {
        "application/octet-stream"@
    }
}

/// Content type of a plugin UI file with extension `ext`.
pub fn plugin_ui_content_type(ext: &str) -> (t: &'static str)
    ensures
        t@ == plugin_ui_mime(ext@),
{
    if str_eq(ext, "html") {
        "text/html; charset=utf-8"
    } else if str_eq(ext, "js") || str_eq(ext, "mjs") {
        "application/javascript"
    } else if str_eq(ext, "css") {
        "text/css"
    } else if str_eq(ext, "json") {
        "application/json"
    } else if str_eq(ext, "svg") {
        "image/svg+xml"
    } else if str_eq(ext, "png") {
        "image/png"
    } else if str_eq(ext, "jpg") || str_eq(ext, "jpeg") {
        "image/jpeg"
    } else if str_eq(ext, "webp") {
        "image/webp"
    } else if str_eq(ext, "woff") {
        "font/woff"
    } else if str_eq(ext, "woff2") {
        "font/woff2"
    } else if str_eq(ext, "ttf") {
        "font/ttf"
    } else {
        "application/octet-stream"
    }
}

/// Content type of a served plugin UI file, from its path's extension (none
/// counts as unknown).
pub fn plugin_ui_file_type(path: &str) -> (t: &'static str)
    ensures
        t@ == plugin_ui_mime(
            match path_extension(path@) {
                Some(e) => e,
                None => Seq::<char>::empty(),
            },
        ),
{
    match extension_of(path) {
        Some(e) => plugin_ui_content_type(e.as_str()),
        None => {
            let empty = string_of(&Vec::new());
            plugin_ui_content_type(empty.as_str())
        },
    }
}

// ─── Updating the configuration ────────────────────────────────────────

/// The value stored for `key`: the first entry with that key.
pub open spec fn stored_value(stored: Seq<(Seq<char>, Seq<char>)>, key: Seq<char>) -> Option<Seq<char>>
    decreases stored.len(),
{
    if stored.len() == 0 {
        None
    } else if stored[0].0 == key {
        Some(stored[0].1)
    } else {
        stored_value(stored.drop_first(), key)
    }
}

/// The stored configuration as keys and values.
pub open spec fn pairs_view(stored: Seq<(String, String)>) -> Seq<(Seq<char>, Seq<char>)> {
    stored.map_values(|e: (String, String)| (e.0@, e.1@))
}

/// Stores one entry: an existing key takes the new value in place, a new
/// key is added at the end.
pub open spec fn upsert(stored: Seq<(Seq<char>, Seq<char>)>, key: Seq<char>, value: Seq<char>) -> Seq<(Seq<char>, Seq<char>)> {
    match first_key_index(stored, key) {
        Some(i) => stored.update(i, (key, value)),
        None => stored.push((key, value)),
    }
}

/// The index of the first entry with `key`.
pub open spec fn first_key_index(stored: Seq<(Seq<char>, Seq<char>)>, key: Seq<char>) -> Option<int>
    decreases stored.len(),
{
    if stored.len() == 0 {
        None
    } else if stored[0].0 == key {
        Some(0)
    } else {
        match first_key_index(stored.drop_first(), key) {
            Some(i) => Some(i + 1),
            None => None,
        }
    }
}

/// The configuration after storing the entries one by one.
pub open spec fn upsert_all(stored: Seq<(Seq<char>, Seq<char>)>, entries: Seq<ConfigEntry>) -> Seq<(Seq<char>, Seq<char>)>
    decreases entries.len(),
{
    if entries.len() == 0 {
        stored
    } else {
        upsert(upsert_all(stored, entries.drop_last()), entries.last().key@, entries.last().value@)
    }
}

fn key_position(stored: &Vec<(String, String)>, key: &str) -> (r: Option<usize>)
    ensures
        match first_key_index(pairs_view(stored@), key@) {
            Some(i) => r matches Some(j) && j as int == i && j < stored@.len(),
            None => r is None,
        },
{
    let ghost p = pairs_view(stored@);
    let mut i: usize = 0;
    proof {
        assert(p.skip(0) =~= p);
    }
    while i < stored.len()
        invariant
            i <= stored@.len(),
            p == pairs_view(stored@),
            first_key_index(p, key@) == match first_key_index(p.skip(i as int), key@) {
                Some(k) => Some(k + i),
                None => None::<int>,
            },
        decreases stored.len() - i,
    {
        proof {
            assert(p.skip(i as int).drop_first() =~= p.skip(i + 1));
            assert(p.skip(i as int)[0] == (stored@[i as int].0@, stored@[i as int].1@));
        }
        if str_eq(stored[i].0.as_str(), key) {
            return Some(i);
        }
        i = i + 1;
    }
    None
}

/// Applies an update of the configuration to what is stored (see
/// `upsert_all`), and counts the entries written: every entry of the request.
pub fn update_config(stored: Vec<(String, String)>, req: &UpdateConfigRequest) -> (r: (Vec<(String, String)>, UpdateConfigResponse))
    ensures
        pairs_view(r.0@) == upsert_all(pairs_view(stored@), req.config@),
        r.1.updated == req.config@.len(),
{
    let mut cur = stored;
    let mut i: usize = 0;
    while i < req.config.len()
        invariant
            i <= req.config@.len(),
            pairs_view(cur@) == upsert_all(pairs_view(stored@), req.config@.take(i as int)),
        decreases req.config.len() - i,
    {
        let entry = &req.config[i];
        let ghost before = pairs_view(cur@);
        proof {
            assert(req.config@.take(i + 1).drop_last() =~= req.config@.take(i as int));
            assert(req.config@.take(i + 1).last() == req.config@[i as int]);
        }
        let key = string_of(&crate::text::chars_of(entry.key.as_str()));
        let value = string_of(&crate::text::chars_of(entry.value.as_str()));
        match key_position(&cur, entry.key.as_str()) {
            Some(j) => {
                cur.set(j, (key, value));
                proof {
                    assert(pairs_view(cur@) =~= before.update(j as int, (entry.key@, entry.value@)));
                }
            },
            None => {
                cur.push((key, value));
                proof {
                    assert(pairs_view(cur@) =~= before.push((entry.key@, entry.value@)));
                }
            },
        }
        i = i + 1;
    }
    proof {
        assert(req.config@.take(req.config@.len() as int) =~= req.config@);
    }
    let n = req.config.len();
    (cur, UpdateConfigResponse { updated: n })
}

proof fn lemma_first_key_index(stored: Seq<(Seq<char>, Seq<char>)>, key: Seq<char>)
    ensures
        match first_key_index(stored, key) {
            Some(i) => 0 <= i < stored.len() && stored[i].0 == key && stored_value(stored, key) == Some(stored[i].1)
                && forall|j: int| 0 <= j < i ==> stored[j].0 != key,
            None => stored_value(stored, key) is None && forall|j: int| 0 <= j < stored.len() ==> stored[j].0 != key,
        },
    decreases stored.len(),
{
    if stored.len() > 0 {
        lemma_first_key_index(stored.drop_first(), key);
        if stored[0].0 != key {
            assert forall|j: int| 1 <= j < stored.len() implies stored[j] == stored.drop_first()[j - 1] by {}
        }
    }
}

proof fn lemma_value_after_upsert(stored: Seq<(Seq<char>, Seq<char>)>, key: Seq<char>, value: Seq<char>, other: Seq<char>)
    ensures
        stored_value(upsert(stored, key, value), other) == if other == key {
            Some(value)
        } else {
            stored_value(stored, other)
        },
{
    let after = upsert(stored, key, value);
    lemma_first_key_index(stored, key);
    lemma_first_key_index(stored, other);
    lemma_first_key_index(after, other);
    match first_key_index(stored, key) {
        Some(i) => {
            assert(after.len() == stored.len());
            if other == key {
                assert(after[i].0 == key);
            } else {
                match first_key_index(stored, other) {
                    Some(k) => {
                        assert(after[k] == stored[k]);
                    },
                    None => {},
                }
                match first_key_index(after, other) {
                    Some(k) => {
                        assert(k != i);
                        assert(after[k] == stored[k]);
                    },
                    None => {},
                }
            }
        },
        None => {
            assert(after.len() == stored.len() + 1);
            if other == key {
                assert(after[stored.len() as int].0 == key);
            } else {
                match first_key_index(stored, other) {
                    Some(k) => {
                        assert(after[k] == stored[k]);
                    },
                    None => {},
                }
                match first_key_index(after, other) {
                    Some(k) => {
                        assert(k < stored.len());
                        assert(after[k] == stored[k]);
                    },
                    None => {},
                }
            }
        },
    }
}

/// After an update, reading a key gives the value of the last entry of the
/// update with that key; keys the update does not name keep their values.
pub proof fn law_config_read_after_update(stored: Seq<(Seq<char>, Seq<char>)>, entries: Seq<ConfigEntry>, key: Seq<char>)
    ensures
        stored_value(upsert_all(stored, entries), key) == match last_entry_for(entries, key) {
            Some(v) => Some(v),
            None => stored_value(stored, key),
        },
    decreases entries.len(),
{
    if entries.len() > 0 {
        law_config_read_after_update(stored, entries.drop_last(), key);
        lemma_value_after_upsert(upsert_all(stored, entries.drop_last()), entries.last().key@, entries.last().value@, key);
    }
}

/// The value of the last entry with `key`, if any.
pub open spec fn last_entry_for(entries: Seq<ConfigEntry>, key: Seq<char>) -> Option<Seq<char>>
    decreases entries.len(),
{
    if entries.len() == 0 {
        None
    } else if entries.last().key@ == key {
        Some(entries.last().value@)
    } else {
        last_entry_for(entries.drop_last(), key)
    }
}

// ─── Serving UI files ──────────────────────────────────────────────────

/// Why a plugin UI file is not served.
#[derive(Debug, Clone, Copy, PartialEq, Eq, Structural)]
pub enum UiRefusal {
    PluginNotFound,
    InvalidPluginPath,
    NoUi,
    FileNotFound,
    UiDirError,
    PathTraversal,
}

impl UiRefusal {
    /// The HTTP status of the refusal.
    pub fn status(&self) -> (c: u16)
        ensures
            c == match *self {
                UiRefusal::InvalidPluginPath => 500u16,
                UiRefusal::UiDirError => 500u16,
                UiRefusal::PathTraversal => 403u16,
                _ => 404u16,
            },
    {
        match self {
            UiRefusal::InvalidPluginPath => 500,
            UiRefusal::UiDirError => 500,
            UiRefusal::PathTraversal => 403,
            _ => 404,
        }
    }

    /// The message of the refusal.
    pub fn message(&self) -> (m: &'static str)
        ensures
            m@ == match *self {
                UiRefusal::PluginNotFound => "Plugin not found"@,
                UiRefusal::InvalidPluginPath => "Invalid plugin path"@,
                UiRefusal::NoUi => "Plugin has no UI"@,
                UiRefusal::FileNotFound => "File not found"@,
                UiRefusal::UiDirError => "Plugin UI directory error"@,
                UiRefusal::PathTraversal => "Path traversal detected"@,
            },
    {
        match self {
            UiRefusal::PluginNotFound => "Plugin not found",
            UiRefusal::InvalidPluginPath => "Invalid plugin path",
            UiRefusal::NoUi => "Plugin has no UI",
            UiRefusal::FileNotFound => "File not found",
            UiRefusal::UiDirError => "Plugin UI directory error",
            UiRefusal::PathTraversal => "Path traversal detected",
        }
    }
}

/// What was found while resolving a requested UI file, step by step.
#[derive(Debug, Clone, Copy)]
pub struct UiProbe {
    /// The plugin is recorded.
    pub found: bool,
    /// Its WASM path has a parent directory.
    pub has_dir: bool,
    /// The `ui` directory beside it exists.
    pub ui_exists: bool,
    /// The requested path resolved to a canonical path.
    pub resolved: bool,
    /// The `ui` directory resolved to a canonical path.
    pub dir_resolved: bool,
    /// The requested path lies inside the `ui` directory.
    pub inside: bool,
    /// The requested path is a file.
    pub is_file: bool,
}

/// The first refusal the probe calls for, in the order the checks are made.
pub open spec fn ui_refusal_of(p: UiProbe) -> Option<UiRefusal> {
    if !p.found {
        Some(UiRefusal::PluginNotFound)
    } else if !p.has_dir {
        Some(UiRefusal::InvalidPluginPath)
    } else if !p.ui_exists {
        Some(UiRefusal::NoUi)
    } else if !p.resolved {
        Some(UiRefusal::FileNotFound)
    } else if !p.dir_resolved {
        Some(UiRefusal::UiDirError)
    } else if !p.inside {
        Some(UiRefusal::PathTraversal)
    } else if !p.is_file {
        Some(UiRefusal::FileNotFound)
    } else {
        None
    }
}

/// Whether (and why not) a UI file is served (see `ui_refusal_of`).
pub fn ui_refusal(p: &UiProbe) -> (r: Option<UiRefusal>)
    ensures
        r == ui_refusal_of(*p),
{
    if !p.found {
        Some(UiRefusal::PluginNotFound)
    } else if !p.has_dir {
        Some(UiRefusal::InvalidPluginPath)
    } else if !p.ui_exists {
        Some(UiRefusal::NoUi)
    } else if !p.resolved {
        Some(UiRefusal::FileNotFound)
    } else if !p.dir_resolved {
        Some(UiRefusal::UiDirError)
    } else if !p.inside {
        Some(UiRefusal::PathTraversal)
    } else if !p.is_file {
        Some(UiRefusal::FileNotFound)
    } else {
        None
    }
}

} // verus!
