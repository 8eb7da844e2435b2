//! CSS theme packages: the `theme.toml` manifest and its checks, the files a
//! package may hold, the installer's limits, and how theme assets are
//! served.
use vstd::prelude::*;

use crate::netguard::{git_url_problem, git_url_refusal};
use crate::paths::{extension_of, is_bare_name, name_extension, path_extension};
use crate::sandbox::{opt_str_view, setting_or};
use crate::text::{
    chars_of, contains_seq, dec, has_char, is_prefix, is_suffix, push_decimal, push_str,
    str_eq, string_of,
};

verus! {

// ─── Constants ─────────────────────────────────────────────────────────

/// Default maximum size of a theme package, in MB.
pub const DEFAULT_MAX_THEME_SIZE_MB: u64 = 20;

/// The pattern a theme name must match: lowercase letters, digits and
/// hyphens, 2 to 64 characters, starting with a letter.
pub const THEME_NAME_PATTERN: &'static str = "^[a-z][a-z0-9-]{1,63}$";

/// File extensions a theme package may hold.
pub open spec fn allowed_extensions() -> Seq<Seq<char>> {
    seq!["css"@, "png"@, "jpg"@, "jpeg"@, "svg"@, "webp"@, "woff2"@, "woff"@, "ttf"@, "otf"@]
}

/// The allowed extensions as `Debug` renders the list.
pub open spec fn allowed_extensions_text() -> Seq<char> {
    "[\"css\", \"png\", \"jpg\", \"jpeg\", \"svg\", \"webp\", \"woff2\", \"woff\", \"ttf\", \"otf\"]"@
}

/// The file extensions a theme package may hold.
pub fn allowed_theme_extensions() -> (v: Vec<&'static str>)
    ensures
        v@.len() == 10,
        forall|i: int| 0 <= i < 10 ==> #[trigger] v@[i]@ == allowed_extensions()[i],
{
    vec!["css", "png", "jpg", "jpeg", "svg", "webp", "woff2", "woff", "ttf", "otf"]
}

fn is_allowed_ext_name(ext: &str) -> (b: bool)
    ensures
        b == allowed_extensions().contains(ext@),
{
    let list = allowed_theme_extensions();
    let mut i: usize = 0;
    while i < list.len()
        invariant
            list@.len() == 10,
            forall|j: int| 0 <= j < 10 ==> #[trigger] list@[j]@ == allowed_extensions()[j],
            i <= 10,
            forall|j: int| 0 <= j < i ==> allowed_extensions()[j] != ext@,
        decreases list.len() - i,
    {
        if str_eq(list[i], ext) {
            assert(allowed_extensions()[i as int] == ext@);
            return true;
        }
        i = i + 1;
    }
    assert forall|j: int| 0 <= j < allowed_extensions().len() implies allowed_extensions()[j]
        != ext@ by {
        assert(j < i);
    }
    false
}

/// Whether a path's extension (exact case) is one a theme may hold.
pub open spec fn extension_allowed(path: Seq<char>) -> bool {
    match path_extension(path) {
        Some(e) => allowed_extensions().contains(e),
        None => false,
    }
}

/// Whether a file may be part of a theme package, by its extension.
/// For a bare file name the extension is what follows its last `.`
/// (none when the only `.` starts the name), as std documents it.
pub fn is_allowed_extension(path: &str) -> (b: bool)
    ensures
        b == extension_allowed(path@),
        is_bare_name(path@) ==> (b <==> (name_extension(path@) matches Some(e)
            && allowed_extensions().contains(e))),
{
    match extension_of(path) {
        Some(e) => is_allowed_ext_name(e.as_str()),
        None => false,
    }
}

// ─── Manifest ──────────────────────────────────────────────────────────

/// The `[theme]` table of a manifest.
#[derive(Debug, Clone)]
pub struct ThemeInfo {
    pub name: String,
    pub version: String,
    pub description: Option<String>,
    pub author: Option<String>,
    pub license: Option<String>,
    pub homepage: Option<String>,
}

/// The `[assets]` table of a manifest.
#[derive(Debug, Clone)]
pub struct ThemeAssets {
    /// Path of the stylesheet in the repository.
    pub css: String,
    /// Directory of images and fonts, if any.
    pub assets_dir: Option<String>,
}

/// A parsed `theme.toml`.
#[derive(Debug, Clone)]
pub struct ThemeManifest {
    pub theme: ThemeInfo,
    pub assets: ThemeAssets,
}

/// What the `regex` crate answers for `pattern` matched against `text`
/// (`None` when the pattern does not compile).
pub uninterp spec fn regex_answer(pattern: Seq<char>, text: Seq<char>) -> Option<bool>;

/// What `THEME_NAME_PATTERN` accepts: 2 to 64 characters, the first a
/// lowercase ASCII letter, the others lowercase ASCII letters, digits or
/// `-`.
pub open spec fn theme_name_shape(name: Seq<char>) -> bool {
    &&& 2 <= name.len() <= 64
    &&& 'a' <= name[0] && name[0] <= 'z'
    &&& forall|i: int|
        1 <= i < name.len() ==> ('a' <= #[trigger] name[i] && name[i] <= 'z') || ('0' <= name[i]
            && name[i] <= '9') || name[i] == '-'
}

/// Matches `text` against a regular expression.
///
/// Trusted: calls `regex::Regex::new` and `Regex::is_match`.  Claims an
/// answer exactly when the pattern compiles, and that it is the named one;
/// the text of a compile error is `regex::Error`'s and is not stated.  For
/// the theme-name pattern it claims the answer the regex syntax gives: `^`
/// and `$` anchor at the ends of the text (no multi-line flag), the
/// classes are ASCII ranges, and the second class repeats 1 to 63 times
/// (see `theme_name_shape`).
#[verifier::external_body]
pub(crate) fn regex_is_match(pattern: &str, text: &str) -> (r: Result<bool, String>)
    ensures
        r matches Ok(ok) ==> (pattern@ == THEME_NAME_PATTERN@ ==> ok == theme_name_shape(text@)),
        r is Ok || pattern@ != THEME_NAME_PATTERN@,
        match regex_answer(pattern@, text@) {
            Some(b) => r == Ok::<bool, String>(b),
            None => r is Err,
        },
{
    match regex::Regex::new(pattern) {
        Ok(re) => Ok(re.is_match(text)),
        Err(e) => Err(e.to_string()),
    }
}

/// A path is unsafe when it contains `..` anywhere or starts with `/`.
pub open spec fn unsafe_theme_path(p: Seq<char>) -> bool {
    contains_seq(p, ".."@) || is_prefix("/"@, p)
}

/// The first problem with a manifest, given whether its name matches the
/// name pattern: the name, then the version (must contain a `.`), the
/// stylesheet path (must end in `.css`, then must be safe), and the assets
/// directory (must be safe).
pub open spec fn theme_manifest_problem(m: ThemeManifest, name_ok: bool) -> Option<Seq<char>> {
    if !name_ok {
        Some(
            "invalid theme name '"@ + m.theme.name@ + "': must match pattern "@
                + THEME_NAME_PATTERN@
                + " (lowercase letters, digits, hyphens, 2-64 chars)"@,
        )
    } else if !m.theme.version@.contains('.') {
        Some(
            "invalid theme version '"@ + m.theme.version@ + "': must be semver-like (e.g. 1.0.0)"@,
        )
    } else if !is_suffix(".css"@, m.assets.css@) {
        Some("CSS path '"@ + m.assets.css@ + "' must end with .css"@)
    } else if unsafe_theme_path(m.assets.css@) {
        Some("CSS path '"@ + m.assets.css@ + "' must be relative with no '..' components"@)
    } else {
        match m.assets.assets_dir {
            Some(d) => if unsafe_theme_path(d@) {
                Some("assets_dir '"@ + d@ + "' must be relative with no '..' components"@)
            } else {
                None
            },
            None => None,
        }
    }
}

fn path_is_unsafe(p: &str) -> (b: bool)
    ensures
        b == unsafe_theme_path(p@),
{
    let v = chars_of(p);
    let dots = chars_of("..");
    let slash = chars_of("/");
    crate::text::contains(&v, &dots) || crate::text::starts_with(&v, &slash)
}

fn prefixed(before: &str, value: &str) -> (s: String)
    ensures
        s@ == before@ + value@,
{
    let mut m: Vec<char> = Vec::new();
    push_str(&mut m, before);
    push_str(&mut m, value);
    string_of(&m)
}

fn quoted_problem(before: &str, value: &str, after: &str) -> (s: String)
    ensures
        s@ == before@ + value@ + after@,
{
    let mut m: Vec<char> = Vec::new();
    push_str(&mut m, before);
    push_str(&mut m, value);
    push_str(&mut m, after);
    proof {
        assert(m@ =~= before@ + value@ + after@);
    }
    string_of(&m)
}

/// Checks a manifest, given whether its name matched the name pattern (see
/// `theme_manifest_problem`).
pub fn check_theme_manifest(m: &ThemeManifest, name_ok: bool) -> (r: Result<(), String>)
    ensures
        match theme_manifest_problem(*m, name_ok) {
            None => r is Ok,
            Some(msg) => r matches Err(e) && e@ == msg,
        },
{
    if !name_ok {
        let mut v: Vec<char> = Vec::new();
        push_str(&mut v, "invalid theme name '");
        push_str(&mut v, m.theme.name.as_str());
        push_str(&mut v, "': must match pattern ");
        push_str(&mut v, THEME_NAME_PATTERN);
        push_str(&mut v, " (lowercase letters, digits, hyphens, 2-64 chars)");
        proof {
            assert(v@ =~= "invalid theme name '"@ + m.theme.name@ + "': must match pattern "@
                + THEME_NAME_PATTERN@ + " (lowercase letters, digits, hyphens, 2-64 chars)"@);
        }
        return Err(string_of(&v));
    }
    let version = chars_of(m.theme.version.as_str());
    if !has_char(&version, '.') {
        return Err(
            quoted_problem(
                "invalid theme version '",
                m.theme.version.as_str(),
                "': must be semver-like (e.g. 1.0.0)",
            ),
        );
    }
    let css = chars_of(m.assets.css.as_str());
    let suffix = chars_of(".css");
    if !crate::text::ends_with(&css, &suffix) {
        return Err(quoted_problem("CSS path '", m.assets.css.as_str(), "' must end with .css"));
    }
    if path_is_unsafe(m.assets.css.as_str()) {
        return Err(
            quoted_problem(
                "CSS path '",
                m.assets.css.as_str(),
                "' must be relative with no '..' components",
            ),
        );
    }
    match &m.assets.assets_dir {
        Some(d) => {
            if path_is_unsafe(d.as_str()) {
                return Err(
                    quoted_problem(
                        "assets_dir '",
                        d.as_str(),
                        "' must be relative with no '..' components",
                    ),
                );
            }
            Ok(())
        },
        None => Ok(()),
    }
}

/// What `ThemeManifest::parse_and_validate` gives for a parse outcome:
/// a parse error becomes a message, then the manifest is checked with its
/// name held to `theme_name_shape` (see `theme_manifest_problem`).
pub open spec fn theme_parse_outcome(
    parsed: Result<ThemeManifest, String>,
    r: Result<ThemeManifest, String>,
) -> bool {
    match parsed {
        Err(e) => r matches Err(m) && m@ == "invalid theme.toml: "@ + e@,
        Ok(man) => match theme_manifest_problem(man, theme_name_shape(man.theme.name@)) {
            None => r == Ok::<ThemeManifest, String>(man),
            Some(msg) => r matches Err(m) && m@ == msg,
        },
    }
}

impl ThemeManifest {
    /// Validates a parsed `theme.toml` (`parsed` holds the TOML reader's
    /// error text when the text did not parse).
    pub fn parse_and_validate(parsed: Result<ThemeManifest, String>) -> (r: Result<
        ThemeManifest,
        String,
    >)
        ensures
            theme_parse_outcome(parsed, r),
    {
        match parsed {
            Err(e) => Err(prefixed("invalid theme.toml: ", e.as_str())),
            Ok(man) => {
                match regex_is_match(THEME_NAME_PATTERN, man.theme.name.as_str()) {
                    Err(e) => {
                        let msg = prefixed("invalid name regex: ", e.as_str());
                        proof {
                            reveal_strlit("invalid name regex: ");
                            assert(msg@.take(20) =~= "invalid name regex: "@);
                        }
                        Err(msg)
                    },
                    Ok(name_ok) => match check_theme_manifest(&man, name_ok) {
                        Ok(()) => Ok(man),
                        Err(m) => Err(m),
                    },
                }
            },
        }
    }
}

/// Checks a theme repository URL (HTTPS only, no refused or private host);
/// the error is the reason.
pub fn validate_theme_git_url(url: &str) -> (r: Result<(), String>)
    ensures
        match git_url_problem(url@) {
            None => r is Ok,
            Some(msg) => r matches Err(m) && m@ == msg,
        },
{
    match git_url_refusal(url) {
        None => Ok(()),
        Some(m) => Err(m),
    }
}

// ─── Package contents ──────────────────────────────────────────────────

/// The kind of a directory entry.
#[derive(Debug, Clone, Copy, PartialEq, Eq, Structural)]
pub enum EntryKind {
    Directory,
    File,
    Symlink,
    Other,
}

/// What the package check does with a directory entry.
#[derive(Debug, Clone, PartialEq, Eq)]
pub enum EntryVerdict {
    /// Not looked at (`.git`, `theme.toml`, neither file nor directory).
    Skip,
    /// A directory to walk into.
    Descend,
    /// A file with an allowed extension.
    Accept,
    /// The package is refused, for this reason.
    Reject(String),
}

/// The message for a refused symlink.
pub open spec fn symlink_message(shown: Seq<char>) -> Seq<char> {
    "symlinks are not allowed in theme packages: "@ + shown
}

/// The message for a file whose extension is not allowed.
pub open spec fn disallowed_file_message(shown: Seq<char>) -> Seq<char> {
    "disallowed file in theme package: "@ + shown + " (allowed extensions: "@
        + allowed_extensions_text() + ")"@
}

/// Whether `v` is the package check's verdict on an entry named `name`
/// (shown as `shown` in messages): `.git` is skipped, symlinks are refused,
/// directories are walked, `theme.toml` is skipped, other files must have an
/// allowed extension, and anything else is skipped.
pub open spec fn is_entry_verdict(v: EntryVerdict, name: Seq<char>, kind: EntryKind, shown: Seq<char>) -> bool {
    if name == ".git"@ {
        v == EntryVerdict::Skip
    } else {
        match kind {
            EntryKind::Symlink => v matches EntryVerdict::Reject(m) && m@ == symlink_message(shown),
            EntryKind::Directory => v == EntryVerdict::Descend,
            EntryKind::File => if name == "theme.toml"@ {
                v == EntryVerdict::Skip
            } else if extension_allowed(name) {
                v == EntryVerdict::Accept
            } else {
                v matches EntryVerdict::Reject(m) && m@ == disallowed_file_message(shown)
            },
            EntryKind::Other => v == EntryVerdict::Skip,
        }
    }
}

/// Judges one entry of a theme package before installation.
pub fn check_theme_entry(name: &str, kind: EntryKind, shown: &str) -> (v: EntryVerdict)
    ensures
        is_entry_verdict(v, name@, kind, shown@),
{
    if str_eq(name, ".git") {
        return EntryVerdict::Skip;
    }
    match kind {
        EntryKind::Symlink => {
            EntryVerdict::Reject(prefixed("symlinks are not allowed in theme packages: ", shown))
        },
        EntryKind::Directory => EntryVerdict::Descend,
        EntryKind::File => {
            if str_eq(name, "theme.toml") {
                EntryVerdict::Skip
            } else if is_allowed_extension(name) {
                EntryVerdict::Accept
            } else {
                let mut m: Vec<char> = Vec::new();
                push_str(&mut m, "disallowed file in theme package: ");
                push_str(&mut m, shown);
                push_str(&mut m, " (allowed extensions: ");
                push_str(&mut m, "[\"css\", \"png\", \"jpg\", \"jpeg\", \"svg\", \"webp\", \"woff2\", \"woff\", \"ttf\", \"otf\"]");
                push_str(&mut m, ")");
                proof {
                    assert(m@ =~= disallowed_file_message(shown@));
                }
                EntryVerdict::Reject(string_of(&m))
            }
        },
        EntryKind::Other => EntryVerdict::Skip,
    }
}

/// What copying a package's assets does with a directory entry.
#[derive(Debug, Clone, Copy, PartialEq, Eq, Structural)]
pub enum CopyAction {
    Skip,
    Descend,
    Copy,
}

/// The copy step's action: `.git` and symlinks are skipped, directories
/// are walked, files are copied when their extension is allowed.
pub open spec fn copy_action_of(name: Seq<char>, kind: EntryKind) -> CopyAction {
    if name == ".git"@ {
        CopyAction::Skip
    } else {
        match kind {
            EntryKind::Directory => CopyAction::Descend,
            EntryKind::File => if extension_allowed(name) {
                CopyAction::Copy
            } else {
                CopyAction::Skip
            },
            _ => CopyAction::Skip,
        }
    }
}

/// Decides what to do with one entry while copying a package's assets.
pub fn copy_entry_action(name: &str, kind: EntryKind) -> (a: CopyAction)
    ensures
        a == copy_action_of(name@, kind),
{
    if str_eq(name, ".git") {
        return CopyAction::Skip;
    }
    match kind {
        EntryKind::Directory => CopyAction::Descend,
        EntryKind::File => if is_allowed_extension(name) {
            CopyAction::Copy
        } else {
            CopyAction::Skip
        },
        _ => CopyAction::Skip,
    }
}

// ─── Installer limits and checks ───────────────────────────────────────

/// Where themes are installed and how large a package may be.
#[derive(Debug, Clone)]
pub struct ThemeSettings {
    pub theme_dir: String,
    /// Maximum package size in bytes.
    pub max_theme_size: u64,
}

impl ThemeSettings {
    /// The settings from the configured values (`THEME_DIR`, default
    /// `/data/themes`; `THEME_MAX_SIZE_MB`, default 20 when unset or not a
    /// number).
    pub fn from_settings(theme_dir: Option<&str>, max_size_mb: Option<&str>) -> (s: Self)
        requires
            setting_or(opt_str_view(max_size_mb), 20) * 1048576 <= u64::MAX,
        ensures
            s.theme_dir@ == match theme_dir {
                Some(d) => d@,
                None => "/data/themes"@,
            },
            s.max_theme_size == setting_or(opt_str_view(max_size_mb), 20) * 1048576,
    {
        let dir = match theme_dir {
            Some(d) => string_of(&chars_of(d)),
            None => string_of(&chars_of("/data/themes")),
        };
        let mb: u64 = match max_size_mb {
            Some(t) => match crate::text::parse_u64(t) {
                Some(v) => v,
                None => DEFAULT_MAX_THEME_SIZE_MB,
            },
            None => DEFAULT_MAX_THEME_SIZE_MB,
        };
        ThemeSettings { theme_dir: dir, max_theme_size: mb * 1024 * 1024 }
    }
}

/// Refuses a package larger than the limit.
pub fn check_theme_size(total: u64, max: u64) -> (r: Result<(), String>)
    ensures
        r is Ok <==> total <= max,
        r matches Err(m) ==> m@ == "theme package too large: "@ + dec(total as nat)
            + " bytes (max: "@ + dec(max as nat) + " bytes)"@,
{
    if total <= max {
        return Ok(());
    }
    let mut v: Vec<char> = Vec::new();
    push_str(&mut v, "theme package too large: ");
    push_decimal(&mut v, total);
    push_str(&mut v, " bytes (max: ");
    push_decimal(&mut v, max);
    push_str(&mut v, " bytes)");
    Err(string_of(&v))
}

/// An update must keep the theme's name.
pub fn check_theme_update_name(expected: &str, got: &str) -> (r: Result<(), String>)
    ensures
        r is Ok <==> expected@ == got@,
        r matches Err(m) ==> m@ == "theme name mismatch: expected '"@ + expected@ + "', got '"@
            + got@ + "'"@,
{
    if str_eq(expected, got) {
        return Ok(());
    }
    let mut v: Vec<char> = Vec::new();
    push_str(&mut v, "theme name mismatch: expected '");
    push_str(&mut v, expected);
    push_str(&mut v, "', got '");
    push_str(&mut v, got);
    push_str(&mut v, "'");
    Err(string_of(&v))
}

/// A theme name may be installed once.
pub fn check_theme_name_free(name: &str, already_installed: bool) -> (r: Result<(), String>)
    ensures
        r is Ok <==> !already_installed,
        r matches Err(m) ==> m@ == "theme '"@ + name@ + "' is already installed"@,
{
    if !already_installed {
        return Ok(());
    }
    Err(quoted_problem("theme '", name, "' is already installed"))
}

// ─── Serving ───────────────────────────────────────────────────────────

/// The MIME type of a theme asset, by extension.
pub open spec fn theme_asset_mime(ext: Seq<char>) -> Seq<char> {
    if ext == "css"@ {
        "text/css"@
    } else if ext == "svg"@ {
        "image/svg+xml"@
    } else if ext == "png"@ {
        "image/png"@
    } else if ext == "jpg"@ || ext == "jpeg"@ {
        "image/jpeg"@
    } else if ext == "webp"@ {
        "image/webp"@
    } else if ext == "woff"@ {
        "font/woff"@
    } else if ext == "woff2"@ {
        "font/woff2"@
    } else if ext == "ttf"@ {
        "font/ttf"@
    } else if ext == "otf"@ {
        "font/otf"@
    } else {
        "application/octet-stream"@
    }
}

/// Content type of a served theme asset, from its path's extension.
pub fn theme_asset_content_type(path: &str) -> (t: &'static str)
    ensures
        t@ == theme_asset_mime(
            match path_extension(path@) {
                Some(e) => e,
                None => Seq::<char>::empty(),
            },
        ),
{
    let ext = match extension_of(path) {
        Some(e) => e,
        None => string_of(&Vec::new()),
    };
    let e = ext.as_str();
    if str_eq(e, "css") {
        "text/css"
    } else if str_eq(e, "svg") {
        "image/svg+xml"
    } else if str_eq(e, "png") {
        "image/png"
    } else if str_eq(e, "jpg") || str_eq(e, "jpeg") {
        "image/jpeg"
    } else if str_eq(e, "webp") {
        "image/webp"
    } else if str_eq(e, "woff") {
        "font/woff"
    } else if str_eq(e, "woff2") {
        "font/woff2"
    } else if str_eq(e, "ttf") {
        "font/ttf"
    } else if str_eq(e, "otf") {
        "font/otf"
    } else {
        "application/octet-stream"
    }
}

/// Where the active theme's stylesheet is served.
pub const ACTIVE_CSS_URL: &'static str = "/api/themes/active.css";

/// Metadata of the active theme.
#[derive(Debug, Clone)]
pub struct ActiveThemeResponse {
    pub id: String,
    pub name: String,
    pub version: String,
    pub description: Option<String>,
    pub author: Option<String>,
    pub css_url: String,
}

/// A request to install a theme from a repository.
#[derive(Debug, Clone)]
pub struct InstallThemeRequest {
    pub git_url: String,
}

// ─── Activation ────────────────────────────────────────────────────────

/// A theme and whether it is the enabled one.
#[derive(Debug, Clone, Copy)]
pub struct ThemeStatus {
    pub id: u128,
    pub enabled: bool,
}

/// The statuses after enabling `id`: every other enabled theme is disabled,
/// `id` is enabled.
pub open spec fn after_enable(themes: Seq<ThemeStatus>, id: u128) -> Seq<ThemeStatus> {
    themes.map_values(|t: ThemeStatus| ThemeStatus { id: t.id, enabled: t.id == id })
}

/// The statuses after disabling `id`.
pub open spec fn after_disable(themes: Seq<ThemeStatus>, id: u128) -> Seq<ThemeStatus> {
    themes.map_values(|t: ThemeStatus| ThemeStatus { id: t.id, enabled: t.enabled && t.id != id })
}

/// The IDs of the enabled themes, in order.
pub open spec fn enabled_ids(themes: Seq<ThemeStatus>) -> Seq<u128>
    decreases themes.len(),
{
    if themes.len() == 0 {
        seq![]
    } else if themes.last().enabled {
        enabled_ids(themes.drop_last()).push(themes.last().id)
    } else {
        enabled_ids(themes.drop_last())
    }
}

/// The themes to switch off before enabling another: every enabled theme,
/// in order.
pub fn themes_to_disable(themes: &Vec<ThemeStatus>) -> (r: Vec<u128>)
    ensures
        r@ == enabled_ids(themes@),
{
    let mut r: Vec<u128> = Vec::new();
    let mut i: usize = 0;
    while i < themes.len()
        invariant
            i <= themes@.len(),
            r@ == enabled_ids(themes@.take(i as int)),
        decreases themes.len() - i,
    {
        proof {
            assert(themes@.take(i + 1).drop_last() =~= themes@.take(i as int));
            assert(themes@.take(i + 1).last() == themes@[i as int]);
        }
        if themes[i].enabled {
            r.push(themes[i].id);
        }
        i = i + 1;
    }
    proof {
        assert(themes@.take(themes@.len() as int) =~= themes@);
    }
    r
}

/// Whether a theme with this ID is stored.
pub open spec fn theme_stored(themes: Seq<ThemeStatus>, id: u128) -> bool {
    exists|i: int| 0 <= i < themes.len() && themes[i].id == id
}

/// Plans enabling theme `id` among the stored themes: 404 "Theme not
/// found" when no theme has that ID (then nothing is to change), else the
/// themes to switch off first, every enabled one in order (see
/// `after_enable` for the result).
pub fn plan_enable(themes: &Vec<ThemeStatus>, id: u128) -> (r: Result<Vec<u128>, (u16, &'static str)>)
    ensures
        r is Err <==> !theme_stored(themes@, id),
        r matches Err((status, m)) ==> status == 404 && m@ == "Theme not found"@,
        r matches Ok(off) ==> off@ == enabled_ids(themes@),
{
    let mut i: usize = 0;
    while i < themes.len()
        invariant
            i <= themes@.len(),
            forall|j: int| 0 <= j < i ==> themes@[j].id != id,
        decreases themes.len() - i,
    {
        if themes[i].id == id {
            return Ok(themes_to_disable(themes));
        }
        i = i + 1;
    }
    Err((404, "Theme not found"))
}

/// The setting that records the enabled theme: `active_theme_id` and the
/// theme's ID.
pub fn active_theme_setting(id: u128) -> (r: (String, String))
    ensures
        r.0@ == "active_theme_id"@,
        r.1@ == crate::registry::uuid_text(id),
{
    (string_of(&crate::text::chars_of("active_theme_id")), crate::registry::uuid_string(id))
}

/// The enabled theme's ID from its setting: none when the setting is
/// absent, refused when it is not a UUID.
pub fn active_theme_id(setting: Option<&str>) -> (r: Result<Option<u128>, &'static str>)
    ensures
        match setting {
            None => r == Ok::<Option<u128>, &'static str>(None),
            Some(v) => match crate::host::parsed_uuid(v@) {
                Some(u) => r == Ok::<Option<u128>, &'static str>(Some(u)),
                None => r matches Err(m) && m@ == "invalid active_theme_id setting"@,
            },
        },
{
    match setting {
        None => Ok(None),
        Some(v) => match crate::host::parse_uuid(v) {
            Some(u) => Ok(Some(u)),
            None => Err("invalid active_theme_id setting"),
        },
    }
}

/// Enabling a theme leaves it the only enabled one; disabling it leaves none
/// of its entries enabled and the others as they were.
pub proof fn law_one_theme_enabled(themes: Seq<ThemeStatus>, id: u128)
    ensures
        forall|i: int| 0 <= i < after_enable(themes, id).len() && (#[trigger] after_enable(themes, id)[i]).enabled
            ==> after_enable(themes, id)[i].id == id,
        forall|i: int| 0 <= i < themes.len() && themes[i].id == id ==> (#[trigger] after_enable(themes, id)[i]).enabled,
        forall|i: int| 0 <= i < themes.len() && themes[i].id == id ==> !(#[trigger] after_disable(themes, id)[i]).enabled,
        forall|i: int| 0 <= i < themes.len() && themes[i].id != id ==> (#[trigger] after_disable(themes, id)[i]).enabled
            == themes[i].enabled,
{
}

// ─── Serving assets ────────────────────────────────────────────────────

/// Why an asset of the enabled theme is not served.
#[derive(Debug, Clone, Copy, PartialEq, Eq, Structural)]
pub enum AssetRefusal {
    NoActiveTheme,
    NoAssets,
    AssetsDirMissing,
    FileNotFound,
    AssetsDirError,
    PathTraversal,
}

impl AssetRefusal {
    /// The HTTP status of the refusal.
    pub fn status(&self) -> (c: u16)
        ensures
            c == match *self {
                AssetRefusal::AssetsDirError => 500u16,
                AssetRefusal::PathTraversal => 403u16,
                _ => 404u16,
            },
    {
        match self {
            AssetRefusal::AssetsDirError => 500,
            AssetRefusal::PathTraversal => 403,
            _ => 404,
        }
    }

    /// The message of the refusal.
    pub fn message(&self) -> (m: &'static str)
        ensures
            m@ == match *self {
                AssetRefusal::NoActiveTheme => "No active theme"@,
                AssetRefusal::NoAssets => "Active theme has no assets"@,
                AssetRefusal::AssetsDirMissing => "Theme assets directory not found"@,
                AssetRefusal::FileNotFound => "File not found"@,
                AssetRefusal::AssetsDirError => "Theme assets directory error"@,
                AssetRefusal::PathTraversal => "Path traversal detected"@,
            },
    {
        match self {
            AssetRefusal::NoActiveTheme => "No active theme",
            AssetRefusal::NoAssets => "Active theme has no assets",
            AssetRefusal::AssetsDirMissing => "Theme assets directory not found",
            AssetRefusal::FileNotFound => "File not found",
            AssetRefusal::AssetsDirError => "Theme assets directory error",
            AssetRefusal::PathTraversal => "Path traversal detected",
        }
    }
}

/// What was found while resolving a requested asset, step by step.
#[derive(Debug, Clone, Copy)]
pub struct AssetProbe {
    /// A theme is enabled.
    pub active: bool,
    /// It has an assets directory.
    pub has_assets: bool,
    /// That directory exists.
    pub dir_exists: bool,
    /// The requested path resolved to a canonical path.
    pub resolved: bool,
    /// The assets directory resolved to a canonical path.
    pub dir_resolved: bool,
    /// The requested path lies inside the assets directory.
    pub inside: bool,
    /// The requested path is a file.
    pub is_file: bool,
}

/// The first refusal the probe calls for, in the order the checks are made.
pub open spec fn asset_refusal_of(p: AssetProbe) -> Option<AssetRefusal> {
    if !p.active {
        Some(AssetRefusal::NoActiveTheme)
    } else if !p.has_assets {
        Some(AssetRefusal::NoAssets)
    } else if !p.dir_exists {
        Some(AssetRefusal::AssetsDirMissing)
    } else if !p.resolved {
        Some(AssetRefusal::FileNotFound)
    } else if !p.dir_resolved {
        Some(AssetRefusal::AssetsDirError)
    } else if !p.inside {
        Some(AssetRefusal::PathTraversal)
    } else if !p.is_file {
        Some(AssetRefusal::FileNotFound)
    } else {
        None
    }
}

/// Whether (and why not) an asset is served (see `asset_refusal_of`).
pub fn asset_refusal(p: &AssetProbe) -> (r: Option<AssetRefusal>)
    ensures
        r == asset_refusal_of(*p),
{
    if !p.active {
        Some(AssetRefusal::NoActiveTheme)
    } else if !p.has_assets {
        Some(AssetRefusal::NoAssets)
    } else if !p.dir_exists {
        Some(AssetRefusal::AssetsDirMissing)
    } else if !p.resolved {
        Some(AssetRefusal::FileNotFound)
    } else if !p.dir_resolved {
        Some(AssetRefusal::AssetsDirError)
    } else if !p.inside {
        Some(AssetRefusal::PathTraversal)
    } else if !p.is_file {
        Some(AssetRefusal::FileNotFound)
    } else {
        None
    }
}

} // verus!
