//! Installing and updating a theme from its git repository, as a sequence
//! of steps.  The flow decides; whoever drives it does the outside work
//! (temporary directory, clone, file walks, database) and reports each
//! outcome.
//!
//! Install: check the URL, clone, read and validate `theme.toml`, check the
//! package's files and size, locate the stylesheet, refuse a taken name,
//! copy the stylesheet and the filtered assets into `{name}-{version}`, save
//! the record as disabled.
//!
//! Update: the same checks on the recorded URL, keeping the name; the old
//! directory is moved aside to its backup path first, and the backup is
//! removed once the record is saved (a failure leaves it in place).
use vstd::prelude::*;

use crate::installer::install_dir_name;
use crate::netguard::git_url_problem;
use crate::netguard::opt_view;
use crate::paths::{join_of, parent_of, path_join, path_parent, path_with_extension, with_extension_of};
use crate::registry::{uuid_string, uuid_text};
use crate::text::{dec, push_str, string_of};
use crate::themes::{
    check_theme_name_free, check_theme_size, check_theme_update_name, theme_parse_outcome,
    validate_theme_git_url, ThemeManifest,
};

verus! {

/// An installed theme, as its record gives it.
#[derive(Debug, Clone)]
pub struct InstalledTheme {
    pub id: u128,
    pub name: String,
    pub git_url: String,
    pub css_path: String,
}

/// A new installation, or an update of an installed theme.
#[derive(Debug)]
pub enum ThemeFlowKind {
    Install { installed_by: Option<u128> },
    Update { name: String, old_css_path: String },
}

/// The outside work a flow waits for.
#[derive(Debug, Clone, Copy, PartialEq, Eq, Structural)]
pub enum ThemeStage {
    Start,
    TempDir,
    Clone,
    ManifestExists,
    ManifestText,
    ManifestParsed,
    FilesChecked,
    SizeMeasured,
    CssLocated,
    NameLookup,
    Backup,
    CleanDir,
    CreateDir,
    CopyCss,
    AssetsLocated,
    CopyAssets,
    Save,
    DropBackup,
    Finished,
}

/// The outcome of a step of outside work.
#[derive(Debug)]
pub enum ThemeEvent {
    /// The flow may begin.
    Begin,
    /// A step that yields nothing finished; on failure, the error's text.
    Done(Result<(), String>),
    /// Whether a file exists.
    Exists(bool),
    /// A file's text.
    Text(Result<String, String>),
    /// The manifest parsed from its TOML text, or the parser's message.
    Parsed(Result<ThemeManifest, String>),
    /// Where a path of the clone leads: `None` when nothing is there, else
    /// whether its canonical form stays inside the clone; on failure to
    /// resolve it, the error's text.
    Located(Result<Option<bool>, String>),
    /// The total size of the package's files in bytes.
    Size(Result<u64, String>),
    /// Whether a theme of that name is recorded.
    Found(Result<bool, String>),
    /// The file or directory copied to the destination asked for.
    Copied(Result<(), String>),
}

/// The record of a newly installed theme.
#[derive(Debug)]
pub struct NewTheme {
    pub name: String,
    pub version: String,
    pub description: Option<String>,
    pub author: Option<String>,
    pub license: Option<String>,
    pub homepage: Option<String>,
    pub git_url: String,
    pub css_path: String,
    pub assets_path: Option<String>,
    pub status: String,
    pub installed_by: Option<u128>,
}

/// What an update changes in a theme's record.
#[derive(Debug)]
pub struct ThemeChanges {
    pub version: String,
    pub description: Option<String>,
    pub author: Option<String>,
    pub license: Option<String>,
    pub homepage: Option<String>,
    pub css_path: String,
    pub assets_path: Option<String>,
}

/// The outside work to do next.
#[derive(Debug)]
pub enum ThemeAction {
    /// Create a temporary directory for the clone.
    MakeTempDir,
    /// Clone the flow's `git_url` into it.
    Clone,
    /// Check that `theme.toml` exists at the clone's root.
    CheckManifest,
    /// Read `theme.toml`.
    ReadManifest,
    /// Parse this TOML text as a manifest.
    ParseManifest(String),
    /// Walk the clone and refuse what `check_theme_entry` refuses.
    CheckFiles,
    /// Measure the total size of the clone's files.
    MeasureSize,
    /// Locate this path (the stylesheet) inside the clone.
    LocateCss(String),
    /// Look up whether a theme with this name is recorded.
    LookupName(String),
    /// Move this directory aside to that backup path (first removing a
    /// stale backup), if the directory exists.
    Backup(String, String),
    /// Remove the install directory of this name, if it exists.
    CleanInstallDir(String),
    /// Create the install directory of this name.
    CreateInstallDir(String),
    /// Copy the stylesheet to this path, `theme.css` in the install
    /// directory.
    CopyCss(String),
    /// Locate this assets directory inside the clone.
    LocateAssets(String),
    /// Copy the located assets, filtered by `copy_entry_action`, to this
    /// path, `assets` in the install directory.
    CopyAssets(String),
    /// Save a new record.
    SaveNew(NewTheme),
    /// Save the changes to the record.
    SaveChanges(ThemeChanges),
    /// Remove the backup directory (errors are ignored).
    DropBackup(String),
    /// The flow failed: report the error.
    Fail(String),
    /// The flow succeeded.
    Finish,
}

/// A theme installation or update in progress.
#[derive(Debug)]
pub struct ThemeFlow {
    pub kind: ThemeFlowKind,
    pub git_url: String,
    /// The directory holding installed themes.
    pub theme_dir: String,
    pub max_size: u64,
    pub stage: ThemeStage,
    pub manifest: Option<ThemeManifest>,
    pub size: u64,
    pub css_path: Option<String>,
    /// The old directory and its backup path, on update.
    pub backup: Option<(String, String)>,
    /// Whether the old directory was moved to its backup path.
    pub moved: bool,
}

// ─── Specification ─────────────────────────────────────────────────────

/// The error an action reports, if it reports one.
pub open spec fn error_of(a: ThemeAction) -> Option<String> {
    match a {
        ThemeAction::Fail(e) => Some(e),
        _ => None,
    }
}

/// The flow ends in failure and reports an error (a backup made on update
/// stays where it is).
pub open spec fn fails(f: ThemeFlow, g: ThemeFlow, a: ThemeAction) -> bool {
    &&& g.stage == ThemeStage::Finished
    &&& a is Fail
}

/// The flow ends in failure with an error of this text.
pub open spec fn fails_with(f: ThemeFlow, g: ThemeFlow, a: ThemeAction, text: Seq<char>) -> bool {
    fails(f, g, a) && (error_of(a) matches Some(e) && e@ == text)
}

/// The flow moves to `stage`, keeping its other data.
pub open spec fn moves_to(f: ThemeFlow, g: ThemeFlow, stage: ThemeStage) -> bool {
    &&& g.stage == stage
    &&& g.kind == f.kind
    &&& g.git_url == f.git_url
    &&& g.theme_dir == f.theme_dir
    &&& g.max_size == f.max_size
    &&& g.manifest == f.manifest
    &&& g.size == f.size
    &&& g.css_path == f.css_path
    &&& g.backup == f.backup
    &&& g.moved == f.moved
}

/// A manifest that passes validation.
pub open spec fn validated(m: ThemeManifest) -> bool {
    theme_parse_outcome(Ok(m), Ok(m))
}

/// The name of the install directory of a manifest.
pub open spec fn dir_name_of(m: ThemeManifest) -> Seq<char> {
    m.theme.name@ + "-"@ + m.theme.version@
}

/// Where the stylesheet of a theme installed under `theme_dir` goes:
/// `theme.css` in its install directory `{name}-{version}`.
pub open spec fn css_dest(theme_dir: Seq<char>, m: ThemeManifest) -> Seq<char> {
    path_join(path_join(theme_dir, dir_name_of(m)), "theme.css"@)
}

/// Where the assets of a theme installed under `theme_dir` go: `assets` in
/// its install directory.
pub open spec fn assets_dest(theme_dir: Seq<char>, m: ThemeManifest) -> Seq<char> {
    path_join(path_join(theme_dir, dir_name_of(m)), "assets"@)
}

/// What the flow is known to hold at each stage: the validated manifest
/// once it was read (keeping the name on update), a package within the size
/// limit once it was measured, the stylesheet's destination once copied.
pub open spec fn holds(f: ThemeFlow) -> bool {
    let parsed = f.stage == ThemeStage::FilesChecked || f.stage == ThemeStage::SizeMeasured
        || f.stage == ThemeStage::CssLocated || f.stage == ThemeStage::NameLookup || f.stage
        == ThemeStage::Backup || f.stage == ThemeStage::CleanDir || f.stage == ThemeStage::CreateDir
        || f.stage == ThemeStage::CopyCss || f.stage == ThemeStage::AssetsLocated || f.stage
        == ThemeStage::CopyAssets;
    let sized = parsed && !(f.stage == ThemeStage::FilesChecked || f.stage
        == ThemeStage::SizeMeasured);
    let copied = f.stage == ThemeStage::AssetsLocated || f.stage == ThemeStage::CopyAssets;
    &&& parsed ==> (f.manifest matches Some(m) && validated(m) && (
    f.kind matches ThemeFlowKind::Update { name, .. } ==> m.theme.name@ == name@))
    &&& sized ==> f.size <= f.max_size
    &&& copied ==> f.css_path is Some && f.manifest->0.assets.assets_dir is Some
    &&& (f.stage == ThemeStage::NameLookup ==> f.kind is Install)
    &&& (f.stage == ThemeStage::Backup ==> f.kind is Update && f.backup is Some)
    &&& (f.stage == ThemeStage::DropBackup ==> f.backup is Some)
    &&& (f.kind is Install ==> f.backup is None)
    &&& (f.moved ==> f.backup is Some)
}

/// Whether `ev` is the outcome of the work the flow waits for.
pub open spec fn expects(f: ThemeFlow, ev: ThemeEvent) -> bool {
    match f.stage {
        ThemeStage::Start => ev is Begin,
        ThemeStage::TempDir | ThemeStage::Clone | ThemeStage::FilesChecked | ThemeStage::Backup
        | ThemeStage::CleanDir | ThemeStage::CreateDir | ThemeStage::Save
        | ThemeStage::DropBackup => ev is Done,
        ThemeStage::ManifestExists => ev is Exists,
        ThemeStage::ManifestText => ev is Text,
        ThemeStage::ManifestParsed => ev is Parsed,
        ThemeStage::SizeMeasured => ev is Size,
        ThemeStage::CssLocated | ThemeStage::AssetsLocated => ev is Located,
        ThemeStage::NameLookup => ev is Found,
        ThemeStage::CopyCss | ThemeStage::CopyAssets => ev is Copied,
        ThemeStage::Finished => false,
    }
}

/// The flow saves a new record made from its manifest, with the assets at
/// `assets`.
pub open spec fn saves_new(f: ThemeFlow, g: ThemeFlow, a: ThemeAction, assets: Option<Seq<char>>) -> bool {
    let m = f.manifest->0;
    &&& g.stage == ThemeStage::Save
    &&& g.backup == f.backup
    &&& g.moved == f.moved
    &&& a matches ThemeAction::SaveNew(r)
    &&& r.name == m.theme.name
    &&& r.version == m.theme.version
    &&& r.description == m.theme.description
    &&& r.author == m.theme.author
    &&& r.license == m.theme.license
    &&& r.homepage == m.theme.homepage
    &&& r.git_url == f.git_url
    &&& r.css_path@ == css_dest(f.theme_dir@, m)
    &&& opt_view(r.assets_path) == assets
    &&& r.status@ == "disabled"@
    &&& f.kind matches ThemeFlowKind::Install { installed_by } && r.installed_by == installed_by
}

/// The flow saves the changes its manifest makes to the record, with the
/// assets at `assets`.
pub open spec fn saves_changes(f: ThemeFlow, g: ThemeFlow, a: ThemeAction, assets: Option<Seq<char>>) -> bool {
    let m = f.manifest->0;
    &&& g.stage == ThemeStage::Save
    &&& g.backup == f.backup
    &&& g.moved == f.moved
    &&& g.kind == f.kind
    &&& a matches ThemeAction::SaveChanges(r)
    &&& r.version == m.theme.version
    &&& r.description == m.theme.description
    &&& r.author == m.theme.author
    &&& r.license == m.theme.license
    &&& r.homepage == m.theme.homepage
    &&& r.css_path@ == css_dest(f.theme_dir@, m)
    &&& opt_view(r.assets_path) == assets
}

/// The flow saves its record (new or changed) with the assets at `assets`.
pub open spec fn saves(f: ThemeFlow, g: ThemeFlow, a: ThemeAction, assets: Option<Seq<char>>) -> bool {
    if f.kind is Update {
        saves_changes(f, g, a, assets)
    } else {
        saves_new(f, g, a, assets)
    }
}

/// The parse outcome is a valid manifest whose name differs from the
/// recorded one, and `text` says so.
pub open spec fn renamed(f: ThemeFlow, p: Result<ThemeManifest, String>, text: Seq<char>) -> bool {
    p matches Ok(pm) && validated(pm) && (f.kind matches ThemeFlowKind::Update { name, .. } && (
    pm.theme.name@ != name@ && text == "theme name mismatch: expected '"@ + name@ + "', got '"@
        + pm.theme.name@ + "'"@))
}

/// The flow asks to clean the install directory of its manifest.
pub open spec fn cleans(f: ThemeFlow, g: ThemeFlow, a: ThemeAction) -> bool {
    moves_to(f, g, ThemeStage::CleanDir) && (a matches ThemeAction::CleanInstallDir(n) && n@
        == dir_name_of(f.manifest->0))
}

/// One step of a flow: from `f`, on the outcome `ev`, to `g` with the next
/// work `a`.
pub open spec fn stepped(f: ThemeFlow, ev: ThemeEvent, g: ThemeFlow, a: ThemeAction) -> bool {
    let update = f.kind is Update;
    let m = f.manifest->0;
    match f.stage {
        ThemeStage::Start => match git_url_problem(f.git_url@) {
            Some(msg) => fails_with(f, g, a, msg),
            None => moves_to(f, g, ThemeStage::TempDir) && a is MakeTempDir,
        },
        ThemeStage::TempDir => match ev {
            ThemeEvent::Done(Err(e)) => fails_with(f, g, a, "failed to create temp dir: "@ + e@),
            _ => moves_to(f, g, ThemeStage::Clone) && a is Clone,
        },
        ThemeStage::Clone => match ev {
            ThemeEvent::Done(Err(e)) => fails_with(f, g, a, "git clone failed: "@ + e@),
            _ => moves_to(f, g, ThemeStage::ManifestExists) && a is CheckManifest,
        },
        ThemeStage::ManifestExists => match ev {
            ThemeEvent::Exists(true) => moves_to(f, g, ThemeStage::ManifestText) && a is ReadManifest,
            _ => fails_with(
                f,
                g,
                a,
                if update {
                    "theme.toml not found in updated repository"@
                } else {
                    "theme.toml not found in repository root"@
                },
            ),
        },
        ThemeStage::ManifestText => match ev {
            ThemeEvent::Text(Ok(t)) => moves_to(f, g, ThemeStage::ManifestParsed) && (a matches ThemeAction::ParseManifest(x) && x == t),
            ThemeEvent::Text(Err(e)) => fails_with(f, g, a, "failed to read theme.toml: "@ + e@),
            _ => false,
        },
        ThemeStage::ManifestParsed => match ev {
            ThemeEvent::Parsed(p) => {
                ||| (fails(f, g, a) && (error_of(a) matches Some(e) && theme_parse_outcome(p, Err(e))))
                ||| (fails(f, g, a) && (error_of(a) matches Some(e) && renamed(f, p, e@)))
                ||| {
                    &&& theme_parse_outcome(p, Ok(g.manifest->0))
                    &&& g.manifest is Some
                    &&& (f.kind matches ThemeFlowKind::Update { name, .. } ==> g.manifest->0.theme.name@ == name@)
                    &&& g.stage == ThemeStage::FilesChecked
                    &&& g.kind == f.kind
                    &&& g.git_url == f.git_url
                    &&& g.max_size == f.max_size
                    &&& g.size == f.size
                    &&& g.css_path == f.css_path
                    &&& g.backup == f.backup
                    &&& g.moved == f.moved
                    &&& a is CheckFiles
                }
            },
            _ => false,
        },
        ThemeStage::FilesChecked => match ev {
            ThemeEvent::Done(Err(e)) => fails_with(f, g, a, e@),
            _ => moves_to(f, g, ThemeStage::SizeMeasured) && a is MeasureSize,
        },
        ThemeStage::SizeMeasured => match ev {
            ThemeEvent::Size(Err(e)) => fails_with(f, g, a, e@),
            ThemeEvent::Size(Ok(n)) => if n > f.max_size {
                fails_with(f, g, a, "theme package too large: "@ + dec(n as nat) + " bytes (max: "@ + dec(f.max_size as nat) + " bytes)"@)
            } else {
                &&& g.stage == ThemeStage::CssLocated
                &&& g.size == n
                &&& g.kind == f.kind
                &&& g.git_url == f.git_url
                &&& g.max_size == f.max_size
                &&& g.manifest == f.manifest
                &&& g.css_path == f.css_path
                &&& g.backup == f.backup
                &&& g.moved == f.moved
                &&& a matches ThemeAction::LocateCss(x) && x@ == m.assets.css@
            },
            _ => false,
        },
        ThemeStage::CssLocated => match ev {
            ThemeEvent::Located(Ok(None)) => fails_with(f, g, a, "CSS file not found at declared path: "@ + m.assets.css@),
            ThemeEvent::Located(Err(e)) => fails_with(f, g, a, "invalid CSS path: "@ + e@),
            ThemeEvent::Located(Ok(Some(false))) => fails_with(f, g, a, "CSS path escapes repository directory (path traversal)"@),
            ThemeEvent::Located(Ok(Some(true))) => match f.kind {
                ThemeFlowKind::Install { .. } => moves_to(f, g, ThemeStage::NameLookup) && (a matches ThemeAction::LookupName(x) && x@ == m.theme.name@),
                ThemeFlowKind::Update { old_css_path, .. } => match path_parent(old_css_path@) {
                    Some(d) => {
                        &&& g.stage == ThemeStage::Backup
                        &&& g.backup matches Some((o, k)) && o@ == d && k@ == path_with_extension(d, "bak"@)
                        &&& g.kind == f.kind
                        &&& g.git_url == f.git_url
                        &&& g.max_size == f.max_size
                        &&& g.manifest == f.manifest
                        &&& g.size == f.size
                        &&& g.css_path == f.css_path
                        &&& g.moved == f.moved
                        &&& a matches ThemeAction::Backup(x, y) && x@ == d && y@ == path_with_extension(d, "bak"@)
                    },
                    None => cleans(f, g, a),
                },
            },
            _ => false,
        },
        ThemeStage::NameLookup => match ev {
            ThemeEvent::Found(Err(e)) => fails_with(f, g, a, "database error: "@ + e@),
            ThemeEvent::Found(Ok(true)) => fails_with(f, g, a, "theme '"@ + m.theme.name@ + "' is already installed"@),
            ThemeEvent::Found(Ok(false)) => cleans(f, g, a),
            _ => false,
        },
        ThemeStage::Backup => match ev {
            ThemeEvent::Done(Err(e)) => fails_with(f, g, a, "failed to backup old version: "@ + e@),
            _ => {
                &&& g.moved
                &&& g.stage == ThemeStage::CleanDir
                &&& g.kind == f.kind
                &&& g.git_url == f.git_url
                &&& g.max_size == f.max_size
                &&& g.manifest == f.manifest
                &&& g.size == f.size
                &&& g.css_path == f.css_path
                &&& g.backup == f.backup
                &&& a matches ThemeAction::CleanInstallDir(n) && n@ == dir_name_of(m)
            },
        },
        ThemeStage::CleanDir => match ev {
            ThemeEvent::Done(Err(e)) => fails_with(f, g, a, "failed to clean install dir: "@ + e@),
            _ => moves_to(f, g, ThemeStage::CreateDir) && (a matches ThemeAction::CreateInstallDir(n) && n@ == dir_name_of(m)),
        },
        ThemeStage::CreateDir => match ev {
            ThemeEvent::Done(Err(e)) => fails_with(f, g, a, "failed to create install dir: "@ + e@),
            _ => moves_to(f, g, ThemeStage::CopyCss) && (a matches ThemeAction::CopyCss(d) && d@ == css_dest(
                f.theme_dir@,
                m,
            )),
        },
        ThemeStage::CopyCss => match ev {
            ThemeEvent::Copied(Err(e)) => fails_with(
                f,
                g,
                a,
                if update {
                    "failed to copy CSS: "@ + e@
                } else {
                    "failed to copy CSS file: "@ + e@
                },
            ),
            ThemeEvent::Copied(Ok(_)) => match m.assets.assets_dir {
                Some(d) => {
                    &&& g.stage == ThemeStage::AssetsLocated
                    &&& g.css_path matches Some(p) && p@ == css_dest(f.theme_dir@, m)
                    &&& g.kind == f.kind
                    &&& g.git_url == f.git_url
                    &&& g.theme_dir == f.theme_dir
                    &&& g.max_size == f.max_size
                    &&& g.manifest == f.manifest
                    &&& g.size == f.size
                    &&& g.backup == f.backup
                    &&& g.moved == f.moved
                    &&& a matches ThemeAction::LocateAssets(x) && x@ == d@
                },
                None => saves(f, g, a, None),
            },
            _ => false,
        },
        ThemeStage::AssetsLocated => match ev {
            ThemeEvent::Located(Ok(None)) => saves(f, g, a, None),
            ThemeEvent::Located(Err(e)) => fails_with(f, g, a, "invalid assets path: "@ + e@),
            ThemeEvent::Located(Ok(Some(false))) => fails_with(f, g, a, "assets_dir path escapes repository directory (path traversal)"@),
            ThemeEvent::Located(Ok(Some(true))) => moves_to(f, g, ThemeStage::CopyAssets) && (a matches ThemeAction::CopyAssets(d)
                && d@ == assets_dest(f.theme_dir@, m)),
            _ => false,
        },
        ThemeStage::CopyAssets => match ev {
            ThemeEvent::Copied(Err(e)) => fails_with(f, g, a, e@),
            ThemeEvent::Copied(Ok(_)) => saves(f, g, a, Some(assets_dest(f.theme_dir@, m))),
            _ => false,
        },
        ThemeStage::Save => match ev {
            ThemeEvent::Done(Err(e)) => fails_with(
                f,
                g,
                a,
                if update {
                    "failed to update theme record: "@ + e@
                } else {
                    "failed to insert theme record: "@ + e@
                },
            ),
            _ => match f.backup {
                Some((_, bak)) => g.stage == ThemeStage::DropBackup && (a matches ThemeAction::DropBackup(x) && x@ == bak@),
                None => g.stage == ThemeStage::Finished && a is Finish,
            },
        },
        ThemeStage::DropBackup => g.stage == ThemeStage::Finished && a is Finish,
        ThemeStage::Finished => false,
    }
}

// ─── Running a flow ────────────────────────────────────────────────────

fn joined(before: &str, value: &str) -> (s: String)
    ensures
        s@ == before@ + value@,
{
    let mut v: Vec<char> = Vec::new();
    push_str(&mut v, before);
    push_str(&mut v, value);
    string_of(&v)
}

fn text_of(t: &str) -> (s: String)
    ensures
        s@ == t@,
{
    let mut v: Vec<char> = Vec::new();
    push_str(&mut v, t);
    string_of(&v)
}

impl ThemeFlow {
    /// A new installation from `git_url`, for the user `installed_by`.
    pub fn install(git_url: String, installed_by: Option<u128>, max_size: u64, theme_dir: String) -> (f: ThemeFlow)
        ensures
            f.stage == ThemeStage::Start,
            f.theme_dir == theme_dir,
            f.kind == (ThemeFlowKind::Install { installed_by }),
            f.git_url == git_url,
            f.max_size == max_size,
            f.manifest is None,
            f.backup is None,
            !f.moved,
            holds(f),
    {
        ThemeFlow {
            kind: ThemeFlowKind::Install { installed_by },
            git_url,
            theme_dir,
            max_size,
            stage: ThemeStage::Start,
            manifest: None,
            size: 0,
            css_path: None,
            backup: None,
            moved: false,
        }
    }

    /// An update of the theme `theme_id`, given the outcome of looking up
    /// its record: a database error, no such theme, or the theme.
    pub fn update(
        theme_id: u128,
        found: Result<Option<InstalledTheme>, String>,
        max_size: u64,
        theme_dir: String,
    ) -> (r: Result<ThemeFlow, String>)
        ensures
            match found {
                Err(e) => r matches Err(t) && t@ == "database error: "@ + e@,
                Ok(None) => r matches Err(t) && t@ == "theme not found: "@ + uuid_text(theme_id),
                Ok(Some(th)) => r matches Ok(f) && {
                    &&& f.stage == ThemeStage::Start
                    &&& f.kind == (ThemeFlowKind::Update { name: th.name, old_css_path: th.css_path })
                    &&& f.git_url == th.git_url
                    &&& f.theme_dir == theme_dir
                    &&& f.max_size == max_size
                    &&& f.manifest is None
                    &&& f.backup is None
                    &&& !f.moved
                    &&& holds(f)
                },
            },
    {
        match found {
            Err(e) => Err(joined("database error: ", e.as_str())),
            Ok(None) => {
                let id = uuid_string(theme_id);
                Err(joined("theme not found: ", id.as_str()))
            },
            Ok(Some(th)) => Ok(
                ThemeFlow {
                    kind: ThemeFlowKind::Update { name: th.name, old_css_path: th.css_path },
                    git_url: th.git_url,
                    theme_dir,
                    max_size,
                    stage: ThemeStage::Start,
                    manifest: None,
                    size: 0,
                    css_path: None,
                    backup: None,
                    moved: false,
                },
            ),
        }
    }

    /// `file` in the install directory under the theme directory.
    fn dest_path(&self, file: &str) -> (p: String)
        requires
            self.manifest is Some,
        ensures
            p@ == path_join(path_join(self.theme_dir@, dir_name_of(self.manifest->0)), file@),
    {
        let n = self.install_dir().unwrap();
        let dir = join_of(self.theme_dir.as_str(), n.as_str());
        join_of(dir.as_str(), file)
    }

    /// The name of the install directory, `{name}-{version}`, once the
    /// manifest was read.
    pub fn install_dir(&self) -> (d: Option<String>)
        ensures
            match self.manifest {
                Some(m) => d matches Some(n) && n@ == dir_name_of(m),
                None => d is None,
            },
    {
        match &self.manifest {
            Some(m) => Some(install_dir_name(m.theme.name.as_str(), m.theme.version.as_str())),
            None => None,
        }
    }

    fn goto(self, stage: ThemeStage, a: ThemeAction) -> (r: (ThemeFlow, ThemeAction))
        ensures
            moves_to(self, r.0, stage),
            r.1 == a,
    {
        let mut f = self;
        f.stage = stage;
        (f, a)
    }

    fn fail(self, e: String) -> (r: (ThemeFlow, ThemeAction))
        requires
            self.moved ==> self.backup is Some,
        ensures
            fails(self, r.0, r.1),
            error_of(r.1) == Some(e),
            holds(r.0),
    {
        let ThemeFlow { kind, git_url, theme_dir, max_size, stage: _, manifest: _, size, css_path: _, backup, moved } = self;
        let a = ThemeAction::Fail(e);
        let g = ThemeFlow {
            kind,
            git_url,
            theme_dir,
            max_size,
            stage: ThemeStage::Finished,
            manifest: None,
            size,
            css_path: None,
            backup: None,
            moved: false,
        };
        (g, a)
    }

    fn save(self, assets: Option<String>) -> (r: (ThemeFlow, ThemeAction))
        requires
            self.manifest is Some,
            self.moved ==> self.backup is Some,
            self.kind is Install ==> self.backup is None,
        ensures
            saves(self, r.0, r.1, opt_view(assets)),
            holds(r.0),
    {
        let css = self.dest_path("theme.css");
        let ThemeFlow { kind, git_url, theme_dir, max_size, stage: _, manifest, size, css_path, backup, moved } = self;
        let m = manifest.unwrap();
        match kind {
            ThemeFlowKind::Install { installed_by } => {
                let record = NewTheme {
                    name: m.theme.name,
                    version: m.theme.version,
                    description: m.theme.description,
                    author: m.theme.author,
                    license: m.theme.license,
                    homepage: m.theme.homepage,
                    git_url,
                    css_path: css,
                    assets_path: assets,
                    status: text_of("disabled"),
                    installed_by,
                };
                let g = ThemeFlow {
                    kind: ThemeFlowKind::Install { installed_by },
                    git_url: String::new(),
                    theme_dir,
                    max_size,
                    stage: ThemeStage::Save,
                    manifest: None,
                    size,
                    css_path: None,
                    backup,
                    moved,
                };
                (g, ThemeAction::SaveNew(record))
            },
            ThemeFlowKind::Update { name, old_css_path } => {
                let changes = ThemeChanges {
                    version: m.theme.version,
                    description: m.theme.description,
                    author: m.theme.author,
                    license: m.theme.license,
                    homepage: m.theme.homepage,
                    css_path: css,
                    assets_path: assets,
                };
                let g = ThemeFlow {
                    kind: ThemeFlowKind::Update { name, old_css_path },
                    git_url,
                    theme_dir,
                    max_size,
                    stage: ThemeStage::Save,
                    manifest: None,
                    size,
                    css_path: None,
                    backup,
                    moved,
                };
                (g, ThemeAction::SaveChanges(changes))
            },
        }
    }

    fn on_start(self, ev: ThemeEvent) -> (r: (ThemeFlow, ThemeAction))
        requires
            holds(self),
            expects(self, ev),
            self.stage == ThemeStage::Start,
        ensures
            stepped(self, ev, r.0, r.1),
            holds(r.0),
    {
        match validate_theme_git_url(self.git_url.as_str()) {
            Err(e) => self.fail(e),
            Ok(()) => self.goto(ThemeStage::TempDir, ThemeAction::MakeTempDir),
        }
    }

    fn on_temp_dir(self, ev: ThemeEvent) -> (r: (ThemeFlow, ThemeAction))
        requires
            holds(self),
            expects(self, ev),
            self.stage == ThemeStage::TempDir,
        ensures
            stepped(self, ev, r.0, r.1),
            holds(r.0),
    {
        if let ThemeEvent::Done(Err(e)) = ev {
            return self.fail(joined("failed to create temp dir: ", e.as_str()));
        }
        self.goto(ThemeStage::Clone, ThemeAction::Clone)
    }

    fn on_clone(self, ev: ThemeEvent) -> (r: (ThemeFlow, ThemeAction))
        requires
            holds(self),
            expects(self, ev),
            self.stage == ThemeStage::Clone,
        ensures
            stepped(self, ev, r.0, r.1),
            holds(r.0),
    {
        if let ThemeEvent::Done(Err(e)) = ev {
            return self.fail(joined("git clone failed: ", e.as_str()));
        }
        self.goto(ThemeStage::ManifestExists, ThemeAction::CheckManifest)
    }

    fn on_manifest_exists(self, ev: ThemeEvent) -> (r: (ThemeFlow, ThemeAction))
        requires
            holds(self),
            expects(self, ev),
            self.stage == ThemeStage::ManifestExists,
        ensures
            stepped(self, ev, r.0, r.1),
            holds(r.0),
    {
        let update = matches!(self.kind, ThemeFlowKind::Update { .. });
        if let ThemeEvent::Exists(true) = ev {
            self.goto(ThemeStage::ManifestText, ThemeAction::ReadManifest)
        } else if update {
            self.fail(text_of("theme.toml not found in updated repository"))
        } else {
            self.fail(text_of("theme.toml not found in repository root"))
        }
    }

    fn on_manifest_text(self, ev: ThemeEvent) -> (r: (ThemeFlow, ThemeAction))
        requires
            holds(self),
            expects(self, ev),
            self.stage == ThemeStage::ManifestText,
        ensures
            stepped(self, ev, r.0, r.1),
            holds(r.0),
    {
        match ev {
            ThemeEvent::Text(Ok(t)) => self.goto(ThemeStage::ManifestParsed, ThemeAction::ParseManifest(t)),
            ThemeEvent::Text(Err(e)) => self.fail(joined("failed to read theme.toml: ", e.as_str())),
            _ => self.goto(ThemeStage::Finished, ThemeAction::Finish),
        }
    }

    fn on_manifest_parsed(self, ev: ThemeEvent) -> (r: (ThemeFlow, ThemeAction))
        requires
            holds(self),
            expects(self, ev),
            self.stage == ThemeStage::ManifestParsed,
        ensures
            stepped(self, ev, r.0, r.1),
            holds(r.0),
    {
        match ev {
            ThemeEvent::Parsed(p) => {
                let ghost parsed = p;
                match ThemeManifest::parse_and_validate(p) {
                    Err(e) => self.fail(e),
                    Ok(pm) => {
                        proof {
                            assert(parsed == Ok::<ThemeManifest, String>(pm));
                        }
                        if let ThemeFlowKind::Update { name, .. } = &self.kind {
                            if let Err(e) = check_theme_update_name(name.as_str(), pm.theme.name.as_str()) {
                                return self.fail(e);
                            }
                        }
                        let mut f = self;
                        f.manifest = Some(pm);
                        f.stage = ThemeStage::FilesChecked;
                        (f, ThemeAction::CheckFiles)
                    },
                }
            },
            _ => self.goto(ThemeStage::Finished, ThemeAction::Finish),
        }
    }

    fn on_files_checked(self, ev: ThemeEvent) -> (r: (ThemeFlow, ThemeAction))
        requires
            holds(self),
            expects(self, ev),
            self.stage == ThemeStage::FilesChecked,
        ensures
            stepped(self, ev, r.0, r.1),
            holds(r.0),
    {
        if let ThemeEvent::Done(Err(e)) = ev {
            return self.fail(e);
        }
        self.goto(ThemeStage::SizeMeasured, ThemeAction::MeasureSize)
    }

    fn on_size_measured(self, ev: ThemeEvent) -> (r: (ThemeFlow, ThemeAction))
        requires
            holds(self),
            expects(self, ev),
            self.stage == ThemeStage::SizeMeasured,
        ensures
            stepped(self, ev, r.0, r.1),
            holds(r.0),
    {
        match ev {
            ThemeEvent::Size(Err(e)) => self.fail(e),
            ThemeEvent::Size(Ok(n)) => match check_theme_size(n, self.max_size) {
                Err(e) => self.fail(e),
                Ok(()) => {
                    let css = self.manifest.as_ref().unwrap().assets.css.clone();
                    let mut f = self;
                    f.size = n;
                    f.stage = ThemeStage::CssLocated;
                    (f, ThemeAction::LocateCss(css))
                },
            },
            _ => self.goto(ThemeStage::Finished, ThemeAction::Finish),
        }
    }

    fn on_css_located(self, ev: ThemeEvent) -> (r: (ThemeFlow, ThemeAction))
        requires
            holds(self),
            expects(self, ev),
            self.stage == ThemeStage::CssLocated,
        ensures
            stepped(self, ev, r.0, r.1),
            holds(r.0),
    {
        match ev {
            ThemeEvent::Located(Ok(None)) => {
                let css = self.manifest.as_ref().unwrap().assets.css.clone();
                self.fail(joined("CSS file not found at declared path: ", css.as_str()))
            },
            ThemeEvent::Located(Err(e)) => self.fail(joined("invalid CSS path: ", e.as_str())),
            ThemeEvent::Located(Ok(Some(false))) => self.fail(
                text_of("CSS path escapes repository directory (path traversal)"),
            ),
            ThemeEvent::Located(Ok(Some(true))) => {
                let old_dir = match &self.kind {
                    ThemeFlowKind::Install { .. } => {
                        let name = self.manifest.as_ref().unwrap().theme.name.clone();
                        return self.goto(ThemeStage::NameLookup, ThemeAction::LookupName(name));
                    },
                    ThemeFlowKind::Update { old_css_path, .. } => parent_of(old_css_path.as_str()),
                };
                match old_dir {
                    Some(d) => {
                        proof {
                            reveal_strlit("bak");
                        }
                        let bak = with_extension_of(d.as_str(), "bak");
                        let d2 = d.clone();
                        let bak2 = bak.clone();
                        let mut f = self;
                        f.backup = Some((d, bak));
                        f.stage = ThemeStage::Backup;
                        (f, ThemeAction::Backup(d2, bak2))
                    },
                    None => {
                        let n = self.install_dir().unwrap();
                        self.goto(ThemeStage::CleanDir, ThemeAction::CleanInstallDir(n))
                    },
                }
            },
            _ => self.goto(ThemeStage::Finished, ThemeAction::Finish),
        }
    }

    fn on_name_lookup(self, ev: ThemeEvent) -> (r: (ThemeFlow, ThemeAction))
        requires
            holds(self),
            expects(self, ev),
            self.stage == ThemeStage::NameLookup,
        ensures
            stepped(self, ev, r.0, r.1),
            holds(r.0),
    {
        match ev {
            ThemeEvent::Found(Err(e)) => self.fail(joined("database error: ", e.as_str())),
            ThemeEvent::Found(Ok(taken)) => {
                let name = self.manifest.as_ref().unwrap().theme.name.clone();
                match check_theme_name_free(name.as_str(), taken) {
                    Err(e) => self.fail(e),
                    Ok(()) => {
                        let n = self.install_dir().unwrap();
                        self.goto(ThemeStage::CleanDir, ThemeAction::CleanInstallDir(n))
                    },
                }
            },
            _ => self.goto(ThemeStage::Finished, ThemeAction::Finish),
        }
    }

    fn on_backup(self, ev: ThemeEvent) -> (r: (ThemeFlow, ThemeAction))
        requires
            holds(self),
            expects(self, ev),
            self.stage == ThemeStage::Backup,
        ensures
            stepped(self, ev, r.0, r.1),
            holds(r.0),
    {
        if let ThemeEvent::Done(Err(e)) = ev {
            return self.fail(joined("failed to backup old version: ", e.as_str()));
        }
        let n = self.install_dir().unwrap();
        let mut f = self;
        f.moved = true;
        f.stage = ThemeStage::CleanDir;
        (f, ThemeAction::CleanInstallDir(n))
    }

    fn on_clean_dir(self, ev: ThemeEvent) -> (r: (ThemeFlow, ThemeAction))
        requires
            holds(self),
            expects(self, ev),
            self.stage == ThemeStage::CleanDir,
        ensures
            stepped(self, ev, r.0, r.1),
            holds(r.0),
    {
        if let ThemeEvent::Done(Err(e)) = ev {
            return self.fail(joined("failed to clean install dir: ", e.as_str()));
        }
        let n = self.install_dir().unwrap();
        self.goto(ThemeStage::CreateDir, ThemeAction::CreateInstallDir(n))
    }

    fn on_create_dir(self, ev: ThemeEvent) -> (r: (ThemeFlow, ThemeAction))
        requires
            holds(self),
            expects(self, ev),
            self.stage == ThemeStage::CreateDir,
        ensures
            stepped(self, ev, r.0, r.1),
            holds(r.0),
    {
        if let ThemeEvent::Done(Err(e)) = ev {
            return self.fail(joined("failed to create install dir: ", e.as_str()));
        }
        let dest = self.dest_path("theme.css");
        self.goto(ThemeStage::CopyCss, ThemeAction::CopyCss(dest))
    }

    fn on_copy_css(self, ev: ThemeEvent) -> (r: (ThemeFlow, ThemeAction))
        requires
            holds(self),
            expects(self, ev),
            self.stage == ThemeStage::CopyCss,
        ensures
            stepped(self, ev, r.0, r.1),
            holds(r.0),
    {
        let update = matches!(self.kind, ThemeFlowKind::Update { .. });
        match ev {
            ThemeEvent::Copied(Err(e)) => if update {
                self.fail(joined("failed to copy CSS: ", e.as_str()))
            } else {
                self.fail(joined("failed to copy CSS file: ", e.as_str()))
            },
            ThemeEvent::Copied(Ok(())) => {
                let dir = self.manifest.as_ref().unwrap().assets.assets_dir.clone();
                let css = self.dest_path("theme.css");
                let mut f = self;
                f.css_path = Some(css);
                match dir {
                    Some(d) => {
                        f.stage = ThemeStage::AssetsLocated;
                        (f, ThemeAction::LocateAssets(d))
                    },
                    None => f.save(None),
                }
            },
            _ => self.goto(ThemeStage::Finished, ThemeAction::Finish),
        }
    }

    fn on_assets_located(self, ev: ThemeEvent) -> (r: (ThemeFlow, ThemeAction))
        requires
            holds(self),
            expects(self, ev),
            self.stage == ThemeStage::AssetsLocated,
        ensures
            stepped(self, ev, r.0, r.1),
            holds(r.0),
    {
        match ev {
            ThemeEvent::Located(Ok(None)) => self.save(None),
            ThemeEvent::Located(Err(e)) => self.fail(joined("invalid assets path: ", e.as_str())),
            ThemeEvent::Located(Ok(Some(false))) => self.fail(
                text_of("assets_dir path escapes repository directory (path traversal)"),
            ),
            ThemeEvent::Located(Ok(Some(true))) => {
                let dest = self.dest_path("assets");
                self.goto(ThemeStage::CopyAssets, ThemeAction::CopyAssets(dest))
            },
            _ => self.goto(ThemeStage::Finished, ThemeAction::Finish),
        }
    }

    fn on_copy_assets(self, ev: ThemeEvent) -> (r: (ThemeFlow, ThemeAction))
        requires
            holds(self),
            expects(self, ev),
            self.stage == ThemeStage::CopyAssets,
        ensures
            stepped(self, ev, r.0, r.1),
            holds(r.0),
    {
        match ev {
            ThemeEvent::Copied(Err(e)) => self.fail(e),
            ThemeEvent::Copied(Ok(())) => {
                let dest = self.dest_path("assets");
                self.save(Some(dest))
            },
            _ => self.goto(ThemeStage::Finished, ThemeAction::Finish),
        }
    }

    fn on_save(self, ev: ThemeEvent) -> (r: (ThemeFlow, ThemeAction))
        requires
            holds(self),
            expects(self, ev),
            self.stage == ThemeStage::Save,
        ensures
            stepped(self, ev, r.0, r.1),
            holds(r.0),
    {
        let update = matches!(self.kind, ThemeFlowKind::Update { .. });
        if let ThemeEvent::Done(Err(e)) = ev {
            if update {
                return self.fail(joined("failed to update theme record: ", e.as_str()));
            } else {
                return self.fail(joined("failed to insert theme record: ", e.as_str()));
            }
        }
        let ThemeFlow { kind, git_url, theme_dir, max_size, stage: _, manifest: _, size, css_path: _, backup, moved: _ } = self;
        match backup {
            Some((o, b)) => {
                let b2 = b.clone();
                let g = ThemeFlow {
                    kind,
                    git_url,
                    theme_dir,
                    max_size,
                    stage: ThemeStage::DropBackup,
                    manifest: None,
                    size,
                    css_path: None,
                    backup: Some((o, b)),
                    moved: false,
                };
                (g, ThemeAction::DropBackup(b2))
            },
            None => {
                let g = ThemeFlow {
                    kind,
                    git_url,
                    theme_dir,
                    max_size,
                    stage: ThemeStage::Finished,
                    manifest: None,
                    size,
                    css_path: None,
                    backup: None,
                    moved: false,
                };
                (g, ThemeAction::Finish)
            },
        }
    }

    fn on_drop_backup(self, ev: ThemeEvent) -> (r: (ThemeFlow, ThemeAction))
        requires
            holds(self),
            expects(self, ev),
            self.stage == ThemeStage::DropBackup,
        ensures
            stepped(self, ev, r.0, r.1),
            holds(r.0),
    {
        let ThemeFlow { kind, git_url, theme_dir, max_size, stage: _, manifest: _, size, css_path: _, backup: _, moved: _ } = self;
        let g = ThemeFlow {
            kind,
            git_url,
            theme_dir,
            max_size,
            stage: ThemeStage::Finished,
            manifest: None,
            size,
            css_path: None,
            backup: None,
            moved: false,
        };
        (g, ThemeAction::Finish)
    }

    /// Takes the outcome of the work the flow waited for and decides the
    /// next work (see `stepped`); the flow keeps what `holds` states.
    pub fn advance(self, ev: ThemeEvent) -> (r: (ThemeFlow, ThemeAction))
        requires
            holds(self),
            expects(self, ev),
        ensures
            stepped(self, ev, r.0, r.1),
            holds(r.0),
    {
        match self.stage {
            ThemeStage::Start => self.on_start(ev),
            ThemeStage::TempDir => self.on_temp_dir(ev),
            ThemeStage::Clone => self.on_clone(ev),
            ThemeStage::ManifestExists => self.on_manifest_exists(ev),
            ThemeStage::ManifestText => self.on_manifest_text(ev),
            ThemeStage::ManifestParsed => self.on_manifest_parsed(ev),
            ThemeStage::FilesChecked => self.on_files_checked(ev),
            ThemeStage::SizeMeasured => self.on_size_measured(ev),
            ThemeStage::CssLocated => self.on_css_located(ev),
            ThemeStage::NameLookup => self.on_name_lookup(ev),
            ThemeStage::Backup => self.on_backup(ev),
            ThemeStage::CleanDir => self.on_clean_dir(ev),
            ThemeStage::CreateDir => self.on_create_dir(ev),
            ThemeStage::CopyCss => self.on_copy_css(ev),
            ThemeStage::AssetsLocated => self.on_assets_located(ev),
            ThemeStage::CopyAssets => self.on_copy_assets(ev),
            ThemeStage::Save => self.on_save(ev),
            ThemeStage::DropBackup => self.on_drop_backup(ev),
            ThemeStage::Finished => self.goto(ThemeStage::Finished, ThemeAction::Finish),
        }
    }
}

// ─── Laws ──────────────────────────────────────────────────────────────

/// A record is saved only from a manifest that passed validation, for a
/// package within the size limit; an update keeps the recorded name.
pub proof fn law_theme_saves_only_validated(f: ThemeFlow, ev: ThemeEvent, g: ThemeFlow, a: ThemeAction)
    requires
        holds(f),
        expects(f, ev),
        stepped(f, ev, g, a),
        a is SaveNew || a is SaveChanges,
    ensures
        f.manifest matches Some(m) && validated(m),
        f.size <= f.max_size,
        a matches ThemeAction::SaveNew(r) ==> r.name == f.manifest->0.theme.name,
        f.kind matches ThemeFlowKind::Update { name, .. } ==> f.manifest->0.theme.name@ == name@,
{
}

} // verus!
