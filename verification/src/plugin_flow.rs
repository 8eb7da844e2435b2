//! Installing and updating a plugin from its git repository, as a sequence
//! of steps.  The flow decides; whoever drives it does the outside work
//! (temporary directory, clone, files, database) and reports each outcome.
//!
//! Install: check the URL, clone, read and validate `plugin.toml`, locate and
//! validate the WASM binary, refuse a taken name, copy the files (and the UI
//! panel) into `{name}-{version}`, save the record as disabled.
//!
//! Update: clone the recorded URL, validate as above, keep the name, move
//! the old directory aside, copy the new files, save the changes, drop the
//! old directory; a failure after the move puts the old directory back.
use vstd::prelude::*;

use crate::error::PluginError;
use crate::installer::{
    check_update_name, install_dir_name, validate_git_url, validate_wasm, wasm_error,
};
use crate::manifest::{lengths_fit, manifest_error, Permissions, PluginManifest};
use crate::netguard::git_url_problem;
use crate::paths::{join_of, parent_of, path_join, path_parent, path_with_extension, with_extension_of};
use crate::registry::{uuid_string, uuid_text};
use crate::text::{push_str, string_of};

verus! {

/// An installed plugin, as its record gives it.
#[derive(Debug, Clone)]
pub struct InstalledPlugin {
    pub id: u128,
    pub name: String,
    pub git_url: String,
    pub wasm_path: String,
}

/// A new installation, or an update of an installed plugin.
#[derive(Debug)]
pub enum FlowKind {
    Install { installed_by: Option<u128> },
    Update { name: String, old_wasm_path: String },
}

/// The outside work a flow waits for.
#[derive(Debug, Clone, Copy, PartialEq, Eq, Structural)]
pub enum Stage {
    Start,
    TempDir,
    Clone,
    ManifestExists,
    ManifestText,
    ManifestParsed,
    WasmLocated,
    WasmSize,
    WasmBytes,
    NameLookup,
    Backup,
    CleanDir,
    CreateDir,
    CopyWasm,
    CopyManifest,
    UiLocated,
    UiCopyDir,
    UiCopyFile,
    Save,
    DropBackup,
    Finished,
}

/// The outcome of a step of outside work.
#[derive(Debug)]
pub enum FlowEvent {
    /// The flow may begin.
    Begin,
    /// A step that yields nothing finished; on failure, the error's text.
    Done(Result<(), String>),
    /// Whether a file exists.
    Exists(bool),
    /// A file's text.
    Text(Result<String, String>),
    /// The manifest parsed from its TOML text.
    Parsed(Result<PluginManifest, PluginError>),
    /// Where a path of the clone leads: `None` when nothing is there, else
    /// whether its canonical form stays inside the clone; on failure to
    /// resolve it, the error's text.
    Located(Result<Option<bool>, String>),
    /// A file's size in bytes.
    Size(Result<u64, String>),
    /// A file's bytes.
    Bytes(Result<Vec<u8>, String>),
    /// Whether a plugin of that name is recorded.
    Found(Result<bool, String>),
    /// The binary copied to the destination asked for.
    Copied(Result<(), String>),
    /// The record saved.
    Saved(Result<(), PluginError>),
}

/// The record of a newly installed plugin.
#[derive(Debug)]
pub struct NewPlugin {
    pub name: String,
    pub version: String,
    pub description: Option<String>,
    pub author: Option<String>,
    pub license: Option<String>,
    pub homepage: Option<String>,
    pub git_url: String,
    pub wasm_path: String,
    pub permissions: Permissions,
    pub status: String,
    pub installed_by: Option<u128>,
}

/// What an update changes in a plugin's record (the error message is
/// cleared too).
#[derive(Debug)]
pub struct PluginChanges {
    pub version: String,
    pub description: Option<String>,
    pub author: Option<String>,
    pub license: Option<String>,
    pub homepage: Option<String>,
    pub wasm_path: String,
    pub permissions: Permissions,
}

/// The outside work to do next.
#[derive(Debug)]
pub enum FlowAction {
    /// Create a temporary directory for the clone.
    MakeTempDir,
    /// Clone the flow's `git_url` into it.
    Clone,
    /// Check that `plugin.toml` exists at the clone's root.
    CheckManifest,
    /// Read `plugin.toml`.
    ReadManifest,
    /// Parse this TOML text as a manifest.
    ParseManifest(String),
    /// Locate this path (the WASM binary) inside the clone.
    LocateWasm(String),
    /// Read the located binary's size.
    StatWasm,
    /// Read the located binary.
    ReadWasm,
    /// Look up whether a plugin with this name is recorded.
    LookupName(String),
    /// Move this directory aside to that backup path (first removing a
    /// stale backup), if the directory exists.
    Backup(String, String),
    /// Remove the install directory of this name, if it exists.
    CleanInstallDir(String),
    /// Create the install directory of this name.
    CreateInstallDir(String),
    /// Copy the binary to this path, `plugin.wasm` in the install
    /// directory.
    CopyWasm(String),
    /// Copy `plugin.toml` into the install directory.
    CopyManifest,
    /// Locate the UI entry file inside the clone.
    LocateUiEntry(String),
    /// Copy this directory of the clone (if it exists) to the same place in
    /// the install directory.
    CopyUiDir(String),
    /// Copy this file of the clone (if it exists) to the same place in the
    /// install directory.
    CopyUiFile(String),
    /// Save a new record.
    SaveNew(NewPlugin),
    /// Save the changes to the record.
    SaveChanges(PluginChanges),
    /// Remove the backup directory (errors are ignored).
    DropBackup(String),
    /// The flow failed: report the error.
    Fail(PluginError),
    /// The flow failed after the old directory (first path) was moved to its
    /// backup (second path): move it back, then report the error.
    Restore(String, String, PluginError),
    /// The flow succeeded.
    Finish,
}

/// A plugin installation or update in progress.
#[derive(Debug)]
pub struct PluginFlow {
    pub kind: FlowKind,
    pub git_url: String,
    /// The directory holding installed plugins.
    pub plugin_dir: String,
    pub max_wasm_size: u64,
    pub stage: Stage,
    pub manifest: Option<PluginManifest>,
    pub wasm_size: u64,
    pub wasm_path: Option<String>,
    /// The old directory and its backup path, on update.
    pub backup: Option<(String, String)>,
    /// Whether the old directory was moved to its backup path.
    pub moved: bool,
}

// ─── Specification ─────────────────────────────────────────────────────

/// An installation error with the given text.
pub open spec fn install_error(e: PluginError, text: Seq<char>) -> bool {
    e matches PluginError::Installation(m) && m@ == text
}

/// A WASM validation error with the given text.
pub open spec fn wasm_validation_error(e: PluginError, text: Seq<char>) -> bool {
    e matches PluginError::WasmValidation(m) && m@ == text
}

/// The error an action reports, if it reports one.
pub open spec fn error_of(a: FlowAction) -> Option<PluginError> {
    match a {
        FlowAction::Fail(e) => Some(e),
        FlowAction::Restore(_, _, e) => Some(e),
        _ => None,
    }
}

/// The flow ends in failure: it reports an error directly or, once the old
/// directory was moved aside, after moving it back.
pub open spec fn fails(f: PluginFlow, g: PluginFlow, a: FlowAction) -> bool {
    &&& g.stage == Stage::Finished
    &&& if f.moved && f.backup is Some {
        a matches FlowAction::Restore(o, b, _) && o@ == f.backup.unwrap().0@ && b@ == f.backup.unwrap().1@
    } else {
        a is Fail
    }
}

/// The flow ends in failure with an installation error of this text.
pub open spec fn fails_install(f: PluginFlow, g: PluginFlow, a: FlowAction, text: Seq<char>) -> bool {
    fails(f, g, a) && (error_of(a) matches Some(e) && install_error(e, text))
}

/// The flow moves to `stage` with action `a`, keeping its other data.
pub open spec fn moves_to(f: PluginFlow, g: PluginFlow, stage: Stage) -> bool {
    &&& g.stage == stage
    &&& g.kind == f.kind
    &&& g.git_url == f.git_url
    &&& g.plugin_dir == f.plugin_dir
    &&& g.max_wasm_size == f.max_wasm_size
    &&& g.manifest == f.manifest
    &&& g.wasm_size == f.wasm_size
    &&& g.wasm_path == f.wasm_path
    &&& g.backup == f.backup
    &&& g.moved == f.moved
}

pub open spec fn is_update(f: PluginFlow) -> bool {
    f.kind is Update
}

/// The text for a missing manifest.
pub open spec fn no_manifest_text(update: bool) -> Seq<char> {
    if update {
        "plugin.toml not found in updated repository"@
    } else {
        "plugin.toml not found in repository root"@
    }
}

/// The text for a missing WASM binary.
pub open spec fn no_wasm_text(update: bool, path: Seq<char>) -> Seq<char> {
    if update {
        "WASM binary not found at: "@ + path
    } else {
        "WASM binary not found at declared path: "@ + path
    }
}

/// The text for a failed copy of the binary.
pub open spec fn copy_wasm_text(update: bool) -> Seq<char> {
    if update {
        "failed to copy WASM: "@
    } else {
        "failed to copy WASM binary: "@
    }
}

/// The text for a failed copy of the manifest.
pub open spec fn copy_manifest_text(update: bool) -> Seq<char> {
    if update {
        "failed to copy manifest: "@
    } else {
        "failed to copy plugin.toml: "@
    }
}

/// The name of the install directory of a validated manifest.
pub open spec fn dir_name_of(m: PluginManifest) -> Seq<char> {
    m.plugin.name@ + "-"@ + m.plugin.version@
}

/// Where the binary of a plugin installed under `plugin_dir` goes:
/// `plugin.wasm` in its install directory `{name}-{version}`.
pub open spec fn wasm_dest(plugin_dir: Seq<char>, m: PluginManifest) -> Seq<char> {
    path_join(path_join(plugin_dir, dir_name_of(m)), "plugin.wasm"@)
}

/// What the flow is known to hold at each stage: the manifest, validated,
/// once it was read (keeping the name on update), and a binary within the
/// size limit once it was measured.
pub open spec fn holds(f: PluginFlow) -> bool {
    let parsed = !(f.stage == Stage::Start || f.stage == Stage::TempDir || f.stage == Stage::Clone
        || f.stage == Stage::ManifestExists || f.stage == Stage::ManifestText || f.stage
        == Stage::ManifestParsed || f.stage == Stage::Save || f.stage == Stage::DropBackup
        || f.stage == Stage::Finished);
    let sized = parsed && !(f.stage == Stage::WasmLocated || f.stage == Stage::WasmSize);
    let copied = f.stage == Stage::CopyManifest || f.stage == Stage::UiLocated || f.stage
        == Stage::UiCopyDir || f.stage == Stage::UiCopyFile;
    &&& parsed ==> (f.manifest matches Some(m) && manifest_error(m) is None && lengths_fit(m) && (
    f.kind matches FlowKind::Update { name, .. } ==> m.plugin.name@ == name@))
    &&& sized ==> f.wasm_size <= f.max_wasm_size
    &&& copied ==> (f.wasm_path matches Some(p) && p@ == wasm_dest(f.plugin_dir@, f.manifest->0))
    &&& (f.stage == Stage::NameLookup ==> f.kind is Install)
    &&& (f.stage == Stage::UiLocated || f.stage == Stage::UiCopyDir || f.stage == Stage::UiCopyFile)
        ==> f.kind is Install && f.manifest->0.ui.entry is Some
    &&& (f.stage == Stage::Backup ==> f.kind is Update && f.backup is Some)
    &&& (f.stage == Stage::DropBackup ==> f.backup is Some)
    &&& (f.kind is Install ==> f.backup is None)
    &&& (f.moved ==> f.backup is Some)
}

/// Whether `ev` is the outcome of the work the flow waits for.
pub open spec fn expects(f: PluginFlow, ev: FlowEvent) -> bool {
    match f.stage {
        Stage::Start => ev is Begin,
        Stage::TempDir | Stage::Clone | Stage::Backup | Stage::CleanDir | Stage::CreateDir
        | Stage::CopyManifest | Stage::UiCopyDir | Stage::UiCopyFile | Stage::DropBackup => ev is Done,
        Stage::ManifestExists => ev is Exists,
        Stage::ManifestText => ev is Text,
        Stage::ManifestParsed => ev is Parsed && (ev matches FlowEvent::Parsed(Ok(m)) ==> lengths_fit(m)),
        Stage::WasmLocated | Stage::UiLocated => ev is Located,
        Stage::WasmSize => ev is Size,
        Stage::WasmBytes => ev is Bytes,
        Stage::NameLookup => ev is Found,
        Stage::CopyWasm => ev is Copied,
        Stage::Save => ev is Saved,
        Stage::Finished => false,
    }
}

/// The flow saves a new record made from its manifest.
pub open spec fn saves_new(f: PluginFlow, g: PluginFlow, a: FlowAction) -> bool {
    let m = f.manifest->0;
    &&& g.stage == Stage::Save
    &&& g.backup == f.backup
    &&& g.moved == f.moved
    &&& a matches FlowAction::SaveNew(r)
    &&& r.name == m.plugin.name
    &&& r.version == m.plugin.version
    &&& r.description == Some(m.plugin.description)
    &&& r.author == m.plugin.author
    &&& r.license == m.plugin.license
    &&& r.homepage == m.plugin.homepage
    &&& r.git_url == f.git_url
    &&& r.wasm_path == f.wasm_path->0
    &&& r.wasm_path@ == wasm_dest(f.plugin_dir@, m)
    &&& r.permissions == m.permissions
    &&& r.status@ == "disabled"@
    &&& f.kind matches FlowKind::Install { installed_by } && r.installed_by == installed_by
}

/// The flow saves the changes its manifest makes to the record.
pub open spec fn saves_changes(f: PluginFlow, g: PluginFlow, a: FlowAction) -> bool {
    let m = f.manifest->0;
    &&& g.stage == Stage::Save
    &&& g.backup == f.backup
    &&& g.moved == f.moved
    &&& a matches FlowAction::SaveChanges(r)
    &&& r.version == m.plugin.version
    &&& r.description == Some(m.plugin.description)
    &&& r.author == m.plugin.author
    &&& r.license == m.plugin.license
    &&& r.homepage == m.plugin.homepage
    &&& r.wasm_path == f.wasm_path->0
    &&& r.wasm_path@ == wasm_dest(f.plugin_dir@, m)
    &&& r.permissions == m.permissions
}

/// The flow asks to clean the install directory of its manifest.
pub open spec fn cleans(f: PluginFlow, g: PluginFlow, a: FlowAction) -> bool {
    moves_to(f, g, Stage::CleanDir) && (a matches FlowAction::CleanInstallDir(n) && n@
        == dir_name_of(f.manifest->0))
}

/// One step of a flow: from `f`, on the outcome `ev`, to `g` with the next
/// work `a`.
pub open spec fn stepped(f: PluginFlow, ev: FlowEvent, g: PluginFlow, a: FlowAction) -> bool {
    let update = is_update(f);
    let m = f.manifest->0;
    match f.stage {
        Stage::Start => if !update && git_url_problem(f.git_url@) is Some {
            fails_install(f, g, a, git_url_problem(f.git_url@)->0)
        } else {
            moves_to(f, g, Stage::TempDir) && a is MakeTempDir
        },
        Stage::TempDir => match ev {
            FlowEvent::Done(Err(e)) => fails_install(f, g, a, "failed to create temp dir: "@ + e@),
            _ => if update && git_url_problem(f.git_url@) is Some {
                fails_install(f, g, a, git_url_problem(f.git_url@)->0)
            } else {
                moves_to(f, g, Stage::Clone) && a is Clone
            },
        },
        Stage::Clone => match ev {
            FlowEvent::Done(Err(e)) => fails_install(f, g, a, "git clone failed: "@ + e@),
            _ => moves_to(f, g, Stage::ManifestExists) && a is CheckManifest,
        },
        Stage::ManifestExists => match ev {
            FlowEvent::Exists(true) => moves_to(f, g, Stage::ManifestText) && a is ReadManifest,
            _ => fails_install(f, g, a, no_manifest_text(update)),
        },
        Stage::ManifestText => match ev {
            FlowEvent::Text(Ok(t)) => moves_to(f, g, Stage::ManifestParsed) && (a matches FlowAction::ParseManifest(x) && x == t),
            FlowEvent::Text(Err(e)) => fails_install(f, g, a, "failed to read plugin.toml: "@ + e@),
            _ => false,
        },
        Stage::ManifestParsed => match ev {
            FlowEvent::Parsed(Err(e)) => fails(f, g, a) && error_of(a) == Some(e),
            FlowEvent::Parsed(Ok(pm)) => match manifest_error(pm) {
                Some(msg) => fails(f, g, a) && (error_of(a) matches Some(e) && (e matches PluginError::InvalidManifest(t) && t@ == msg)),
                None => if f.kind matches FlowKind::Update { name, .. } && pm.plugin.name@ != name@ {
                    fails_install(f, g, a, "plugin name mismatch: expected '"@ + f.kind->name@ + "', got '"@ + pm.plugin.name@ + "'"@)
                } else {
                    &&& g.stage == Stage::WasmLocated
                    &&& g.manifest == Some(pm)
                    &&& g.kind == f.kind
                    &&& g.git_url == f.git_url
                    &&& g.max_wasm_size == f.max_wasm_size
                    &&& g.wasm_size == f.wasm_size
                    &&& g.wasm_path == f.wasm_path
                    &&& g.backup == f.backup
                    &&& g.moved == f.moved
                    &&& a matches FlowAction::LocateWasm(x) && x@ == pm.build.wasm@
                },
            },
            _ => false,
        },
        Stage::WasmLocated => match ev {
            FlowEvent::Located(Ok(None)) => fails_install(f, g, a, no_wasm_text(update, m.build.wasm@)),
            FlowEvent::Located(Err(e)) => fails_install(f, g, a, "invalid WASM path: "@ + e@),
            FlowEvent::Located(Ok(Some(false))) => fails_install(f, g, a, "WASM path escapes repository directory (path traversal)"@),
            FlowEvent::Located(Ok(Some(true))) => moves_to(f, g, Stage::WasmSize) && a is StatWasm,
            _ => false,
        },
        Stage::WasmSize => match ev {
            FlowEvent::Size(Err(e)) => fails(f, g, a) && (error_of(a) matches Some(x) && wasm_validation_error(x, "failed to read WASM metadata: "@ + e@)),
            FlowEvent::Size(Ok(n)) => if n > f.max_wasm_size {
                fails(f, g, a) && (error_of(a) matches Some(x) && wasm_validation_error(x, wasm_error(n, f.max_wasm_size, seq![])->0))
            } else {
                &&& g.stage == Stage::WasmBytes
                &&& g.wasm_size == n
                &&& g.kind == f.kind
                &&& g.git_url == f.git_url
                &&& g.max_wasm_size == f.max_wasm_size
                &&& g.manifest == f.manifest
                &&& g.wasm_path == f.wasm_path
                &&& g.backup == f.backup
                &&& g.moved == f.moved
                &&& a is ReadWasm
            },
            _ => false,
        },
        Stage::WasmBytes => match ev {
            FlowEvent::Bytes(Err(e)) => fails(f, g, a) && (error_of(a) matches Some(x) && wasm_validation_error(x, "failed to read WASM binary: "@ + e@)),
            FlowEvent::Bytes(Ok(b)) => match wasm_error(f.wasm_size, f.max_wasm_size, b@) {
                Some(msg) => fails(f, g, a) && (error_of(a) matches Some(x) && wasm_validation_error(x, msg)),
                None => match f.kind {
                    FlowKind::Install { .. } => moves_to(f, g, Stage::NameLookup) && (a matches FlowAction::LookupName(x) && x@ == m.plugin.name@),
                    FlowKind::Update { old_wasm_path, .. } => match path_parent(old_wasm_path@) {
                        Some(d) => {
                            &&& g.stage == Stage::Backup
                            &&& g.backup matches Some((o, k)) && o@ == d && k@ == path_with_extension(d, "bak"@)
                            &&& g.kind == f.kind
                            &&& g.git_url == f.git_url
                            &&& g.max_wasm_size == f.max_wasm_size
                            &&& g.manifest == f.manifest
                            &&& g.wasm_size == f.wasm_size
                            &&& g.wasm_path == f.wasm_path
                            &&& g.moved == f.moved
                            &&& a matches FlowAction::Backup(x, y) && x@ == d && y@ == path_with_extension(d, "bak"@)
                        },
                        None => cleans(f, g, a),
                    },
                },
            },
            _ => false,
        },
        Stage::NameLookup => match ev {
            FlowEvent::Found(Err(e)) => fails(f, g, a) && (error_of(a) matches Some(x) && (x matches PluginError::Database(t) && t@ == e@)),
            FlowEvent::Found(Ok(true)) => fails(f, g, a) && (error_of(a) matches Some(x) && (x matches PluginError::AlreadyExists(t) && t@ == m.plugin.name@)),
            FlowEvent::Found(Ok(false)) => cleans(f, g, a),
            _ => false,
        },
        Stage::Backup => match ev {
            FlowEvent::Done(Err(e)) => fails_install(f, g, a, "failed to backup old version: "@ + e@),
            _ => {
                &&& g.moved
                &&& g.stage == Stage::CleanDir
                &&& g.kind == f.kind
                &&& g.git_url == f.git_url
                &&& g.max_wasm_size == f.max_wasm_size
                &&& g.manifest == f.manifest
                &&& g.wasm_size == f.wasm_size
                &&& g.wasm_path == f.wasm_path
                &&& g.backup == f.backup
                &&& a matches FlowAction::CleanInstallDir(n) && n@ == dir_name_of(m)
            },
        },
        Stage::CleanDir => match ev {
            FlowEvent::Done(Err(e)) => fails_install(f, g, a, "failed to clean install dir: "@ + e@),
            _ => moves_to(f, g, Stage::CreateDir) && (a matches FlowAction::CreateInstallDir(n) && n@ == dir_name_of(m)),
        },
        Stage::CreateDir => match ev {
            FlowEvent::Done(Err(e)) => fails_install(f, g, a, "failed to create install dir: "@ + e@),
            _ => moves_to(f, g, Stage::CopyWasm) && (a matches FlowAction::CopyWasm(d) && d@ == wasm_dest(
                f.plugin_dir@,
                m,
            )),
        },
        Stage::CopyWasm => match ev {
            FlowEvent::Copied(Err(e)) => fails_install(f, g, a, copy_wasm_text(update) + e@),
            FlowEvent::Copied(Ok(_)) => {
                &&& g.stage == Stage::CopyManifest
                &&& g.wasm_path matches Some(p) && p@ == wasm_dest(f.plugin_dir@, m)
                &&& g.kind == f.kind
                &&& g.git_url == f.git_url
                &&& g.plugin_dir == f.plugin_dir
                &&& g.max_wasm_size == f.max_wasm_size
                &&& g.manifest == f.manifest
                &&& g.wasm_size == f.wasm_size
                &&& g.backup == f.backup
                &&& g.moved == f.moved
                &&& a is CopyManifest
            },
            _ => false,
        },
        Stage::CopyManifest => match ev {
            FlowEvent::Done(Err(e)) => fails_install(f, g, a, copy_manifest_text(update) + e@),
            _ => if update {
                saves_changes(f, g, a)
            } else if m.ui.enabled && m.ui.entry is Some {
                moves_to(f, g, Stage::UiLocated) && (a matches FlowAction::LocateUiEntry(x) && x@ == m.ui.entry->0@)
            } else {
                saves_new(f, g, a)
            },
        },
        Stage::UiLocated => match ev {
            FlowEvent::Located(Err(e)) => fails_install(f, g, a, "invalid UI entry path: "@ + e@),
            FlowEvent::Located(Ok(Some(false))) => fails_install(f, g, a, "UI entry path escapes repository directory (path traversal)"@),
            FlowEvent::Located(Ok(_)) => match path_parent(m.ui.entry->0@) {
                Some(p) => if p.len() > 0 {
                    moves_to(f, g, Stage::UiCopyDir) && (a matches FlowAction::CopyUiDir(x) && x@ == p)
                } else {
                    moves_to(f, g, Stage::UiCopyFile) && (a matches FlowAction::CopyUiFile(x) && x@ == m.ui.entry->0@)
                },
                None => saves_new(f, g, a),
            },
            _ => false,
        },
        Stage::UiCopyDir => match ev {
            FlowEvent::Done(Err(e)) => fails_install(f, g, a, e@),
            _ => saves_new(f, g, a),
        },
        Stage::UiCopyFile => match ev {
            FlowEvent::Done(Err(e)) => fails_install(f, g, a, "failed to copy UI entry: "@ + e@),
            _ => saves_new(f, g, a),
        },
        Stage::Save => match ev {
            FlowEvent::Saved(Err(e)) => fails(f, g, a) && error_of(a) == Some(e),
            _ => match f.backup {
                Some((_, bak)) => g.stage == Stage::DropBackup && (a matches FlowAction::DropBackup(x) && x@ == bak@),
                None => g.stage == Stage::Finished && a is Finish,
            },
        },
        Stage::DropBackup => g.stage == Stage::Finished && a is Finish,
        Stage::Finished => false,
    }
}

// ─── Running a flow ────────────────────────────────────────────────────

fn installation(prefix: &str, detail: &str) -> (e: PluginError)
    ensures
        install_error(e, prefix@ + detail@),
{
    let mut v: Vec<char> = Vec::new();
    push_str(&mut v, prefix);
    push_str(&mut v, detail);
    PluginError::Installation(string_of(&v))
}

fn installation_text(text: &str) -> (e: PluginError)
    ensures
        install_error(e, text@),
{
    let mut v: Vec<char> = Vec::new();
    push_str(&mut v, text);
    PluginError::Installation(string_of(&v))
}

fn wasm_invalid(prefix: &str, detail: &str) -> (e: PluginError)
    ensures
        wasm_validation_error(e, prefix@ + detail@),
{
    let mut v: Vec<char> = Vec::new();
    push_str(&mut v, prefix);
    push_str(&mut v, detail);
    PluginError::WasmValidation(string_of(&v))
}

fn is_update_kind(k: &FlowKind) -> (b: bool)
    ensures
        b == (*k is Update),
{
    match k {
        FlowKind::Update { .. } => true,
        FlowKind::Install { .. } => false,
    }
}

impl PluginFlow {
    /// A new installation from `git_url`, for the user `installed_by`.
    pub fn install(git_url: String, installed_by: Option<u128>, max_wasm_size: u64, plugin_dir: String) -> (f: PluginFlow)
        ensures
            f.stage == Stage::Start,
            f.plugin_dir == plugin_dir,
            f.kind == (FlowKind::Install { installed_by }),
            f.git_url == git_url,
            f.max_wasm_size == max_wasm_size,
            f.manifest is None,
            f.backup is None,
            !f.moved,
            holds(f),
    {
        PluginFlow {
            kind: FlowKind::Install { installed_by },
            git_url,
            plugin_dir,
            max_wasm_size,
            stage: Stage::Start,
            manifest: None,
            wasm_size: 0,
            wasm_path: None,
            backup: None,
            moved: false,
        }
    }

    /// An update of the plugin `plugin_id`, given the outcome of looking up
    /// its record: a database error, no such plugin, or the plugin.
    pub fn update(
        plugin_id: u128,
        found: Result<Option<InstalledPlugin>, String>,
        max_wasm_size: u64,
        plugin_dir: String,
    ) -> (r: Result<PluginFlow, PluginError>)
        ensures
            match found {
                Err(e) => r matches Err(PluginError::Database(t)) && t@ == e@,
                Ok(None) => r matches Err(PluginError::NotFound(t)) && t@ == uuid_text(plugin_id),
                Ok(Some(p)) => r matches Ok(f) && {
                    &&& f.stage == Stage::Start
                    &&& f.kind == (FlowKind::Update { name: p.name, old_wasm_path: p.wasm_path })
                    &&& f.git_url == p.git_url
                    &&& f.plugin_dir == plugin_dir
                    &&& f.max_wasm_size == max_wasm_size
                    &&& f.manifest is None
                    &&& f.backup is None
                    &&& !f.moved
                    &&& holds(f)
                },
            },
    {
        match found {
            Err(e) => Err(PluginError::Database(e)),
            Ok(None) => Err(PluginError::NotFound(uuid_string(plugin_id))),
            Ok(Some(p)) => Ok(
                PluginFlow {
                    kind: FlowKind::Update { name: p.name, old_wasm_path: p.wasm_path },
                    git_url: p.git_url,
                    plugin_dir,
                    max_wasm_size,
                    stage: Stage::Start,
                    manifest: None,
                    wasm_size: 0,
                    wasm_path: None,
                    backup: None,
                    moved: false,
                },
            ),
        }
    }

    /// Where the binary goes (see `wasm_dest`).
    fn wasm_dest_path(&self) -> (p: String)
        requires
            self.manifest is Some,
        ensures
            p@ == wasm_dest(self.plugin_dir@, self.manifest->0),
    {
        let n = self.install_dir().unwrap();
        let dir = join_of(self.plugin_dir.as_str(), n.as_str());
        proof {
            reveal_strlit("plugin.wasm");
        }
        join_of(dir.as_str(), "plugin.wasm")
    }

    /// The name of the install directory, `{name}-{version}`, once the
    /// manifest was read.
    pub fn install_dir(&self) -> (d: Option<String>)
        ensures
            match self.manifest {
                Some(m) => d matches Some(n) && n@ == dir_name_of(m),
                None => d is None,
            },
    {
        match &self.manifest {
            Some(m) => Some(install_dir_name(m.plugin.name.as_str(), m.plugin.version.as_str())),
            None => None,
        }
    }

    fn goto(self, stage: Stage, a: FlowAction) -> (r: (PluginFlow, FlowAction))
        ensures
            moves_to(self, r.0, stage),
            r.1 == a,
    {
        let mut f = self;
        f.stage = stage;
        (f, a)
    }

    fn fail(self, e: PluginError) -> (r: (PluginFlow, FlowAction))
        requires
            self.moved ==> self.backup is Some,
        ensures
            fails(self, r.0, r.1),
            error_of(r.1) == Some(e),
            holds(r.0),
    {
        let PluginFlow { kind, git_url, plugin_dir, max_wasm_size, stage: _, manifest: _, wasm_size, wasm_path: _, backup, moved } = self;
        let a = if moved {
            match backup {
                Some((o, b)) => FlowAction::Restore(o, b, e),
                None => FlowAction::Fail(e),
            }
        } else {
            FlowAction::Fail(e)
        };
        let g = PluginFlow {
            kind,
            git_url,
            plugin_dir,
            max_wasm_size,
            stage: Stage::Finished,
            manifest: None,
            wasm_size,
            wasm_path: None,
            backup: None,
            moved: false,
        };
        (g, a)
    }

    fn save_new(self) -> (r: (PluginFlow, FlowAction))
        requires
            self.manifest is Some,
            self.wasm_path matches Some(p) && p@ == wasm_dest(self.plugin_dir@, self.manifest->0),
            self.kind is Install,
            holds(self),
        ensures
            saves_new(self, r.0, r.1),
            holds(r.0),
    {
        let PluginFlow { kind, git_url, plugin_dir, max_wasm_size, stage: _, manifest, wasm_size, wasm_path, backup, moved } = self;
        let m = manifest.unwrap();
        let installed_by = match kind {
            FlowKind::Install { installed_by } => installed_by,
            FlowKind::Update { .. } => None,
        };
        let mut status: Vec<char> = Vec::new();
        push_str(&mut status, "disabled");
        let record = NewPlugin {
            name: m.plugin.name,
            version: m.plugin.version,
            description: Some(m.plugin.description),
            author: m.plugin.author,
            license: m.plugin.license,
            homepage: m.plugin.homepage,
            git_url,
            wasm_path: wasm_path.unwrap(),
            permissions: m.permissions,
            status: string_of(&status),
            installed_by,
        };
        let g = PluginFlow {
            kind: FlowKind::Install { installed_by },
            git_url: String::new(),
            plugin_dir,
            max_wasm_size,
            stage: Stage::Save,
            manifest: None,
            wasm_size,
            wasm_path: None,
            backup,
            moved,
        };
        (g, FlowAction::SaveNew(record))
    }

    fn save_changes(self) -> (r: (PluginFlow, FlowAction))
        requires
            self.manifest is Some,
            self.wasm_path matches Some(p) && p@ == wasm_dest(self.plugin_dir@, self.manifest->0),
            holds(self),
        ensures
            saves_changes(self, r.0, r.1),
            holds(r.0),
    {
        let PluginFlow { kind, git_url, plugin_dir, max_wasm_size, stage: _, manifest, wasm_size, wasm_path, backup, moved } = self;
        let m = manifest.unwrap();
        let changes = PluginChanges {
            version: m.plugin.version,
            description: Some(m.plugin.description),
            author: m.plugin.author,
            license: m.plugin.license,
            homepage: m.plugin.homepage,
            wasm_path: wasm_path.unwrap(),
            permissions: m.permissions,
        };
        let g = PluginFlow {
            kind,
            git_url,
            plugin_dir,
            max_wasm_size,
            stage: Stage::Save,
            manifest: None,
            wasm_size,
            wasm_path: None,
            backup,
            moved,
        };
        (g, FlowAction::SaveChanges(changes))
    }

    fn on_start(self, ev: FlowEvent) -> (r: (PluginFlow, FlowAction))
        requires
            holds(self),
            expects(self, ev),
            self.stage == Stage::Start,
        ensures
            stepped(self, ev, r.0, r.1),
            holds(r.0),
    {
        let update = is_update_kind(&self.kind);
        if !update {
            if let Err(e) = validate_git_url(self.git_url.as_str()) {
                return self.fail(e);
            }
        }
        self.goto(Stage::TempDir, FlowAction::MakeTempDir)
    }

    fn on_temp_dir(self, ev: FlowEvent) -> (r: (PluginFlow, FlowAction))
        requires
            holds(self),
            expects(self, ev),
            self.stage == Stage::TempDir,
        ensures
            stepped(self, ev, r.0, r.1),
            holds(r.0),
    {
        let update = is_update_kind(&self.kind);
        if let FlowEvent::Done(Err(e)) = ev {
            return self.fail(installation("failed to create temp dir: ", e.as_str()));
        }
        if update {
            if let Err(e) = validate_git_url(self.git_url.as_str()) {
                return self.fail(e);
            }
        }
        self.goto(Stage::Clone, FlowAction::Clone)
    }

    fn on_clone(self, ev: FlowEvent) -> (r: (PluginFlow, FlowAction))
        requires
            holds(self),
            expects(self, ev),
            self.stage == Stage::Clone,
        ensures
            stepped(self, ev, r.0, r.1),
            holds(r.0),
    {
        if let FlowEvent::Done(Err(e)) = ev {
            return self.fail(installation("git clone failed: ", e.as_str()));
        }
        self.goto(Stage::ManifestExists, FlowAction::CheckManifest)
    }

    fn on_manifest_exists(self, ev: FlowEvent) -> (r: (PluginFlow, FlowAction))
        requires
            holds(self),
            expects(self, ev),
            self.stage == Stage::ManifestExists,
        ensures
            stepped(self, ev, r.0, r.1),
            holds(r.0),
    {
        let update = is_update_kind(&self.kind);
        if let FlowEvent::Exists(true) = ev {
            self.goto(Stage::ManifestText, FlowAction::ReadManifest)
        } else if update {
            self.fail(installation_text("plugin.toml not found in updated repository"))
        } else {
            self.fail(installation_text("plugin.toml not found in repository root"))
        }
    }

    fn on_manifest_text(self, ev: FlowEvent) -> (r: (PluginFlow, FlowAction))
        requires
            holds(self),
            expects(self, ev),
            self.stage == Stage::ManifestText,
        ensures
            stepped(self, ev, r.0, r.1),
            holds(r.0),
    {
        match ev {
            FlowEvent::Text(Ok(t)) => self.goto(Stage::ManifestParsed, FlowAction::ParseManifest(t)),
            FlowEvent::Text(Err(e)) => self.fail(installation("failed to read plugin.toml: ", e.as_str())),
            _ => self.goto(Stage::Finished, FlowAction::Finish),
        }
    }

    fn on_manifest_parsed(self, ev: FlowEvent) -> (r: (PluginFlow, FlowAction))
        requires
            holds(self),
            expects(self, ev),
            self.stage == Stage::ManifestParsed,
        ensures
            stepped(self, ev, r.0, r.1),
            holds(r.0),
    {
        let update = is_update_kind(&self.kind);
        match ev {
            FlowEvent::Parsed(parsed) => match PluginManifest::parse_and_validate(parsed) {
                Err(e) => self.fail(e),
                Ok(pm) => {
                    if let FlowKind::Update { name, .. } = &self.kind {
                        if let Err(e) = check_update_name(name.as_str(), pm.plugin.name.as_str()) {
                            return self.fail(e);
                        }
                    }
                    let wasm = pm.build.wasm.clone();
                    let mut f = self;
                    f.manifest = Some(pm);
                    f.stage = Stage::WasmLocated;
                    (f, FlowAction::LocateWasm(wasm))
                },
            },
            _ => self.goto(Stage::Finished, FlowAction::Finish),
        }
    }

    fn on_wasm_located(self, ev: FlowEvent) -> (r: (PluginFlow, FlowAction))
        requires
            holds(self),
            expects(self, ev),
            self.stage == Stage::WasmLocated,
        ensures
            stepped(self, ev, r.0, r.1),
            holds(r.0),
    {
        let update = is_update_kind(&self.kind);
        let wasm = self.manifest.as_ref().unwrap().build.wasm.clone();
        match ev {
            FlowEvent::Located(Ok(None)) => if update {
                self.fail(installation("WASM binary not found at: ", wasm.as_str()))
            } else {
                self.fail(installation("WASM binary not found at declared path: ", wasm.as_str()))
            },
            FlowEvent::Located(Err(e)) => self.fail(installation("invalid WASM path: ", e.as_str())),
            FlowEvent::Located(Ok(Some(false))) => self.fail(
                installation_text("WASM path escapes repository directory (path traversal)"),
            ),
            FlowEvent::Located(Ok(Some(true))) => self.goto(Stage::WasmSize, FlowAction::StatWasm),
            _ => self.goto(Stage::Finished, FlowAction::Finish),
        }
    }

    fn on_wasm_size(self, ev: FlowEvent) -> (r: (PluginFlow, FlowAction))
        requires
            holds(self),
            expects(self, ev),
            self.stage == Stage::WasmSize,
        ensures
            stepped(self, ev, r.0, r.1),
            holds(r.0),
    {
        match ev {
            FlowEvent::Size(Err(e)) => self.fail(wasm_invalid("failed to read WASM metadata: ", e.as_str())),
            FlowEvent::Size(Ok(n)) => {
                if n > self.max_wasm_size {
                    let empty: Vec<u8> = Vec::new();
                    match validate_wasm(n, self.max_wasm_size, empty.as_slice()) {
                        Err(e) => self.fail(e),
                        Ok(()) => self.goto(Stage::Finished, FlowAction::Finish),
                    }
                } else {
                    let mut f = self;
                    f.wasm_size = n;
                    f.stage = Stage::WasmBytes;
                    (f, FlowAction::ReadWasm)
                }
            },
            _ => self.goto(Stage::Finished, FlowAction::Finish),
        }
    }

    fn on_wasm_bytes(self, ev: FlowEvent) -> (r: (PluginFlow, FlowAction))
        requires
            holds(self),
            expects(self, ev),
            self.stage == Stage::WasmBytes,
        ensures
            stepped(self, ev, r.0, r.1),
            holds(r.0),
    {
        match ev {
            FlowEvent::Bytes(Err(e)) => self.fail(wasm_invalid("failed to read WASM binary: ", e.as_str())),
            FlowEvent::Bytes(Ok(b)) => {
                if let Err(e) = validate_wasm(self.wasm_size, self.max_wasm_size, b.as_slice()) {
                    return self.fail(e);
                }
                let old_dir = match &self.kind {
                    FlowKind::Install { .. } => {
                        let name = self.manifest.as_ref().unwrap().plugin.name.clone();
                        return self.goto(Stage::NameLookup, FlowAction::LookupName(name));
                    },
                    FlowKind::Update { old_wasm_path, .. } => parent_of(old_wasm_path.as_str()),
                };
                match old_dir {
                    Some(d) => {
                        proof {
                            reveal_strlit("bak");
                        }
                        let bak = with_extension_of(d.as_str(), "bak");
                        let d2 = d.clone();
                        let bak2 = bak.clone();
                        let mut f = self;
                        f.backup = Some((d, bak));
                        f.stage = Stage::Backup;
                        (f, FlowAction::Backup(d2, bak2))
                    },
                    None => {
                        let n = self.install_dir().unwrap();
                        self.goto(Stage::CleanDir, FlowAction::CleanInstallDir(n))
                    },
                }
            },
            _ => self.goto(Stage::Finished, FlowAction::Finish),
        }
    }

    fn on_name_lookup(self, ev: FlowEvent) -> (r: (PluginFlow, FlowAction))
        requires
            holds(self),
            expects(self, ev),
            self.stage == Stage::NameLookup,
        ensures
            stepped(self, ev, r.0, r.1),
            holds(r.0),
    {
        match ev {
            FlowEvent::Found(Err(e)) => self.fail(PluginError::Database(e)),
            FlowEvent::Found(Ok(true)) => {
                let name = self.manifest.as_ref().unwrap().plugin.name.clone();
                self.fail(PluginError::AlreadyExists(name))
            },
            FlowEvent::Found(Ok(false)) => {
                let n = self.install_dir().unwrap();
                self.goto(Stage::CleanDir, FlowAction::CleanInstallDir(n))
            },
            _ => self.goto(Stage::Finished, FlowAction::Finish),
        }
    }

    fn on_backup(self, ev: FlowEvent) -> (r: (PluginFlow, FlowAction))
        requires
            holds(self),
            expects(self, ev),
            self.stage == Stage::Backup,
        ensures
            stepped(self, ev, r.0, r.1),
            holds(r.0),
    {
        if let FlowEvent::Done(Err(e)) = ev {
            return self.fail(installation("failed to backup old version: ", e.as_str()));
        }
        let n = self.install_dir().unwrap();
        let mut f = self;
        f.moved = true;
        f.stage = Stage::CleanDir;
        (f, FlowAction::CleanInstallDir(n))
    }

    fn on_clean_dir(self, ev: FlowEvent) -> (r: (PluginFlow, FlowAction))
        requires
            holds(self),
            expects(self, ev),
            self.stage == Stage::CleanDir,
        ensures
            stepped(self, ev, r.0, r.1),
            holds(r.0),
    {
        if let FlowEvent::Done(Err(e)) = ev {
            return self.fail(installation("failed to clean install dir: ", e.as_str()));
        }
        let n = self.install_dir().unwrap();
        self.goto(Stage::CreateDir, FlowAction::CreateInstallDir(n))
    }

    fn on_create_dir(self, ev: FlowEvent) -> (r: (PluginFlow, FlowAction))
        requires
            holds(self),
            expects(self, ev),
            self.stage == Stage::CreateDir,
        ensures
            stepped(self, ev, r.0, r.1),
            holds(r.0),
    {
        if let FlowEvent::Done(Err(e)) = ev {
            return self.fail(installation("failed to create install dir: ", e.as_str()));
        }
        let dest = self.wasm_dest_path();
        self.goto(Stage::CopyWasm, FlowAction::CopyWasm(dest))
    }

    fn on_copy_wasm(self, ev: FlowEvent) -> (r: (PluginFlow, FlowAction))
        requires
            holds(self),
            expects(self, ev),
            self.stage == Stage::CopyWasm,
        ensures
            stepped(self, ev, r.0, r.1),
            holds(r.0),
    {
        let update = is_update_kind(&self.kind);
        match ev {
            FlowEvent::Copied(Err(e)) => if update {
                self.fail(installation("failed to copy WASM: ", e.as_str()))
            } else {
                self.fail(installation("failed to copy WASM binary: ", e.as_str()))
            },
            FlowEvent::Copied(Ok(())) => {
                let dest = self.wasm_dest_path();
                let mut f = self;
                f.wasm_path = Some(dest);
                f.stage = Stage::CopyManifest;
                (f, FlowAction::CopyManifest)
            },
            _ => self.goto(Stage::Finished, FlowAction::Finish),
        }
    }

    fn on_copy_manifest(self, ev: FlowEvent) -> (r: (PluginFlow, FlowAction))
        requires
            holds(self),
            expects(self, ev),
            self.stage == Stage::CopyManifest,
        ensures
            stepped(self, ev, r.0, r.1),
            holds(r.0),
    {
        let update = is_update_kind(&self.kind);
        if let FlowEvent::Done(Err(e)) = ev {
            if update {
                return self.fail(installation("failed to copy manifest: ", e.as_str()));
            } else {
                return self.fail(installation("failed to copy plugin.toml: ", e.as_str()));
            }
        }
        if update {
            return self.save_changes();
        }
        let entry = {
            let m = self.manifest.as_ref().unwrap();
            if m.ui.enabled {
                m.ui.entry.clone()
            } else {
                None
            }
        };
        match entry {
            Some(en) => self.goto(Stage::UiLocated, FlowAction::LocateUiEntry(en)),
            None => self.save_new(),
        }
    }

    fn on_ui_located(self, ev: FlowEvent) -> (r: (PluginFlow, FlowAction))
        requires
            holds(self),
            expects(self, ev),
            self.stage == Stage::UiLocated,
        ensures
            stepped(self, ev, r.0, r.1),
            holds(r.0),
    {
        match ev {
            FlowEvent::Located(Err(e)) => self.fail(installation("invalid UI entry path: ", e.as_str())),
            FlowEvent::Located(Ok(Some(false))) => self.fail(
                installation_text("UI entry path escapes repository directory (path traversal)"),
            ),
            FlowEvent::Located(Ok(_)) => {
                let entry = self.manifest.as_ref().unwrap().ui.entry.clone().unwrap();
                match parent_of(entry.as_str()) {
                    Some(p) => {
                        if crate::text::chars_of(p.as_str()).len() > 0 {
                            self.goto(Stage::UiCopyDir, FlowAction::CopyUiDir(p))
                        } else {
                            self.goto(Stage::UiCopyFile, FlowAction::CopyUiFile(entry))
                        }
                    },
                    None => self.save_new(),
                }
            },
            _ => self.goto(Stage::Finished, FlowAction::Finish),
        }
    }

    fn on_ui_copy_dir(self, ev: FlowEvent) -> (r: (PluginFlow, FlowAction))
        requires
            holds(self),
            expects(self, ev),
            self.stage == Stage::UiCopyDir,
        ensures
            stepped(self, ev, r.0, r.1),
            holds(r.0),
    {
        if let FlowEvent::Done(Err(e)) = ev {
            return self.fail(PluginError::Installation(e));
        }
        self.save_new()
    }

    fn on_ui_copy_file(self, ev: FlowEvent) -> (r: (PluginFlow, FlowAction))
        requires
            holds(self),
            expects(self, ev),
            self.stage == Stage::UiCopyFile,
        ensures
            stepped(self, ev, r.0, r.1),
            holds(r.0),
    {
        if let FlowEvent::Done(Err(e)) = ev {
            return self.fail(installation("failed to copy UI entry: ", e.as_str()));
        }
        self.save_new()
    }

    fn on_save(self, ev: FlowEvent) -> (r: (PluginFlow, FlowAction))
        requires
            holds(self),
            expects(self, ev),
            self.stage == Stage::Save,
        ensures
            stepped(self, ev, r.0, r.1),
            holds(r.0),
    {
        if let FlowEvent::Saved(Err(e)) = ev {
            return self.fail(e);
        }
        let PluginFlow { kind, git_url, plugin_dir, max_wasm_size, stage: _, manifest: _, wasm_size, wasm_path: _, backup, moved: _ } = self;
        match backup {
            Some((o, b)) => {
                let b2 = b.clone();
                let g = PluginFlow {
                    kind,
                    git_url,
                    plugin_dir,
                    max_wasm_size,
                    stage: Stage::DropBackup,
                    manifest: None,
                    wasm_size,
                    wasm_path: None,
                    backup: Some((o, b)),
                    moved: false,
                };
                (g, FlowAction::DropBackup(b2))
            },
            None => {
                let g = PluginFlow {
                    kind,
                    git_url,
                    plugin_dir,
                    max_wasm_size,
                    stage: Stage::Finished,
                    manifest: None,
                    wasm_size,
                    wasm_path: None,
                    backup: None,
                    moved: false,
                };
                (g, FlowAction::Finish)
            },
        }
    }

    fn on_drop_backup(self, ev: FlowEvent) -> (r: (PluginFlow, FlowAction))
        requires
            holds(self),
            expects(self, ev),
            self.stage == Stage::DropBackup,
        ensures
            stepped(self, ev, r.0, r.1),
            holds(r.0),
    {
        let PluginFlow { kind, git_url, plugin_dir, max_wasm_size, stage: _, manifest: _, wasm_size, wasm_path: _, backup: _, moved: _ } = self;
        let g = PluginFlow {
            kind,
            git_url,
            plugin_dir,
            max_wasm_size,
            stage: Stage::Finished,
            manifest: None,
            wasm_size,
            wasm_path: None,
            backup: None,
            moved: false,
        };
        (g, FlowAction::Finish)
    }

    fn on_finished(self, ev: FlowEvent) -> (r: (PluginFlow, FlowAction))
        requires
            holds(self),
            expects(self, ev),
            self.stage == Stage::Finished,
        ensures
            stepped(self, ev, r.0, r.1),
            holds(r.0),
    {
        self.goto(Stage::Finished, FlowAction::Finish)
    }

    /// Takes the outcome of the work the flow waited for and decides the
    /// next work (see `stepped`); the flow keeps what `holds` states.
    pub fn advance(self, ev: FlowEvent) -> (r: (PluginFlow, FlowAction))
        requires
            holds(self),
            expects(self, ev),
        ensures
            stepped(self, ev, r.0, r.1),
            holds(r.0),
    {
        match self.stage {
            Stage::Start => self.on_start(ev),
            Stage::TempDir => self.on_temp_dir(ev),
            Stage::Clone => self.on_clone(ev),
            Stage::ManifestExists => self.on_manifest_exists(ev),
            Stage::ManifestText => self.on_manifest_text(ev),
            Stage::ManifestParsed => self.on_manifest_parsed(ev),
            Stage::WasmLocated => self.on_wasm_located(ev),
            Stage::WasmSize => self.on_wasm_size(ev),
            Stage::WasmBytes => self.on_wasm_bytes(ev),
            Stage::NameLookup => self.on_name_lookup(ev),
            Stage::Backup => self.on_backup(ev),
            Stage::CleanDir => self.on_clean_dir(ev),
            Stage::CreateDir => self.on_create_dir(ev),
            Stage::CopyWasm => self.on_copy_wasm(ev),
            Stage::CopyManifest => self.on_copy_manifest(ev),
            Stage::UiLocated => self.on_ui_located(ev),
            Stage::UiCopyDir => self.on_ui_copy_dir(ev),
            Stage::UiCopyFile => self.on_ui_copy_file(ev),
            Stage::Save => self.on_save(ev),
            Stage::DropBackup => self.on_drop_backup(ev),
            Stage::Finished => self.on_finished(ev),
        }
    }
}

// ─── Laws ──────────────────────────────────────────────────────────────

/// A record is saved only from a manifest that passed validation, for a
/// binary within the size limit; a new record takes the manifest's name, and
/// an update keeps the recorded one.
pub proof fn law_saves_only_validated(f: PluginFlow, ev: FlowEvent, g: PluginFlow, a: FlowAction)
    requires
        holds(f),
        expects(f, ev),
        stepped(f, ev, g, a),
        a is SaveNew || a is SaveChanges,
    ensures
        f.manifest matches Some(m) && manifest_error(m) is None,
        f.wasm_size <= f.max_wasm_size,
        a matches FlowAction::SaveNew(r) ==> r.name == f.manifest->0.plugin.name,
        f.kind matches FlowKind::Update { name, .. } ==> f.manifest->0.plugin.name@ == name@,
{
}

/// Once the old directory of an update was moved aside, every failure moves
/// it back before the error is reported.
pub proof fn law_failure_restores_backup(f: PluginFlow, ev: FlowEvent, g: PluginFlow, a: FlowAction)
    requires
        holds(f),
        expects(f, ev),
        stepped(f, ev, g, a),
        f.moved,
        error_of(a) is Some,
    ensures
        a matches FlowAction::Restore(o, b, _) && o@ == f.backup.unwrap().0@ && b@ == f.backup.unwrap().1@,
{
}

/// A new installation never touches the install directory before the URL,
/// the manifest and the binary were checked and the name was found free: the
/// first step that cleans it comes from the name lookup.
pub proof fn law_install_cleans_after_lookup(f: PluginFlow, ev: FlowEvent, g: PluginFlow, a: FlowAction)
    requires
        holds(f),
        expects(f, ev),
        stepped(f, ev, g, a),
        f.kind is Install,
        a is CleanInstallDir,
    ensures
        f.stage == Stage::NameLookup,
        ev == FlowEvent::Found(Ok(false)),
{
}

} // verus!
