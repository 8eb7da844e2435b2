//! Checks made while installing a plugin: repository URL, WASM binary size,
//! magic bytes and import namespaces, install directory naming.
use vstd::prelude::*;

use crate::error::PluginError;
use crate::netguard::{git_url_problem, git_url_refusal};
use crate::text::{dec, push_decimal, push_str, str_eq, string_of};

verus! {

/// WASM magic bytes: `\0asm`.
pub const WASM_MAGIC: [u8; 4] = [0x00, 0x61, 0x73, 0x6D];

/// Default maximum size of a WASM binary, in MB.
pub const DEFAULT_MAX_WASM_SIZE_MB: u64 = 50;

/// Import namespaces a plugin may use; other imports are refused.
pub open spec fn allowed_namespaces() -> Seq<Seq<char>> {
    seq!["env"@, "extism:host/env"@, "wasi_snapshot_preview1"@, "wasi_unstable"@]
}

/// The allowed namespaces as `Debug` renders the list.
pub open spec fn allowed_namespaces_text() -> Seq<char> {
    "[\"env\", \"extism:host/env\", \"wasi_snapshot_preview1\", \"wasi_unstable\"]"@
}

/// The import namespaces a plugin may use.
pub fn allowed_import_namespaces() -> (v: Vec<&'static str>)
    ensures
        v@.len() == 4,
        forall|i: int| 0 <= i < 4 ==> #[trigger] v@[i]@ == allowed_namespaces()[i],
{
    vec!["env", "extism:host/env", "wasi_snapshot_preview1", "wasi_unstable"]
}

/// Whether imports from `module` are allowed.
pub fn is_allowed_namespace(module: &str) -> (b: bool)
    ensures
        b == allowed_namespaces().contains(module@),
{
    let list = allowed_import_namespaces();
    let mut i: usize = 0;
    while i < list.len()
        invariant
            list@.len() == 4,
            forall|j: int| 0 <= j < 4 ==> #[trigger] list@[j]@ == allowed_namespaces()[j],
            i <= 4,
            forall|j: int| 0 <= j < i ==> allowed_namespaces()[j] != module@,
        decreases list.len() - i,
    {
        if str_eq(list[i], module) {
            assert(allowed_namespaces()[i as int] == module@);
            return true;
        }
        i = i + 1;
    }
    assert forall|j: int| 0 <= j < allowed_namespaces().len() implies allowed_namespaces()[j]
        != module@ by {
        assert(j < i);
    }
    false
}

/// Checks a plugin repository URL (HTTPS only, no refused or private host).
pub fn validate_git_url(url: &str) -> (r: Result<(), PluginError>)
    ensures
        match git_url_problem(url@) {
            None => r is Ok,
            Some(msg) => r matches Err(PluginError::Installation(m)) && m@ == msg,
        },
{
    match git_url_refusal(url) {
        None => Ok(()),
        Some(m) => Err(PluginError::Installation(m)),
    }
}

/// The maximum WASM size in bytes for a limit given in MB.
pub fn max_wasm_size(limit_mb: u64) -> (n: u64)
    requires
        limit_mb * 1048576 <= u64::MAX,
    ensures
        n == limit_mb * 1048576,
{
    limit_mb * 1024 * 1024
}

/// The limit in MB from the configured text, if it reads as a number, else
/// the default of 50 MB.
pub fn wasm_limit_mb(configured: Option<u64>) -> (n: u64)
    ensures
        n == match configured {
            Some(v) => v,
            None => DEFAULT_MAX_WASM_SIZE_MB,
        },
{
    match configured {
        Some(v) => v,
        None => DEFAULT_MAX_WASM_SIZE_MB,
    }
}

/// The name of a plugin's install directory: `{name}-{version}`.
pub fn install_dir_name(name: &str, version: &str) -> (d: String)
    ensures
        d@ == name@ + "-"@ + version@,
{
    let mut v: Vec<char> = Vec::new();
    push_str(&mut v, name);
    push_str(&mut v, "-");
    push_str(&mut v, version);
    string_of(&v)
}

/// An update must keep the plugin's name.
pub fn check_update_name(expected: &str, got: &str) -> (r: Result<(), PluginError>)
    ensures
        r is Ok <==> expected@ == got@,
        r matches Err(e) ==> e matches PluginError::Installation(m) && m@
            == "plugin name mismatch: expected '"@ + expected@ + "', got '"@ + got@ + "'"@,
{
    if str_eq(expected, got) {
        return Ok(());
    }
    let mut v: Vec<char> = Vec::new();
    push_str(&mut v, "plugin name mismatch: expected '");
    push_str(&mut v, expected);
    push_str(&mut v, "', got '");
    push_str(&mut v, got);
    push_str(&mut v, "'");
    proof {
        assert(v@ =~= "plugin name mismatch: expected '"@ + expected@ + "', got '"@ + got@ + "'"@);
    }
    Err(PluginError::Installation(string_of(&v)))
}

// ─── WASM binary ───────────────────────────────────────────────────────

/// Which step of reading a WASM module failed.
#[derive(Debug, Clone)]
pub enum WasmReadError {
    /// A section of the module could not be parsed.
    Section(String),
    /// An entry of the import section could not be read.
    Import(String),
}

/// What `wasmparser` reads of a module's imports: the `(module, name)`
/// pairs in order up to the first failure, and that failure (`true` for a
/// section, `false` for an import entry, with its message).
pub uninterp spec fn wasm_imports_read(bytes: Seq<u8>) -> (Seq<(Seq<char>, Seq<char>)>, Option<(bool, Seq<char>)>);

/// Trusted: walks `wasmparser::Parser::parse_all` and the entries of each
/// import section, collecting `(module, name)` until the first error;
/// claims the result is `wasm_imports_read` of the bytes.
#[verifier::external_body]
fn read_wasm_imports(bytes: &[u8]) -> (r: (Vec<(String, String)>, Option<WasmReadError>))
    ensures
        r.0@.len() == wasm_imports_read(bytes@).0.len(),
        forall|i: int| 0 <= i < r.0@.len() ==> (#[trigger] r.0@[i]).0@ == wasm_imports_read(bytes@).0[i].0 && r.0@[i].1@
            == wasm_imports_read(bytes@).0[i].1,
        match r.1 {
            None => wasm_imports_read(bytes@).1 is None,
            Some(WasmReadError::Section(m)) => wasm_imports_read(bytes@).1 == Some((true, m@)),
            Some(WasmReadError::Import(m)) => wasm_imports_read(bytes@).1 == Some((false, m@)),
        },
{
    let mut imports = Vec::new();
    for payload in wasmparser::Parser::new(0).parse_all(bytes) {
        match payload {
            Err(e) => return (imports, Some(WasmReadError::Section(e.to_string()))),
            Ok(wasmparser::Payload::ImportSection(reader)) => for import in reader.into_imports() {
                match import {
                    Ok(i) => imports.push((i.module.to_string(), i.name.to_string())),
                    Err(e) => return (imports, Some(WasmReadError::Import(e.to_string()))),
                }
            },
            Ok(_) => {},
        }
    }
    (imports, None)
}

/// The first import of `imports` from a namespace that is not allowed.
pub open spec fn first_unauthorized(imports: Seq<(Seq<char>, Seq<char>)>) -> Option<
    (Seq<char>, Seq<char>),
>
    decreases imports.len(),
{
    if imports.len() == 0 {
        None
    } else if !allowed_namespaces().contains(imports[0].0) {
        Some(imports[0])
    } else {
        first_unauthorized(imports.drop_first())
    }
}

/// The error for a module's imports, if any: the first unauthorized import,
/// else the read failure.
pub open spec fn imports_error(bytes: Seq<u8>) -> Option<Seq<char>> {
    match first_unauthorized(wasm_imports_read(bytes).0) {
        Some((module, name)) => Some(
            "unauthorized import namespace: '"@ + module + "' (function: '"@ + name
                + "'); allowed namespaces: "@ + allowed_namespaces_text(),
        ),
        None => match wasm_imports_read(bytes).1 {
            None => None,
            Some((true, m)) => Some("failed to parse WASM: "@ + m),
            Some((false, m)) => Some("failed to read import: "@ + m),
        },
    }
}

/// The error for a WASM binary of `size` bytes and content `bytes`, if any:
/// size over the limit, wrong magic bytes, then the import check.
pub open spec fn wasm_error(size: u64, max: u64, bytes: Seq<u8>) -> Option<Seq<char>> {
    if size > max {
        Some(
            "WASM binary too large: "@ + dec(size as nat) + " bytes (max: "@ + dec(max as nat)
                + " bytes)"@,
        )
    } else if bytes.len() < 4 || bytes.take(4) != seq![0x00u8, 0x61u8, 0x73u8, 0x6Du8] {
        Some("invalid WASM binary: magic bytes mismatch"@)
    } else {
        imports_error(bytes)
    }
}

/// Checks the imports of a WASM module against the allowed namespaces.
pub fn validate_wasm_imports(bytes: &[u8]) -> (r: Result<(), PluginError>)
    ensures
        match imports_error(bytes@) {
            None => r is Ok,
            Some(msg) => r matches Err(PluginError::WasmValidation(m)) && m@ == msg,
        },
{
    let (imports, failure) = read_wasm_imports(bytes);
    let ghost model = wasm_imports_read(bytes@).0;
    let mut i: usize = 0;
    proof {
        assert(model.skip(0) =~= model);
    }
    while i < imports.len()
        invariant
            i <= imports@.len(),
            model == wasm_imports_read(bytes@).0,
            imports@.len() == model.len(),
            forall|j: int| 0 <= j < imports@.len() ==> (#[trigger] imports@[j]).0@ == model[j].0 && imports@[j].1@ == model[j].1,
            first_unauthorized(model) == first_unauthorized(model.skip(i as int)),
        decreases imports.len() - i,
    {
        proof {
            assert(model.skip(i as int).drop_first() =~= model.skip(i + 1));
            assert(model.skip(i as int)[0] == model[i as int]);
        }
        let module = &imports[i].0;
        let name = &imports[i].1;
        assert(module@ == model[i as int].0);
        if !is_allowed_namespace(module.as_str()) {
            proof {
                assert(first_unauthorized(model.skip(i as int)) == Some(model[i as int]));
            }
            let mut v: Vec<char> = Vec::new();
            push_str(&mut v, "unauthorized import namespace: '");
            push_str(&mut v, module.as_str());
            push_str(&mut v, "' (function: '");
            push_str(&mut v, name.as_str());
            push_str(&mut v, "'); allowed namespaces: ");
            push_str(&mut v, "[\"env\", \"extism:host/env\", \"wasi_snapshot_preview1\", \"wasi_unstable\"]");
            proof {
                assert(v@ =~= "unauthorized import namespace: '"@ + model[i as int].0
                    + "' (function: '"@ + model[i as int].1 + "'); allowed namespaces: "@
                    + allowed_namespaces_text());

            }
            return Err(PluginError::WasmValidation(string_of(&v)));
        }
        i = i + 1;
    }
    proof {
        assert(model.skip(i as int) =~= Seq::<(Seq<char>, Seq<char>)>::empty());
    }
    match failure {
        None => Ok(()),
        Some(WasmReadError::Section(e)) => {
            let mut v: Vec<char> = Vec::new();
            push_str(&mut v, "failed to parse WASM: ");
            push_str(&mut v, e.as_str());
            Err(PluginError::WasmValidation(string_of(&v)))
        },
        Some(WasmReadError::Import(e)) => {
            let mut v: Vec<char> = Vec::new();
            push_str(&mut v, "failed to read import: ");
            push_str(&mut v, e.as_str());
            Err(PluginError::WasmValidation(string_of(&v)))
        },
    }
}

/// Checks a WASM binary: its size against the limit, its magic bytes, and
/// its import namespaces.
pub fn validate_wasm(size: u64, max_size: u64, bytes: &[u8]) -> (r: Result<(), PluginError>)
    ensures
        match wasm_error(size, max_size, bytes@) {
            None => r is Ok,
            Some(msg) => r matches Err(PluginError::WasmValidation(m)) && m@ == msg,
        },
{
    if size > max_size {
        let mut v: Vec<char> = Vec::new();
        push_str(&mut v, "WASM binary too large: ");
        push_decimal(&mut v, size);
        push_str(&mut v, " bytes (max: ");
        push_decimal(&mut v, max_size);
        push_str(&mut v, " bytes)");
        proof {
            assert(v@ =~= "WASM binary too large: "@ + dec(size as nat) + " bytes (max: "@ + dec(
                max_size as nat,
            ) + " bytes)"@);
        }
        return Err(PluginError::WasmValidation(string_of(&v)));
    }
    if bytes.len() < 4 || !(bytes[0] == 0x00 && bytes[1] == 0x61 && bytes[2] == 0x73 && bytes[3]
        == 0x6D) {
        proof {
            if bytes@.len() >= 4 {
                assert(bytes@.take(4)[0] == bytes@[0]);
                assert(bytes@.take(4)[1] == bytes@[1]);
                assert(bytes@.take(4)[2] == bytes@[2]);
                assert(bytes@.take(4)[3] == bytes@[3]);
                assert(bytes@.take(4) != seq![0x00u8, 0x61u8, 0x73u8, 0x6Du8]);
            }
        }
        let mut v: Vec<char> = Vec::new();
        push_str(&mut v, "invalid WASM binary: magic bytes mismatch");
        return Err(PluginError::WasmValidation(string_of(&v)));
    }
    proof {
        assert(bytes@.take(4) =~= seq![0x00u8, 0x61u8, 0x73u8, 0x6Du8]);
    }
    validate_wasm_imports(bytes)
}

} // verus!
