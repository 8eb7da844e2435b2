//! Plugin system error type.
use vstd::prelude::*;

use crate::text::{push_str, string_of};

verus! {

/// Errors raised by the plugin system.
///
/// Variants that wrap an error of another component carry its message.
#[derive(Debug, Clone)]
pub enum PluginError {
    Manifest(String),
    InvalidManifest(String),
    Sandbox(String),
    NotFound(String),
    AlreadyExists(String),
    PermissionDenied(String),
    HostFunction(String),
    Installation(String),
    Git(String),
    WasmValidation(String),
    FuelExhausted(String),
    MemoryExceeded(String),
    Http(String),
    Database(String),
    Io(String),
    Serialization(String),
    TomlParse(String),
    Semver(String),
}

/// The human-readable message of an error.
pub open spec fn error_text(e: PluginError) -> Seq<char> {
    match e {
        PluginError::Manifest(m) => "manifest error: "@ + m@,
        PluginError::InvalidManifest(m) => "invalid manifest: "@ + m@,
        PluginError::Sandbox(m) => "sandbox error: "@ + m@,
        PluginError::NotFound(m) => "plugin not found: "@ + m@,
        PluginError::AlreadyExists(m) => "plugin already exists: "@ + m@,
        PluginError::PermissionDenied(m) => "permission denied: "@ + m@,
        PluginError::HostFunction(m) => "host function error: "@ + m@,
        PluginError::Installation(m) => "installation error: "@ + m@,
        PluginError::Git(m) => "git error: "@ + m@,
        PluginError::WasmValidation(m) => "WASM validation error: "@ + m@,
        PluginError::FuelExhausted(m) => "execution timeout: plugin "@ + m@ + " exceeded fuel limit"@,
        PluginError::MemoryExceeded(m) => "memory limit exceeded: plugin "@ + m@,
        PluginError::Http(m) => "HTTP error: "@ + m@,
        PluginError::Database(m) => "database error: "@ + m@,
        PluginError::Io(m) => "io error: "@ + m@,
        PluginError::Serialization(m) => "serialization error: "@ + m@,
        PluginError::TomlParse(m) => "TOML parse error: "@ + m@,
        PluginError::Semver(m) => "semver error: "@ + m@,
    }
}

/// Whether the error wraps an error of another component (the variants
/// that have a source).
pub open spec fn has_source(e: PluginError) -> bool {
    match e {
        PluginError::Git(_) | PluginError::Database(_) | PluginError::Io(_)
        | PluginError::Serialization(_) | PluginError::TomlParse(_) | PluginError::Semver(_) => true,
        _ => false,
    }
}

fn prefixed(prefix: &str, m: &String) -> (s: String)
    ensures
        s@ == prefix@ + m@,
{
    let mut v: Vec<char> = Vec::new();
    push_str(&mut v, prefix);
    push_str(&mut v, m.as_str());
    string_of(&v)
}

impl PluginError {
    /// Renders the error as text.
    pub fn message(&self) -> (s: String)
        ensures
            s@ == error_text(*self),
    {
        match self {
            PluginError::Manifest(m) => prefixed("manifest error: ", m),
            PluginError::InvalidManifest(m) => prefixed("invalid manifest: ", m),
            PluginError::Sandbox(m) => prefixed("sandbox error: ", m),
            PluginError::NotFound(m) => prefixed("plugin not found: ", m),
            PluginError::AlreadyExists(m) => prefixed("plugin already exists: ", m),
            PluginError::PermissionDenied(m) => prefixed("permission denied: ", m),
            PluginError::HostFunction(m) => prefixed("host function error: ", m),
            PluginError::Installation(m) => prefixed("installation error: ", m),
            PluginError::Git(m) => prefixed("git error: ", m),
            PluginError::WasmValidation(m) => prefixed("WASM validation error: ", m),
            PluginError::FuelExhausted(m) => {
                let mut v: Vec<char> = Vec::new();
                push_str(&mut v, "execution timeout: plugin ");
                push_str(&mut v, m.as_str());
                push_str(&mut v, " exceeded fuel limit");
                string_of(&v)
            },
            PluginError::MemoryExceeded(m) => prefixed("memory limit exceeded: plugin ", m),
            PluginError::Http(m) => prefixed("HTTP error: ", m),
            PluginError::Database(m) => prefixed("database error: ", m),
            PluginError::Io(m) => prefixed("io error: ", m),
            PluginError::Serialization(m) => prefixed("serialization error: ", m),
            PluginError::TomlParse(m) => prefixed("TOML parse error: ", m),
            PluginError::Semver(m) => prefixed("semver error: ", m),
        }
    }

    /// Whether this error wraps an error of another component.
    pub fn has_source(&self) -> (b: bool)
        ensures
            b == has_source(*self),
    {
        match self {
            PluginError::Git(_) | PluginError::Database(_) | PluginError::Io(_)
            | PluginError::Serialization(_) | PluginError::TomlParse(_) | PluginError::Semver(
                _,
            ) => true,
            _ => false,
        }
    }
}

} // verus!
