//! The WASM sandbox of a plugin: its limits, loading a module, calling its
//! functions, and the classification of failed calls.
use vstd::prelude::*;

use crate::error::PluginError;
use crate::wasm_runtime::{build_plugin, callable_export, function_exists, plugin_call, BuiltPlugin};
use crate::text::{
    chars_of, contains, contains_seq, decimal_value, eq_ignore_ascii_case, parse_u64,
    str_eq_ignore_ascii_case, string_of,
};

verus! {

/// Limits of the WASM sandbox.
#[derive(Debug, Clone, Copy)]
pub struct SandboxConfig {
    /// Maximum memory in bytes.
    pub memory_limit: usize,
    /// Maximum fuel (instructions) per call.
    pub fuel_limit: u64,
    /// HTTP request timeout in seconds.
    pub http_timeout_secs: u64,
    /// Whether WASI is enabled (off by default: no environment, files or stdio).
    pub wasi_enabled: bool,
}

impl Default for SandboxConfig {
    /// 32 MB of memory, 1 000 000 units of fuel, a 10 s HTTP timeout, no WASI.
    fn default() -> (c: Self)
        ensures
            c.memory_limit == 33554432,
            c.fuel_limit == 1_000_000,
            c.http_timeout_secs == 10,
            !c.wasi_enabled,
    {
        SandboxConfig {
            memory_limit: 32 * 1024 * 1024,
            fuel_limit: 1_000_000,
            http_timeout_secs: 10,
            wasi_enabled: false,
        }
    }
}

/// The number a setting gives, if it reads as one that fits in 64 bits.
pub open spec fn setting_number(text: Option<Seq<char>>) -> Option<nat> {
    match text {
        Some(t) => match decimal_value(t) {
            Some(n) => if n <= u64::MAX {
                Some(n)
            } else {
                None
            },
            None => None,
        },
        None => None,
    }
}

/// The number a setting gives, or `default`.
pub open spec fn setting_or(text: Option<Seq<char>>, default: nat) -> nat {
    match setting_number(text) {
        Some(n) => n,
        None => default,
    }
}

/// The view of an optional string slice.
pub open spec fn opt_str_view(o: Option<&str>) -> Option<Seq<char>> {
    match o {
        Some(s) => Some(s@),
        None => None,
    }
}

fn read_setting(text: Option<&str>, default: u64) -> (n: u64)
    ensures
        n == setting_or(opt_str_view(text), default as nat),
{
    match text {
        Some(t) => match parse_u64(t) {
            Some(v) => v,
            None => default,
        },
        None => default,
    }
}

impl SandboxConfig {
    /// Builds the limits from the configured values (`PLUGIN_MEMORY_LIMIT_MB`,
    /// `PLUGIN_FUEL_LIMIT`, `PLUGIN_HTTP_TIMEOUT_SECS`, `PLUGIN_WASI_ENABLED`);
    /// unset or unreadable numbers fall back to 32 MB, 1 000 000 and 10 s, and
    /// WASI is on only for `true` in any ASCII case.
    pub fn from_settings(
        memory_limit_mb: Option<&str>,
        fuel_limit: Option<&str>,
        http_timeout_secs: Option<&str>,
        wasi_enabled: Option<&str>,
    ) -> (c: Self)
        requires
            setting_or(opt_str_view(memory_limit_mb), 32) * 1048576 <= usize::MAX,
        ensures
            c.memory_limit == setting_or(opt_str_view(memory_limit_mb), 32) * 1048576,
            c.fuel_limit == setting_or(opt_str_view(fuel_limit), 1_000_000),
            c.http_timeout_secs == setting_or(opt_str_view(http_timeout_secs), 10),
            c.wasi_enabled == (wasi_enabled matches Some(w) && eq_ignore_ascii_case(w@, "true"@)),
    {
        let mb = read_setting(memory_limit_mb, 32);
        let memory_limit: usize = (mb as usize) * 1024 * 1024;
        let fuel = read_setting(fuel_limit, 1_000_000);
        let timeout = read_setting(http_timeout_secs, 10);
        let wasi = match wasi_enabled {
            Some(w) => str_eq_ignore_ascii_case(w, "true"),
            None => false,
        };
        SandboxConfig {
            memory_limit,
            fuel_limit: fuel,
            http_timeout_secs: timeout,
            wasi_enabled: wasi,
        }
    }

    /// The memory limit in 64 KB WASM pages, kept to its low 32 bits (as a
    /// `u32` cast does).
    pub fn memory_pages(&self) -> (p: u32)
        ensures
            p == (self.memory_limit / 65536) as u32,
            self.memory_limit / 65536 <= u32::MAX ==> p == self.memory_limit / 65536,
    {
        #[verifier::truncate]
        ((self.memory_limit / 65536) as u32)
    }
}

/// The error a failed plugin call is reported as: fuel exhaustion when the
/// message mentions fuel, memory exhaustion when it mentions memory, a
/// sandbox error otherwise.
pub open spec fn call_error_kind(plugin: Seq<char>, msg: Seq<char>, e: PluginError) -> bool {
    if contains_seq(msg, "fuel"@) {
        e matches PluginError::FuelExhausted(p) && p@ == plugin
    } else if contains_seq(msg, "memory"@) {
        e matches PluginError::MemoryExceeded(p) && p@ == plugin
    } else {
        e matches PluginError::Sandbox(m) && m@ == msg
    }
}

/// Classifies the message of a failed plugin call.
pub fn classify_call_error(plugin_name: &str, msg: &str) -> (e: PluginError)
    ensures
        call_error_kind(plugin_name@, msg@, e),
{
    let m = chars_of(msg);
    let fuel = chars_of("fuel");
    let memory = chars_of("memory");
    if contains(&m, &fuel) {
        PluginError::FuelExhausted(string_of(&chars_of(plugin_name)))
    } else if contains(&m, &memory) {
        PluginError::MemoryExceeded(string_of(&chars_of(plugin_name)))
    } else {
        PluginError::Sandbox(string_of(&m))
    }
}

/// What a plugin call reports, given what the runtime answered: the
/// output as it came, or the failure classified by its message (see
/// `call_error_kind`).
pub fn call_outcome(plugin_name: &str, raw: Result<Vec<u8>, String>) -> (r: Result<Vec<u8>, PluginError>)
    ensures
        match raw {
            Ok(out) => r == Ok::<Vec<u8>, PluginError>(out),
            Err(msg) => r matches Err(e) && call_error_kind(plugin_name@, msg@, e),
        },
{
    match raw {
        Ok(out) => Ok(out),
        Err(msg) => Err(classify_call_error(plugin_name, msg.as_str())),
    }
}

// ─── Loaded sandboxes ──────────────────────────────────────────────────

/// A loaded WASM plugin: its instance, the limits it runs under and its
/// name.  Each call gets a fresh fuel budget.
pub struct PluginSandbox {
    plugin: BuiltPlugin,
    config: SandboxConfig,
    plugin_name: String,
}

impl PluginSandbox {
    /// The limits the plugin runs under.
    pub closed spec fn limits(&self) -> SandboxConfig {
        self.config
    }

    /// The plugin's name.
    pub closed spec fn name_view(&self) -> Seq<char> {
        self.plugin_name@
    }

    /// The bytes of the WASM module the plugin was built from.
    pub closed spec fn module_view(&self) -> Seq<u8> {
        self.plugin.module()
    }

    /// The memory cap (in 64 KB pages), WASI setting and fuel limit the
    /// plugin was built with.
    pub closed spec fn built_with(&self) -> (u32, bool, u64) {
        (self.plugin.memory_pages(), self.plugin.wasi(), self.plugin.fuel_limit())
    }

    /// Loads a plugin from the bytes of its WASM module, built with the
    /// memory cap in 64 KB pages, WASI as configured and the fuel limit.  A
    /// module that does not compile or instantiate is a sandbox error.
    pub fn load(wasm_bytes: Vec<u8>, config: SandboxConfig, name: &str) -> (r: Result<Self, PluginError>)
        ensures
            match r {
                Ok(s) => {
                    &&& s.limits() == config
                    &&& s.name_view() == name@
                    &&& s.module_view() == wasm_bytes@
                    &&& s.built_with() == ((config.memory_limit / 65536) as u32, config.wasi_enabled, config.fuel_limit)
                },
                Err(e) => e is Sandbox,
            },
    {
        let ghost bytes = wasm_bytes@;
        let pages = config.memory_pages();
        match build_plugin(wasm_bytes, pages, config.wasi_enabled, config.fuel_limit) {
            Ok(plugin) => Ok(PluginSandbox { plugin, config, plugin_name: string_of(&chars_of(name)) }),
            Err(msg) => Err(PluginError::Sandbox(msg)),
        }
    }

    /// Calls the exported function `function_name` with raw bytes in and
    /// out.  A failure is classified by its message (see
    /// `classify_call_error`): fuel exhaustion, memory exhaustion, or a
    /// sandbox error.
    pub fn call(&mut self, function_name: &str, input: &[u8]) -> (r: Result<Vec<u8>, PluginError>)
        ensures
            final(self).limits() == old(self).limits(),
            final(self).name_view() == old(self).name_view(),
            final(self).module_view() == old(self).module_view(),
            final(self).built_with() == old(self).built_with(),
            r matches Err(e) ==> exists|msg: Seq<char>| call_error_kind(old(self).name_view(), msg, e),
    {
        let raw = plugin_call(&mut self.plugin, function_name, input);
        let ghost raw_v = raw;
        let r = call_outcome(self.plugin_name.as_str(), raw);
        proof {
            if raw_v is Err {
                assert(call_error_kind(self.plugin_name@, raw_v->Err_0@, r->Err_0));
            }
        }
        r
    }

    /// Whether the plugin exports a function `name` that can be called as a
    /// plugin function (see `callable_export`).
    pub fn has_function(&self, name: &str) -> (b: bool)
        ensures
            b == callable_export(self.module_view(), name@),
    {
        function_exists(&self.plugin, name)
    }

    /// The plugin's name.
    pub fn name(&self) -> (n: &str)
        ensures
            n@ == self.name_view(),
    {
        self.plugin_name.as_str()
    }

    /// The limits the plugin runs under.
    pub fn config(&self) -> (c: &SandboxConfig)
        ensures
            *c == self.limits(),
    {
        &self.config
    }
}

} // verus!
