//! The WASM runtime under the plugin sandbox: a built extism plugin with
//! the module and limits it was built from, its calls and its exports.
//! Only the builder below makes a `BuiltPlugin`, so what it records is what
//! it handed to extism.
use vstd::prelude::*;

verus! {

#[verifier::external_type_specification]
#[verifier::external_body]
pub struct ExPlugin(extism::Plugin);

/// An extism plugin, with the module bytes, memory cap (64 KB pages), WASI
/// setting and fuel limit it was built with.
pub struct BuiltPlugin {
    plugin: extism::Plugin,
    module: Vec<u8>,
    memory_pages: u32,
    wasi: bool,
    fuel_limit: u64,
}

impl BuiltPlugin {
    /// The bytes of the module the plugin was built from.
    pub closed spec fn module(&self) -> Seq<u8> {
        self.module@
    }

    /// The memory cap the plugin was built with, in 64 KB pages.
    pub closed spec fn memory_pages(&self) -> u32 {
        self.memory_pages
    }

    /// Whether the plugin was built with WASI.
    pub closed spec fn wasi(&self) -> bool {
        self.wasi
    }

    /// The fuel limit per call the plugin was built with.
    pub closed spec fn fuel_limit(&self) -> u64 {
        self.fuel_limit
    }
}

/// Whether the WASM module `module` exports a function `name` that extism
/// can call as a plugin function: one taking no parameters and returning
/// nothing or a single `i32`.
pub uninterp spec fn callable_export(module: Seq<u8>, name: Seq<char>) -> bool;

/// Builds a plugin from one WASM module given by its bytes, with a memory
/// cap, WASI on or off and a fuel limit per call.
///
/// Trusted: calls `extism::Manifest::new` on `extism::Wasm::data(bytes)`,
/// `Manifest::with_memory_max(memory_pages)`, `extism::PluginBuilder::new`,
/// `with_wasi(wasi)`, `with_fuel_limit(fuel_limit)` and `build`, and keeps
/// a copy of the bytes and the three values beside the plugin.  Claims only
/// that a built plugin records the values it was built with; whether it
/// builds depends on the module and on the machine (compilation, memory
/// reservation, the compilation cache), so that is not claimed.
#[verifier::external_body]
pub(crate) fn build_plugin(bytes: Vec<u8>, memory_pages: u32, wasi: bool, fuel_limit: u64) -> (r: Result<BuiltPlugin, String>)
    ensures
        r matches Ok(b) ==> b.module() == bytes@ && b.memory_pages() == memory_pages && b.wasi() == wasi
            && b.fuel_limit() == fuel_limit,
{
    let module = bytes.clone();
    let manifest = extism::Manifest::new([extism::Wasm::data(bytes)]).with_memory_max(memory_pages);
    let built = extism::PluginBuilder::new(manifest).with_wasi(wasi).with_fuel_limit(fuel_limit).build();
    match built {
        Ok(plugin) => Ok(BuiltPlugin { plugin, module, memory_pages, wasi, fuel_limit }),
        Err(e) => Err(e.to_string()),
    }
}

/// Runs the exported function `name` on `input`.
///
/// Trusted: calls `extism::Plugin::call` with bytes in and bytes out, and
/// hands back the error's text.  What the plugin returns depends on its own
/// state and on the host functions it calls, so nothing is claimed of the
/// result; the module and limits the plugin was built with stay as they
/// were (the call does not touch them).
#[verifier::external_body]
pub(crate) fn plugin_call(p: &mut BuiltPlugin, name: &str, input: &[u8]) -> (r: Result<Vec<u8>, String>)
    ensures
        final(p).module() == old(p).module(),
        final(p).memory_pages() == old(p).memory_pages(),
        final(p).wasi() == old(p).wasi(),
        final(p).fuel_limit() == old(p).fuel_limit(),
{
    p.plugin.call::<&[u8], Vec<u8>>(name, input).map_err(|e| e.to_string())
}

/// Whether the plugin exports a callable function `name`.
///
/// Trusted: calls `extism::Plugin::function_exists`, which looks `name` up
/// among the exports of the plugin's main module (with one module given by
/// its bytes, that module) and accepts a function of type `() -> ()` or
/// `() -> i32`.  Claims the answer is `callable_export` of the bytes the
/// plugin was built from, which only `build_plugin` records.
#[verifier::external_body]
pub(crate) fn function_exists(p: &BuiltPlugin, name: &str) -> (b: bool)
    ensures
        b == callable_export(p.module(), name@),
{
    p.plugin.function_exists(name)
}

} // verus!
