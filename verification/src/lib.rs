//! SoundTime core logic: plugin manifests and permissions, host-function
//! guards, plugin subscriptions, upload and streaming checks, search queries,
//! theme packages, Last.fm request signing and radio pool assembly, the
//! plugin, theme and upload flows, editorial playlists and listen history.
use vstd::prelude::*;

pub mod text;
pub mod error;
pub mod events;
pub mod manifest;
pub mod netguard;
pub mod host;
pub mod installer;
pub mod wasm_runtime;
pub mod sandbox;
pub mod registry;
pub mod paths;
pub mod media;
pub mod search;
pub mod themes;
pub mod pagination;
pub mod plugin_api;
pub mod lastfm;
pub mod admin;
pub mod moderation;
pub mod setup;
pub mod p2p;
pub mod lyrics;
pub mod library;
pub mod radio;
pub mod plugin_flow;
pub mod theme_flow;
pub mod editorial;
pub mod editorial_flow;
pub mod history;
pub mod upload_flow;

verus! {

} // verus!
