//! Plugin events: the names plugins may subscribe to and their payloads.
use vstd::prelude::*;

use crate::text::str_eq;

verus! {

/// An arbitrary JSON document, as produced by `serde_json`.
#[verifier::external_type_specification]
#[verifier::external_body]
pub struct ExJsonValue(serde_json::Value);

/// The event names that plugins can subscribe to, in declaration order.
pub open spec fn known_event_names() -> Seq<Seq<char>> {
    seq![
        "on_track_added"@,
        "on_track_played"@,
        "on_track_deleted"@,
        "on_library_scan_complete"@,
        "on_user_registered"@,
        "on_user_login"@,
        "on_playlist_created"@,
        "on_peer_connected"@,
        "on_peer_disconnected"@,
        "on_plugin_event"@,
    ]
}

/// The event names that plugins can subscribe to.
pub fn known_events() -> (v: Vec<&'static str>)
    ensures
        v@.len() == known_event_names().len(),
        forall|i: int| 0 <= i < v@.len() ==> #[trigger] v@[i]@ == known_event_names()[i],
{
    let v: Vec<&'static str> = vec![
        "on_track_added",
        "on_track_played",
        "on_track_deleted",
        "on_library_scan_complete",
        "on_user_registered",
        "on_user_login",
        "on_playlist_created",
        "on_peer_connected",
        "on_peer_disconnected",
        "on_plugin_event",
    ];
    v
}

/// Whether `name` is one of the known event names.
pub fn is_known_name(name: &str) -> (b: bool)
    ensures
        b == known_event_names().contains(name@),
{
    let events = known_events();
    let mut i: usize = 0;
    while i < events.len()
        invariant
            i <= events@.len(),
            events@.len() == known_event_names().len(),
            forall|j: int| 0 <= j < events@.len() ==> #[trigger] events@[j]@ == known_event_names()[j],
            forall|j: int| 0 <= j < i ==> known_event_names()[j] != name@,
        decreases events.len() - i,
    {
        if str_eq(events[i], name) {
            assert(known_event_names()[i as int] == name@);
            return true;
        }
        i = i + 1;
    }
    false
}

/// A plugin event with its payload.
pub struct PluginEvent {
    pub name: String,
    pub payload: serde_json::Value,
}

impl PluginEvent {
    /// Creates an event.
    pub fn new(name: String, payload: serde_json::Value) -> (e: Self)
        ensures
            e.name == name,
            e.payload == payload,
    {
        PluginEvent { name, payload }
    }

    /// Whether `name` is a known system event.
    pub fn is_known_event(name: &str) -> (b: bool)
        ensures
            b == known_event_names().contains(name@),
    {
        is_known_name(name)
    }
}

/// Payload of `on_track_added` events.
#[derive(Debug, Clone)]
pub struct TrackAddedPayload {
    pub track_id: String,
    pub title: String,
    pub artist: String,
    pub album: Option<String>,
}

/// Payload of `on_track_played` events.
#[derive(Debug, Clone)]
pub struct TrackPlayedPayload {
    pub track_id: String,
    pub user_id: String,
    pub timestamp: String,
}

/// Payload of `on_track_deleted` events.
#[derive(Debug, Clone)]
pub struct TrackDeletedPayload {
    pub track_id: String,
}

/// Payload of `on_library_scan_complete` events.
#[derive(Debug, Clone)]
pub struct LibraryScanCompletePayload {
    pub library_id: String,
    pub tracks_added: u64,
    pub tracks_removed: u64,
}

/// Payload of `on_user_registered` events.
#[derive(Debug, Clone)]
pub struct UserRegisteredPayload {
    pub user_id: String,
    pub username: String,
}

/// Payload of `on_user_login` events.
#[derive(Debug, Clone)]
pub struct UserLoginPayload {
    pub user_id: String,
    pub timestamp: String,
}

/// Payload of `on_playlist_created` events.
#[derive(Debug, Clone)]
pub struct PlaylistCreatedPayload {
    pub playlist_id: String,
    pub user_id: String,
    pub name: String,
}

/// Payload of `on_peer_connected` events.
#[derive(Debug, Clone)]
pub struct PeerConnectedPayload {
    pub peer_id: String,
    pub domain: Option<String>,
    pub track_count: Option<u64>,
}

/// Payload of `on_peer_disconnected` events.
#[derive(Debug, Clone)]
pub struct PeerDisconnectedPayload {
    pub peer_id: String,
}

/// Payload of `on_plugin_event` (communication between plugins).
pub struct PluginEventPayload {
    pub source_plugin: String,
    pub event_name: String,
    pub payload: serde_json::Value,
}

} // verus!
