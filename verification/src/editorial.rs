//! Editorial playlists: when an instance may generate them, what it asks an
//! OpenAI-compatible service for, how the answer becomes playlists, and when
//! they are due again.
use vstd::prelude::*;

use crate::media::{public_cover, public_cover_url};
use crate::registry::{uuid_string, uuid_text};
use crate::text::{
    chars_of, dec, is_prefix, is_suffix, matches_at, push_decimal, push_str, string_of, trim,
    trim_chars,
};

verus! {

/// The service's base URL when none is configured.
pub const DEFAULT_AI_BASE_URL: &'static str = "https://api.openai.com/v1";

/// The model asked when none is configured.
pub const DEFAULT_AI_MODEL: &'static str = "gpt-4o-mini";

/// The fewest tracks an instance needs for editorial playlists.
pub const MIN_EDITORIAL_TRACKS: usize = 5;

/// Days after which editorial playlists are due again.
pub const REGENERATION_DAYS: i64 = 7;

/// Days after which the Saturday run generates them again.
pub const SCHEDULED_REGENERATION_DAYS: i64 = 6;

/// The weekday number of Saturday, counted from Monday as 0.
pub const SATURDAY: u32 = 5;

/// An editorial playlist with its tracks, in position order.
#[derive(Debug, Clone)]
pub struct EditorialPlaylistResponse<T> {
    pub id: u128,
    pub name: String,
    pub description: Option<String>,
    pub cover_url: Option<String>,
    pub track_count: usize,
    pub tracks: Vec<T>,
}

/// What a generation run did.
#[derive(Debug, Clone)]
pub struct GenerateResult {
    pub playlists_created: usize,
    pub message: String,
}

/// Whether editorial playlists can be generated, and their state.
#[derive(Debug, Clone)]
pub struct EditorialStatus {
    pub ai_configured: bool,
    pub ai_base_url: String,
    pub ai_model: String,
    pub last_generated: Option<String>,
    pub playlist_count: u64,
    pub needs_regeneration: bool,
}

/// Why a generation run cannot start.
#[derive(Debug, Clone, Copy, PartialEq, Eq, Structural)]
pub enum EditorialError {
    /// No API key is set.
    KeyNotConfigured,
    /// The API key is empty.
    KeyEmpty,
    /// Fewer than five tracks exist.
    NotEnoughTracks,
}

impl EditorialError {
    /// The message an administrator's request is answered with.
    pub fn response_message(&self) -> (m: &'static str)
        ensures
            m@ == match *self {
                EditorialError::KeyNotConfigured => "AI API key not configured. Set 'ai_api_key' in settings."@,
                EditorialError::KeyEmpty => "AI API key is empty"@,
                EditorialError::NotEnoughTracks => "Not enough tracks to generate playlists (minimum 5)"@,
            },
    {
        match self {
            EditorialError::KeyNotConfigured => "AI API key not configured. Set 'ai_api_key' in settings.",
            EditorialError::KeyEmpty => "AI API key is empty",
            EditorialError::NotEnoughTracks => "Not enough tracks to generate playlists (minimum 5)",
        }
    }

    /// The message a scheduled run logs.
    pub fn message(&self) -> (m: &'static str)
        ensures
            m@ == match *self {
                EditorialError::KeyNotConfigured => "AI API key not configured"@,
                EditorialError::KeyEmpty => "AI API key is empty"@,
                EditorialError::NotEnoughTracks => "Not enough tracks"@,
            },
    {
        match self {
            EditorialError::KeyNotConfigured => "AI API key not configured",
            EditorialError::KeyEmpty => "AI API key is empty",
            EditorialError::NotEnoughTracks => "Not enough tracks",
        }
    }
}

// ─── Settings ──────────────────────────────────────────────────────────

/// Whether an API key is set and not empty.
pub open spec fn key_configured(api_key: Option<Seq<char>>) -> bool {
    api_key matches Some(k) && k.len() > 0
}

/// Whether the instance can generate editorial playlists: its API key is
/// set and not empty.
pub fn ai_configured(api_key: &Option<String>) -> (b: bool)
    ensures
        b == key_configured(opt_string_view(api_key)),
{
    match api_key {
        Some(k) => chars_of(k.as_str()).len() > 0,
        None => false,
    }
}

/// The view of an optional string.
pub open spec fn opt_string_view(o: &Option<String>) -> Option<Seq<char>> {
    match *o {
        Some(s) => Some(s@),
        None => None,
    }
}

/// The API key a generation run uses: refused when not set or empty.
pub fn check_api_key(api_key: Option<String>) -> (r: Result<String, EditorialError>)
    ensures
        match api_key {
            None => r == Err::<String, EditorialError>(EditorialError::KeyNotConfigured),
            Some(k) => if k@.len() == 0 {
                r == Err::<String, EditorialError>(EditorialError::KeyEmpty)
            } else {
                r == Ok::<String, EditorialError>(k)
            },
        },
{
    match api_key {
        None => Err(EditorialError::KeyNotConfigured),
        Some(k) => if chars_of(k.as_str()).len() == 0 {
            Err(EditorialError::KeyEmpty)
        } else {
            Ok(k)
        },
    }
}

fn setting_or_default(value: Option<String>, default: &str) -> (s: String)
    ensures
        s@ == match value {
            Some(v) => v@,
            None => default@,
        },
{
    match value {
        Some(v) => v,
        None => string_of(&chars_of(default)),
    }
}

/// The configured base URL of the service, or the default one.
pub fn ai_base_url(configured: Option<String>) -> (s: String)
    ensures
        s@ == match configured {
            Some(v) => v@,
            None => DEFAULT_AI_BASE_URL@,
        },
{
    setting_or_default(configured, DEFAULT_AI_BASE_URL)
}

/// The configured model, or the default one.
pub fn ai_model(configured: Option<String>) -> (s: String)
    ensures
        s@ == match configured {
            Some(v) => v@,
            None => DEFAULT_AI_MODEL@,
        },
{
    setting_or_default(configured, DEFAULT_AI_MODEL)
}

/// The endpoint of chat completions under a base URL.
pub fn chat_completions_url(base_url: &str) -> (u: String)
    ensures
        u@ == base_url@ + "/chat/completions"@,
{
    let mut v: Vec<char> = Vec::new();
    push_str(&mut v, base_url);
    push_str(&mut v, "/chat/completions");
    string_of(&v)
}

/// The `Authorization` header's value for an API key.
pub fn bearer(api_key: &str) -> (h: String)
    ensures
        h@ == "Bearer "@ + api_key@,
{
    let mut v: Vec<char> = Vec::new();
    push_str(&mut v, "Bearer ");
    push_str(&mut v, api_key);
    string_of(&v)
}

// ─── The request ───────────────────────────────────────────────────────

/// How many playlists to ask for: 2 under 15 tracks, 4 under 50, else 6.
pub open spec fn playlist_count_for(tracks: nat) -> nat {
    if tracks < 15 {
        2
    } else if tracks < 50 {
        4
    } else {
        6
    }
}

/// How many tracks each playlist should have at least: the tracks shared
/// among the playlists, kept between 5 and 25.
pub open spec fn tracks_per_playlist_for(tracks: nat) -> nat {
    let share = tracks / playlist_count_for(tracks);
    if share < 5 {
        5
    } else if share > 25 {
        25
    } else {
        share
    }
}

/// The shape of a run over `track_count` tracks: how many playlists, and
/// how many tracks each at least; refused under five tracks.
pub fn playlist_shape(track_count: usize) -> (r: Result<(usize, usize), EditorialError>)
    ensures
        track_count < MIN_EDITORIAL_TRACKS ==> r == Err::<(usize, usize), EditorialError>(
            EditorialError::NotEnoughTracks,
        ),
        track_count >= MIN_EDITORIAL_TRACKS ==> r == Ok::<(usize, usize), EditorialError>(
            (
                playlist_count_for(track_count as nat) as usize,
                tracks_per_playlist_for(track_count as nat) as usize,
            ),
        ),
{
    if track_count < MIN_EDITORIAL_TRACKS {
        return Err(EditorialError::NotEnoughTracks);
    }
    let num: usize = if track_count < 15 {
        2
    } else if track_count < 50 {
        4
    } else {
        6
    };
    let share = track_count / num;
    let per: usize = if share < 5 {
        5
    } else if share > 25 {
        25
    } else {
        share
    };
    Ok((num, per))
}

/// The opening of the curator's instructions.
pub const PROMPT_HEAD: &'static str = "You are a music curator for a streaming platform. Create exactly ";

/// Between the playlist count and the size range.
pub const PROMPT_COUNT_TAIL: &'static str = " themed playlists from the available tracks.\n\nRules:\n- Each playlist should have ";

/// The naming rules of a run asked by an administrator.
pub const PROMPT_NAMING_FRENCH: &'static str = " tracks\n- Each playlist needs a creative French name (e.g. \"Nuit Électrique\", \"Voyage Acoustique\")\n- Each playlist needs a short French description (1-2 sentences)\n";

/// The naming rules of a scheduled run.
pub const PROMPT_NAMING: &'static str = " tracks\n- Each playlist needs a creative name\n- Each playlist needs a short description (1-2 sentences)\n";

/// The rest of the instructions: grouping, and the answer's format.
pub const PROMPT_TAIL: &'static str = "- Group tracks by mood, genre, energy level, or theme\n- A track can appear in multiple playlists\n- Use ONLY track IDs from the provided list\n\nRespond ONLY with valid JSON in this exact format:\n[\n  {\n    \"name\": \"Playlist Name\",\n    \"description\": \"Short description\",\n    \"track_ids\": [\"uuid1\", \"uuid2\", ...]\n  }\n]";

/// The curator's instructions for `num` playlists of `per` to `per + 5`
/// tracks, with French names when `french`.
pub open spec fn prompt_text(num: nat, per: nat, french: bool) -> Seq<char> {
    PROMPT_HEAD@ + dec(num) + PROMPT_COUNT_TAIL@ + dec(per) + " to "@ + dec(per + 5) + (if french {
        PROMPT_NAMING_FRENCH@
    } else {
        PROMPT_NAMING@
    }) + PROMPT_TAIL@
}

/// The system prompt of a run (see `prompt_text`).
pub fn system_prompt(num: usize, per: usize, french: bool) -> (p: String)
    requires
        per + 5 <= usize::MAX,
    ensures
        p@ == prompt_text(num as nat, per as nat, french),
{
    let mut v: Vec<char> = Vec::new();
    push_str(&mut v, PROMPT_HEAD);
    push_decimal(&mut v, num as u64);
    push_str(&mut v, PROMPT_COUNT_TAIL);
    push_decimal(&mut v, per as u64);
    push_str(&mut v, " to ");
    push_decimal(&mut v, (per + 5) as u64);
    if french {
        push_str(&mut v, PROMPT_NAMING_FRENCH);
    } else {
        push_str(&mut v, PROMPT_NAMING);
    }
    push_str(&mut v, PROMPT_TAIL);
    string_of(&v)
}

/// The user message: the available tracks, as JSON text.
pub fn user_prompt(track_json: &str) -> (p: String)
    ensures
        p@ == "Here are the available tracks:\n"@ + track_json@,
{
    let mut v: Vec<char> = Vec::new();
    push_str(&mut v, "Here are the available tracks:\n");
    push_str(&mut v, track_json);
    string_of(&v)
}

// ─── The answer ────────────────────────────────────────────────────────

/// `s` without every leading copy of `p` (`str::trim_start_matches`).
pub open spec fn strip_leading(s: Seq<char>, p: Seq<char>) -> Seq<char>
    decreases s.len(),
{
    if p.len() > 0 && is_prefix(p, s) {
        strip_leading(s.skip(p.len() as int), p)
    } else {
        s
    }
}

/// `s` without every trailing copy of `p` (`str::trim_end_matches`).
pub open spec fn strip_trailing(s: Seq<char>, p: Seq<char>) -> Seq<char>
    decreases s.len(),
{
    if p.len() > 0 && is_suffix(p, s) {
        strip_trailing(s.take(s.len() - p.len()), p)
    } else {
        s
    }
}

/// The JSON of an answer's content: trimmed, without Markdown code fences.
pub open spec fn clean_content(content: Seq<char>) -> Seq<char> {
    trim(strip_trailing(strip_leading(strip_leading(trim(content), "```json"@), "```"@), "```"@))
}

fn strip_leading_chars(s: &Vec<char>, p: &Vec<char>) -> (r: Vec<char>)
    ensures
        r@ == strip_leading(s@, p@),
{
    let mut i: usize = 0;
    proof {
        assert(s@.skip(0) =~= s@);
    }
    if p.len() > 0 {
        while i <= s.len() && p.len() <= s.len() - i && matches_at(s, p, i)
            invariant
                p@.len() > 0,
                i <= s@.len(),
                strip_leading(s@, p@) == strip_leading(s@.skip(i as int), p@),
            decreases s.len() - i,
        {
            proof {
                let t = s@.skip(i as int);
                assert(t.subrange(0, p@.len() as int) =~= s@.subrange(i as int, i + p@.len()));
                assert(t.skip(p@.len() as int) =~= s@.skip(i + p@.len()));
            }
            i = i + p.len();
        }
        proof {
            let t = s@.skip(i as int);
            if is_prefix(p@, t) {
                assert(t.subrange(0, p@.len() as int) =~= s@.subrange(i as int, i + p@.len()));
            }
        }
    } else {
        proof {
            assert(s@.skip(0) =~= s@);
        }
    }
    proof {
        assert(p@.len() == 0 ==> strip_leading(s@, p@) == s@);
    }
    let mut r: Vec<char> = Vec::new();
    let mut k: usize = i;
    while k < s.len()
        invariant
            i <= k <= s@.len(),
            r@ == s@.subrange(i as int, k as int),
        decreases s.len() - k,
    {
        r.push(s[k]);
        proof {
            assert(s@.subrange(i as int, k + 1) =~= s@.subrange(i as int, k as int).push(s@[k as int]));
        }
        k = k + 1;
    }
    proof {
        assert(s@.subrange(i as int, s@.len() as int) =~= s@.skip(i as int));
    }
    r
}

fn strip_trailing_chars(s: &Vec<char>, p: &Vec<char>) -> (r: Vec<char>)
    ensures
        r@ == strip_trailing(s@, p@),
{
    let mut n: usize = s.len();
    proof {
        assert(s@.take(n as int) =~= s@);
    }
    if p.len() > 0 {
        while p.len() <= n && matches_at(s, p, n - p.len())
            invariant
                p@.len() > 0,
                n <= s@.len(),
                strip_trailing(s@, p@) == strip_trailing(s@.take(n as int), p@),
            decreases n,
        {
            proof {
                let t = s@.take(n as int);
                assert(t.subrange(t.len() - p@.len(), t.len() as int) =~= s@.subrange(
                    n - p@.len(),
                    n as int,
                ));
                assert(t.take(t.len() - p@.len()) =~= s@.take(n - p@.len()));
            }
            n = n - p.len();
        }
        proof {
            let t = s@.take(n as int);
            if is_suffix(p@, t) {
                assert(t.subrange(t.len() - p@.len(), t.len() as int) =~= s@.subrange(
                    n - p@.len(),
                    n as int,
                ));
            }
        }
    }
    let mut r: Vec<char> = Vec::new();
    let mut k: usize = 0;
    while k < n
        invariant
            k <= n <= s@.len(),
            r@ == s@.take(k as int),
        decreases n - k,
    {
        r.push(s[k]);
        proof {
            assert(s@.take(k + 1) =~= s@.take(k as int).push(s@[k as int]));
        }
        k = k + 1;
    }
    r
}

/// The JSON text of an answer (see `clean_content`); an answer without
/// content counts as an empty list, `[]`.
pub fn clean_ai_content(content: Option<&str>) -> (j: String)
    ensures
        j@ == clean_content(
            match content {
                Some(c) => c@,
                None => "[]"@,
            },
        ),
{
    let c = match content {
        Some(c) => c,
        None => "[]",
    };
    let v = chars_of(c);
    let t = trim_chars(&v);
    let fence_json = chars_of("```json");
    let fence = chars_of("```");
    let a = strip_leading_chars(&t, &fence_json);
    let b = strip_leading_chars(&a, &fence);
    let d = strip_trailing_chars(&b, &fence);
    let e = trim_chars(&d);
    string_of(&e)
}

/// A playlist as the service proposes it.
#[derive(Debug, Clone)]
pub struct AiPlaylist {
    pub name: String,
    pub description: String,
    pub track_ids: Vec<String>,
}

/// A track of the instance: its ID and album.
#[derive(Debug, Clone, Copy)]
pub struct EditorialTrack {
    pub id: u128,
    pub album_id: Option<u128>,
}

/// An album of the instance: its ID and stored cover.
#[derive(Debug, Clone)]
pub struct AlbumCover {
    pub id: u128,
    pub cover_url: Option<String>,
}

/// A playlist to create.
#[derive(Debug, Clone)]
pub struct PlannedPlaylist {
    pub name: String,
    pub description: String,
    pub track_ids: Vec<u128>,
    pub cover_url: Option<String>,
}

/// The first track whose ID, as text, is `text`.
pub open spec fn track_with_text(tracks: Seq<EditorialTrack>, text: Seq<char>) -> Option<int>
    decreases tracks.len(),
{
    if tracks.len() == 0 {
        None
    } else if uuid_text(tracks[0].id) == text {
        Some(0)
    } else {
        match track_with_text(tracks.drop_first(), text) {
            Some(k) => Some(k + 1),
            None => None,
        }
    }
}

/// The tracks named by `ids` that exist, in order: an ID that is no
/// track's is left out.
pub open spec fn matched_ids(ids: Seq<String>, tracks: Seq<EditorialTrack>) -> Seq<u128>
    decreases ids.len(),
{
    if ids.len() == 0 {
        seq![]
    } else {
        let prev = matched_ids(ids.drop_last(), tracks);
        match track_with_text(tracks, ids.last()@) {
            Some(k) => prev.push(tracks[k].id),
            None => prev,
        }
    }
}

/// The first track with this ID.
pub open spec fn track_with_id(tracks: Seq<EditorialTrack>, id: u128) -> Option<int>
    decreases tracks.len(),
{
    if tracks.len() == 0 {
        None
    } else if tracks[0].id == id {
        Some(0)
    } else {
        match track_with_id(tracks.drop_first(), id) {
            Some(k) => Some(k + 1),
            None => None,
        }
    }
}

/// The last album with this ID (a map built from the list keeps the last).
pub open spec fn album_with_id(albums: Seq<AlbumCover>, id: u128) -> Option<int>
    decreases albums.len(),
{
    if albums.len() == 0 {
        None
    } else if albums.last().id == id {
        Some(albums.len() - 1)
    } else {
        album_with_id(albums.drop_last(), id)
    }
}

/// The cover of a playlist whose first track is `first`: that track's
/// album's cover, made loadable.
pub open spec fn cover_for(first: u128, tracks: Seq<EditorialTrack>, albums: Seq<AlbumCover>) -> Option<Seq<char>> {
    match track_with_id(tracks, first) {
        Some(k) => match tracks[k].album_id {
            Some(aid) => match album_with_id(albums, aid) {
                Some(j) => match albums[j].cover_url {
                    Some(u) => Some(public_cover(u@)),
                    None => None,
                },
                None => None,
            },
            None => None,
        },
        None => None,
    }
}

/// The playlists to create from the proposals: each proposal with the
/// tracks it names that exist, left out when it names none; as
/// (name, description, tracks, cover).
pub open spec fn planned(ai: Seq<AiPlaylist>, tracks: Seq<EditorialTrack>, albums: Seq<AlbumCover>) -> Seq<(Seq<char>, Seq<char>, Seq<u128>, Option<Seq<char>>)>
    decreases ai.len(),
{
    if ai.len() == 0 {
        seq![]
    } else {
        let prev = planned(ai.drop_last(), tracks, albums);
        let p = ai.last();
        let ids = matched_ids(p.track_ids@, tracks);
        if ids.len() == 0 {
            prev
        } else {
            prev.push((p.name@, p.description@, ids, cover_for(ids[0], tracks, albums)))
        }
    }
}

/// Whether a planned playlist's views are `spec`.
pub open spec fn plans_as(p: PlannedPlaylist, spec: (Seq<char>, Seq<char>, Seq<u128>, Option<Seq<char>>)) -> bool {
    &&& p.name@ == spec.0
    &&& p.description@ == spec.1
    &&& p.track_ids@ == spec.2
    &&& opt_string_view(&p.cover_url) == spec.3
}

fn find_track_text(tracks: &Vec<EditorialTrack>, text: &str) -> (r: Option<usize>)
    ensures
        r matches Some(k) ==> k < tracks@.len(),
        match track_with_text(tracks@, text@) {
            Some(k) => r matches Some(j) && j as int == k,
            None => r is None,
        },
{
    let mut i: usize = 0;
    proof {
        assert(tracks@.skip(0) =~= tracks@);
    }
    while i < tracks.len()
        invariant
            i <= tracks@.len(),
            track_with_text(tracks@, text@) == match track_with_text(tracks@.skip(i as int), text@) {
                Some(k) => Some(k + i),
                None => None::<int>,
            },
        decreases tracks.len() - i,
    {
        proof {
            assert(tracks@.skip(i as int).drop_first() =~= tracks@.skip(i + 1));
        }
        let s = uuid_string(tracks[i].id);
        if crate::text::str_eq(s.as_str(), text) {
            return Some(i);
        }
        i = i + 1;
    }
    None
}

fn find_track_id(tracks: &Vec<EditorialTrack>, id: u128) -> (r: Option<usize>)
    ensures
        r matches Some(k) ==> k < tracks@.len(),
        match track_with_id(tracks@, id) {
            Some(k) => r matches Some(j) && j as int == k,
            None => r is None,
        },
{
    let mut i: usize = 0;
    proof {
        assert(tracks@.skip(0) =~= tracks@);
    }
    while i < tracks.len()
        invariant
            i <= tracks@.len(),
            track_with_id(tracks@, id) == match track_with_id(tracks@.skip(i as int), id) {
                Some(k) => Some(k + i),
                None => None::<int>,
            },
        decreases tracks.len() - i,
    {
        proof {
            assert(tracks@.skip(i as int).drop_first() =~= tracks@.skip(i + 1));
        }
        if tracks[i].id == id {
            return Some(i);
        }
        i = i + 1;
    }
    None
}

fn find_album(albums: &Vec<AlbumCover>, id: u128) -> (r: Option<usize>)
    ensures
        r matches Some(k) ==> k < albums@.len(),
        match album_with_id(albums@, id) {
            Some(k) => r matches Some(j) && j as int == k,
            None => r is None,
        },
{
    let mut n: usize = albums.len();
    proof {
        assert(albums@.take(n as int) =~= albums@);
    }
    while n > 0
        invariant
            n <= albums@.len(),
            album_with_id(albums@, id) == album_with_id(albums@.take(n as int), id),
        decreases n,
    {
        proof {
            assert(albums@.take(n as int).drop_last() =~= albums@.take(n - 1));
        }
        if albums[n - 1].id == id {
            return Some(n - 1);
        }
        n = n - 1;
    }
    None
}

fn playlist_cover(first: u128, tracks: &Vec<EditorialTrack>, albums: &Vec<AlbumCover>) -> (c: Option<String>)
    ensures
        opt_string_view(&c) == cover_for(first, tracks@, albums@),
{
    match find_track_id(tracks, first) {
        Some(k) => match tracks[k].album_id {
            Some(aid) => match find_album(albums, aid) {
                Some(j) => match &albums[j].cover_url {
                    Some(u) => Some(public_cover_url(u.as_str())),
                    None => None,
                },
                None => None,
            },
            None => None,
        },
        None => None,
    }
}

fn playlist_tracks(ids: &Vec<String>, tracks: &Vec<EditorialTrack>) -> (r: Vec<u128>)
    ensures
        r@ == matched_ids(ids@, tracks@),
{
    let mut r: Vec<u128> = Vec::new();
    let mut i: usize = 0;
    while i < ids.len()
        invariant
            i <= ids@.len(),
            r@ == matched_ids(ids@.take(i as int), tracks@),
        decreases ids.len() - i,
    {
        proof {
            assert(ids@.take(i + 1).drop_last() =~= ids@.take(i as int));
            assert(ids@.take(i + 1).last() == ids@[i as int]);
        }
        match find_track_text(tracks, ids[i].as_str()) {
            Some(k) => r.push(tracks[k].id),
            None => {},
        }
        i = i + 1;
    }
    proof {
        assert(ids@.take(ids@.len() as int) =~= ids@);
    }
    r
}

/// Turns the service's proposals into the playlists to create (see
/// `planned`): only tracks that exist are kept, a proposal left without
/// tracks is dropped, and each playlist takes its first track's album cover.
pub fn plan_playlists(ai: Vec<AiPlaylist>, tracks: &Vec<EditorialTrack>, albums: &Vec<AlbumCover>) -> (r: Vec<PlannedPlaylist>)
    ensures
        r@.len() == planned(ai@, tracks@, albums@).len(),
        forall|i: int| 0 <= i < r@.len() ==> plans_as(#[trigger] r@[i], planned(ai@, tracks@, albums@)[i]),
{
    let mut r: Vec<PlannedPlaylist> = Vec::new();
    let mut i: usize = 0;
    let ghost proposals = ai@;
    let count = ai.len();
    assert(proposals.len() == count);
    let mut ai = ai;
    let mut rest: Vec<AiPlaylist> = Vec::new();
    // Take the proposals in order.
    while ai.len() > 0
        invariant
            ai@ + rest@.reverse() == proposals,
            proposals.len() <= usize::MAX,
        decreases ai.len(),
    {
        let p = ai.pop().unwrap();
        proof {
            assert(ai@ + rest@.push(p).reverse() =~= proposals) by {
                assert(rest@.push(p).reverse() =~= seq![p] + rest@.reverse());
            }
        }
        rest.push(p);
    }
    proof {
        assert(rest@.reverse() =~= proposals);
    }
    while rest.len() > 0
        invariant
            i + rest@.len() == proposals.len(),
            proposals.len() <= usize::MAX,
            rest@.reverse() == proposals.skip(i as int),
            r@.len() == planned(proposals.take(i as int), tracks@, albums@).len(),
            forall|k: int| 0 <= k < r@.len() ==> plans_as(#[trigger] r@[k], planned(proposals.take(i as int), tracks@, albums@)[k]),
        decreases rest.len(),
    {
        let ghost before = rest@;
        let p = rest.pop().unwrap();
        proof {
            assert(before.reverse()[0] == p);
            assert(proposals.skip(i as int)[0] == p);
            assert(proposals[i as int] == p);
            assert(rest@.reverse() =~= proposals.skip(i + 1)) by {
                assert(before.reverse().drop_first() =~= rest@.reverse());
                assert(proposals.skip(i as int).drop_first() =~= proposals.skip(i + 1));
            }
            assert(proposals.take(i + 1).drop_last() =~= proposals.take(i as int));
            assert(proposals.take(i + 1).last() == p);
        }
        let ids = playlist_tracks(&p.track_ids, tracks);
        if ids.len() > 0 {
            let cover = playlist_cover(ids[0], tracks, albums);
            let AiPlaylist { name, description, track_ids: _ } = p;
            r.push(PlannedPlaylist { name, description, track_ids: ids, cover_url: cover });
        }
        i = i + 1;
    }
    proof {
        assert(proposals.skip(i as int).len() == 0);
        assert(proposals.take(i as int) =~= proposals);
    }
    r
}

/// The result of a run that created `created` playlists.
pub fn generate_result(created: usize) -> (g: GenerateResult)
    ensures
        g.playlists_created == created,
        g.message@ == dec(created as nat) + " playlists éditoriales créées avec succès"@,
{
    let mut v: Vec<char> = Vec::new();
    push_decimal(&mut v, created as u64);
    push_str(&mut v, " playlists éditoriales créées avec succès");
    GenerateResult { playlists_created: created, message: string_of(&v) }
}

// ─── Listing ───────────────────────────────────────────────────────────

/// The first index of `id` in `found`.
pub open spec fn first_index(found: Seq<u128>, id: u128) -> Option<int>
    decreases found.len(),
{
    if found.len() == 0 {
        None
    } else if found[0] == id {
        Some(0)
    } else {
        match first_index(found.drop_first(), id) {
            Some(k) => Some(k + 1),
            None => None,
        }
    }
}

/// For the playlist's track IDs in position order, the indexes of the
/// fetched tracks that have them; IDs no fetched track has are left out.
pub open spec fn position_order(positions: Seq<u128>, found: Seq<u128>) -> Seq<int>
    decreases positions.len(),
{
    if positions.len() == 0 {
        seq![]
    } else {
        let prev = position_order(positions.drop_last(), found);
        match first_index(found, positions.last()) {
            Some(k) => prev.push(k),
            None => prev,
        }
    }
}

fn index_of(found: &Vec<u128>, id: u128) -> (r: Option<usize>)
    ensures
        r matches Some(k) ==> k < found@.len(),
        match first_index(found@, id) {
            Some(k) => r matches Some(j) && j as int == k,
            None => r is None,
        },
{
    let mut i: usize = 0;
    proof {
        assert(found@.skip(0) =~= found@);
    }
    while i < found.len()
        invariant
            i <= found@.len(),
            first_index(found@, id) == match first_index(found@.skip(i as int), id) {
                Some(k) => Some(k + i),
                None => None::<int>,
            },
        decreases found.len() - i,
    {
        proof {
            assert(found@.skip(i as int).drop_first() =~= found@.skip(i + 1));
        }
        if found[i] == id {
            return Some(i);
        }
        i = i + 1;
    }
    None
}

/// Orders fetched tracks by their positions in a playlist (see
/// `position_order`): the result gives indexes into `found`.
pub fn order_by_position(positions: &Vec<u128>, found: &Vec<u128>) -> (r: Vec<usize>)
    ensures
        r@.len() == position_order(positions@, found@).len(),
        forall|i: int| 0 <= i < r@.len() ==> r@[i] as int == position_order(positions@, found@)[i],
{
    let mut r: Vec<usize> = Vec::new();
    let mut i: usize = 0;
    while i < positions.len()
        invariant
            i <= positions@.len(),
            r@.len() == position_order(positions@.take(i as int), found@).len(),
            forall|k: int| 0 <= k < r@.len() ==> r@[k] as int == position_order(positions@.take(i as int), found@)[k],
        decreases positions.len() - i,
    {
        proof {
            assert(positions@.take(i + 1).drop_last() =~= positions@.take(i as int));
            assert(positions@.take(i + 1).last() == positions@[i as int]);
        }
        match index_of(found, positions[i]) {
            Some(k) => r.push(k),
            None => {},
        }
        i = i + 1;
    }
    proof {
        assert(positions@.take(positions@.len() as int) =~= positions@);
    }
    r
}

// ─── Schedule ──────────────────────────────────────────────────────────

/// Whether the playlists are due: never generated (and a key is set), a
/// last run that cannot be read, or one at least seven days ago.
/// `last` is `None` when never generated, else the whole days since the
/// last run (`None` when its time cannot be read).
pub open spec fn due(ai_configured: bool, last: Option<Option<i64>>) -> bool {
    match last {
        None => ai_configured,
        Some(None) => true,
        Some(Some(days)) => days >= REGENERATION_DAYS,
    }
}

/// Whether the status reports the playlists as due (see `due`).
pub fn needs_regeneration(ai_configured: bool, last: Option<Option<i64>>) -> (b: bool)
    ensures
        b == due(ai_configured, last),
{
    match last {
        None => ai_configured,
        Some(None) => true,
        Some(Some(days)) => days >= REGENERATION_DAYS,
    }
}

/// Whether the scheduled run generates: a key is set and not empty, and the
/// playlists were never generated, or their last run cannot be read, or it
/// is Saturday and six days or more passed.
pub open spec fn scheduled_due(key_set: bool, last: Option<Option<i64>>, weekday: u32) -> bool {
    key_set && match last {
        None => true,
        Some(None) => true,
        Some(Some(days)) => weekday == SATURDAY && days >= SCHEDULED_REGENERATION_DAYS,
    }
}

/// Whether the scheduled run generates now (see `scheduled_due`).
pub fn should_auto_generate(api_key: &Option<String>, last: Option<Option<i64>>, weekday: u32) -> (b: bool)
    ensures
        b == scheduled_due(key_configured(opt_string_view(api_key)), last, weekday),
{
    if !ai_configured(api_key) {
        return false;
    }
    match last {
        None => true,
        Some(None) => true,
        Some(Some(days)) => weekday == SATURDAY && days >= SCHEDULED_REGENERATION_DAYS,
    }
}

// ─── Laws ──────────────────────────────────────────────────────────────

proof fn lemma_matched_ids_exist(ids: Seq<String>, tracks: Seq<EditorialTrack>)
    ensures
        forall|i: int| 0 <= i < matched_ids(ids, tracks).len() ==> exists|k: int| 0 <= k < tracks.len() && tracks[k].id == #[trigger] matched_ids(ids, tracks)[i],
    decreases ids.len(),
{
    if ids.len() > 0 {
        let prev = matched_ids(ids.drop_last(), tracks);
        let cur = matched_ids(ids, tracks);
        lemma_matched_ids_exist(ids.drop_last(), tracks);
        lemma_track_with_text_in_range(tracks, ids.last()@);
        assert forall|i: int| 0 <= i < cur.len() implies exists|k: int| 0 <= k < tracks.len() && tracks[k].id == #[trigger] cur[i] by {
            if i < prev.len() {
                assert(cur[i] == prev[i]);
                let k = choose|k: int| 0 <= k < tracks.len() && tracks[k].id == prev[i];
                assert(tracks[k].id == cur[i]);
            } else {
                let k = track_with_text(tracks, ids.last()@)->0;
                assert(tracks[k].id == cur[i]);
            }
        }
    }
}

proof fn lemma_track_with_text_in_range(tracks: Seq<EditorialTrack>, text: Seq<char>)
    ensures
        track_with_text(tracks, text) matches Some(k) ==> 0 <= k < tracks.len(),
    decreases tracks.len(),
{
    if tracks.len() > 0 {
        lemma_track_with_text_in_range(tracks.drop_first(), text);
    }
}

/// Every playlist planned from the service's proposals has at least one
/// track, and only tracks of the instance.
pub proof fn law_planned_playlists_hold_existing_tracks(ai: Seq<AiPlaylist>, tracks: Seq<EditorialTrack>, albums: Seq<AlbumCover>)
    ensures
        forall|i: int| 0 <= i < planned(ai, tracks, albums).len() ==> (#[trigger] planned(ai, tracks, albums)[i]).2.len() > 0,
        forall|i: int, j: int| 0 <= i < planned(ai, tracks, albums).len() && 0 <= j < planned(ai, tracks, albums)[i].2.len()
            ==> exists|k: int| 0 <= k < tracks.len() && tracks[k].id == #[trigger] planned(ai, tracks, albums)[i].2[j],
    decreases ai.len(),
{
    if ai.len() > 0 {
        let prev = planned(ai.drop_last(), tracks, albums);
        let cur = planned(ai, tracks, albums);
        let ids = matched_ids(ai.last().track_ids@, tracks);
        law_planned_playlists_hold_existing_tracks(ai.drop_last(), tracks, albums);
        lemma_matched_ids_exist(ai.last().track_ids@, tracks);
        assert forall|i: int| 0 <= i < cur.len() implies (#[trigger] cur[i]).2.len() > 0 by {
            if i < prev.len() {
                assert(cur[i] == prev[i]);
            }
        }
        assert forall|i: int, j: int| 0 <= i < cur.len() && 0 <= j < cur[i].2.len() implies exists|k: int| 0 <= k < tracks.len() && tracks[k].id == #[trigger] cur[i].2[j] by {
            if i < prev.len() {
                assert(cur[i] == prev[i]);
                let k = choose|k: int| 0 <= k < tracks.len() && tracks[k].id == prev[i].2[j];
                assert(tracks[k].id == cur[i].2[j]);
            } else {
                assert(cur[i].2 == ids);
                let k = choose|k: int| 0 <= k < tracks.len() && tracks[k].id == ids[j];
                assert(tracks[k].id == cur[i].2[j]);
            }
        }
    }
}

} // verus!
