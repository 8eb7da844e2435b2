//! The user library: playlist and track edits, playlist positions, the best
//! copy of a track, ownership checks, favourite lookups, and the paging of
//! the explore list.
use vstd::prelude::*;

use crate::host::{parse_uuid, parsed_uuid};
use crate::netguard::opt_view;
use crate::pagination::{page_number, page_of, page_size, page_size_of};
use crate::text::{chars_of, string_of, trim, trim_chars};

verus! {

/// Parameters of stream requests (the format is accepted and ignored).
#[derive(Debug, Clone)]
pub struct StreamParams {
    pub _format: Option<String>,
}

/// A new playlist.
#[derive(Debug, Clone)]
pub struct CreatePlaylistRequest {
    pub name: String,
    pub description: Option<String>,
    pub is_public: Option<bool>,
}

/// Changes to a playlist; absent fields are kept.
#[derive(Debug, Clone)]
pub struct UpdatePlaylistRequest {
    pub name: Option<String>,
    pub description: Option<String>,
    pub is_public: Option<bool>,
    pub cover_url: Option<String>,
}

/// The editable fields of a playlist.
#[derive(Debug, Clone)]
pub struct PlaylistFields {
    pub name: String,
    pub description: Option<String>,
    pub is_public: bool,
    pub cover_url: Option<String>,
}

/// The view of playlist fields.
pub open spec fn fields_view(f: PlaylistFields) -> (Seq<char>, Option<Seq<char>>, bool, Option<Seq<char>>) {
    (f.name@, opt_view(f.description), f.is_public, opt_view(f.cover_url))
}

/// The fields after an update: each present field replaces the old one.
pub open spec fn updated_view(
    f: (Seq<char>, Option<Seq<char>>, bool, Option<Seq<char>>),
    req: UpdatePlaylistRequest,
) -> (Seq<char>, Option<Seq<char>>, bool, Option<Seq<char>>) {
    (
        match req.name {
            Some(n) => n@,
            None => f.0,
        },
        match req.description {
            Some(d) => Some(d@),
            None => f.1,
        },
        match req.is_public {
            Some(p) => p,
            None => f.2,
        },
        match req.cover_url {
            Some(c) => Some(c@),
            None => f.3,
        },
    )
}

fn copy_opt(s: &Option<String>) -> (r: Option<String>)
    ensures
        opt_view(r) == opt_view(*s),
{
    match s {
        Some(x) => Some(string_of(&chars_of(x.as_str()))),
        None => None,
    }
}

/// The fields of a new playlist: private unless asked otherwise, no cover.
pub fn new_playlist_fields(req: &CreatePlaylistRequest) -> (f: PlaylistFields)
    ensures
        f.name@ == req.name@,
        opt_view(f.description) == opt_view(req.description),
        f.is_public == match req.is_public {
            Some(p) => p,
            None => false,
        },
        f.cover_url is None,
{
    PlaylistFields {
        name: string_of(&chars_of(req.name.as_str())),
        description: copy_opt(&req.description),
        is_public: match req.is_public {
            Some(p) => p,
            None => false,
        },
        cover_url: None,
    }
}

/// Applies an update to a playlist's fields.
pub fn apply_playlist_update(f: PlaylistFields, req: &UpdatePlaylistRequest) -> (g: PlaylistFields)
    ensures
        fields_view(g) == updated_view(fields_view(f), *req),
{
    PlaylistFields {
        name: match &req.name {
            Some(n) => string_of(&chars_of(n.as_str())),
            None => f.name,
        },
        description: match &req.description {
            Some(d) => Some(string_of(&chars_of(d.as_str()))),
            None => f.description,
        },
        is_public: match req.is_public {
            Some(p) => p,
            None => f.is_public,
        },
        cover_url: match &req.cover_url {
            Some(c) => Some(string_of(&chars_of(c.as_str()))),
            None => f.cover_url,
        },
    }
}

/// Applying the same update twice changes nothing more than applying it
/// once, and an update without fields changes nothing.
pub proof fn law_playlist_update_idempotent(
    f: (Seq<char>, Option<Seq<char>>, bool, Option<Seq<char>>),
    req: UpdatePlaylistRequest,
)
    ensures
        updated_view(updated_view(f, req), req) == updated_view(f, req),
        (req.name is None && req.description is None && req.is_public is None && req.cover_url is None)
            ==> updated_view(f, req) == f,
{
}

/// The highest of some playlist positions, or -1 when there are none.
pub open spec fn max_position(positions: Seq<i32>) -> int
    decreases positions.len(),
{
    if positions.len() == 0 {
        -1
    } else {
        let m = max_position(positions.drop_last());
        if positions.len() == 1 || positions.last() > m {
            positions.last() as int
        } else {
            m
        }
    }
}

proof fn lemma_max_position(positions: Seq<i32>)
    ensures
        forall|i: int| 0 <= i < positions.len() ==> positions[i] <= max_position(positions),
        positions.len() == 0 ==> max_position(positions) == -1,
        positions.len() > 0 ==> exists|i: int| 0 <= i < positions.len() && positions[i] == max_position(positions),
    decreases positions.len(),
{
    if positions.len() > 0 {
        let p = positions.drop_last();
        lemma_max_position(p);
        assert forall|i: int| 0 <= i < positions.len() implies positions[i] <= max_position(positions) by {
            if i < p.len() {
                assert(positions[i] == p[i]);
            }
        }
        if p.len() == 0 || positions.last() > max_position(p) {
            assert(positions[positions.len() - 1] == max_position(positions));
        } else {
            let k = choose|k: int| 0 <= k < p.len() && p[k] == max_position(p);
            assert(positions[k] == max_position(positions));
        }
    }
}

/// The position of a track added to a playlist: the one asked for, else
/// right after the last track (0 in an empty playlist).  A track added
/// without a position goes after every track already there.
pub fn playlist_position(positions: &Vec<i32>, asked: Option<i32>) -> (p: i32)
    requires
        asked is None ==> forall|i: int| 0 <= i < positions@.len() ==> positions@[i] < i32::MAX,
    ensures
        p == match asked {
            Some(a) => a as int,
            None => max_position(positions@) + 1,
        },
        asked is None ==> forall|i: int| 0 <= i < positions@.len() ==> positions@[i] < p,
{
    match asked {
        Some(a) => a,
        None => {
            let mut m: i32 = -1;
            let mut i: usize = 0;
            while i < positions.len()
                invariant
                    i <= positions@.len(),
                    m == max_position(positions@.take(i as int)),
                    forall|j: int| 0 <= j < positions@.len() ==> positions@[j] < i32::MAX,
                decreases positions.len() - i,
            {
                proof {
                    assert(positions@.take(i + 1).drop_last() =~= positions@.take(i as int));
                }
                if i == 0 || positions[i] > m {
                    m = positions[i];
                }
                i = i + 1;
            }
            proof {
                assert(positions@.take(i as int) =~= positions@);
                lemma_max_position(positions@);
                if positions@.len() > 0 {
                    let k = choose|k: int| 0 <= k < positions@.len() && positions@[k] == max_position(positions@);
                    assert(positions@[k] < i32::MAX);
                }
            }
            m + 1
        },
    }
}

// ─── Best copy of a track ──────────────────────────────────────────────

/// The best copy among the local file (`local` bitrate, 0 when unknown) and
/// the available remote copies (bitrate, instance), in order: a copy
/// replaces the best so far only with a strictly higher bitrate.
pub open spec fn best_copy_of(local: int, remotes: Seq<(Option<i32>, String)>) -> (int, Seq<char>)
    decreases remotes.len(),
{
    if remotes.len() == 0 {
        (local, "local"@)
    } else {
        let b = best_copy_of(local, remotes.drop_last());
        let r = remotes.last();
        let rate: int = match r.0 {
            Some(x) => x as int,
            None => 0,
        };
        if rate > b.0 {
            (rate, r.1@)
        } else {
            b
        }
    }
}

/// The bitrate of a copy, 0 when unknown.
pub open spec fn rate_of(bitrate: Option<i32>) -> int {
    match bitrate {
        Some(x) => x as int,
        None => 0,
    }
}

proof fn lemma_best_copy(local: int, remotes: Seq<(Option<i32>, String)>)
    ensures
        best_copy_of(local, remotes).0 >= local,
        forall|i: int| 0 <= i < remotes.len() ==> rate_of(#[trigger] remotes[i].0) <= best_copy_of(local, remotes).0,
    decreases remotes.len(),
{
    if remotes.len() > 0 {
        let p = remotes.drop_last();
        lemma_best_copy(local, p);
        assert forall|i: int| 0 <= i < remotes.len() implies rate_of(#[trigger] remotes[i].0) <= best_copy_of(local, remotes).0 by {
            if i < p.len() {
                assert(remotes[i] == p[i]);
            }
        }
    }
}

/// The best available bitrate of a track and where it comes from
/// (`local`, or a remote copy's instance), when it is known (above 0).
/// The best bitrate is at least that of every copy.
pub fn best_copy(local_bitrate: Option<i32>, remotes: &Vec<(Option<i32>, String)>) -> (r: Option<(i32, String)>)
    ensures
        ({
            let b = best_copy_of(rate_of(local_bitrate), remotes@);
            match r {
                Some((rate, source)) => b.0 > 0 && rate == b.0 && source@ == b.1,
                None => b.0 <= 0,
            }
        }),
        r matches Some((rate, _)) ==> rate >= rate_of(local_bitrate) && forall|i: int|
            0 <= i < remotes@.len() ==> rate_of(#[trigger] remotes@[i].0) <= rate,
{
    let mut best: i32 = match local_bitrate {
        Some(x) => x,
        None => 0,
    };
    let mut source: Vec<char> = chars_of("local");
    let mut i: usize = 0;
    while i < remotes.len()
        invariant
            i <= remotes@.len(),
            (best as int, source@) == best_copy_of(rate_of(local_bitrate), remotes@.take(i as int)),
        decreases remotes.len() - i,
    {
        proof {
            assert(remotes@.take(i + 1).drop_last() =~= remotes@.take(i as int));
            assert(remotes@.take(i + 1).last() == remotes@[i as int]);
        }
        let rate: i32 = match remotes[i].0 {
            Some(x) => x,
            None => 0,
        };
        if rate > best {
            best = rate;
            source = chars_of(remotes[i].1.as_str());
        }
        i = i + 1;
    }
    proof {
        assert(remotes@.take(i as int) =~= remotes@);
        lemma_best_copy(rate_of(local_bitrate), remotes@);
    }
    if best > 0 {
        Some((best, string_of(&source)))
    } else {
        None
    }
}

/// Changes to a track; absent fields are kept.
#[derive(Debug, Clone)]
pub struct UpdateTrackRequest {
    pub title: Option<String>,
    pub genre: Option<String>,
    pub year: Option<i16>,
    pub track_number: Option<i16>,
    pub disc_number: Option<i16>,
}

/// The editable fields of a track.
#[derive(Debug, Clone)]
pub struct TrackFields {
    pub title: String,
    pub genre: Option<String>,
    pub year: Option<i16>,
    pub track_number: Option<i16>,
    pub disc_number: Option<i16>,
}

/// Applies an edit to a track's fields: each present field replaces the
/// old one.
pub fn apply_track_update(t: TrackFields, req: &UpdateTrackRequest) -> (u: TrackFields)
    ensures
        u.title@ == match req.title {
            Some(x) => x@,
            None => t.title@,
        },
        opt_view(u.genre) == match req.genre {
            Some(g) => Some(g@),
            None => opt_view(t.genre),
        },
        u.year == match req.year {
            Some(y) => Some(y),
            None => t.year,
        },
        u.track_number == match req.track_number {
            Some(n) => Some(n),
            None => t.track_number,
        },
        u.disc_number == match req.disc_number {
            Some(n) => Some(n),
            None => t.disc_number,
        },
{
    TrackFields {
        title: match &req.title {
            Some(x) => string_of(&chars_of(x.as_str())),
            None => t.title,
        },
        genre: match &req.genre {
            Some(g) => Some(string_of(&chars_of(g.as_str()))),
            None => t.genre,
        },
        year: match req.year {
            Some(y) => Some(y),
            None => t.year,
        },
        track_number: match req.track_number {
            Some(n) => Some(n),
            None => t.track_number,
        },
        disc_number: match req.disc_number {
            Some(n) => Some(n),
            None => t.disc_number,
        },
    }
}

/// Only the uploader of a track may edit or delete it; `verb` names the
/// refused act (`edit`, `delete`).
pub fn check_track_owner(uploaded_by: Option<u128>, user: u128, verb: &str) -> (r: Result<(), String>)
    ensures
        r is Ok <==> uploaded_by == Some(user),
        r matches Err(m) ==> m@ == "You can only "@ + verb@ + " your own tracks"@,
{
    match uploaded_by {
        Some(u) => if u == user {
            return Ok(());
        },
        None => {},
    }
    let mut v: Vec<char> = Vec::new();
    crate::text::push_str(&mut v, "You can only ");
    crate::text::push_str(&mut v, verb);
    crate::text::push_str(&mut v, " your own tracks");
    Err(string_of(&v))
}

// ─── Favourites ────────────────────────────────────────────────────────

/// Track IDs to look up among a user's favourites.
#[derive(Debug, Clone)]
pub struct CheckFavoritesParams {
    /// Comma-separated track IDs.
    pub track_ids: String,
}

/// The pieces of `s` between commas (what `str::split(',')` yields).
pub open spec fn comma_pieces(s: Seq<char>) -> Seq<Seq<char>>
    decreases s.len(),
{
    if s.len() == 0 {
        seq![seq![]]
    } else {
        let prev = comma_pieces(s.drop_last());
        if s.last() == ',' {
            prev.push(seq![])
        } else {
            prev.drop_last().push(prev.last().push(s.last()))
        }
    }
}

/// The IDs that parse among comma-separated, trimmed pieces, in order.
pub open spec fn parsed_ids(pieces: Seq<Seq<char>>) -> Seq<u128>
    decreases pieces.len(),
{
    if pieces.len() == 0 {
        seq![]
    } else {
        let prev = parsed_ids(pieces.drop_last());
        match parsed_uuid(trim(pieces.last())) {
            Some(id) => prev.push(id),
            None => prev,
        }
    }
}

proof fn lemma_comma_pieces_nonempty(s: Seq<char>)
    ensures
        comma_pieces(s).len() > 0,
    decreases s.len(),
{
    if s.len() > 0 {
        lemma_comma_pieces_nonempty(s.drop_last());
    }
}

fn add_piece(ids: &mut Vec<u128>, piece: &Vec<char>)
    ensures
        final(ids)@ == match parsed_uuid(trim(piece@)) {
            Some(id) => old(ids)@.push(id),
            None => old(ids)@,
        },
{
    let t = string_of(&trim_chars(piece));
    match parse_uuid(t.as_str()) {
        Some(id) => ids.push(id),
        None => {},
    }
}

impl CheckFavoritesParams {
    /// The track IDs asked about: each comma-separated piece, trimmed, that
    /// reads as a UUID; the others are ignored.
    pub fn ids(&self) -> (r: Vec<u128>)
        ensures
            r@ == parsed_ids(comma_pieces(self.track_ids@)),
    {
        let s = chars_of(self.track_ids.as_str());
        let mut ids: Vec<u128> = Vec::new();
        let mut cur: Vec<char> = Vec::new();
        let mut i: usize = 0;
        proof {
            assert(s@.take(0) =~= Seq::<char>::empty());
        }
        while i < s.len()
            invariant
                i <= s@.len(),
                s@ == self.track_ids@,
                comma_pieces(s@.take(i as int)).len() > 0,
                cur@ == comma_pieces(s@.take(i as int)).last(),
                ids@ == parsed_ids(comma_pieces(s@.take(i as int)).drop_last()),
            decreases s.len() - i,
        {
            let c = s[i];
            proof {
                assert(s@.take(i + 1).drop_last() =~= s@.take(i as int));
                assert(s@.take(i + 1).last() == c);
            }
            if c == ',' {
                add_piece(&mut ids, &cur);
                proof {
                    let p = comma_pieces(s@.take(i as int));
                    assert(p.drop_last().push(p.last()) =~= p);
                    assert(comma_pieces(s@.take(i + 1)).drop_last() =~= p);
                }
                cur = Vec::new();
            } else {
                cur.push(c);
                proof {
                    let p = comma_pieces(s@.take(i as int));
                    assert(comma_pieces(s@.take(i + 1)).drop_last() =~= p.drop_last());
                }
            }
            i = i + 1;
        }
        proof {
            assert(s@.take(s@.len() as int) =~= s@);
            let p = comma_pieces(s@);
            assert(p.drop_last().push(p.last()) =~= p);
        }
        add_piece(&mut ids, &cur);
        ids
    }
}

/// Paging of the explore list.
#[derive(Debug, Clone, Copy, PartialEq, Eq, Structural)]
pub struct ExploreParams {
    pub page: Option<u64>,
    pub per_page: Option<u64>,
}

impl ExploreParams {
    /// The page shown: `page` (default 1), at least 1.
    pub fn page(&self) -> (p: u64)
        ensures
            p == page_of(self.page),
    {
        page_number(self.page)
    }

    /// The page size: `per_page` (default 20), at most 100.
    pub fn per_page(&self) -> (n: u64)
        ensures
            n == page_size_of(self.per_page, 20, 100),
    {
        page_size(self.per_page, 20, 100)
    }
}

} // verus!
