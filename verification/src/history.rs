//! Listen history: how many recent listens a page shows, which listens are
//! kept (the latest of each track), and when the listener's taste is
//! recomputed.
use vstd::prelude::*;

verus! {

/// The recent listens a page shows: the asked count (default 6), at most 50.
pub open spec fn recent_limit_of(per_page: Option<u64>) -> u64 {
    match per_page {
        Some(n) => if n > 50 {
            50
        } else {
            n
        },
        None => 6,
    }
}

/// How many recent listens to show.
pub fn recent_limit(per_page: Option<u64>) -> (n: u64)
    ensures
        n == recent_limit_of(per_page),
        n <= 50,
{
    match per_page {
        Some(n) => if n > 50 {
            50
        } else {
            n
        },
        None => 6,
    }
}

/// How many listens to read, newest first, to find `limit` distinct tracks:
/// ten times the limit.
pub fn recent_fetch_size(limit: u64) -> (n: u64)
    requires
        10 * limit <= u64::MAX,
    ensures
        n == 10 * limit,
{
    limit * 10
}

/// The indexes of the listens that are the first (newest) of their track.
pub open spec fn fresh_indexes(track_ids: Seq<u128>) -> Seq<int>
    decreases track_ids.len(),
{
    if track_ids.len() == 0 {
        seq![]
    } else {
        let prev = fresh_indexes(track_ids.drop_last());
        if track_ids.drop_last().contains(track_ids.last()) {
            prev
        } else {
            prev.push(track_ids.len() - 1)
        }
    }
}

fn holds_id(v: &Vec<u128>, x: u128) -> (b: bool)
    ensures
        b == v@.contains(x),
{
    let mut i: usize = 0;
    while i < v.len()
        invariant
            i <= v@.len(),
            forall|j: int| 0 <= j < i ==> v@[j] != x,
        decreases v.len() - i,
    {
        if v[i] == x {
            return true;
        }
        i = i + 1;
    }
    false
}

/// The listens a page shows, given the track of each listen, newest first:
/// the newest listen of each track, at most `limit` of them, as indexes into
/// `track_ids`.
pub fn recent_listens(track_ids: &Vec<u128>, limit: u64) -> (r: Vec<usize>)
    ensures
        r@.len() == if fresh_indexes(track_ids@).len() < limit {
            fresh_indexes(track_ids@).len() as int
        } else {
            limit as int
        },
        forall|k: int| 0 <= k < r@.len() ==> r@[k] as int == fresh_indexes(track_ids@)[k],
{
    let mut seen: Vec<u128> = Vec::new();
    let mut fresh: Vec<usize> = Vec::new();
    let mut i: usize = 0;
    while i < track_ids.len()
        invariant
            i <= track_ids@.len(),
            forall|x: u128| seen@.contains(x) <==> track_ids@.take(i as int).contains(x),
            fresh@.len() == fresh_indexes(track_ids@.take(i as int)).len(),
            forall|k: int| 0 <= k < fresh@.len() ==> fresh@[k] as int == fresh_indexes(track_ids@.take(i as int))[k],
        decreases track_ids.len() - i,
    {
        let id = track_ids[i];
        let ghost pre = track_ids@.take(i as int);
        let ghost post = track_ids@.take(i + 1);
        proof {
            assert(post.drop_last() =~= pre);
            assert(post.last() == id);
        }
        let ghost old_seen = seen@;
        let found = holds_id(&seen, id);
        if !found {
            seen.push(id);
            fresh.push(i);
        }
        proof {
            assert forall|x: u128| seen@.contains(x) <==> post.contains(x) by {
                if post.contains(x) {
                    let q = choose|q: int| 0 <= q < post.len() && post[q] == x;
                    if q < pre.len() {
                        assert(pre[q] == x);
                        assert(pre.contains(x));
                    } else {
                        assert(x == id);
                        if !found {
                            assert(seen@[old_seen.len() as int] == x);
                        }
                    }
                }
                if pre.contains(x) {
                    let q = choose|q: int| 0 <= q < pre.len() && pre[q] == x;
                    assert(post[q] == x);
                }
                if seen@.contains(x) && !pre.contains(x) {
                    assert(!old_seen.contains(x));
                    let q = choose|q: int| 0 <= q < seen@.len() && seen@[q] == x;
                    assert(q == old_seen.len());
                    assert(x == id);
                    assert(post[i as int] == x);
                }
                if old_seen.contains(x) {
                    let q = choose|q: int| 0 <= q < old_seen.len() && old_seen[q] == x;
                    assert(seen@[q] == x);
                }
            }
        }
        i = i + 1;
    }
    proof {
        assert(track_ids@.take(track_ids@.len() as int) =~= track_ids@);
    }
    let mut r: Vec<usize> = Vec::new();
    let mut k: usize = 0;
    while k < fresh.len() && (k as u64) < limit
        invariant
            k <= fresh@.len(),
            k <= limit,
            r@.len() == k,
            forall|q: int| 0 <= q < k ==> r@[q] == fresh@[q],
        decreases fresh.len() - k,
    {
        r.push(fresh[k]);
        k = k + 1;
    }
    r
}

/// Whether a listen recomputes the listener's taste: every tenth listen.
pub fn taste_update_due(listen_count: u64) -> (b: bool)
    ensures
        b == (listen_count % 10 == 0),
{
    listen_count % 10 == 0
}

/// The listens kept are of distinct tracks, each one of the listens read.
pub proof fn law_recent_listens_distinct(track_ids: Seq<u128>)
    ensures
        forall|a: int, b: int| 0 <= a < b < fresh_indexes(track_ids).len() ==> track_ids[fresh_indexes(track_ids)[a]]
            != track_ids[fresh_indexes(track_ids)[b]],
        forall|a: int| 0 <= a < fresh_indexes(track_ids).len() ==> 0 <= #[trigger] fresh_indexes(track_ids)[a] < track_ids.len(),
    decreases track_ids.len(),
{
    if track_ids.len() > 0 {
        let pre = track_ids.drop_last();
        law_recent_listens_distinct(pre);
        let f = fresh_indexes(track_ids);
        let g = fresh_indexes(pre);
        assert forall|a: int| 0 <= a < g.len() implies track_ids[g[a]] == pre[g[a]] by {}
        if !pre.contains(track_ids.last()) {
            assert forall|a: int| 0 <= a < g.len() implies track_ids[g[a]] != track_ids.last() by {
                assert(pre[g[a]] == track_ids[g[a]]);
                if track_ids[g[a]] == track_ids.last() {
                    assert(pre.contains(track_ids.last()));
                }
            }
        }
    }
}

} // verus!
