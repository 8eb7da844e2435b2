//! Radio: the request's seed and batch size, and how the candidate phases
//! of a seed become the next batch of tracks (quotas, de-duplication,
//! shuffle, batch size).
use rand::seq::SliceRandom;
use vstd::prelude::*;

verus! {

/// What a radio session is seeded from.
#[derive(Debug, Clone, Copy, PartialEq, Eq, Structural)]
pub enum RadioSeedType {
    /// A track: same artist, genre and era.
    Track,
    /// An artist: their tracks and same-genre tracks of others.
    Artist,
    /// A genre.
    Genre,
    /// The user's own listening and favourites.
    PersonalMix,
    /// Tracks close to a seed track's embedding.
    Similar,
}

/// The next batch of a radio session.
#[derive(Debug, Clone)]
pub struct RadioNextResponse<T> {
    pub tracks: Vec<T>,
    /// No track was left to play.
    pub exhausted: bool,
}

impl<T> RadioNextResponse<T> {
    /// The answer for a batch: its tracks, exhausted exactly when it is
    /// empty.
    pub fn of_batch(tracks: Vec<T>) -> (r: Self)
        ensures
            r.tracks@ == tracks@,
            r.exhausted == (tracks@.len() == 0),
    {
        let exhausted = tracks.len() == 0;
        RadioNextResponse { tracks, exhausted }
    }
}

/// A seed with what it needs.
#[derive(Debug, Clone)]
pub enum RadioSeed {
    Track(u128),
    Artist(u128),
    Genre(String),
    PersonalMix,
    Similar(u128),
}

/// Tracks a batch holds: the asked count (default 5), at most 20.
pub open spec fn batch_size_of(count: Option<u64>) -> u64 {
    match count {
        Some(c) => if c > 20 {
            20
        } else {
            c
        },
        None => 5,
    }
}

/// The size of the next batch.
pub fn batch_size(count: Option<u64>) -> (n: u64)
    ensures
        n == batch_size_of(count),
        n <= 20,
{
    match count {
        Some(c) => if c > 20 {
            20
        } else {
            c
        },
        None => 5,
    }
}

/// Largest number of already-played tracks a request may exclude.
pub const MAX_EXCLUDED: usize = 2000;

/// The tracks excluded from the next batch: the first 2000 sent.
pub fn excluded_tracks(exclude: &Vec<u128>) -> (r: Vec<u128>)
    ensures
        r@ == if exclude@.len() > MAX_EXCLUDED {
            exclude@.take(MAX_EXCLUDED as int)
        } else {
            exclude@
        },
{
    let n = if exclude.len() > MAX_EXCLUDED {
        MAX_EXCLUDED
    } else {
        exclude.len()
    };
    let mut r: Vec<u128> = Vec::new();
    let mut i: usize = 0;
    while i < n
        invariant
            n <= exclude@.len(),
            i <= n,
            r@ == exclude@.take(i as int),
        decreases n - i,
    {
        r.push(exclude[i]);
        assert(exclude@.take(i + 1) =~= exclude@.take(i as int).push(exclude@[i as int]));
        i = i + 1;
    }
    assert(exclude@.take(exclude@.len() as int) =~= exclude@);
    r
}

/// Checks that a seed comes with what it needs: a seed ID for `track`,
/// `artist` and `similar`, a genre for `genre`.
pub fn radio_seed(seed_type: RadioSeedType, seed_id: Option<u128>, genre: Option<String>) -> (r: Result<RadioSeed, &'static str>)
    ensures
        match seed_type {
            RadioSeedType::Track => match seed_id {
                Some(id) => r matches Ok(RadioSeed::Track(x)) && x == id,
                None => r matches Err(m) && m@ == "seed_id is required for seed_type=track"@,
            },
            RadioSeedType::Artist => match seed_id {
                Some(id) => r matches Ok(RadioSeed::Artist(x)) && x == id,
                None => r matches Err(m) && m@ == "seed_id is required for seed_type=artist"@,
            },
            RadioSeedType::Genre => match genre {
                Some(g) => r matches Ok(RadioSeed::Genre(x)) && x == g,
                None => r matches Err(m) && m@ == "genre is required for seed_type=genre"@,
            },
            RadioSeedType::PersonalMix => r matches Ok(RadioSeed::PersonalMix),
            RadioSeedType::Similar => match seed_id {
                Some(id) => r matches Ok(RadioSeed::Similar(x)) && x == id,
                None => r matches Err(m) && m@ == "seed_id is required for seed_type=similar"@,
            },
        },
{
    match seed_type {
        RadioSeedType::Track => match seed_id {
            Some(id) => Ok(RadioSeed::Track(id)),
            None => Err("seed_id is required for seed_type=track"),
        },
        RadioSeedType::Artist => match seed_id {
            Some(id) => Ok(RadioSeed::Artist(id)),
            None => Err("seed_id is required for seed_type=artist"),
        },
        RadioSeedType::Genre => match genre {
            Some(g) => Ok(RadioSeed::Genre(g)),
            None => Err("genre is required for seed_type=genre"),
        },
        RadioSeedType::PersonalMix => Ok(RadioSeed::PersonalMix),
        RadioSeedType::Similar => match seed_id {
            Some(id) => Ok(RadioSeed::Similar(id)),
            None => Err("seed_id is required for seed_type=similar"),
        },
    }
}

/// How many candidates each phase fetches: twice the batch size.
pub fn phase_pool_size(count: u64) -> (n: u64)
    requires
        2 * count <= u64::MAX,
    ensures
        n == 2 * count,
{
    count * 2
}

/// How many random tracks the personal mix falls back to: three times the
/// batch size, at most 200.
pub fn fallback_pool_size(count: u64) -> (n: u64)
    requires
        3 * count <= u64::MAX,
    ensures
        n == if 3 * count > 200 {
            200
        } else {
            3 * count
        },
{
    let n = count * 3;
    if n > 200 {
        200
    } else {
        n
    }
}

// ─── Building a batch ──────────────────────────────────────────────────

/// `ids` without repeats, each kept where it first occurs.
pub open spec fn first_occurrences(ids: Seq<u128>) -> Seq<u128>
    decreases ids.len(),
{
    if ids.len() == 0 {
        seq![]
    } else {
        let prev = first_occurrences(ids.drop_last());
        if prev.contains(ids.last()) {
            prev
        } else {
            prev.push(ids.last())
        }
    }
}

/// The phases after quotas: each phase cut to its quota, in phase order.
pub open spec fn quota_chain(phases: Seq<Vec<u128>>, quotas: Seq<usize>) -> Seq<u128>
    decreases phases.len(),
{
    if phases.len() == 0 {
        seq![]
    } else {
        let last = phases.last()@;
        let q = quotas[phases.len() - 1] as int;
        quota_chain(phases.drop_last(), quotas) + if q < last.len() {
            last.take(q)
        } else {
            last
        }
    }
}

/// The candidate pool of a seed: each phase cut to its quota, chained in
/// order, without repeated tracks.
pub open spec fn pool_of(phases: Seq<Vec<u128>>, quotas: Seq<usize>) -> Seq<u128> {
    first_occurrences(quota_chain(phases, quotas))
}

proof fn lemma_first_occurrences_distinct(ids: Seq<u128>)
    ensures
        forall|i: int, j: int| 0 <= i < j < first_occurrences(ids).len() ==> first_occurrences(ids)[i]
            != first_occurrences(ids)[j],
        forall|x: u128|
            #![trigger first_occurrences(ids).contains(x)]
            #![trigger ids.contains(x)]
            first_occurrences(ids).contains(x) <==> ids.contains(x),
    decreases ids.len(),
{
    if ids.len() > 0 {
        lemma_first_occurrences_distinct(ids.drop_last());
        let prev = first_occurrences(ids.drop_last());
        let fo = first_occurrences(ids);
        assert forall|i: int, j: int| 0 <= i < j < fo.len() implies fo[i] != fo[j] by {
            if j == prev.len() {
                assert(prev[i] == fo[i]);
                assert(prev.contains(prev[i]));
            }
        }
        assert forall|x: u128| fo.contains(x) <==> ids.contains(x) by {
            if ids.contains(x) {
                let k = choose|k: int| 0 <= k < ids.len() && ids[k] == x;
                if k < ids.len() - 1 {
                    assert(ids.drop_last()[k] == x);
                    assert(ids.drop_last().contains(x));
                    let j = choose|j: int| 0 <= j < prev.len() && prev[j] == x;
                    assert(fo[j] == x);
                } else if prev.contains(x) {
                    let j = choose|j: int| 0 <= j < prev.len() && prev[j] == x;
                    assert(fo[j] == x);
                } else {
                    assert(fo[prev.len() as int] == x);
                }
            }
            if fo.contains(x) {
                let j = choose|j: int| 0 <= j < fo.len() && fo[j] == x;
                if j < prev.len() {
                    assert(prev[j] == x);
                    assert(prev.contains(x));
                    let k = choose|k: int| 0 <= k < ids.drop_last().len() && ids.drop_last()[k] == x;
                    assert(ids[k] == x);
                } else {
                    assert(x == ids.last());
                    assert(ids[ids.len() - 1] == x);
                }
            }
        }
    }
}

fn contains_id(v: &Vec<u128>, x: u128) -> (b: bool)
    ensures
        b == v@.contains(x),
{
    let mut i: usize = 0;
    while i < v.len()
        invariant
            i <= v@.len(),
            forall|j: int| 0 <= j < i ==> v@[j] != x,
        decreases v.len() - i,
    {
        if v[i] == x {
            return true;
        }
        i = i + 1;
    }
    false
}

/// Builds a seed's candidate pool (see `pool_of`): every track at most once.
pub fn candidate_pool(phases: &Vec<Vec<u128>>, quotas: &Vec<usize>) -> (r: Vec<u128>)
    requires
        quotas@.len() == phases@.len(),
    ensures
        r@ == pool_of(phases@, quotas@),
        forall|i: int, j: int| 0 <= i < j < r@.len() ==> r@[i] != r@[j],
{
    let mut out: Vec<u128> = Vec::new();
    let ghost mut chain: Seq<u128> = Seq::empty();
    let mut p: usize = 0;
    while p < phases.len()
        invariant
            p <= phases@.len(),
            quotas@.len() == phases@.len(),
            chain == quota_chain(phases@.take(p as int), quotas@),
            out@ == first_occurrences(chain),
        decreases phases.len() - p,
    {
        let phase = &phases[p];
        let q = quotas[p];
        let lim = if q < phase.len() {
            q
        } else {
            phase.len()
        };
        let ghost before = chain;
        let mut k: usize = 0;
        while k < lim
            invariant
                lim <= phase@.len(),
                k <= lim,
                chain == before + phase@.take(k as int),
                out@ == first_occurrences(chain),
            decreases lim - k,
        {
            let x = phase[k];
            proof {
                assert((before + phase@.take(k + 1)).drop_last() =~= before + phase@.take(k as int));
                assert((before + phase@.take(k + 1)).last() == x);
            }
            if !contains_id(&out, x) {
                out.push(x);
            }
            proof {
                chain = before + phase@.take(k + 1);
            }
            k = k + 1;
        }
        proof {
            let ps = phases@.take(p + 1);
            assert(ps.drop_last() =~= phases@.take(p as int));
            assert(ps.last() == phases@[p as int]);
            assert(ps.len() - 1 == p);
            if (q as int) < phase@.len() {
                assert(chain == before + phase@.take(q as int));
            } else {
                assert(phase@.take(lim as int) =~= phase@);
            }
        }
        p = p + 1;
    }
    proof {
        assert(phases@.take(phases@.len() as int) =~= phases@);
        lemma_first_occurrences_distinct(chain);
    }
    out
}

/// Puts tracks in random order.
///
/// Trusted: calls `SliceRandom::shuffle` with `rand::rng()`; claims only
/// that the result holds the same tracks (a permutation), whatever the
/// order.
#[verifier::external_body]
fn shuffle_ids(v: Vec<u128>) -> (r: Vec<u128>)
    ensures
        r@.to_multiset() == v@.to_multiset(),
{
    let mut v = v;
    v.shuffle(&mut rand::rng());
    v
}

/// The next batch from a candidate pool without repeats: the pool in random
/// order, cut to the batch size.  Whatever the order, the batch holds no
/// track twice, only tracks of the pool, and at most `count` of them; it is
/// empty only when the pool is.
pub fn next_batch(pool: Vec<u128>, count: u64) -> (r: Vec<u128>)
    requires
        forall|i: int, j: int| 0 <= i < j < pool@.len() ==> pool@[i] != pool@[j],
    ensures
        r@.len() == if pool@.len() < count {
            pool@.len() as int
        } else {
            count as int
        },
        forall|i: int, j: int| 0 <= i < j < r@.len() ==> r@[i] != r@[j],
        forall|x: u128| r@.contains(x) ==> pool@.contains(x),
{
    let ghost unshuffled = pool@;
    let shuffled = shuffle_ids(pool);
    proof {
        lemma_permutation_distinct(unshuffled, shuffled@);
    }
    let n: usize = if (shuffled.len() as u64) < count {
        shuffled.len()
    } else {
        count as usize
    };
    let mut r: Vec<u128> = Vec::new();
    let mut i: usize = 0;
    while i < n
        invariant
            n <= shuffled@.len(),
            i <= n,
            r@ == shuffled@.take(i as int),
        decreases n - i,
    {
        r.push(shuffled[i]);
        assert(shuffled@.take(i + 1) =~= shuffled@.take(i as int).push(shuffled@[i as int]));
        i = i + 1;
    }
    proof {
        assert forall|x: u128| r@.contains(x) implies unshuffled.contains(x) by {
            let k = choose|k: int| 0 <= k < r@.len() && r@[k] == x;
            assert(shuffled@[k] == x);
            assert(shuffled@.contains(x));
        }
    }
    r
}

proof fn lemma_permutation_distinct(a: Seq<u128>, b: Seq<u128>)
    requires
        a.to_multiset() == b.to_multiset(),
        forall|i: int, j: int| 0 <= i < j < a.len() ==> a[i] != a[j],
    ensures
        b.len() == a.len(),
        forall|i: int, j: int| 0 <= i < j < b.len() ==> b[i] != b[j],
        forall|x: u128| b.contains(x) ==> a.contains(x),
{
    broadcast use vstd::seq_lib::group_to_multiset_ensures;

    a.to_multiset_ensures();
    b.to_multiset_ensures();
    a.lemma_multiset_has_no_duplicates();
    b.lemma_multiset_has_no_duplicates_conv();
    assert forall|x: u128| b.contains(x) implies a.contains(x) by {
        assert(b.to_multiset().count(x) > 0);
        assert(a.to_multiset().count(x) > 0);
    }
}

} // verus!
