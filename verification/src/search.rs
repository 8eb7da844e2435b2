//! Full-text search: the PostgreSQL `tsquery` built from what a user types,
//! the result window, and the order ranked results come back in.
use vstd::prelude::*;

use crate::text::{chars_of, is_whitespace, is_ws, push_str, string_of, trim, trim_str};

verus! {

// ─── Words of a query ──────────────────────────────────────────────────

/// The whitespace-separated words of `s` (what `str::split_whitespace`
/// yields), in order.
pub open spec fn words(s: Seq<char>) -> Seq<Seq<char>>
    decreases s.len(),
{
    if s.len() == 0 {
        seq![]
    } else {
        let p = s.drop_last();
        let c = s.last();
        let w = words(p);
        if is_ws(c) {
            w
        } else if p.len() > 0 && !is_ws(p.last()) {
            w.drop_last().push(w.last().push(c))
        } else {
            w.push(seq![c])
        }
    }
}

/// What `char::is_alphanumeric` says of `c`.
pub uninterp spec fn alphanumeric(c: char) -> bool;

/// Whether a character is a letter or a number.
///
/// Trusted: calls `char::is_alphanumeric`.  Claims the result is the named
/// one, and that among ASCII characters exactly the letters and digits are
/// alphanumeric.
#[verifier::external_body]
pub(crate) fn is_alphanumeric(c: char) -> (b: bool)
    ensures
        b == alphanumeric(c),
        (c as u32) < 128 ==> (b <==> ascii_alnum(c)),
{
    c.is_alphanumeric()
}

/// An ASCII letter or digit.
pub open spec fn ascii_alnum(c: char) -> bool {
    ('a' <= c && c <= 'z') || ('A' <= c && c <= 'Z') || ('0' <= c && c <= '9')
}

/// Characters a search term keeps: letters, numbers, `-` and `_`.
pub open spec fn term_char(c: char) -> bool {
    alphanumeric(c) || c == '-' || c == '_'
}

/// A word without the characters that have a meaning in `tsquery` syntax.
pub open spec fn clean(w: Seq<char>) -> Seq<char>
    decreases w.len(),
{
    if w.len() == 0 {
        seq![]
    } else if term_char(w.last()) {
        clean(w.drop_last()).push(w.last())
    } else {
        clean(w.drop_last())
    }
}

/// `query` extended by the prefix-match term for a cleaned word: nothing
/// for an empty word, else `word:*`, joined to what precedes by ` & `.
pub open spec fn add_term(query: Seq<char>, word: Seq<char>) -> Seq<char> {
    if word.len() == 0 {
        query
    } else if query.len() == 0 {
        word + ":*"@
    } else {
        query + " & "@ + word + ":*"@
    }
}

/// The `tsquery` for a list of words: each non-empty cleaned word as a
/// prefix match, all of them required.
pub open spec fn tsquery_of(ws: Seq<Seq<char>>) -> Seq<char>
    decreases ws.len(),
{
    if ws.len() == 0 {
        seq![]
    } else {
        add_term(tsquery_of(ws.drop_last()), clean(ws.last()))
    }
}

/// The `tsquery` for what a user typed.
pub open spec fn tsquery(q: Seq<char>) -> Seq<char> {
    tsquery_of(words(q))
}

/// An ASCII letter or digit, `-` or `_`: what a search word keeps of ASCII
/// text.
pub open spec fn ascii_term_char(c: char) -> bool {
    ascii_alnum(c) || c == '-' || c == '_'
}

/// A search word of ASCII letters, digits, `-` and `_`, for which
/// `char::is_alphanumeric` gives its ASCII answer (as `build_tsquery`
/// ensures of the characters of its query).
pub open spec fn ascii_term(w: Seq<char>, ) -> bool {
    &&& w.len() > 0
    &&& forall|i: int|
        0 <= i < w.len() ==> ascii_term_char(#[trigger] w[i]) && (alphanumeric(w[i]) <==> ascii_alnum(
            w[i],
        ))
}

proof fn lemma_ascii_term_drop_last(w: Seq<char>)
    requires
        ascii_term(w),
        w.len() > 1,
    ensures
        ascii_term(w.drop_last()),
{
    assert forall|i: int| 0 <= i < w.drop_last().len() implies ascii_term_char(
        #[trigger] w.drop_last()[i],
    ) && (alphanumeric(w.drop_last()[i]) <==> ascii_alnum(w.drop_last()[i])) by {
        assert(w.drop_last()[i] == w[i]);
    }
}

proof fn lemma_clean_ascii(w: Seq<char>)
    requires
        forall|i: int|
            0 <= i < w.len() ==> ascii_term_char(#[trigger] w[i]) && (alphanumeric(w[i]) <==> ascii_alnum(
                w[i],
            )),
    ensures
        clean(w) == w,
    decreases w.len(),
{
    if w.len() > 0 {
        assert(ascii_term_char(w[w.len() - 1]));
        assert forall|i: int| 0 <= i < w.drop_last().len() implies ascii_term_char(
            #[trigger] w.drop_last()[i],
        ) && (alphanumeric(w.drop_last()[i]) <==> ascii_alnum(w.drop_last()[i])) by {
            assert(w.drop_last()[i] == w[i]);
        }
        lemma_clean_ascii(w.drop_last());
        assert(w.drop_last().push(w.last()) =~= w);
    }
}

proof fn lemma_words_single(w: Seq<char>)
    requires
        ascii_term(w),
    ensures
        words(w) == seq![w],
    decreases w.len(),
{
    let p = w.drop_last();
    assert(ascii_term_char(w.last()));
    assert(!is_ws(w.last()));
    if p.len() == 0 {
        assert(words(p) =~= Seq::<Seq<char>>::empty());
        assert(seq![w.last()] =~= w);
        assert(words(w) == words(p).push(seq![w.last()]));
    } else {
        lemma_ascii_term_drop_last(w);
        lemma_words_single(p);
        assert(ascii_term_char(p.last()));
        assert(!is_ws(p.last()));
        assert(p.push(w.last()) =~= w);
        assert(seq![p].drop_last() =~= Seq::<Seq<char>>::empty());
        assert(seq![p].last() == p);
        assert(words(w) == words(p).drop_last().push(words(p).last().push(w.last())));
        assert(Seq::<Seq<char>>::empty().push(w) =~= seq![w]);
    }
}

proof fn lemma_words_after_space(q: Seq<char>, w: Seq<char>)
    requires
        ascii_term(w),
    ensures
        words(q.push(' ') + w) == words(q).push(w),
    decreases w.len(),
{
    let s = q.push(' ') + w;
    let p = s.drop_last();
    assert(s.last() == w.last());
    assert(ascii_term_char(w.last()));
    assert(words(q.push(' ')) == words(q)) by {
        assert(q.push(' ').drop_last() =~= q);
    }
    if w.len() == 1 {
        assert(p =~= q.push(' '));
        assert(seq![w.last()] =~= w);
    } else {
        lemma_ascii_term_drop_last(w);
        lemma_words_after_space(q, w.drop_last());
        assert(p =~= q.push(' ') + w.drop_last());
        assert(ascii_term_char(w.drop_last().last()));
        assert(p.last() == w.drop_last().last());
        assert(w.drop_last().push(w.last()) =~= w);
    }
}

/// A search word loses nothing that is a letter, a number, `-` or `_`: a
/// word made only of such characters is kept whole.
pub proof fn law_clean_keeps_term_chars(w: Seq<char>)
    requires
        forall|i: int| 0 <= i < w.len() ==> alphanumeric(#[trigger] w[i]) || w[i] == '-' || w[i] == '_',
    ensures
        clean(w) == w,
    decreases w.len(),
{
    if w.len() > 0 {
        assert(alphanumeric(w[w.len() - 1]) || w[w.len() - 1] == '-' || w[w.len() - 1] == '_');
        assert forall|i: int| 0 <= i < w.drop_last().len() implies alphanumeric(
            #[trigger] w.drop_last()[i],
        ) || w.drop_last()[i] == '-' || w.drop_last()[i] == '_' by {
            assert(w.drop_last()[i] == w[i]);
        }
        law_clean_keeps_term_chars(w.drop_last());
        assert(w.drop_last().push(w.last()) =~= w);
    }
}

/// A search word keeps nothing else: every character left is a letter, a
/// number, `-` or `_`, and none is added.
pub proof fn law_clean_only_term_chars(w: Seq<char>)
    ensures
        clean(w).len() <= w.len(),
        forall|i: int|
            0 <= i < clean(w).len() ==> alphanumeric(#[trigger] clean(w)[i]) || clean(w)[i] == '-'
                || clean(w)[i] == '_',
    decreases w.len(),
{
    if w.len() > 0 {
        law_clean_only_term_chars(w.drop_last());
        let c = clean(w.drop_last());
        if term_char(w.last()) {
            assert forall|i: int| 0 <= i < clean(w).len() implies alphanumeric(
                #[trigger] clean(w)[i],
            ) || clean(w)[i] == '-' || clean(w)[i] == '_' by {
                if i < c.len() {
                    assert(clean(w)[i] == c[i]);
                }
            }
        }
    }
}

/// A one-word ASCII query searches for that word as a prefix: every ASCII
/// letter, digit, `-` and `_` of it is kept (`blink` gives `blink:*`, `182`
/// gives `182:*`).
pub proof fn law_tsquery_one_word(w: Seq<char>)
    requires
        ascii_term(w),
    ensures
        tsquery(w) == w + ":*"@,
{
    lemma_words_single(w);
    lemma_clean_ascii(w);
    assert(seq![w].drop_last() =~= Seq::<Seq<char>>::empty());
    assert(seq![w].last() == w);
    assert(tsquery_of(Seq::<Seq<char>>::empty()) == Seq::<char>::empty());
    assert(tsquery_of(seq![w]) == add_term(tsquery_of(seq![w].drop_last()), clean(seq![w].last())));
}

/// Each further ASCII word of a query adds exactly its prefix term, joined
/// by ` & ` to what the query before it asked for (`blink 182` gives
/// `blink:* & 182:*`).
pub proof fn law_tsquery_next_word(q: Seq<char>, w: Seq<char>)
    requires
        ascii_term(w),
    ensures
        tsquery(q.push(' ') + w) == if tsquery(q).len() == 0 {
            w + ":*"@
        } else {
            tsquery(q) + " & "@ + w + ":*"@
        },
{
    lemma_words_after_space(q, w);
    lemma_clean_ascii(w);
    assert(words(q).push(w).drop_last() =~= words(q));
    assert(words(q).push(w).last() == w);
}

proof fn lemma_words_end_in_word(p: Seq<char>)
    requires
        p.len() > 0,
        !is_ws(p.last()),
    ensures
        words(p).len() > 0,
    decreases p.len(),
{
    let q = p.drop_last();
    if q.len() > 0 && !is_ws(q.last()) {
        lemma_words_end_in_word(q);
    }
}

fn add_term_exec(out: &mut Vec<char>, word: &Vec<char>)
    ensures
        final(out)@ == add_term(old(out)@, word@),
{
    if word.len() == 0 {
        return;
    }
    let ghost orig = out@;
    let ghost sep = if orig.len() == 0 {
        Seq::<char>::empty()
    } else {
        " & "@
    };
    if out.len() > 0 {
        push_str(out, " & ");
    }
    assert(out@ =~= orig + sep);
    let mut i: usize = 0;
    while i < word.len()
        invariant
            i <= word@.len(),
            out@ == orig + sep + word@.take(i as int),
        decreases word.len() - i,
    {
        out.push(word[i]);
        assert(word@.take(i + 1) =~= word@.take(i as int).push(word@[i as int]));
        i = i + 1;
    }
    assert(word@.take(word@.len() as int) =~= word@);
    push_str(out, ":*");
    proof {
        if orig.len() == 0 {
            assert(out@ =~= word@ + ":*"@);
        } else {
            assert(out@ =~= orig + " & "@ + word@ + ":*"@);
        }
    }
}

/// Builds the `tsquery` for a search: splits on whitespace, keeps letters,
/// numbers, `-` and `_` of each word, makes each remaining word a prefix
/// match (`word:*`) and requires all of them (` & `).
///
/// Among ASCII characters, the letters and digits are the ones
/// `char::is_alphanumeric` accepts, so for ASCII text the words keep
/// exactly their ASCII letters, digits, `-` and `_`.
pub fn build_tsquery(q: &str) -> (r: String)
    ensures
        r@ == tsquery(q@),
        forall|i: int|
            0 <= i < q@.len() && !is_ws(q@[i]) && (q@[i] as u32) < 128 ==> (alphanumeric(
                #[trigger] q@[i],
            ) <==> ascii_alnum(q@[i])),
{
    let s = chars_of(q);
    let mut out: Vec<char> = Vec::new();
    let mut cur: Vec<char> = Vec::new();
    let mut in_word: bool = false;
    let mut i: usize = 0;
    while i < s.len()
        invariant
            s@ == q@,
            i <= s@.len(),
            in_word == (i > 0 && !is_ws(s@[i - 1])),
            in_word ==> words(s@.take(i as int)).len() > 0,
            in_word ==> out@ == tsquery_of(words(s@.take(i as int)).drop_last()),
            in_word ==> cur@ == clean(words(s@.take(i as int)).last()),
            !in_word ==> out@ == tsquery_of(words(s@.take(i as int))),
            forall|j: int|
                0 <= j < i && !is_ws(s@[j]) && (s@[j] as u32) < 128 ==> (alphanumeric(#[trigger] s@[j])
                    <==> ascii_alnum(s@[j])),
        decreases s.len() - i,
    {
        let c = s[i];
        let ghost t = s@.take(i as int);
        let ghost t2 = s@.take(i + 1);
        proof {
            assert(t2.drop_last() =~= t);
            assert(t2.last() == c);
            if i > 0 {
                assert(t.last() == s@[i - 1]);
            }
        }
        if is_whitespace(c) {
            if in_word {
                add_term_exec(&mut out, &cur);
                proof {
                    let w = words(t);
                    assert(w.drop_last().push(w.last()) =~= w);
                    assert(tsquery_of(w) == add_term(tsquery_of(w.drop_last()), clean(w.last())));
                }
                cur = Vec::new();
            }
            in_word = false;
        } else {
            if in_word {
                let keep = is_alphanumeric(c) || c == '-' || c == '_';
                let ghost w = words(t);
                proof {
                    assert(words(t2) == w.drop_last().push(w.last().push(c)));
                    assert(w.last().push(c).drop_last() =~= w.last());
                    assert(words(t2).drop_last() =~= w.drop_last());
                }
                if keep {
                    cur.push(c);
                }
            } else {
                proof {
                    let w = words(t);
                    assert(words(t2) == w.push(seq![c]));
                    assert(words(t2).drop_last() =~= w);
                    assert(seq![c].drop_last() =~= Seq::<char>::empty());
                }
                cur = Vec::new();
                if is_alphanumeric(c) || c == '-' || c == '_' {
                    cur.push(c);
                }
                proof {
                    assert(clean(Seq::<char>::empty()) == Seq::<char>::empty());
                }
                in_word = true;
            }
        }
        i = i + 1;
    }
    proof {
        assert(s@.take(s@.len() as int) =~= s@);
    }
    if in_word {
        add_term_exec(&mut out, &cur);
        proof {
            let w = words(s@);
            assert(w.drop_last().push(w.last()) =~= w);
        }
    }
    string_of(&out)
}

/// What is searched for: the query without surrounding whitespace, or
/// `None` when nothing is left (then every result list is empty).
pub fn search_text(q: &str) -> (r: Option<String>)
    ensures
        match r {
            Some(t) => t@ == trim(q@) && t@.len() > 0,
            None => trim(q@).len() == 0,
        },
{
    let t = trim_str(q);
    if t.len() == 0 {
        None
    } else {
        Some(string_of(&t))
    }
}

// ─── Result window ─────────────────────────────────────────────────────

/// Page size and offset of a search.
#[derive(Debug, Clone, Copy, PartialEq, Eq, Structural)]
pub struct SearchWindow {
    pub limit: u64,
    pub page: u64,
    pub offset: u64,
}

/// `v` clamped to `[lo, hi]`.
pub open spec fn clamp(v: int, lo: int, hi: int) -> int {
    if v < lo {
        lo
    } else if v > hi {
        hi
    } else {
        v
    }
}

/// The window of a search: `per_page` (default 10) clamped to 1..=50,
/// `page` (default 1) clamped to 1..=1000, and the offset of that page.
pub fn search_window(page: Option<u64>, per_page: Option<u64>) -> (w: SearchWindow)
    ensures
        w.limit == clamp(
            match per_page {
                Some(p) => p as int,
                None => 10,
            },
            1,
            50,
        ),
        w.page == clamp(
            match page {
                Some(p) => p as int,
                None => 1,
            },
            1,
            1000,
        ),
        w.offset == (w.page - 1) * w.limit,
{
    let pp: u64 = match per_page {
        Some(p) => p,
        None => 10,
    };
    let limit: u64 = if pp < 1 {
        1
    } else if pp > 50 {
        50
    } else {
        pp
    };
    let pg: u64 = match page {
        Some(p) => p,
        None => 1,
    };
    let page_no: u64 = if pg < 1 {
        1
    } else if pg > 1000 {
        1000
    } else {
        pg
    };
    assert((page_no - 1) * limit <= 999 * 50) by (nonlinear_arith)
        requires
            1 <= page_no <= 1000,
            1 <= limit <= 50,
    ;
    SearchWindow { limit, page: page_no, offset: (page_no - 1) * limit }
}

/// The query of a search request: the text typed, and the optional page
/// and page size.
#[derive(Debug, Clone)]
pub struct SearchParams {
    pub q: String,
    pub page: Option<u64>,
    pub per_page: Option<u64>,
}

impl SearchParams {
    /// The window these parameters ask for (see `search_window`).
    pub fn window(&self) -> (w: SearchWindow)
        ensures
            w == search_window_of(self.page, self.per_page),
    {
        search_window(self.page, self.per_page)
    }

    /// The text searched for (see `search_text`).
    pub fn text(&self) -> (r: Option<String>)
        ensures
            match r {
                Some(t) => t@ == trim(self.q@) && t@.len() > 0,
                None => trim(self.q@).len() == 0,
            },
    {
        search_text(self.q.as_str())
    }
}

/// The window of `search_window`, as a value.
pub open spec fn search_window_of(page: Option<u64>, per_page: Option<u64>) -> SearchWindow {
    let limit = clamp(
        match per_page {
            Some(p) => p as int,
            None => 10,
        },
        1,
        50,
    );
    let pg = clamp(
        match page {
            Some(p) => p as int,
            None => 1,
        },
        1,
        1000,
    );
    SearchWindow { limit: limit as u64, page: pg as u64, offset: ((pg - 1) * limit) as u64 }
}

/// What a search answers: the tracks, albums and artists found, and how
/// many there are in all.
#[derive(Debug, Clone)]
pub struct SearchResults<T, A, R> {
    pub tracks: Vec<T>,
    pub albums: Vec<A>,
    pub artists: Vec<R>,
    pub total: usize,
}

impl<T, A, R> SearchResults<T, A, R> {
    /// The answer to a query with nothing in it.
    pub fn empty() -> (r: Self)
        ensures
            r.tracks@.len() == 0,
            r.albums@.len() == 0,
            r.artists@.len() == 0,
            r.total == 0,
    {
        SearchResults { tracks: Vec::new(), albums: Vec::new(), artists: Vec::new(), total: 0 }
    }

    /// The answer holding these lists, with `total` their combined length.
    pub fn new(tracks: Vec<T>, albums: Vec<A>, artists: Vec<R>) -> (r: Self)
        requires
            tracks@.len() + albums@.len() + artists@.len() <= usize::MAX,
        ensures
            r.tracks@ == tracks@,
            r.albums@ == albums@,
            r.artists@ == artists@,
            r.total == tracks@.len() + albums@.len() + artists@.len(),
    {
        let total = tracks.len() + albums.len() + artists.len();
        SearchResults { tracks, albums, artists, total }
    }
}

// ─── Rank order ────────────────────────────────────────────────────────

/// Index of the last `id` in `ids`, if any.
pub open spec fn last_index(ids: Seq<u128>, id: u128) -> Option<int>
    decreases ids.len(),
{
    if ids.len() == 0 {
        None
    } else if ids.last() == id {
        Some(ids.len() - 1)
    } else {
        last_index(ids.drop_last(), id)
    }
}

/// For each ranked ID in order, the position of its record among the
/// records loaded (the last one with that ID); IDs with no record are
/// skipped.
pub open spec fn rank_positions_of(ranked: Seq<u128>, loaded: Seq<u128>) -> Seq<int>
    decreases ranked.len(),
{
    if ranked.len() == 0 {
        seq![]
    } else {
        let prev = rank_positions_of(ranked.drop_last(), loaded);
        match last_index(loaded, ranked.last()) {
            Some(k) => prev.push(k),
            None => prev,
        }
    }
}

fn find_last(ids: &Vec<u128>, id: u128) -> (r: Option<usize>)
    ensures
        match r {
            Some(k) => last_index(ids@, id) == Some(k as int),
            None => last_index(ids@, id) is None,
        },
{
    let mut k: usize = ids.len();
    proof {
        assert(ids@.take(k as int) =~= ids@);
    }
    while k > 0
        invariant
            k <= ids@.len(),
            last_index(ids@, id) == last_index(ids@.take(k as int), id),
        decreases k,
    {
        proof {
            assert(ids@.take(k as int).drop_last() =~= ids@.take(k - 1));
        }
        if ids[k - 1] == id {
            return Some(k - 1);
        }
        k = k - 1;
    }
    None
}

/// Puts loaded records back in rank order: for each ranked ID, the index
/// of its record in `loaded` (see `rank_positions_of`).
pub fn rank_positions(ranked: &Vec<u128>, loaded: &Vec<u128>) -> (r: Vec<usize>)
    ensures
        r@.map_values(|k: usize| k as int) == rank_positions_of(ranked@, loaded@),
        forall|j: int| 0 <= j < r@.len() ==> (r@[j] as int) < loaded@.len(),
{
    let mut r: Vec<usize> = Vec::new();
    let mut i: usize = 0;
    while i < ranked.len()
        invariant
            i <= ranked@.len(),
            r@.map_values(|k: usize| k as int) == rank_positions_of(ranked@.take(i as int), loaded@),
            forall|j: int| 0 <= j < r@.len() ==> (r@[j] as int) < loaded@.len(),
        decreases ranked.len() - i,
    {
        proof {
            assert(ranked@.take(i + 1).drop_last() =~= ranked@.take(i as int));
            assert(ranked@.take(i + 1).last() == ranked@[i as int]);
        }
        match find_last(loaded, ranked[i]) {
            Some(k) => {
                proof {
                    lemma_last_index_bound(loaded@, ranked@[i as int]);
                }
                let ghost before = r@;
                r.push(k);
                proof {
                    assert(r@.map_values(|k: usize| k as int) =~= before.map_values(
                        |k: usize| k as int,
                    ).push(k as int));
                }
            },
            None => {},
        }
        i = i + 1;
    }
    proof {
        assert(ranked@.take(ranked@.len() as int) =~= ranked@);
    }
    r
}

proof fn lemma_last_index_bound(ids: Seq<u128>, id: u128)
    ensures
        match last_index(ids, id) {
            Some(k) => 0 <= k < ids.len() && ids[k] == id,
            None => true,
        },
    decreases ids.len(),
{
    if ids.len() > 0 && ids.last() != id {
        lemma_last_index_bound(ids.drop_last(), id);
    }
}

} // verus!
