//! The plugin registry: loaded plugins with their sandboxes, event
//! subscriptions in load order, the call of a plugin's event handler, host
//! requests returned by plugins, and the labels of event executions.
use vstd::prelude::*;

use crate::error::PluginError;
use crate::sandbox::{call_error_kind, PluginSandbox};
use crate::wasm_runtime::callable_export;
use crate::text::{chars_of, push_str, str_eq, string_of};

verus! {

// ─── Plugin IDs as text ────────────────────────────────────────────────

/// The lowercase hexadecimal digit for `d < 16`.
pub open spec fn hex_digit(d: nat) -> char {
    if d < 10 {
        ((48 + d) as u8) as char
    } else {
        ((87 + d) as u8) as char
    }
}

/// The last `n` hexadecimal digits of `u`, most significant first.
pub open spec fn hex_digits(u: nat, n: nat) -> Seq<char>
    decreases n,
{
    if n == 0 {
        seq![]
    } else {
        hex_digits(u / 16, (n - 1) as nat).push(hex_digit(u % 16))
    }
}

/// The hyphenated form of a UUID: 8-4-4-4-12 lowercase hexadecimal digits.
pub open spec fn uuid_text(u: u128) -> Seq<char> {
    let h = hex_digits(u as nat, 32);
    h.subrange(0, 8) + seq!['-'] + h.subrange(8, 12) + seq!['-'] + h.subrange(12, 16) + seq!['-']
        + h.subrange(16, 20) + seq!['-'] + h.subrange(20, 32)
}

/// Renders a UUID in its hyphenated lowercase form.
pub fn uuid_string(u: u128) -> (s: String)
    ensures
        s@ == uuid_text(u),
{
    let mut digits: Vec<char> = Vec::new();
    let mut k: usize = 0;
    while k < 32
        invariant
            k <= 32,
            digits@.len() == k,
        decreases 32 - k,
    {
        digits.push('0');
        k = k + 1;
    }
    let mut rest: u128 = u;
    let mut n: usize = 32;
    while n > 0
        invariant
            n <= 32,
            digits@.len() == 32,
            hex_digits(u as nat, 32) == hex_digits(rest as nat, n as nat) + digits@.subrange(
                n as int,
                32,
            ),
        decreases n,
    {
        let d: u128 = rest % 16;
        let c: char = if d < 10 {
            ((48u8 + d as u8) as char)
        } else {
            ((87u8 + d as u8) as char)
        };
        proof {
            assert(hex_digits(rest as nat, n as nat) == hex_digits((rest / 16) as nat, (n - 1) as nat).push(
                hex_digit((rest % 16) as nat),
            ));
        }
        digits.set(n - 1, c);
        proof {
            assert(digits@.subrange(n - 1, 32) =~= seq![c] + digits@.subrange(n as int, 32));
            assert(hex_digits((rest / 16) as nat, (n - 1) as nat).push(c) + digits@.subrange(
                n as int,
                32,
            ) =~= hex_digits((rest / 16) as nat, (n - 1) as nat) + digits@.subrange(n - 1, 32));
        }
        rest = rest / 16;
        n = n - 1;
    }
    proof {
        assert(digits@.subrange(0, 32) =~= digits@);
        assert(hex_digits(rest as nat, 0) =~= Seq::<char>::empty());
        assert(hex_digits(u as nat, 32) =~= digits@);
    }
    let mut out: Vec<char> = Vec::new();
    let mut i: usize = 0;
    while i < 32
        invariant
            i <= 32,
            digits@ == hex_digits(u as nat, 32),
            digits@.len() == 32,
            out@ == dashed(digits@, i as int),
        decreases 32 - i,
    {
        if i == 8 || i == 12 || i == 16 || i == 20 {
            out.push('-');
        }
        out.push(digits[i]);
        proof {
            lemma_dashed_step(digits@, i as int);
        }
        i = i + 1;
    }
    proof {
        lemma_dashed_full(digits@);
    }
    string_of(&out)
}

/// The first `i` digits of `h`, with a hyphen before digits 8, 12, 16 and 20.
pub open spec fn dashed(h: Seq<char>, i: int) -> Seq<char>
    decreases i,
{
    if i <= 0 {
        seq![]
    } else if i - 1 == 8 || i - 1 == 12 || i - 1 == 16 || i - 1 == 20 {
        dashed(h, i - 1) + seq!['-', h[i - 1]]
    } else {
        dashed(h, i - 1).push(h[i - 1])
    }
}

proof fn lemma_dashed_step(h: Seq<char>, i: int)
    requires
        0 <= i,
    ensures
        dashed(h, i + 1) == if i == 8 || i == 12 || i == 16 || i == 20 {
            dashed(h, i).push('-').push(h[i])
        } else {
            dashed(h, i).push(h[i])
        },
{
    if i == 8 || i == 12 || i == 16 || i == 20 {
        assert(dashed(h, i) + seq!['-', h[i]] =~= dashed(h, i).push('-').push(h[i]));
    }
}

proof fn lemma_dashed_full(h: Seq<char>)
    requires
        h.len() == 32,
    ensures
        dashed(h, 32) == h.subrange(0, 8) + seq!['-'] + h.subrange(8, 12) + seq!['-'] + h.subrange(
            12,
            16,
        ) + seq!['-'] + h.subrange(16, 20) + seq!['-'] + h.subrange(20, 32),
{
    reveal_with_fuel(dashed, 33);
    assert(dashed(h, 32) =~= h.subrange(0, 8) + seq!['-'] + h.subrange(8, 12) + seq!['-']
        + h.subrange(12, 16) + seq!['-'] + h.subrange(16, 20) + seq!['-'] + h.subrange(20, 32));
}

/// The error for a plugin ID that is not loaded or not installed.
pub fn not_found(plugin_id: u128) -> (e: PluginError)
    ensures
        e matches PluginError::NotFound(m) && m@ == uuid_text(plugin_id),
{
    PluginError::NotFound(uuid_string(plugin_id))
}

// ─── Subscriptions ─────────────────────────────────────────────────────

/// The plugins subscribed to `event` in `entries`: the list of the first
/// entry for that event, or nothing.
pub open spec fn lookup(entries: Seq<(String, Vec<u128>)>, event: Seq<char>) -> Seq<u128>
    decreases entries.len(),
{
    if entries.len() == 0 {
        seq![]
    } else if entries[0].0@ == event {
        entries[0].1@
    } else {
        lookup(entries.drop_first(), event)
    }
}

/// `n` copies of `id`.
pub open spec fn repeat(id: u128, n: nat) -> Seq<u128>
    decreases n,
{
    if n == 0 {
        seq![]
    } else {
        repeat(id, (n - 1) as nat).push(id)
    }
}

/// How many times `event` occurs in `events`.
pub open spec fn occurrences(events: Seq<String>, event: Seq<char>) -> nat
    decreases events.len(),
{
    if events.len() == 0 {
        0
    } else {
        (if events.last()@ == event {
            1nat
        } else {
            0nat
        }) + occurrences(events.drop_last(), event)
    }
}

/// `ids` without `id`, others in their order.
pub open spec fn without(ids: Seq<u128>, id: u128) -> Seq<u128> {
    ids.filter(other_than(id))
}

/// The test "is not `id`".
pub open spec fn other_than(id: u128) -> spec_fn(u128) -> bool {
    |x: u128| x != id
}

/// Event subscriptions: for each event name, the subscribed plugin IDs in
/// the order the plugins were loaded.
pub struct Subscriptions {
    entries: Vec<(String, Vec<u128>)>,
}

proof fn lemma_lookup_first(entries: Seq<(String, Vec<u128>)>, event: Seq<char>, i: int)
    requires
        0 <= i < entries.len(),
        entries[i].0@ == event,
        forall|j: int| 0 <= j < i ==> entries[j].0@ != event,
    ensures
        lookup(entries, event) == entries[i].1@,
    decreases i,
{
    if i > 0 {
        lemma_lookup_first(entries.drop_first(), event, i - 1);
    }
}

proof fn lemma_lookup_none(entries: Seq<(String, Vec<u128>)>, event: Seq<char>)
    requires
        forall|j: int| 0 <= j < entries.len() ==> entries[j].0@ != event,
    ensures
        lookup(entries, event) == Seq::<u128>::empty(),
    decreases entries.len(),
{
    if entries.len() > 0 {
        lemma_lookup_none(entries.drop_first(), event);
    }
}

proof fn lemma_lookup_update_other(
    entries: Seq<(String, Vec<u128>)>,
    i: int,
    v: (String, Vec<u128>),
    event: Seq<char>,
)
    requires
        0 <= i < entries.len(),
        v.0@ == entries[i].0@,
        entries[i].0@ != event,
    ensures
        lookup(entries.update(i, v), event) == lookup(entries, event),
    decreases i,
{
    if i > 0 {
        assert(entries.update(i, v).drop_first() =~= entries.drop_first().update(i - 1, v));
        assert(entries.update(i, v)[0] == entries[0]);
        lemma_lookup_update_other(entries.drop_first(), i - 1, v, event);
    } else {
        assert(entries.update(i, v).drop_first() =~= entries.drop_first());
    }
}

proof fn lemma_lookup_update_same(
    entries: Seq<(String, Vec<u128>)>,
    i: int,
    v: (String, Vec<u128>),
)
    requires
        0 <= i < entries.len(),
        v.0@ == entries[i].0@,
        forall|j: int| 0 <= j < i ==> entries[j].0@ != entries[i].0@,
    ensures
        lookup(entries.update(i, v), entries[i].0@) == v.1@,
{
    let e2 = entries.update(i, v);
    assert forall|j: int| 0 <= j < i implies e2[j].0@ != entries[i].0@ by {}
    lemma_lookup_first(e2, entries[i].0@, i);
}

proof fn lemma_lookup_push(entries: Seq<(String, Vec<u128>)>, v: (String, Vec<u128>), event: Seq<char>)
    requires
        forall|j: int| 0 <= j < entries.len() ==> entries[j].0@ != v.0@,
    ensures
        lookup(entries.push(v), event) == if event == v.0@ {
            v.1@
        } else {
            lookup(entries, event)
        },
    decreases entries.len(),
{
    if entries.len() == 0 {
        assert(entries.push(v).drop_first() =~= Seq::<(String, Vec<u128>)>::empty());
        assert(entries.push(v)[0] == v);
        assert(lookup(entries.push(v).drop_first(), event) == Seq::<u128>::empty());
    } else {
        assert(entries.push(v).drop_first() =~= entries.drop_first().push(v));
        assert(entries.push(v)[0] == entries[0]);
        assert(entries[0].0@ != v.0@);
        lemma_lookup_push(entries.drop_first(), v, event);
    }
}

proof fn lemma_lookup_filtered(
    a: Seq<(String, Vec<u128>)>,
    b: Seq<(String, Vec<u128>)>,
    id: u128,
    event: Seq<char>,
)
    requires
        a.len() == b.len(),
        forall|j: int| 0 <= j < a.len() ==> #[trigger] b[j].0@ == a[j].0@ && b[j].1@ == without(
            a[j].1@,
            id,
        ),
    ensures
        lookup(b, event) == without(lookup(a, event), id),
    decreases a.len(),
{
    if a.len() == 0 {
        assert(without(Seq::<u128>::empty(), id) =~= Seq::<u128>::empty());
    } else {
        assert(b[0].0@ == a[0].0@);
        lemma_lookup_filtered(a.drop_first(), b.drop_first(), id, event);
    }
}

fn copy_ids(v: &Vec<u128>) -> (r: Vec<u128>)
    ensures
        r@ == v@,
{
    let mut r: Vec<u128> = Vec::new();
    let mut i: usize = 0;
    while i < v.len()
        invariant
            i <= v@.len(),
            r@ == v@.take(i as int),
        decreases v.len() - i,
    {
        r.push(v[i]);
        assert(v@.take(i + 1) =~= v@.take(i as int).push(v@[i as int]));
        i = i + 1;
    }
    assert(v@.take(v@.len() as int) =~= v@);
    r
}

/// `ids` without `id`.
pub fn remove_id(v: &Vec<u128>, id: u128) -> (r: Vec<u128>)
    ensures
        r@ == without(v@, id),
{
    let mut r: Vec<u128> = Vec::new();
    let mut i: usize = 0;
    while i < v.len()
        invariant
            i <= v@.len(),
            r@ == without(v@.take(i as int), id),
        decreases v.len() - i,
    {
        proof {
            reveal(Seq::filter);
            assert(v@.take(i + 1).drop_last() =~= v@.take(i as int));
        }
        if v[i] != id {
            r.push(v[i]);
        }
        i = i + 1;
    }
    assert(v@.take(v@.len() as int) =~= v@);
    r
}

impl Subscriptions {
    /// The plugins subscribed to `event`, in load order.
    pub closed spec fn subscribers_of(&self, event: Seq<char>) -> Seq<u128> {
        lookup(self.entries@, event)
    }

    /// No subscriptions.
    pub fn new() -> (s: Self)
        ensures
            forall|e: Seq<char>| s.subscribers_of(e) == Seq::<u128>::empty(),
    {
        Subscriptions { entries: Vec::new() }
    }

    fn find(&self, event: &str) -> (r: Option<usize>)
        ensures
            match r {
                Some(i) => i < self.entries@.len() && self.entries@[i as int].0@ == event@ && forall|
                    j: int,
                | 0 <= j < i ==> self.entries@[j].0@ != event@,
                None => forall|j: int|
                    0 <= j < self.entries@.len() ==> self.entries@[j].0@ != event@,
            },
    {
        let mut i: usize = 0;
        while i < self.entries.len()
            invariant
                i <= self.entries@.len(),
                forall|j: int| 0 <= j < i ==> self.entries@[j].0@ != event@,
            decreases self.entries.len() - i,
        {
            if str_eq(self.entries[i].0.as_str(), event) {
                return Some(i);
            }
            i = i + 1;
        }
        None
    }

    /// Appends `plugin_id` to the subscribers of `event`.
    pub fn subscribe_one(&mut self, plugin_id: u128, event: &str)
        ensures
            forall|e: Seq<char>| #[trigger]
                final(self).subscribers_of(e) == if e == event@ {
                    old(self).subscribers_of(e).push(plugin_id)
                } else {
                    old(self).subscribers_of(e)
                },
    {
        match self.find(event) {
            Some(i) => {
                let key = string_of(&chars_of(self.entries[i].0.as_str()));
                let mut ids = copy_ids(&self.entries[i].1);
                ids.push(plugin_id);
                let ghost before = self.entries@;
                proof {
                    lemma_lookup_first(before, event@, i as int);
                }
                self.entries.set(i, (key, ids));
                proof {
                    assert(self.entries@ == before.update(i as int, self.entries@[i as int]));
                    assert forall|e: Seq<char>| #[trigger]
                        lookup(self.entries@, e) == if e == event@ {
                            lookup(before, e).push(plugin_id)
                        } else {
                            lookup(before, e)
                        } by {
                        if e == event@ {
                            lemma_lookup_update_same(before, i as int, self.entries@[i as int]);
                        } else {
                            lemma_lookup_update_other(before, i as int, self.entries@[i as int], e);
                        }
                    }
                }
            },
            None => {
                let key = string_of(&chars_of(event));
                let mut ids: Vec<u128> = Vec::new();
                ids.push(plugin_id);
                let ghost before = self.entries@;
                self.entries.push((key, ids));
                proof {
                    assert forall|e: Seq<char>| #[trigger]
                        lookup(self.entries@, e) == if e == event@ {
                            lookup(before, e).push(plugin_id)
                        } else {
                            lookup(before, e)
                        } by {
                        lemma_lookup_push(before, self.entries@.last(), e);
                        if e == event@ {
                            lemma_lookup_none(before, e);
                            assert(self.entries@.last().1@ =~= Seq::<u128>::empty().push(plugin_id));
                        }
                    }
                }
            },
        }
    }

    /// Subscribes a plugin to each of `events`, in order (a name listed twice
    /// subscribes it twice).
    pub fn subscribe(&mut self, plugin_id: u128, events: &Vec<String>)
        ensures
            forall|e: Seq<char>| #[trigger]
                final(self).subscribers_of(e) == old(self).subscribers_of(e) + repeat(
                    plugin_id,
                    occurrences(events@, e),
                ),
    {
        let mut i: usize = 0;
        while i < events.len()
            invariant
                i <= events@.len(),
                forall|e: Seq<char>| #[trigger]
                    self.subscribers_of(e) == old(self).subscribers_of(e) + repeat(
                        plugin_id,
                        occurrences(events@.take(i as int), e),
                    ),
            decreases events.len() - i,
        {
            let ghost mid = *self;
            self.subscribe_one(plugin_id, events[i].as_str());
            proof {
                assert forall|e: Seq<char>| #[trigger]
                    self.subscribers_of(e) == old(self).subscribers_of(e) + repeat(
                        plugin_id,
                        occurrences(events@.take(i + 1), e),
                    ) by {
                    assert(events@.take(i + 1).drop_last() =~= events@.take(i as int));
                    assert(events@.take(i + 1).last() == events@[i as int]);
                    if e == events@[i as int]@ {
                        assert(mid.subscribers_of(e) == old(self).subscribers_of(e) + repeat(
                            plugin_id,
                            occurrences(events@.take(i as int), e),
                        ));
                        assert(old(self).subscribers_of(e) + repeat(
                            plugin_id,
                            occurrences(events@.take(i + 1), e),
                        ) =~= (old(self).subscribers_of(e) + repeat(
                            plugin_id,
                            occurrences(events@.take(i as int), e),
                        )).push(plugin_id));
                    }
                }
            }
            i = i + 1;
        }
        proof {
            assert(events@.take(events@.len() as int) =~= events@);
        }
    }

    /// Removes a plugin from every subscriber list; the other subscribers
    /// keep their order.
    pub fn unsubscribe(&mut self, plugin_id: u128)
        ensures
            forall|e: Seq<char>| #[trigger]
                final(self).subscribers_of(e) == without(old(self).subscribers_of(e), plugin_id),
    {
        let mut entries: Vec<(String, Vec<u128>)> = Vec::new();
        let mut i: usize = 0;
        while i < self.entries.len()
            invariant
                i <= self.entries@.len(),
                entries@.len() == i,
                forall|j: int| 0 <= j < i ==> #[trigger] entries@[j].0@ == self.entries@[j].0@
                    && entries@[j].1@ == without(self.entries@[j].1@, plugin_id),
            decreases self.entries.len() - i,
        {
            let key = string_of(&chars_of(self.entries[i].0.as_str()));
            let ids = remove_id(&self.entries[i].1, plugin_id);
            entries.push((key, ids));
            i = i + 1;
        }
        let ghost before = self.entries@;
        self.entries = entries;
        proof {
            assert forall|e: Seq<char>| #[trigger]
                lookup(self.entries@, e) == without(lookup(before, e), plugin_id) by {
                lemma_lookup_filtered(before, self.entries@, plugin_id, e);
            }
        }
    }

    /// The plugins subscribed to `event`, in load order.
    pub fn subscribers(&self, event: &str) -> (r: Vec<u128>)
        ensures
            r@ == self.subscribers_of(event@),
    {
        match self.find(event) {
            Some(i) => {
                proof {
                    lemma_lookup_first(self.entries@, event@, i as int);
                }
                copy_ids(&self.entries[i].1)
            },
            None => {
                proof {
                    lemma_lookup_none(self.entries@, event@);
                }
                Vec::new()
            },
        }
    }
}

// ─── Laws of subscriptions ─────────────────────────────────────────────

proof fn lemma_repeat_filtered(id: u128, n: nat)
    ensures
        without(repeat(id, n), id) == Seq::<u128>::empty(),
    decreases n,
{
    reveal(Seq::filter);
    if n > 0 {
        lemma_repeat_filtered(id, (n - 1) as nat);
        assert(repeat(id, n).drop_last() =~= repeat(id, (n - 1) as nat));
        assert(repeat(id, n).last() == id);
    } else {
        assert(repeat(id, 0) =~= Seq::<u128>::empty());
    }
}

proof fn lemma_without_absent(ids: Seq<u128>, id: u128)
    requires
        !ids.contains(id),
    ensures
        without(ids, id) == ids,
    decreases ids.len(),
{
    reveal(Seq::filter);
    if ids.len() > 0 {
        assert(!ids.drop_last().contains(id)) by {
            if ids.drop_last().contains(id) {
                let k = choose|k: int| 0 <= k < ids.drop_last().len() && ids.drop_last()[k] == id;
                assert(ids[k] == id);
            }
        }
        lemma_without_absent(ids.drop_last(), id);
        assert(ids.drop_last().push(ids.last()) =~= ids);
    }
}

/// Unloading a plugin undoes its loading: for an ID that no event lists, the
/// subscribers after subscribing it (to any events) and unsubscribing it are
/// the subscribers before.
pub proof fn law_unsubscribe_undoes_subscribe(before: Seq<u128>, plugin_id: u128, times: nat)
    requires
        !before.contains(plugin_id),
    ensures
        without(before + repeat(plugin_id, times), plugin_id) == before,
{
    Seq::filter_distributes_over_add(before, repeat(plugin_id, times), other_than(plugin_id));
    lemma_repeat_filtered(plugin_id, times);
    lemma_without_absent(before, plugin_id);
    assert(before + Seq::<u128>::empty() =~= before);
}

/// After unsubscribing, a plugin is subscribed to nothing, and the other
/// subscribers are kept in their order.
pub proof fn law_unsubscribed_plugin_absent(ids: Seq<u128>, plugin_id: u128)
    ensures
        !without(ids, plugin_id).contains(plugin_id),
        forall|x: u128| x != plugin_id ==> (ids.contains(x) <==> without(ids, plugin_id).contains(x)),
{
    let w = without(ids, plugin_id);
    let p = other_than(plugin_id);
    assert(!w.contains(plugin_id)) by {
        if w.contains(plugin_id) {
            let k = choose|k: int| 0 <= k < w.len() && w[k] == plugin_id;
            ids.lemma_filter_pred(p, k);
        }
    }
    assert forall|x: u128| x != plugin_id implies (ids.contains(x) <==> w.contains(x)) by {
        if ids.contains(x) {
            let k = choose|k: int| 0 <= k < ids.len() && ids[k] == x;
            ids.lemma_filter_contains(p, k);
        }
        if w.contains(x) {
            ids.lemma_filter_contains_rev(p, x);
        }
    }
}

// ─── Loaded plugins ────────────────────────────────────────────────────

/// The loaded plugins (ID and name, in load order) with their sandboxes, and
/// their subscriptions.
pub struct PluginTable<S> {
    loaded: Vec<(u128, String, S)>,
    subscriptions: Subscriptions,
}

/// Whether `id` is among the loaded plugins.
pub open spec fn is_loaded_in(loaded: Seq<(u128, Seq<char>)>, id: u128) -> bool {
    exists|i: int| 0 <= i < loaded.len() && loaded[i].0 == id
}

/// Whether `i` is the first position of `id` among the loaded plugins.
pub open spec fn first_position(loaded: Seq<(u128, Seq<char>)>, id: u128, i: int) -> bool {
    &&& 0 <= i < loaded.len()
    &&& loaded[i].0 == id
    &&& forall|j: int| 0 <= j < i ==> loaded[j].0 != id
}

/// What came of calling one plugin's handler for an event: the plugin, and
/// the bytes its handler returned or the error it failed with.
pub struct EventOutcome {
    pub plugin_id: u128,
    pub plugin_name: String,
    pub result: Result<Vec<u8>, PluginError>,
}

/// The call result without its output.
pub open spec fn without_output(r: Result<Vec<u8>, PluginError>) -> Result<(), PluginError> {
    match r {
        Ok(_) => Ok(()),
        Err(e) => Err(e),
    }
}

impl EventOutcome {
    /// The label the execution is logged with (see `outcome_label`).
    pub fn label(&self) -> (s: &'static str)
        ensures
            s@ == outcome_label(without_output(self.result)),
    {
        match &self.result {
            Ok(_) => "success",
            Err(PluginError::FuelExhausted(_)) => "timeout",
            Err(_) => "error",
        }
    }
}

/// The ID and name of each loaded entry.
pub open spec fn entries_view<S>(loaded: Seq<(u128, String, S)>) -> Seq<(u128, Seq<char>)> {
    loaded.map_values(|p: (u128, String, S)| (p.0, p.1@))
}

/// No plugin ID occurs twice among the loaded plugins.
pub open spec fn distinct_ids(loaded: Seq<(u128, Seq<char>)>) -> bool {
    forall|a: int, b: int| 0 <= a < b < loaded.len() ==> loaded[a].0 != loaded[b].0
}

/// Every subscriber of every event is among the loaded plugins.
pub open spec fn subscribers_loaded(
    loaded: Seq<(u128, Seq<char>)>,
    subscribers: spec_fn(Seq<char>) -> Seq<u128>,
) -> bool {
    forall|e: Seq<char>, k: int|
        0 <= k < subscribers(e).len() ==> is_loaded_in(loaded, #[trigger] subscribers(e)[k])
}

/// Every ID left in `without(ids, id)` was in `ids` and is not `id`.
proof fn lemma_without_keeps(ids: Seq<u128>, id: u128, k: int)
    requires
        0 <= k < without(ids, id).len(),
    ensures
        ids.contains(without(ids, id)[k]),
        without(ids, id)[k] != id,
    decreases ids.len(),
{
    reveal(Seq::filter);
    if ids.len() > 0 {
        let sub = without(ids.drop_last(), id);
        if k < sub.len() {
            lemma_without_keeps(ids.drop_last(), id, k);
            let j = choose|j: int| 0 <= j < ids.drop_last().len() && ids.drop_last()[j] == sub[k];
            assert(ids[j] == sub[k]);
        } else {
            assert(ids[ids.len() - 1] == without(ids, id)[k]);
        }
    }
}

/// Every entry of `repeat(id, n)` is `id`.
proof fn lemma_repeat_is(id: u128, n: nat, k: int)
    requires
        0 <= k < repeat(id, n).len(),
    ensures
        repeat(id, n)[k] == id,
        repeat(id, n).len() == n,
    decreases n,
{
    if n > 0 {
        lemma_repeat_len(id, (n - 1) as nat);
        if k < n - 1 {
            lemma_repeat_is(id, (n - 1) as nat, k);
        }
    }
}

proof fn lemma_repeat_len(id: u128, n: nat)
    ensures
        repeat(id, n).len() == n,
    decreases n,
{
    if n > 0 {
        lemma_repeat_len(id, (n - 1) as nat);
    }
}

impl<S> PluginTable<S> {
    /// Each plugin is loaded at most once, and only loaded plugins are
    /// subscribed to events.
    #[verifier::type_invariant]
    spec fn well_formed(self) -> bool {
        &&& distinct_ids(self.plugins())
        &&& subscribers_loaded(self.plugins(), |e: Seq<char>| self.subscribers_of(e))
    }

    /// The loaded plugins: ID and name, in load order.
    pub closed spec fn plugins(&self) -> Seq<(u128, Seq<char>)> {
        entries_view(self.loaded@)
    }

    /// The sandboxes of the loaded plugins, in load order.
    pub closed spec fn sandboxes_of(&self) -> Seq<S> {
        self.loaded@.map_values(|p: (u128, String, S)| p.2)
    }

    /// The plugins subscribed to `event`, in load order.
    pub closed spec fn subscribers_of(&self, event: Seq<char>) -> Seq<u128> {
        self.subscriptions.subscribers_of(event)
    }

    /// The plugins subscribed to `event`, in load order.
    /// Every one of them is loaded.
    pub fn subscribers(&self, event: &str) -> (r: Vec<u128>)
        ensures
            r@ == self.subscribers_of(event@),
            forall|k: int| 0 <= k < r@.len() ==> is_loaded_in(self.plugins(), #[trigger] r@[k]),
    {
        proof {
            use_type_invariant(self);
            assert forall|k: int| 0 <= k < self.subscribers_of(event@).len() implies is_loaded_in(
                self.plugins(),
                #[trigger] self.subscribers_of(event@)[k],
            ) by {
                assert((|e: Seq<char>| self.subscribers_of(e))(event@) == self.subscribers_of(event@));
            }
        }
        self.subscriptions.subscribers(event)
    }

    /// No plugin loaded.
    pub fn new() -> (t: Self)
        ensures
            t.plugins().len() == 0,
            forall|e: Seq<char>| t.subscribers_of(e) == Seq::<u128>::empty(),
    {
        let loaded: Vec<(u128, String, S)> = Vec::new();
        let subscriptions = Subscriptions::new();
        assert(entries_view(loaded@) =~= Seq::<(u128, Seq<char>)>::empty());
        PluginTable { loaded, subscriptions }
    }

    fn position(&self, plugin_id: u128) -> (r: Option<usize>)
        ensures
            match r {
                Some(i) => first_position(self.plugins(), plugin_id, i as int),
                None => !is_loaded_in(self.plugins(), plugin_id),
            },
    {
        let mut i: usize = 0;
        while i < self.loaded.len()
            invariant
                i <= self.loaded@.len(),
                forall|j: int| 0 <= j < i ==> self.loaded@[j].0 != plugin_id,
            decreases self.loaded.len() - i,
        {
            if self.loaded[i].0 == plugin_id {
                return Some(i);
            }
            i = i + 1;
        }
        None
    }

    /// Number of loaded plugins.
    pub fn loaded_count(&self) -> (n: usize)
        ensures
            n == self.plugins().len(),
    {
        self.loaded.len()
    }

    /// Whether a plugin is loaded.
    pub fn is_loaded(&self, plugin_id: u128) -> (b: bool)
        ensures
            b == is_loaded_in(self.plugins(), plugin_id),
    {
        self.position(plugin_id).is_some()
    }

    /// The loaded plugins: ID and name, in load order.
    pub fn loaded_plugins(&self) -> (r: Vec<(u128, String)>)
        ensures
            r@.map_values(|p: (u128, String)| (p.0, p.1@)) == self.plugins(),
    {
        let mut r: Vec<(u128, String)> = Vec::new();
        let mut i: usize = 0;
        while i < self.loaded.len()
            invariant
                i <= self.loaded@.len(),
                r@.len() == i,
                forall|j: int| 0 <= j < i ==> r@[j].0 == self.loaded@[j].0 && r@[j].1@ == self.loaded@[j].1@,
            decreases self.loaded.len() - i,
        {
            r.push((self.loaded[i].0, string_of(&chars_of(self.loaded[i].1.as_str()))));
            i = i + 1;
        }
        proof {
            assert(r@.map_values(|p: (u128, String)| (p.0, p.1@)) =~= self.plugins());
        }
        r
    }

    /// Records a loaded plugin with its sandbox and subscribes it to its
    /// events.  A plugin already loaded under the same ID is replaced in
    /// place (the subscriptions are added all the same).
    pub fn load(&mut self, plugin_id: u128, name: String, sandbox: S, events: &Vec<String>)
        ensures
            distinct_ids(final(self).plugins()),
            !is_loaded_in(old(self).plugins(), plugin_id) ==> final(self).plugins() == old(
                self,
            ).plugins().push((plugin_id, name@)) && final(self).sandboxes_of() == old(
                self,
            ).sandboxes_of().push(sandbox),
            is_loaded_in(old(self).plugins(), plugin_id) ==> exists|i: int|
                first_position(old(self).plugins(), plugin_id, i) && final(self).plugins() == old(
                    self,
                ).plugins().update(i, (plugin_id, name@)) && final(self).sandboxes_of() == old(
                    self,
                ).sandboxes_of().update(i, sandbox),
            forall|e: Seq<char>| #[trigger]
                final(self).subscribers_of(e) == old(self).subscribers_of(e)
                    + repeat(plugin_id, occurrences(events@, e)),
    {
        proof {
            use_type_invariant(&*self);
        }
        let ghost before = *self;
        let ghost name_v = name@;
        let ghost sandbox_v = sandbox;
        let pos = self.position(plugin_id);
        let mut table: PluginTable<S> = PluginTable::new();
        std::mem::swap(self, &mut table);
        let PluginTable { mut loaded, mut subscriptions } = table;
        assert(entries_view(loaded@) == before.plugins());
        match pos {
            Some(i) => {
                loaded.set(i, (plugin_id, name, sandbox));
                proof {
                    let bp = before.plugins();
                    assert(entries_view(loaded@) =~= bp.update(i as int, (plugin_id, name_v)));
                    assert forall|a: int, b: int| 0 <= a < b < entries_view(loaded@).len() implies
                        entries_view(loaded@)[a].0 != entries_view(loaded@)[b].0 by {
                        if a != i && b != i {
                            assert(bp[a].0 != bp[b].0);
                        } else if a == i {
                            assert(bp[b].0 != bp[a].0);
                        } else {
                            assert(bp[a].0 != bp[b].0);
                        }
                    }
                }
            },
            None => {
                loaded.push((plugin_id, name, sandbox));
                proof {
                    let bp = before.plugins();
                    assert(entries_view(loaded@) =~= bp.push((plugin_id, name_v)));
                    assert forall|a: int, b: int| 0 <= a < b < entries_view(loaded@).len() implies
                        entries_view(loaded@)[a].0 != entries_view(loaded@)[b].0 by {
                        if b == bp.len() {
                            assert(bp[a].0 != plugin_id);
                        } else {
                            assert(bp[a].0 != bp[b].0);
                        }
                    }
                }
            },
        }
        subscriptions.subscribe(plugin_id, events);
        proof {
            let bp = before.plugins();
            let np = entries_view(loaded@);
            assert(bp.len() <= np.len());
            assert forall|j: int| 0 <= j < bp.len() implies np[j].0 == bp[j].0 by {
                match pos {
                    Some(i) => {
                        if j == i {
                            assert(bp[j].0 == plugin_id);
                        }
                    },
                    None => {},
                }
            }
            assert(is_loaded_in(np, plugin_id)) by {
                match pos {
                    Some(i) => {
                        assert(np[i as int].0 == plugin_id);
                    },
                    None => {
                        assert(np[bp.len() as int].0 == plugin_id);
                    },
                }
            }
            assert forall|e: Seq<char>, k: int|
                0 <= k < subscriptions.subscribers_of(e).len() implies is_loaded_in(
                np,
                #[trigger] subscriptions.subscribers_of(e)[k],
            ) by {
                let olds = before.subscribers_of(e);
                let n = occurrences(events@, e);
                lemma_repeat_len(plugin_id, n);
                if k < olds.len() {
                    assert((|e: Seq<char>| before.subscribers_of(e))(e) == olds);
                    assert(is_loaded_in(bp, olds[k]));
                    let j = choose|j: int| 0 <= j < bp.len() && bp[j].0 == olds[k];
                    assert(np[j].0 == olds[k]);
                } else {
                    lemma_repeat_is(plugin_id, n, k - olds.len());
                }
            }
        }
        *self = PluginTable { loaded, subscriptions };
        proof {
            match pos {
                Some(i) => {
                    assert(self.sandboxes_of() =~= before.sandboxes_of().update(i as int, sandbox_v));
                },
                None => {
                    assert(self.sandboxes_of() =~= before.sandboxes_of().push(sandbox_v));
                },
            }
        }
    }

    /// Forgets a loaded plugin, its sandbox and its subscriptions; returns
    /// its name, or `NotFound` when it is not loaded (then nothing changes).
    pub fn unload(&mut self, plugin_id: u128) -> (r: Result<String, PluginError>)
        ensures
            distinct_ids(final(self).plugins()),
            !is_loaded_in(final(self).plugins(), plugin_id),
            r is Ok <==> is_loaded_in(old(self).plugins(), plugin_id),
            r matches Err(e) ==> (e matches PluginError::NotFound(m) && m@ == uuid_text(plugin_id)),
            r is Err ==> final(self).plugins() == old(self).plugins() && forall|e: Seq<char>|
                #[trigger] final(self).subscribers_of(e)
                    == old(self).subscribers_of(e),
            r is Ok ==> exists|i: int|
                first_position(old(self).plugins(), plugin_id, i) && final(self).plugins()
                    == old(self).plugins().remove(i) && final(self).sandboxes_of() == old(
                    self,
                ).sandboxes_of().remove(i) && (r matches Ok(n) && n@ == old(self).plugins()[i].1),
            r is Ok ==> forall|e: Seq<char>| #[trigger]
                final(self).subscribers_of(e) == without(old(self).subscribers_of(e), plugin_id),
    {
        proof {
            use_type_invariant(&*self);
        }
        match self.position(plugin_id) {
            None => Err(not_found(plugin_id)),
            Some(i) => {
                let ghost table_before = *self;
                let ghost subs_before = self.subscriptions;
                let mut table: PluginTable<S> = PluginTable::new();
                std::mem::swap(self, &mut table);
                let PluginTable { mut loaded, mut subscriptions } = table;
                let (_, name, _) = loaded.remove(i);
                subscriptions.unsubscribe(plugin_id);
                proof {
                    let old_p = table_before.plugins();
                    let np = entries_view(loaded@);
                    assert(np =~= old_p.remove(i as int));
                    assert(name@ == old_p[i as int].1);
                    assert forall|a: int, b: int| 0 <= a < b < np.len() implies np[a].0 != np[b].0 by {
                        let a2 = if a < i { a } else { a + 1 };
                        let b2 = if b < i { b } else { b + 1 };
                        assert(np[a] == old_p[a2]);
                        assert(np[b] == old_p[b2]);
                    }
                    assert forall|k: int| 0 <= k < np.len() implies np[k].0 != plugin_id by {
                        let k2 = if k < i { k } else { k + 1 };
                        assert(np[k] == old_p[k2]);
                        assert(old_p[i as int].0 == plugin_id);
                    }
                    assert forall|e: Seq<char>, k: int|
                        0 <= k < subscriptions.subscribers_of(e).len() implies is_loaded_in(
                        np,
                        #[trigger] subscriptions.subscribers_of(e)[k],
                    ) by {
                        let olds = subs_before.subscribers_of(e);
                        lemma_without_keeps(olds, plugin_id, k);
                        let x = without(olds, plugin_id)[k];
                        let m = choose|m: int| 0 <= m < olds.len() && olds[m] == x;
                        assert((|e: Seq<char>| table_before.subscribers_of(e))(e) == olds);
                        assert(is_loaded_in(old_p, olds[m]));
                        let j = choose|j: int| 0 <= j < old_p.len() && old_p[j].0 == x;
                        assert(j != i);
                        let j2 = if j < i { j } else { j - 1 };
                        assert(np[j2] == old_p[j]);
                    }
                }
                *self = PluginTable { loaded, subscriptions };
                proof {
                    assert forall|e: Seq<char>| #[trigger] self.subscribers_of(e) == without(
                        subs_before.subscribers_of(e),
                        plugin_id,
                    ) by {
                        assert(self.subscriptions.subscribers_of(e) == without(
                            subs_before.subscribers_of(e),
                            plugin_id,
                        ));
                    }
                    assert(self.sandboxes_of() =~= table_before.sandboxes_of().remove(i as int));
                }
                Ok(name)
            },
        }
    }
}

/// Unloading a plugin that was just loaded gives the loaded plugins back:
/// for an ID not loaded before, its first position after loading is the
/// last one, and removing it leaves the plugins as they were.
pub proof fn law_unload_undoes_load(before: Seq<(u128, Seq<char>)>, plugin_id: u128, name: Seq<char>)
    requires
        !is_loaded_in(before, plugin_id),
    ensures
        forall|i: int| first_position(before.push((plugin_id, name)), plugin_id, i) <==> i == before.len(),
        before.push((plugin_id, name)).remove(before.len() as int) == before,
{
    let after = before.push((plugin_id, name));
    assert forall|i: int| first_position(after, plugin_id, i) <==> i == before.len() by {
        if first_position(after, plugin_id, i) && i < before.len() {
            assert(before[i].0 == plugin_id);
        }
        if i == before.len() {
            assert forall|j: int| 0 <= j < i implies after[j].0 != plugin_id by {
                assert(after[j] == before[j]);
            }
        }
    }
    assert(after.remove(before.len() as int) =~= before);
}

/// What calling the handler `handler` of plugin `plugin_id` does to a table
/// (`before` to `after`) and gives back (`r`).  Nothing is called, and
/// `None` comes back, exactly when the plugin is not loaded or its module
/// does not export the handler (see `callable_export`).  The outcome bears
/// the plugin's recorded name; a failure is classified by the name of its
/// sandbox.  The plugins and subscriptions stay as they are.
pub open spec fn handler_called(
    before: PluginTable<PluginSandbox>,
    after: PluginTable<PluginSandbox>,
    plugin_id: u128,
    handler: Seq<char>,
    r: Option<EventOutcome>,
) -> bool {
    &&& after.plugins() == before.plugins()
    &&& forall|e: Seq<char>| #[trigger] after.subscribers_of(e) == before.subscribers_of(e)
    &&& !is_loaded_in(before.plugins(), plugin_id) ==> r is None
    &&& forall|i: int|
        first_position(before.plugins(), plugin_id, i) ==> (r is None <==> !callable_export(
            before.sandboxes_of()[i].module_view(),
            handler,
        ))
    &&& r is None ==> after == before
    &&& r matches Some(o) ==> o.plugin_id == plugin_id && exists|i: int|
        first_position(before.plugins(), plugin_id, i) && o.plugin_name@ == before.plugins()[i].1
            && (o.result matches Err(e) ==> exists|msg: Seq<char>|
            call_error_kind(before.sandboxes_of()[i].name_view(), msg, e))
}

impl PluginTable<PluginSandbox> {
    /// Calls the handler `handler` of the loaded plugin `plugin_id` on
    /// `payload` (see `handler_called`).
    pub fn call_handler(&mut self, plugin_id: u128, handler: &str, payload: &[u8]) -> (r: Option<EventOutcome>)
        ensures
            handler_called(*old(self), *final(self), plugin_id, handler@, r),
    {
        match self.position(plugin_id) {
            None => None,
            Some(i) => {
                if !self.loaded[i].2.has_function(handler) {
                    return None;
                }
                proof {
                    use_type_invariant(&*self);
                }
                let ghost before = *self;
                let mut table: PluginTable<PluginSandbox> = PluginTable::new();
                std::mem::swap(self, &mut table);
                let PluginTable { mut loaded, subscriptions } = table;
                let (id, name, mut sandbox) = loaded.remove(i);
                let ghost loaded_sandbox = sandbox;
                let result = sandbox.call(handler, payload);
                let outcome_name = string_of(&chars_of(name.as_str()));
                let ghost name_v = name@;
                loaded.insert(i, (id, name, sandbox));
                assert(entries_view(loaded@) =~= before.plugins());
                proof {
                    assert forall|e: Seq<char>, k: int|
                        0 <= k < subscriptions.subscribers_of(e).len() implies is_loaded_in(
                        entries_view(loaded@),
                        #[trigger] subscriptions.subscribers_of(e)[k],
                    ) by {
                        assert((|e: Seq<char>| before.subscribers_of(e))(e) == subscriptions.subscribers_of(e));
                    }
                }
                *self = PluginTable { loaded, subscriptions };
                proof {
                    assert(self.plugins() =~= before.plugins());
                    assert(loaded_sandbox == before.sandboxes_of()[i as int]);
                }
                let ghost result_v = result;
                let out = EventOutcome { plugin_id, plugin_name: outcome_name, result };
                assert(out.plugin_name@ == name_v && out.result == result_v);
                Some(out)
            },
        }
    }
}

// ─── Event dispatch ────────────────────────────────────────────────────

/// An event on its way to its subscribers, one plugin at a time, in the
/// load order the subscriptions had when it started.
pub struct EventDispatch {
    handler: String,
    subscribers: Vec<u128>,
    next: usize,
}

impl EventDispatch {
    /// The position of the next subscriber is within the list.
    #[verifier::type_invariant]
    spec fn in_range(self) -> bool {
        self.next <= self.subscribers@.len()
    }

    /// The handler every subscriber is called with.
    pub closed spec fn handler_view(&self) -> Seq<char> {
        self.handler@
    }

    /// The subscribers not yet called, in order.
    pub closed spec fn remaining(&self) -> Seq<u128> {
        self.subscribers@.skip(self.next as int)
    }

    /// Starts dispatching `event`: to its subscribers at this moment, in
    /// load order, through their handler `handle_{event}`.
    pub fn start<S>(table: &PluginTable<S>, event: &str) -> (d: EventDispatch)
        ensures
            d.remaining() == table.subscribers_of(event@),
            d.handler_view() == "handle_"@ + event@,
    {
        let d = EventDispatch { handler: handler_name(event), subscribers: table.subscribers(event), next: 0 };
        assert(d.subscribers@.skip(0) =~= d.subscribers@);
        d
    }

    /// Whether every subscriber has been called.
    pub fn is_done(&self) -> (b: bool)
        ensures
            b == (self.remaining().len() == 0),
    {
        proof {
            use_type_invariant(self);
        }
        self.next >= self.subscribers.len()
    }

    /// Calls the handler of the next subscriber on `payload` (see
    /// `handler_called`) and moves past it: that subscriber and what came
    /// of the call, or `None`, with nothing changed, when every subscriber
    /// has been called.
    pub fn step(&mut self, table: &mut PluginTable<PluginSandbox>, payload: &[u8]) -> (r: Option<(u128, Option<EventOutcome>)>)
        ensures
            r is None <==> old(self).remaining().len() == 0,
            r is None ==> *final(self) == *old(self) && *final(table) == *old(table),
            r matches Some((id, o)) ==> {
                &&& id == old(self).remaining()[0]
                &&& final(self).remaining() == old(self).remaining().drop_first()
                &&& final(self).handler_view() == old(self).handler_view()
                &&& handler_called(*old(table), *final(table), id, old(self).handler_view(), o)
            },
    {
        proof {
            use_type_invariant(&*self);
        }
        if self.next >= self.subscribers.len() {
            return None;
        }
        let id = self.subscribers[self.next];
        let outcome = table.call_handler(id, self.handler.as_str(), payload);
        proof {
            assert(self.subscribers@.skip(self.next as int).drop_first() =~= self.subscribers@.skip(
                self.next + 1,
            ));
        }
        self.next = self.next + 1;
        Some((id, outcome))
    }
}

// ─── Host requests returned by plugins ─────────────────────────────────

/// A host-function request a plugin returns after handling an event; `args`
/// are its string-valued arguments.
#[derive(Debug, Clone)]
pub struct HostRequest {
    pub function: String,
    pub args: Vec<(String, String)>,
}

/// What the registry does for a host request.
#[derive(Debug, Clone)]
pub enum HostAction {
    SetTrackMetadata { track_id: String, field: String, value: String },
    SetTrackLyrics { track_id: String, lyrics: String },
    SetConfig { key: String, value: String },
    LogInfo { message: String },
    LogWarn { message: String },
    LogError { message: String },
    EmitEvent { event_name: String, payload: String },
    /// An unknown function: ignored.
    Unknown { function: String },
}

/// The value of argument `key`: that of its first occurrence, or empty.
pub open spec fn arg_value(args: Seq<(String, String)>, key: Seq<char>) -> Seq<char>
    decreases args.len(),
{
    if args.len() == 0 {
        seq![]
    } else if args[0].0@ == key {
        args[0].1@
    } else {
        arg_value(args.drop_first(), key)
    }
}

/// Reads argument `key` of a request (empty when absent).
pub fn arg(args: &Vec<(String, String)>, key: &str) -> (v: String)
    ensures
        v@ == arg_value(args@, key@),
{
    let mut i: usize = 0;
    proof {
        assert(args@.skip(0) =~= args@);
    }
    while i < args.len()
        invariant
            i <= args@.len(),
            arg_value(args@, key@) == arg_value(args@.skip(i as int), key@),
        decreases args.len() - i,
    {
        proof {
            assert(args@.skip(i as int).drop_first() =~= args@.skip(i + 1));
            assert(args@.skip(i as int)[0] == args@[i as int]);
        }
        if str_eq(args[i].0.as_str(), key) {
            return string_of(&chars_of(args[i].1.as_str()));
        }
        i = i + 1;
    }
    proof {
        assert(args@.skip(i as int) =~= Seq::<(String, String)>::empty());
    }
    string_of(&Vec::new())
}

/// The action for a request, by function name.
pub open spec fn action_for(req: HostRequest, a: HostAction) -> bool {
    let f = req.function@;
    let arg = |k: Seq<char>| arg_value(req.args@, k);
    if f == "set_track_metadata"@ {
        a matches HostAction::SetTrackMetadata { track_id, field, value } && track_id@ == arg(
            "track_id"@,
        ) && field@ == arg("field"@) && value@ == arg("value"@)
    } else if f == "set_track_lyrics"@ {
        a matches HostAction::SetTrackLyrics { track_id, lyrics } && track_id@ == arg("track_id"@)
            && lyrics@ == arg("lyrics"@)
    } else if f == "set_config"@ {
        a matches HostAction::SetConfig { key, value } && key@ == arg("key"@) && value@ == arg(
            "value"@,
        )
    } else if f == "log_info"@ {
        a matches HostAction::LogInfo { message } && message@ == arg("message"@)
    } else if f == "log_warn"@ {
        a matches HostAction::LogWarn { message } && message@ == arg("message"@)
    } else if f == "log_error"@ {
        a matches HostAction::LogError { message } && message@ == arg("message"@)
    } else if f == "emit_event"@ {
        a matches HostAction::EmitEvent { event_name, payload } && event_name@ == arg(
            "event_name"@,
        ) && payload@ == arg("payload"@)
    } else {
        a matches HostAction::Unknown { function } && function@ == f
    }
}

/// Decides what to do for a host request.
pub fn plan_host_request(req: &HostRequest) -> (a: HostAction)
    ensures
        action_for(*req, a),
{
    let f = req.function.as_str();
    if str_eq(f, "set_track_metadata") {
        HostAction::SetTrackMetadata {
            track_id: arg(&req.args, "track_id"),
            field: arg(&req.args, "field"),
            value: arg(&req.args, "value"),
        }
    } else if str_eq(f, "set_track_lyrics") {
        HostAction::SetTrackLyrics {
            track_id: arg(&req.args, "track_id"),
            lyrics: arg(&req.args, "lyrics"),
        }
    } else if str_eq(f, "set_config") {
        HostAction::SetConfig { key: arg(&req.args, "key"), value: arg(&req.args, "value") }
    } else if str_eq(f, "log_info") {
        HostAction::LogInfo { message: arg(&req.args, "message") }
    } else if str_eq(f, "log_warn") {
        HostAction::LogWarn { message: arg(&req.args, "message") }
    } else if str_eq(f, "log_error") {
        HostAction::LogError { message: arg(&req.args, "message") }
    } else if str_eq(f, "emit_event") {
        HostAction::EmitEvent {
            event_name: arg(&req.args, "event_name"),
            payload: arg(&req.args, "payload"),
        }
    } else {
        HostAction::Unknown { function: string_of(&chars_of(f)) }
    }
}

/// Decides what to do for each host request a plugin returned, in the order
/// it returned them (unknown functions become `HostAction::Unknown`, which
/// the executor skips).
pub fn plan_host_requests(reqs: &Vec<HostRequest>) -> (r: Vec<HostAction>)
    ensures
        r@.len() == reqs@.len(),
        forall|i: int| 0 <= i < reqs@.len() ==> action_for(#[trigger] reqs@[i], r@[i]),
{
    let mut r: Vec<HostAction> = Vec::new();
    let mut i: usize = 0;
    while i < reqs.len()
        invariant
            i <= reqs@.len(),
            r@.len() == i,
            forall|j: int| 0 <= j < i ==> action_for(#[trigger] reqs@[j], r@[j]),
        decreases reqs.len() - i,
    {
        r.push(plan_host_request(&reqs[i]));
        i = i + 1;
    }
    r
}

// ─── Handler names and execution labels ────────────────────────────────

/// The name of the WASM function handling an event: `handle_{event}`.
pub fn handler_name(event: &str) -> (n: String)
    ensures
        n@ == "handle_"@ + event@,
{
    let mut v: Vec<char> = Vec::new();
    push_str(&mut v, "handle_");
    push_str(&mut v, event);
    string_of(&v)
}

/// The label an event execution is logged with: `success`, `timeout` for
/// fuel exhaustion, `error` otherwise.
pub open spec fn outcome_label(r: Result<(), PluginError>) -> Seq<char> {
    match r {
        Ok(_) => "success"@,
        Err(PluginError::FuelExhausted(_)) => "timeout"@,
        Err(_) => "error"@,
    }
}

/// Labels the outcome of an event handler call.
pub fn execution_label(r: &Result<(), PluginError>) -> (s: &'static str)
    ensures
        s@ == outcome_label(*r),
{
    match r {
        Ok(_) => "success",
        Err(PluginError::FuelExhausted(_)) => "timeout",
        Err(_) => "error",
    }
}

/// Whether event executions are logged: unless the setting
/// (`PLUGIN_LOG_EVENTS`) is present and is not exactly `true`.
pub fn log_events_enabled(setting: Option<&str>) -> (b: bool)
    ensures
        b == match setting {
            None => true,
            Some(s) => s@ == "true"@,
        },
{
    match setting {
        None => true,
        Some(s) => str_eq(s, "true"),
    }
}

/// The directory holding installed plugins: the setting (`PLUGIN_DIR`), or
/// `/data/plugins`.
pub fn plugin_dir(setting: Option<&str>) -> (d: String)
    ensures
        d@ == match setting {
            None => "/data/plugins"@,
            Some(s) => s@,
        },
{
    match setting {
        None => string_of(&chars_of("/data/plugins")),
        Some(s) => string_of(&chars_of(s)),
    }
}

} // verus!
