//! Instance administration: settings, the domain blocklist and its import,
//! known remote instances, user roles and bans, and status reports.
use vstd::prelude::*;

use crate::netguard::opt_view;
use crate::paths::{lowercase_of, unicode_lowercase};
use crate::text::{chars_of, str_eq, string_of, trim, trim_str};

verus! {

/// One instance setting.
#[derive(Debug, Clone)]
pub struct SettingResponse {
    pub key: String,
    pub value: String,
}

/// A new value for a setting.
#[derive(Debug, Clone)]
pub struct UpdateSettingRequest {
    pub value: String,
}

/// A domain to block.
#[derive(Debug, Clone)]
pub struct BlockDomainRequest {
    pub domain: String,
    pub reason: Option<String>,
}

/// One entry of an imported blocklist.
#[derive(Debug, Clone)]
pub struct ImportDomainEntry {
    pub domain: String,
    pub reason: Option<String>,
}

/// How many imported domains were added and skipped.
#[derive(Debug, Clone, Copy, PartialEq, Eq, Structural)]
pub struct ImportResult {
    pub imported: usize,
    pub skipped: usize,
}

/// Instance counters.
#[derive(Debug, Clone)]
pub struct AdminStats {
    pub total_users: u64,
    pub total_tracks: u64,
    pub total_blocked_domains: u64,
    pub total_remote_tracks: u64,
    pub p2p_enabled: bool,
    pub p2p_node_id: Option<String>,
}

/// A remote instance known from the tracks it serves.
#[derive(Debug, Clone)]
pub struct KnownInstance {
    pub domain: String,
    pub track_count: usize,
    pub is_blocked: bool,
}

/// A new role for a user.
#[derive(Debug, Clone)]
pub struct UpdateUserRoleRequest {
    pub role: String,
}

/// Why a user is banned.
#[derive(Debug, Clone)]
pub struct BanUserRequest {
    pub reason: Option<String>,
}

/// How far metadata enrichment has got.
#[derive(Debug, Clone, Copy, PartialEq, Eq, Structural)]
pub struct MetadataStatusResponse {
    pub total_tracks: u64,
    pub enriched_tracks: u64,
    pub pending_tracks: u64,
    pub tracks_with_bitrate: u64,
    pub total_albums: u64,
    pub albums_with_cover: u64,
    pub total_remote_tracks: u64,
    pub available_remote_tracks: u64,
}

/// Where audio is stored and how much of it there is.
#[derive(Debug, Clone)]
pub struct StorageStatusResponse {
    pub backend: String,
    pub total_tracks: u64,
    pub total_size_bytes: i64,
    pub storage_path_or_bucket: String,
}

// ─── Roles and bans ────────────────────────────────────────────────────

/// A user's role.
#[derive(Debug, Clone, Copy, PartialEq, Eq, Structural)]
pub enum Role {
    Admin,
    User,
}

/// Reads a role name: `admin` or `user`; anything else is refused.
pub fn parse_role(role: &str) -> (r: Result<Role, &'static str>)
    ensures
        role@ == "admin"@ ==> r == Ok::<Role, &'static str>(Role::Admin),
        role@ == "user"@ ==> r == Ok::<Role, &'static str>(Role::User),
        role@ != "admin"@ && role@ != "user"@ ==> (r matches Err(m) && m@
            == "Invalid role. Use 'admin' or 'user'"@),
{
    proof {
        reveal_strlit("admin");
        reveal_strlit("user");
        assert("user"@.len() != "admin"@.len());
    }
    if str_eq(role, "admin") {
        Ok(Role::Admin)
    } else if str_eq(role, "user") {
        Ok(Role::User)
    } else {
        Err("Invalid role. Use 'admin' or 'user'")
    }
}

/// Administrators cannot be banned.
pub fn check_ban(target: Role) -> (r: Result<(), &'static str>)
    ensures
        r is Ok <==> target == Role::User,
        r matches Err(m) ==> m@ == "Cannot ban an admin user"@,
{
    match target {
        Role::Admin => Err("Cannot ban an admin user"),
        Role::User => Ok(()),
    }
}

// ─── Blocklist import ──────────────────────────────────────────────────

/// The form a domain is stored in: trimmed and lowercased.
pub open spec fn normal_domain(d: Seq<char>) -> Seq<char> {
    unicode_lowercase(trim(d))
}

/// Whether `d` is among `list`.
pub open spec fn listed(list: Seq<String>, d: Seq<char>) -> bool {
    exists|i: int| 0 <= i < list.len() && list[i]@ == d
}

/// The domains an import adds, in order: each entry's normal form, unless
/// it is empty or already blocked before the import.
pub open spec fn imported_domains(entries: Seq<ImportDomainEntry>, blocked: Seq<String>) -> Seq<(Seq<char>, Option<Seq<char>>)>
    decreases entries.len(),
{
    if entries.len() == 0 {
        seq![]
    } else {
        let prev = imported_domains(entries.drop_last(), blocked);
        let e = entries.last();
        let d = normal_domain(e.domain@);
        if d.len() == 0 || listed(blocked, d) {
            prev
        } else {
            prev.push((d, opt_view(e.reason)))
        }
    }
}

/// The domains to add from an imported blocklist, with their reasons.
pub struct ImportPlan {
    pub to_block: Vec<(String, Option<String>)>,
    pub result: ImportResult,
}

fn is_listed(list: &Vec<String>, d: &str) -> (b: bool)
    ensures
        b == listed(list@, d@),
{
    let mut i: usize = 0;
    while i < list.len()
        invariant
            i <= list@.len(),
            forall|j: int| 0 <= j < i ==> list@[j]@ != d@,
        decreases list.len() - i,
    {
        if str_eq(list[i].as_str(), d) {
            return true;
        }
        i = i + 1;
    }
    false
}

/// Plans an import: each entry's domain is trimmed and lowercased; empty
/// ones and those blocked before the import are skipped, the others are
/// added with their reason.  Every entry counts as imported or skipped.
pub fn plan_import(entries: &Vec<ImportDomainEntry>, blocked: &Vec<String>) -> (p: ImportPlan)
    ensures
        p.to_block@.map_values(|x: (String, Option<String>)| (x.0@, opt_view(x.1)))
            == imported_domains(entries@, blocked@),
        p.result.imported == p.to_block@.len(),
        p.result.imported + p.result.skipped == entries@.len(),
{
    let mut to_block: Vec<(String, Option<String>)> = Vec::new();
    let mut skipped: usize = 0;
    let mut i: usize = 0;
    while i < entries.len()
        invariant
            i <= entries@.len(),
            to_block@.map_values(|x: (String, Option<String>)| (x.0@, opt_view(x.1)))
                == imported_domains(entries@.take(i as int), blocked@),
            to_block@.len() + skipped == i,
        decreases entries.len() - i,
    {
        proof {
            assert(entries@.take(i + 1).drop_last() =~= entries@.take(i as int));
            assert(entries@.take(i + 1).last() == entries@[i as int]);
        }
        let trimmed = string_of(&trim_str(entries[i].domain.as_str()));
        let domain = lowercase_of(trimmed.as_str());
        if domain.as_str().is_empty() || is_listed(blocked, domain.as_str()) {
            skipped = skipped + 1;
        } else {
            let reason = match &entries[i].reason {
                Some(r) => Some(string_of(&chars_of(r.as_str()))),
                None => None,
            };
            let ghost before = to_block@;
            to_block.push((domain, reason));
            proof {
                assert(to_block@.map_values(|x: (String, Option<String>)| (x.0@, opt_view(x.1)))
                    =~= before.map_values(|x: (String, Option<String>)| (x.0@, opt_view(x.1))).push(
                    (to_block@.last().0@, opt_view(to_block@.last().1)),
                ));
            }
        }
        i = i + 1;
    }
    proof {
        assert(entries@.take(entries@.len() as int) =~= entries@);
    }
    let imported = to_block.len();
    ImportPlan { to_block, result: ImportResult { imported, skipped } }
}

// ─── Known instances ───────────────────────────────────────────────────

/// How many entries of `domains` are `d`.
pub open spec fn occurrences(domains: Seq<String>, d: Seq<char>) -> nat
    decreases domains.len(),
{
    if domains.len() == 0 {
        0
    } else {
        occurrences(domains.drop_last(), d) + if domains.last()@ == d {
            1nat
        } else {
            0nat
        }
    }
}

/// `r` lists the known instances of the remote tracks whose instance
/// domains are `domains`: each domain once, with its number of tracks and
/// whether it is blocked, the instances with most tracks first (the order
/// among equal counts is left open).
pub open spec fn lists_instances(r: Seq<KnownInstance>, domains: Seq<String>, blocked: Seq<String>) -> bool {
    &&& forall|i: int| 0 <= i < r.len() ==> {
        &&& (#[trigger] r[i]).track_count == occurrences(domains, r[i].domain@)
        &&& r[i].track_count > 0
        &&& r[i].is_blocked == listed(blocked, r[i].domain@)
    }
    &&& forall|j: int| 0 <= j < domains.len() ==> exists|i: int| 0 <= i < r.len() && (#[trigger] r[i]).domain@ == (#[trigger] domains[j])@
    &&& forall|i: int, k: int| 0 <= i < k < r.len() ==> (#[trigger] r[i]).domain@ != (#[trigger] r[k]).domain@
    &&& forall|i: int, k: int| 0 <= i < k < r.len() ==> (#[trigger] r[i]).track_count >= (#[trigger] r[k]).track_count
}

/// `h` is one of the entries of `order`.
spec fn placed(order: Seq<usize>, h: int) -> bool {
    exists|p: int| 0 <= p < order.len() && order[p] == h
}

fn key_index(keys: &Vec<String>, d: &str) -> (r: Option<usize>)
    ensures
        match r {
            Some(k) => k < keys@.len() && keys@[k as int]@ == d@,
            None => forall|k: int| 0 <= k < keys@.len() ==> keys@[k]@ != d@,
        },
{
    let mut i: usize = 0;
    while i < keys.len()
        invariant
            i <= keys@.len(),
            forall|k: int| 0 <= k < i ==> keys@[k]@ != d@,
        decreases keys.len() - i,
    {
        if str_eq(keys[i].as_str(), d) {
            return Some(i);
        }
        i = i + 1;
    }
    None
}

/// The instances the remote tracks come from (see `lists_instances`):
/// `domains` holds each remote track's instance domain, `blocked` the
/// blocked domains.
pub fn known_instances(domains: &Vec<String>, blocked: &Vec<String>) -> (r: Vec<KnownInstance>)
    ensures
        lists_instances(r@, domains@, blocked@),
{
    // Count the tracks of each domain, in order of first appearance.
    let mut keys: Vec<String> = Vec::new();
    let mut counts: Vec<usize> = Vec::new();
    let mut i: usize = 0;
    while i < domains.len()
        invariant
            i <= domains@.len(),
            keys@.len() == counts@.len(),
            forall|a: int, b: int| 0 <= a < b < keys@.len() ==> (#[trigger] keys@[a])@ != (#[trigger] keys@[b])@,
            forall|k: int| 0 <= k < keys@.len() ==> (#[trigger] counts@[k]) == occurrences(domains@.take(i as int), keys@[k]@),
            forall|k: int| 0 <= k < keys@.len() ==> 0 < #[trigger] counts@[k] <= i,
            forall|j: int| 0 <= j < i ==> exists|k: int| 0 <= k < keys@.len() && (#[trigger] keys@[k])@ == (#[trigger] domains@[j])@,
        decreases domains.len() - i,
    {
        let d = &domains[i];
        let ghost pre = domains@.take(i as int);
        let ghost post = domains@.take(i + 1);
        proof {
            assert(post.drop_last() =~= pre);
            assert(post.last() == domains@[i as int]);
        }
        match key_index(&keys, d.as_str()) {
            Some(k) => {
                let c = counts[k];
                counts.set(k, c + 1);
                proof {
                    assert forall|q: int| 0 <= q < keys@.len() implies (#[trigger] counts@[q]) == occurrences(post, keys@[q]@) by {
                        assert(occurrences(post, keys@[q]@) == occurrences(pre, keys@[q]@) + if post.last()@ == keys@[q]@ { 1nat } else { 0nat });
                        if q != k {
                            assert(keys@[q]@ != keys@[k as int]@);
                        }
                    }
                    assert forall|j: int| 0 <= j < i + 1 implies exists|q: int| 0 <= q < keys@.len() && (#[trigger] keys@[q])@ == (#[trigger] domains@[j])@ by {
                        if j == i {
                            assert(keys@[k as int]@ == domains@[j]@);
                        }
                    }
                }
            },
            None => {
                let ghost old_keys = keys@;
                keys.push(d.clone());
                counts.push(1);
                proof {
                    assert(keys@[keys@.len() - 1]@ == d@);
                    assert forall|q: int| 0 <= q < keys@.len() implies (#[trigger] counts@[q]) == occurrences(post, keys@[q]@) by {
                        assert(occurrences(post, keys@[q]@) == occurrences(pre, keys@[q]@) + if post.last()@ == keys@[q]@ { 1nat } else { 0nat });
                        if q == keys@.len() - 1 {
                            lemma_no_occurrences(pre, d@);
                        } else {
                            assert(keys@[q] == old_keys[q]);
                        }
                    }
                    assert forall|a: int, b: int| 0 <= a < b < keys@.len() implies (#[trigger] keys@[a])@ != (#[trigger] keys@[b])@ by {
                        if b == keys@.len() - 1 {
                            assert(keys@[a] == old_keys[a]);
                        } else {
                            assert(keys@[a] == old_keys[a]);
                            assert(keys@[b] == old_keys[b]);
                        }
                    }
                    assert forall|j: int| 0 <= j < i + 1 implies exists|q: int| 0 <= q < keys@.len() && (#[trigger] keys@[q])@ == (#[trigger] domains@[j])@ by {
                        if j == i {
                            assert(keys@[keys@.len() - 1]@ == domains@[j]@);
                        } else {
                            let q = choose|q: int| 0 <= q < old_keys.len() && (#[trigger] old_keys[q])@ == domains@[j]@;
                            assert(keys@[q] == old_keys[q]);
                        }
                    }
                }
            },
        }
        i = i + 1;
    }
    proof {
        assert(domains@.take(domains@.len() as int) =~= domains@);
    }
    // Order the domains by count, most first (ties keep their order).
    let m = keys.len();
    let mut order: Vec<usize> = Vec::new();
    let mut g: usize = 0;
    while g < m
        invariant
            m == keys@.len(),
            m == counts@.len(),
            g <= m,
            order@.len() == g,
            forall|p: int| 0 <= p < order@.len() ==> (#[trigger] order@[p]) < g,
            forall|p: int, q: int| 0 <= p < q < order@.len() ==> (#[trigger] order@[p]) != (#[trigger] order@[q]),
            forall|h: int| 0 <= h < g ==> #[trigger] placed(order@, h),
            forall|p: int, q: int| 0 <= p < q < order@.len() ==> counts@[(#[trigger] order@[p]) as int] >= counts@[(#[trigger] order@[q]) as int],
        decreases m - g,
    {
        let c = counts[g];
        let mut pos: usize = 0;
        while pos < order.len() && counts[order[pos]] >= c
            invariant
                pos <= order@.len(),
                m == counts@.len(),
                forall|p: int| 0 <= p < order@.len() ==> (#[trigger] order@[p]) < m,
                forall|p: int| 0 <= p < pos ==> counts@[(#[trigger] order@[p]) as int] >= c,
            decreases order.len() - pos,
        {
            pos = pos + 1;
        }
        let ghost before = order@;
        order.insert(pos, g);
        proof {
            assert(order@ == before.insert(pos as int, g));
            assert forall|p: int| pos <= p < before.len() implies counts@[(#[trigger] before[p]) as int] < c by {
                if p > pos {
                    assert(counts@[before[pos as int] as int] >= counts@[before[p] as int]);
                }
            }
            assert forall|p: int, q: int| 0 <= p < q < order@.len() implies counts@[(#[trigger] order@[p]) as int] >= counts@[(#[trigger] order@[q]) as int] by {
                if q < pos {
                    assert(order@[p] == before[p] && order@[q] == before[q]);
                } else if q == pos {
                    assert(order@[p] == before[p]);
                } else if p < pos {
                    assert(order@[p] == before[p] && order@[q] == before[q - 1]);
                } else if p == pos {
                    assert(order@[q] == before[q - 1]);
                } else {
                    assert(order@[p] == before[p - 1] && order@[q] == before[q - 1]);
                }
            }
            assert forall|p: int, q: int| 0 <= p < q < order@.len() implies (#[trigger] order@[p]) != (#[trigger] order@[q]) by {
                if q < pos {
                    assert(order@[p] == before[p] && order@[q] == before[q]);
                } else if q == pos {
                    assert(order@[p] == before[p]);
                } else if p < pos {
                    assert(order@[p] == before[p] && order@[q] == before[q - 1]);
                } else if p == pos {
                    assert(order@[q] == before[q - 1]);
                } else {
                    assert(order@[p] == before[p - 1] && order@[q] == before[q - 1]);
                }
            }
            assert forall|h: int| 0 <= h < g + 1 implies #[trigger] placed(order@, h) by {
                if h == g {
                    assert(order@[pos as int] == h);
                } else {
                    assert(placed(before, h));
                    let p0 = choose|p: int| 0 <= p < before.len() && #[trigger] before[p] == h;
                    if p0 < pos {
                        assert(order@[p0] == h);
                    } else {
                        assert(order@[p0 + 1] == h);
                    }
                }
            }
        }
        g = g + 1;
    }
    // List them.
    let mut r: Vec<KnownInstance> = Vec::new();
    let mut p: usize = 0;
    while p < m
        invariant
            p <= m,
            m == keys@.len(),
            m == counts@.len(),
            order@.len() == m,
            forall|q: int| 0 <= q < order@.len() ==> (#[trigger] order@[q]) < m,
            r@.len() == p,
            forall|q: int| 0 <= q < p ==> {
                &&& (#[trigger] r@[q]).domain@ == keys@[order@[q] as int]@
                &&& r@[q].track_count == counts@[order@[q] as int]
                &&& r@[q].is_blocked == listed(blocked@, keys@[order@[q] as int]@)
            },
        decreases m - p,
    {
        let k = order[p];
        let domain = keys[k].clone();
        let is_blocked = is_listed(blocked, keys[k].as_str());
        r.push(KnownInstance { domain, track_count: counts[k], is_blocked });
        p = p + 1;
    }
    proof {
        assert forall|j: int| 0 <= j < domains@.len() implies exists|i: int| 0 <= i < r@.len() && (#[trigger] r@[i]).domain@ == (#[trigger] domains@[j])@ by {
            let k = choose|k: int| 0 <= k < keys@.len() && (#[trigger] keys@[k])@ == domains@[j]@;
            assert(placed(order@, k));
            let q = choose|q: int| 0 <= q < order@.len() && #[trigger] order@[q] == k;
            assert(r@[q].domain@ == domains@[j]@);
        }
        assert forall|a: int, b: int| 0 <= a < b < r@.len() implies (#[trigger] r@[a]).domain@ != (#[trigger] r@[b]).domain@ by {
            assert(order@[a] != order@[b]);
        }
        assert forall|a: int, b: int| 0 <= a < b < r@.len() implies (#[trigger] r@[a]).track_count >= (#[trigger] r@[b]).track_count by {
            assert(counts@[order@[a] as int] >= counts@[order@[b] as int]);
        }
        assert forall|a: int| 0 <= a < r@.len() implies {
            &&& (#[trigger] r@[a]).track_count == occurrences(domains@, r@[a].domain@)
            &&& r@[a].track_count > 0
            &&& r@[a].is_blocked == listed(blocked@, r@[a].domain@)
        } by {
            let k = order@[a] as int;
            assert(counts@[k] == occurrences(domains@, keys@[k]@));
        }
    }
    r
}

proof fn lemma_no_occurrences(domains: Seq<String>, d: Seq<char>)
    requires
        forall|j: int| 0 <= j < domains.len() ==> domains[j]@ != d,
    ensures
        occurrences(domains, d) == 0,
    decreases domains.len(),
{
    if domains.len() > 0 {
        lemma_no_occurrences(domains.drop_last(), d);
    }
}

} // verus!
