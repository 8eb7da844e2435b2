//! Peer-to-peer network views: node status, peer management messages, the
//! network graph, and distributed search parameters.
use vstd::prelude::*;

use crate::text::{char_width, chars_of, dec, is_prefix, matches_at, push_decimal, push_str, string_of, trim, trim_str};

verus! {

/// The node's peer-to-peer status.
#[derive(Debug, Clone)]
pub struct P2pStatus {
    pub enabled: bool,
    pub node_id: Option<String>,
    pub relay_url: Option<String>,
    pub relay_connected: bool,
    pub direct_addresses: usize,
    pub peer_count: usize,
    pub online_peer_count: usize,
}

impl P2pStatus {
    /// The status of an instance without a peer-to-peer node.
    pub fn disabled() -> (s: Self)
        ensures
            !s.enabled && s.node_id is None && s.relay_url is None && !s.relay_connected,
            s.direct_addresses == 0 && s.peer_count == 0 && s.online_peer_count == 0,
    {
        P2pStatus {
            enabled: false,
            node_id: None,
            relay_url: None,
            relay_connected: false,
            direct_addresses: 0,
            peer_count: 0,
            online_peer_count: 0,
        }
    }

    /// The status of a running node; it is connected to a relay when it has
    /// a relay URL.
    pub fn running(
        node_id: String,
        relay_url: Option<String>,
        direct_addresses: usize,
        peer_count: usize,
        online_peer_count: usize,
    ) -> (s: Self)
        ensures
            s.enabled && s.node_id == Some(node_id) && s.relay_url == relay_url,
            s.relay_connected == relay_url is Some,
            s.direct_addresses == direct_addresses && s.peer_count == peer_count
                && s.online_peer_count == online_peer_count,
    {
        let relay_connected = relay_url.is_some();
        P2pStatus {
            enabled: true,
            node_id: Some(node_id),
            relay_url,
            relay_connected,
            direct_addresses,
            peer_count,
            online_peer_count,
        }
    }
}

/// A peer to add, by node ID.
#[derive(Debug, Clone)]
pub struct AddPeerRequest {
    pub node_id: String,
}

/// A plain message answer.
#[derive(Debug, Clone)]
pub struct MessageResponse {
    pub message: String,
}

/// The answer while no peer-to-peer node runs.
pub const P2P_DISABLED: &'static str = "P2P node is not enabled";

/// The answer to a node ID that does not parse.
pub const INVALID_NODE_ID: &'static str = "Invalid node ID format";

/// How a peer answered the ping sent when it was added.
#[derive(Debug, Clone)]
pub enum PingOutcome {
    /// It answered `Pong` with its number of tracks.
    Pong { track_count: u64 },
    /// It answered something else.
    Unexpected,
    /// The ping failed, with this error.
    Failed { error: String },
}

/// The message after adding a peer, by how it answered its ping.
pub open spec fn add_peer_text(node_id: Seq<char>, outcome: PingOutcome) -> Seq<char> {
    match outcome {
        PingOutcome::Pong { track_count } => "peer "@ + node_id + " added and responded to ping ("@
            + dec(track_count as nat) + " tracks)"@,
        PingOutcome::Unexpected => "peer "@ + node_id + " added (unexpected response type)"@,
        PingOutcome::Failed { error } => "peer "@ + node_id + " added but ping failed: "@ + error@,
    }
}

/// Words the result of adding a peer.
pub fn add_peer_message(node_id: &str, outcome: &PingOutcome) -> (m: MessageResponse)
    ensures
        m.message@ == add_peer_text(node_id@, *outcome),
{
    let mut v: Vec<char> = Vec::new();
    push_str(&mut v, "peer ");
    push_str(&mut v, node_id);
    match outcome {
        PingOutcome::Pong { track_count } => {
            push_str(&mut v, " added and responded to ping (");
            push_decimal(&mut v, *track_count);
            push_str(&mut v, " tracks)");
        },
        PingOutcome::Unexpected => {
            push_str(&mut v, " added (unexpected response type)");
        },
        PingOutcome::Failed { error } => {
            push_str(&mut v, " added but ping failed: ");
            push_str(&mut v, error.as_str());
        },
    }
    MessageResponse { message: string_of(&v) }
}

/// Words the removal of a peer.
pub fn remove_peer_message(node_id: &str) -> (m: MessageResponse)
    ensures
        m.message@ == "peer "@ + node_id@ + " removed"@,
{
    let mut v: Vec<char> = Vec::new();
    push_str(&mut v, "peer ");
    push_str(&mut v, node_id);
    push_str(&mut v, " removed");
    MessageResponse { message: string_of(&v) }
}

// ─── Distributed search ────────────────────────────────────────────────

/// A search across the peer-to-peer network.
#[derive(Debug, Clone)]
pub struct NetworkSearchQuery {
    pub q: String,
    pub limit: Option<u32>,
}

impl NetworkSearchQuery {
    /// What is searched for: the query trimmed, or `None` when blank (then
    /// nothing is searched and no result comes back).
    pub fn text(&self) -> (t: Option<String>)
        ensures
            match t {
                Some(x) => x@ == trim(self.q@) && x@.len() > 0,
                None => trim(self.q@).len() == 0,
            },
    {
        let v = trim_str(self.q.as_str());
        if v.len() == 0 {
            None
        } else {
            Some(string_of(&v))
        }
    }

    /// The number of results asked for: `limit` (default 20), at most 100.
    pub fn result_limit(&self) -> (n: u32)
        ensures
            n == match self.limit {
                Some(l) => if l > 100 {
                    100
                } else {
                    l
                },
                None => 20,
            },
    {
        let l = match self.limit {
            Some(l) => l,
            None => 20,
        };
        if l > 100 {
            100
        } else {
            l
        }
    }
}

// ─── Network graph ─────────────────────────────────────────────────────

/// A node of the network graph.
#[derive(Debug, Clone)]
pub struct NetworkGraphNode {
    pub id: String,
    /// `self`, `peer` or `relay`.
    pub node_type: String,
    pub label: String,
    pub online: bool,
    pub track_count: Option<u64>,
    pub version: Option<String>,
}

/// A link of the network graph.
#[derive(Debug, Clone)]
pub struct NetworkGraphLink {
    pub source: String,
    pub target: String,
    /// `relay`, `direct` or `peer`.
    pub link_type: String,
}

/// The network as seen from this node.
#[derive(Debug, Clone)]
pub struct NetworkGraph {
    pub nodes: Vec<NetworkGraphNode>,
    pub links: Vec<NetworkGraphLink>,
}

/// A known peer, as the peer registry lists it.
#[derive(Debug, Clone)]
pub struct PeerView {
    pub node_id: String,
    pub name: Option<String>,
    pub is_online: bool,
    pub track_count: u64,
    pub version: Option<String>,
}

/// The longest prefix of `s` whose UTF-8 encoding has at most `n` bytes.
pub open spec fn byte_prefix(s: Seq<char>, n: nat) -> Seq<char>
    decreases s.len(),
{
    if s.len() == 0 || char_width(s[0]) > n {
        seq![]
    } else {
        seq![s[0]] + byte_prefix(s.drop_first(), (n - char_width(s[0])) as nat)
    }
}

/// An ID shortened for display: its first 8 bytes, when it is longer.
pub open spec fn short_id(id: Seq<char>) -> Seq<char> {
    if crate::text::width_sum(id) > 8 {
        byte_prefix(id, 8)
    } else {
        id
    }
}

/// An ID may be shortened: when longer than 8 bytes, its 8th byte ends a
/// character (else cutting it would not be valid text).
pub open spec fn shortenable(id: Seq<char>) -> bool {
    crate::text::width_sum(id) > 8 ==> crate::text::width_sum(byte_prefix(id, 8)) == 8
}

proof fn lemma_width_sum_push(s: Seq<char>, c: char)
    ensures
        crate::text::width_sum(s.push(c)) == crate::text::width_sum(s) + char_width(c),
    decreases s.len(),
{
    if s.len() == 0 {
        assert(s.push(c).drop_first() =~= Seq::<char>::empty());
        assert(s.push(c)[0] == c);
        assert(crate::text::width_sum(Seq::<char>::empty()) == 0);
    } else {
        assert(s.push(c).drop_first() =~= s.drop_first().push(c));
        assert(s.push(c)[0] == s[0]);
        lemma_width_sum_push(s.drop_first(), c);
    }
}

proof fn lemma_width_sum_split(s: Seq<char>, j: int)
    requires
        0 <= j <= s.len(),
    ensures
        crate::text::width_sum(s) == crate::text::width_sum(s.take(j)) + crate::text::width_sum(s.skip(j)),
    decreases j,
{
    if j > 0 {
        lemma_width_sum_split(s.drop_first(), j - 1);
        assert(s.drop_first().take(j - 1) =~= s.take(j).drop_first());
        assert(s.drop_first().skip(j - 1) =~= s.skip(j));
        assert(s.take(j)[0] == s[0]);
    } else {
        assert(s.skip(0) =~= s);
        assert(s.take(0) =~= Seq::<char>::empty());
    }
}

fn width_of(c: char) -> (w: u64)
    ensures
        w == char_width(c),
{
    let u = c as u32;
    if u <= 0x7F {
        1
    } else if u <= 0x7FF {
        2
    } else if u <= 0xFFFF {
        3
    } else {
        4
    }
}

/// Shortens an ID for display (see `short_id`).
pub fn shorten_id(id: &str) -> (s: String)
    requires
        shortenable(id@),
    ensures
        s@ == short_id(id@),
{
    let v = chars_of(id);
    let mut total: u64 = 0;
    let mut i: usize = 0;
    proof {
        assert(v@.take(0) =~= Seq::<char>::empty());
        assert(v@.skip(0) =~= v@);
        assert(v@ =~= v@.take(0) + v@.skip(0));
    }
    while i < v.len() && total + width_of(v[i]) <= 8
        invariant
            v@ == id@,
            i <= v@.len(),
            total <= 8,
            total == crate::text::width_sum(v@.take(i as int)),
            byte_prefix(id@, 8) == v@.take(i as int) + byte_prefix(v@.skip(i as int), (8 - total) as nat),
        decreases v.len() - i,
    {
        let w = width_of(v[i]);
        proof {
            let n = (8 - total) as nat;
            assert(v@.skip(i as int)[0] == v@[i as int]);
            assert(v@.skip(i as int).drop_first() =~= v@.skip(i + 1));
            assert(v@.take(i + 1) =~= v@.take(i as int).push(v@[i as int]));
            lemma_width_sum_push(v@.take(i as int), v@[i as int]);
            assert(byte_prefix(v@.skip(i as int), n) == seq![v@[i as int]] + byte_prefix(
                v@.skip(i + 1),
                (n - w) as nat,
            ));
            assert(v@.take(i as int) + (seq![v@[i as int]] + byte_prefix(v@.skip(i + 1), (n - w) as nat))
                =~= v@.take(i + 1) + byte_prefix(v@.skip(i + 1), (n - w) as nat));
        }
        total = total + w;
        i = i + 1;
    }
    proof {
        let n = (8 - total) as nat;
        if i < v@.len() {
            assert(v@.skip(i as int)[0] == v@[i as int]);
            assert(byte_prefix(v@.skip(i as int), n) =~= Seq::<char>::empty());
            lemma_width_sum_split(v@, i + 1);
            assert(v@.take(i + 1) =~= v@.take(i as int).push(v@[i as int]));
            lemma_width_sum_push(v@.take(i as int), v@[i as int]);
        } else {
            assert(v@.skip(i as int) =~= Seq::<char>::empty());
            assert(v@.take(i as int) =~= v@);
        }
        assert(byte_prefix(id@, 8) =~= v@.take(i as int));
    }
    let mut out: Vec<char> = Vec::new();
    let mut k: usize = 0;
    while k < i
        invariant
            v@ == id@,
            k <= i <= v@.len(),
            out@ == v@.take(k as int),
        decreases i - k,
    {
        out.push(v[k]);
        assert(v@.take(k + 1) =~= v@.take(k as int).push(v@[k as int]));
        k = k + 1;
    }
    string_of(&out)
}


/// `s` with every leading copy of `p` removed (what `trim_start_matches`
/// does).
pub open spec fn strip_leading(s: Seq<char>, p: Seq<char>) -> Seq<char>
    decreases s.len(),
{
    if p.len() > 0 && is_prefix(p, s) {
        strip_leading(s.skip(p.len() as int), p)
    } else {
        s
    }
}

/// `s` with every trailing `c` removed (what `trim_end_matches` does).
pub open spec fn strip_trailing(s: Seq<char>, c: char) -> Seq<char>
    decreases s.len(),
{
    if s.len() > 0 && s.last() == c {
        strip_trailing(s.drop_last(), c)
    } else {
        s
    }
}

/// The host shown for a relay: its URL without `https://` and `http://`
/// prefixes and trailing slashes.
pub open spec fn relay_host(url: Seq<char>) -> Seq<char> {
    strip_trailing(strip_leading(strip_leading(url, "https://"@), "http://"@), '/')
}

fn strip_leading_exec(s: Vec<char>, p: &str) -> (r: Vec<char>)
    requires
        p@.len() > 0,
    ensures
        r@ == strip_leading(s@, p@),
{
    let pv = chars_of(p);
    let mut cur = s;
    while pv.len() <= cur.len() && matches_at(&cur, &pv, 0)
        invariant
            pv@ == p@,
            p@.len() > 0,
            strip_leading(s@, p@) == strip_leading(cur@, p@),
        decreases cur.len(),
    {
        let ghost before = cur@;
        let mut next: Vec<char> = Vec::new();
        let mut k: usize = pv.len();
        while k < cur.len()
            invariant
                pv@.len() <= k <= cur@.len(),
                cur@ == before,
                next@ == before.subrange(pv@.len() as int, k as int),
            decreases cur.len() - k,
        {
            next.push(cur[k]);
            assert(before.subrange(pv@.len() as int, k + 1) =~= before.subrange(pv@.len() as int, k as int).push(before[k as int]));
            k = k + 1;
        }
        proof {
            assert(before.subrange(0, p@.len() as int) =~= p@);
            assert(next@ =~= before.skip(p@.len() as int));
        }
        cur = next;
    }
    proof {
        if pv@.len() <= cur@.len() {
            assert(!is_prefix(p@, cur@));
        }
    }
    cur
}

fn strip_trailing_exec(s: Vec<char>, c: char) -> (r: Vec<char>)
    ensures
        r@ == strip_trailing(s@, c),
{
    let mut cur = s;
    while cur.len() > 0 && cur[cur.len() - 1] == c
        invariant
            strip_trailing(s@, c) == strip_trailing(cur@, c),
        decreases cur.len(),
    {
        cur.pop();
    }
    cur
}

/// The host shown for a relay URL (see `relay_host`).
pub fn relay_host_of(url: &str) -> (h: String)
    ensures
        h@ == relay_host(url@),
{
    proof {
        reveal_strlit("https://");
        reveal_strlit("http://");
    }
    let a = strip_leading_exec(chars_of(url), "https://");
    let b = strip_leading_exec(a, "http://");
    let c = strip_trailing_exec(b, '/');
    string_of(&c)
}

/// The label of a node: `Me (short…)`, `name (short…)` or `Peer (short…)`.
pub open spec fn node_label(prefix: Seq<char>, id: Seq<char>) -> Seq<char> {
    prefix + " ("@ + short_id(id) + "…)"@
}

fn label_of(prefix: &str, id: &str) -> (l: String)
    requires
        shortenable(id@),
    ensures
        l@ == node_label(prefix@, id@),
{
    let mut v: Vec<char> = Vec::new();
    push_str(&mut v, prefix);
    push_str(&mut v, " (");
    let short = shorten_id(id);
    push_str(&mut v, short.as_str());
    push_str(&mut v, "…)");
    string_of(&v)
}

fn copy_string(s: &String) -> (r: String)
    ensures
        r@ == s@,
{
    string_of(&chars_of(s.as_str()))
}

fn copy_opt(s: &Option<String>) -> (r: Option<String>)
    ensures
        crate::netguard::opt_view(r) == crate::netguard::opt_view(*s),
{
    match s {
        Some(x) => Some(copy_string(x)),
        None => None,
    }
}

/// Whether `n` is the node of a peer.
pub open spec fn is_peer_node(n: NetworkGraphNode, p: PeerView) -> bool {
    &&& n.id@ == p.node_id@
    &&& n.node_type@ == "peer"@
    &&& n.label@ == node_label(
        match p.name {
            Some(x) => x@,
            None => "Peer"@,
        },
        p.node_id@,
    )
    &&& n.online == p.is_online
    &&& n.track_count == Some(p.track_count)
    &&& crate::netguard::opt_view(n.version) == crate::netguard::opt_view(p.version)
}

/// Whether `l` links this node to a target of the given kind.
pub open spec fn is_link(l: NetworkGraphLink, source: Seq<char>, target: Seq<char>, kind: Seq<char>) -> bool {
    l.source@ == source && l.target@ == target && l.link_type@ == kind
}

/// The network graph seen from this node: itself first (labelled with its
/// short ID, online, with its track count and version), then its relay if
/// it has one, then every known peer in order; a link from this node to the
/// relay and to each peer.
pub fn network_graph(
    self_id: &str,
    self_track_count: u64,
    version: &str,
    relay_url: Option<&str>,
    peers: &Vec<PeerView>,
) -> (g: NetworkGraph)
    requires
        shortenable(self_id@),
        forall|i: int| 0 <= i < peers@.len() ==> shortenable(#[trigger] peers@[i].node_id@),
    ensures
        g.nodes@.len() == 1 + (if relay_url is Some { 1int } else { 0 }) + peers@.len(),
        g.links@.len() == (if relay_url is Some { 1int } else { 0 }) + peers@.len(),
        g.nodes@[0].id@ == self_id@ && g.nodes@[0].node_type@ == "self"@ && g.nodes@[0].label@
            == node_label("Me"@, self_id@) && g.nodes@[0].online && g.nodes@[0].track_count
            == Some(self_track_count) && crate::netguard::opt_view(g.nodes@[0].version) == Some(version@),
        relay_url matches Some(u) ==> ({
            &&& g.nodes@[1].id@ == "relay:"@ + u@
            &&& g.nodes@[1].node_type@ == "relay"@
            &&& g.nodes@[1].label@ == relay_host(u@)
            &&& g.nodes@[1].online && g.nodes@[1].track_count is None && g.nodes@[1].version is None
            &&& is_link(g.links@[0], self_id@, "relay:"@ + u@, "relay"@)
        }),
        forall|i: int| 0 <= i < peers@.len() ==> is_peer_node(
            g.nodes@[1 + (if relay_url is Some { 1int } else { 0 }) + i],
            #[trigger] peers@[i],
        ) && is_link(
            g.links@[(if relay_url is Some { 1int } else { 0 }) + i],
            self_id@,
            peers@[i].node_id@,
            "peer"@,
        ),
{
    let mut nodes: Vec<NetworkGraphNode> = Vec::new();
    let mut links: Vec<NetworkGraphLink> = Vec::new();
    nodes.push(
        NetworkGraphNode {
            id: string_of(&chars_of(self_id)),
            node_type: string_of(&chars_of("self")),
            label: label_of("Me", self_id),
            online: true,
            track_count: Some(self_track_count),
            version: Some(string_of(&chars_of(version))),
        },
    );
    match relay_url {
        Some(u) => {
            let mut rid: Vec<char> = Vec::new();
            push_str(&mut rid, "relay:");
            push_str(&mut rid, u);
            nodes.push(
                NetworkGraphNode {
                    id: string_of(&rid),
                    node_type: string_of(&chars_of("relay")),
                    label: relay_host_of(u),
                    online: true,
                    track_count: None,
                    version: None,
                },
            );
            links.push(
                NetworkGraphLink {
                    source: string_of(&chars_of(self_id)),
                    target: string_of(&rid),
                    link_type: string_of(&chars_of("relay")),
                },
            );
        },
        None => {},
    }
    let ghost off: int = if relay_url is Some { 1int } else { 0 };
    let mut i: usize = 0;
    while i < peers.len()
        invariant
            i <= peers@.len(),
            forall|j: int| 0 <= j < peers@.len() ==> shortenable(#[trigger] peers@[j].node_id@),
            nodes@.len() == 1 + off + i,
            links@.len() == off + i,
            nodes@[0].id@ == self_id@ && nodes@[0].node_type@ == "self"@ && nodes@[0].label@
                == node_label("Me"@, self_id@) && nodes@[0].online && nodes@[0].track_count
                == Some(self_track_count) && crate::netguard::opt_view(nodes@[0].version) == Some(version@),
            off == (if relay_url is Some { 1int } else { 0 }),
            relay_url matches Some(u) ==> ({
                &&& nodes@[1].id@ == "relay:"@ + u@
                &&& nodes@[1].node_type@ == "relay"@
                &&& nodes@[1].label@ == relay_host(u@)
                &&& nodes@[1].online && nodes@[1].track_count is None && nodes@[1].version is None
                &&& is_link(links@[0], self_id@, "relay:"@ + u@, "relay"@)
            }),
            forall|j: int| 0 <= j < i ==> is_peer_node(nodes@[1 + off + j], #[trigger] peers@[j])
                && is_link(links@[off + j], self_id@, peers@[j].node_id@, "peer"@),
        decreases peers.len() - i,
    {
        let p = &peers[i];
        let label = match &p.name {
            Some(n) => label_of(n.as_str(), p.node_id.as_str()),
            None => label_of("Peer", p.node_id.as_str()),
        };
        nodes.push(
            NetworkGraphNode {
                id: copy_string(&p.node_id),
                node_type: string_of(&chars_of("peer")),
                label,
                online: p.is_online,
                track_count: Some(p.track_count),
                version: copy_opt(&p.version),
            },
        );
        links.push(
            NetworkGraphLink {
                source: string_of(&chars_of(self_id)),
                target: copy_string(&p.node_id),
                link_type: string_of(&chars_of("peer")),
            },
        );
        i = i + 1;
    }
    NetworkGraph { nodes, links }
}

} // verus!
