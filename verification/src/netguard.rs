//! Guards against requests to private or reserved network addresses, and
//! the git URL policy for plugin and theme repositories.
use vstd::prelude::*;

use crate::text::{chars_of, digits_value, push_str, str_eq, string_of};

verus! {

// ─── Outside calls: URL and IP address parsing ─────────────────────────

/// An IPv4 address as its four octets.
#[derive(Debug, Clone, Copy)]
pub struct Ipv4 {
    pub a: u8,
    pub b: u8,
    pub c: u8,
    pub d: u8,
}

/// What `url::Url::parse` makes of a text: `None` when it fails, else the
/// scheme and the host as `Url::host_str` gives it.
pub uninterp spec fn parsed_url(text: Seq<char>) -> Option<(Seq<char>, Option<Seq<char>>)>;

/// The view of an optional string.
pub open spec fn opt_view(o: Option<String>) -> Option<Seq<char>> {
    match o {
        Some(s) => Some(s@),
        None => None,
    }
}

/// Trusted: calls `url::Url::parse` and reads `Url::scheme` and
/// `Url::host_str`; claims the result is `parsed_url` of the text.
#[verifier::external_body]
pub(crate) fn parse_url(text: &str) -> (r: Option<(String, Option<String>)>)
    ensures
        match r {
            None => parsed_url(text@) is None,
            Some((scheme, host)) => parsed_url(text@) == Some((scheme@, opt_view(host))),
        },
{
    match url::Url::parse(text) {
        Ok(u) => Some((u.scheme().to_string(), u.host_str().map(|h| h.to_string()))),
        Err(_) => None,
    }
}

// ─── Address classification ────────────────────────────────────────────

// ─── Dotted-quad IPv4 addresses ────────────────────────────────────────

/// Index of the first `.` of `s`, or its length when it has none.
pub open spec fn first_dot(s: Seq<char>) -> nat
    decreases s.len(),
{
    if s.len() == 0 {
        0
    } else if s[0] == '.' {
        0
    } else {
        1 + first_dot(s.drop_first())
    }
}

/// The parts of `s` between dots.
pub open spec fn dot_parts(s: Seq<char>) -> Seq<Seq<char>>
    decreases s.len(),
{
    let k = first_dot(s);
    if k >= s.len() {
        seq![s]
    } else {
        seq![s.take(k as int)] + dot_parts(s.skip(k as int + 1))
    }
}

/// A dotted-quad part: 1 to 3 decimal digits, no leading zero, at most 255.
pub open spec fn octet_ok(t: Seq<char>) -> bool {
    &&& 1 <= t.len() <= 3
    &&& forall|i: int| 0 <= i < t.len() ==> '0' <= #[trigger] t[i] && t[i] <= '9'
    &&& (t.len() == 1 || t[0] != '0')
    &&& digits_value(t) <= 255
}

/// The IPv4 address written in `s` (dotted-quad form, as
/// `std::net::Ipv4Addr` reads it), if any.
pub open spec fn ipv4_of(s: Seq<char>) -> Option<Ipv4> {
    let p = dot_parts(s);
    if p.len() == 4 && octet_ok(p[0]) && octet_ok(p[1]) && octet_ok(p[2]) && octet_ok(p[3]) {
        Some(
            Ipv4 {
                a: digits_value(p[0]) as u8,
                b: digits_value(p[1]) as u8,
                c: digits_value(p[2]) as u8,
                d: digits_value(p[3]) as u8,
            },
        )
    } else {
        None
    }
}

proof fn lemma_first_dot(s: Seq<char>)
    ensures
        first_dot(s) <= s.len(),
        forall|i: int| 0 <= i < first_dot(s) ==> s[i] != '.',
        first_dot(s) < s.len() ==> s[first_dot(s) as int] == '.',
    decreases s.len(),
{
    if s.len() > 0 && s[0] != '.' {
        lemma_first_dot(s.drop_first());
        assert forall|i: int| 0 <= i < first_dot(s) implies s[i] != '.' by {
            if i > 0 {
                assert(s[i] == s.drop_first()[i - 1]);
            }
        }
    }
}

proof fn lemma_first_dot_at(s: Seq<char>, k: int)
    requires
        0 <= k <= s.len(),
        forall|i: int| 0 <= i < k ==> s[i] != '.',
        k == s.len() || s[k] == '.',
    ensures
        first_dot(s) == k,
    decreases s.len(),
{
    if s.len() > 0 && s[0] != '.' {
        lemma_first_dot_at(s.drop_first(), k - 1);
    }
}

/// Index of the first `.` at or after `start`, or the length.
fn find_dot(v: &Vec<char>, start: usize) -> (k: usize)
    requires
        start <= v.len(),
    ensures
        start <= k <= v.len(),
        k == start + first_dot(v@.skip(start as int)),
{
    let mut k = start;
    while k < v.len() && v[k] != '.'
        invariant
            start <= k <= v.len(),
            forall|i: int| start <= i < k ==> v@[i] != '.',
        decreases v.len() - k,
    {
        k = k + 1;
    }
    proof {
        lemma_first_dot_at(v@.skip(start as int), k - start);
    }
    k
}

fn copy_range(v: &Vec<char>, from: usize, to: usize) -> (r: Vec<char>)
    requires
        from <= to <= v.len(),
    ensures
        r@ == v@.subrange(from as int, to as int),
{
    let mut r: Vec<char> = Vec::new();
    let mut i = from;
    while i < to
        invariant
            from <= i <= to <= v.len(),
            r@ == v@.subrange(from as int, i as int),
        decreases to - i,
    {
        r.push(v[i]);
        assert(v@.subrange(from as int, i + 1) =~= v@.subrange(from as int, i as int).push(
            v@[i as int],
        ));
        i = i + 1;
    }
    r
}

/// Splits the text from `start` on: the parts between dots.
fn split_dots(v: &Vec<char>, start: usize) -> (parts: Vec<Vec<char>>)
    requires
        start <= v.len(),
    ensures
        parts@.len() == dot_parts(v@.skip(start as int)).len(),
        forall|i: int| 0 <= i < parts@.len() ==> #[trigger] parts@[i]@ == dot_parts(
            v@.skip(start as int),
        )[i],
    decreases v.len() - start,
{
    let ghost s = v@.skip(start as int);
    let k = find_dot(v, start);
    let head = copy_range(v, start, k);
    proof {
        assert(head@ =~= s.take(k - start));
    }
    let mut parts: Vec<Vec<char>> = Vec::new();
    if k >= v.len() {
        proof {
            assert(s.take(k - start) =~= s);
        }
        parts.push(head);
        return parts;
    }
    parts.push(head);
    let rest = split_dots(v, k + 1);
    proof {
        assert(s.skip(k - start + 1) =~= v@.skip(k + 1));
    }
    let mut i: usize = 0;
    let ghost tail = dot_parts(v@.skip(k + 1));
    while i < rest.len()
        invariant
            i <= rest@.len(),
            rest@.len() == tail.len(),
            forall|j: int| 0 <= j < rest@.len() ==> #[trigger] rest@[j]@ == tail[j],
            parts@.len() == 1 + i,
            parts@[0]@ == s.take(k - start),
            forall|j: int| 0 <= j < i ==> #[trigger] parts@[1 + j]@ == tail[j],
        decreases rest.len() - i,
    {
        let piece = copy_range(&rest[i], 0, rest[i].len());
        proof {
            assert(piece@ =~= rest@[i as int]@);
        }
        parts.push(piece);
        i = i + 1;
    }
    proof {
        let want = seq![s.take(k - start)] + tail;
        assert(dot_parts(s) == want);
        assert forall|j: int| 0 <= j < parts@.len() implies #[trigger] parts@[j]@ == want[j] by {
            if j > 0 {
                assert(parts@[1 + (j - 1)]@ == tail[j - 1]);
            }
        }
    }
    parts
}

/// Reads a dotted-quad part.
fn parse_octet(t: &Vec<char>) -> (r: Option<u8>)
    ensures
        match r {
            Some(x) => octet_ok(t@) && x == digits_value(t@),
            None => !octet_ok(t@),
        },
{
    if t.len() < 1 || t.len() > 3 {
        return None;
    }
    if t.len() > 1 && t[0] == '0' {
        return None;
    }
    let mut value: u32 = 0;
    let mut i: usize = 0;
    while i < t.len()
        invariant
            1 <= t@.len() <= 3,
            i <= t@.len(),
            forall|j: int| 0 <= j < i ==> '0' <= #[trigger] t@[j] && t@[j] <= '9',
            value == digits_value(t@.take(i as int)),
            value < 1000,
            i < 3 ==> value < 100,
            i < 2 ==> value < 10,
            i == 0 ==> value == 0,
        decreases t.len() - i,
    {
        let c = t[i];
        if !('0' <= c && c <= '9') {
            return None;
        }
        proof {
            assert(t@.take(i + 1).drop_last() =~= t@.take(i as int));
        }
        value = value * 10 + ((c as u32) - 48);
        i = i + 1;
    }
    proof {
        assert(t@.take(t@.len() as int) =~= t@);
    }
    if value > 255 {
        return None;
    }
    Some(value as u8)
}

/// Reads a dotted-quad IPv4 address.
pub fn parse_ipv4(text: &str) -> (r: Option<Ipv4>)
    ensures
        r == ipv4_of(text@),
{
    let v = chars_of(text);
    let parts = split_dots(&v, 0);
    proof {
        assert(v@.skip(0) =~= v@);
    }
    if parts.len() != 4 {
        return None;
    }
    let a = parse_octet(&parts[0]);
    let b = parse_octet(&parts[1]);
    let c = parse_octet(&parts[2]);
    let d = parse_octet(&parts[3]);
    match (a, b, c, d) {
        (Some(a), Some(b), Some(c), Some(d)) => Some(Ipv4 { a, b, c, d }),
        _ => None,
    }
}

// ─── Address classification ────────────────────────────────────────────

/// Private (RFC 1918), loopback or link-local IPv4 address.
pub open spec fn is_private_ip(ip: Ipv4) -> bool {
    ||| ip.a == 10
    ||| (ip.a == 172 && 16 <= ip.b && ip.b <= 31)
    ||| (ip.a == 192 && ip.b == 168)
    ||| ip.a == 127
    ||| (ip.a == 169 && ip.b == 254)
}

/// Classifies an address as private, loopback or link-local.
pub fn ip_is_private(ip: Ipv4) -> (b: bool)
    ensures
        b == is_private_ip(ip),
{
    ip.a == 10 || (ip.a == 172 && 16 <= ip.b && ip.b <= 31) || (ip.a == 192 && ip.b == 168) || ip.a
        == 127 || (ip.a == 169 && ip.b == 254)
}

/// Host names that are always refused: loopback, unspecified and cloud
/// metadata endpoints.
pub open spec fn blocked_hosts() -> Seq<Seq<char>> {
    seq![
        "localhost"@,
        "127.0.0.1"@,
        "0.0.0.0"@,
        "[::1]"@,
        "169.254.169.254"@,
        "metadata.google.internal"@,
    ]
}

/// Whether the host is in the list of refused host names.
pub fn is_blocked_host(host: &str) -> (b: bool)
    ensures
        b == blocked_hosts().contains(host@),
{
    let list: Vec<&'static str> = vec![
        "localhost",
        "127.0.0.1",
        "0.0.0.0",
        "[::1]",
        "169.254.169.254",
        "metadata.google.internal",
    ];
    let mut i: usize = 0;
    while i < list.len()
        invariant
            list@.len() == 6,
            forall|j: int| 0 <= j < 6 ==> #[trigger] list@[j]@ == blocked_hosts()[j],
            i <= 6,
            forall|j: int| 0 <= j < i ==> blocked_hosts()[j] != host@,
        decreases list.len() - i,
    {
        if str_eq(list[i], host) {
            assert(blocked_hosts()[i as int] == host@);
            return true;
        }
        i = i + 1;
    }
    assert forall|j: int| 0 <= j < blocked_hosts().len() implies blocked_hosts()[j] != host@ by {
        assert(j < i);
    }
    false
}

/// The eight 16-bit groups of the IPv6 address `url::Host::parse` reads
/// from a host text (`None` when it reads no IPv6 address).
pub uninterp spec fn parsed_ipv6_host(host: Seq<char>) -> Option<Seq<u16>>;

/// Trusted: calls `url::Host::parse` and, for an `Host::Ipv6` answer, hands
/// back `Ipv6Addr::segments`.  Claims the result is `parsed_ipv6_host` of
/// the text, and, as the crate's `parse_cow` shows, that only a text
/// beginning with `[` reads as an IPv6 address.
#[verifier::external_body]
fn parse_ipv6_host(host: &str) -> (r: Option<[u16; 8]>)
    ensures
        match r {
            Some(g) => parsed_ipv6_host(host@) == Some(g@),
            None => parsed_ipv6_host(host@) is None,
        },
        !(host@.len() > 0 && host@[0] == '[') ==> r is None,
{
    match url::Host::parse(host) {
        Ok(url::Host::Ipv6(a)) => Some(a.segments()),
        _ => None,
    }
}

/// The IPv4 address held in the last two groups of an IPv6 address.
pub open spec fn embedded_ipv4(g: Seq<u16>) -> Ipv4 {
    Ipv4 {
        a: (g[6] / 256) as u8,
        b: (g[6] % 256) as u8,
        c: (g[7] / 256) as u8,
        d: (g[7] % 256) as u8,
    }
}

/// A private or reserved IPv6 address: loopback `::1`, unique-local
/// `fc00::/7`, link-local `fe80::/10`, or an IPv4-mapped `::ffff:a.b.c.d`
/// whose IPv4 address is private, loopback or link-local.
pub open spec fn is_private_ipv6(g: Seq<u16>) -> bool {
    let zero_prefix = g[0] == 0 && g[1] == 0 && g[2] == 0 && g[3] == 0 && g[4] == 0;
    ||| (zero_prefix && g[5] == 0 && g[6] == 0 && g[7] == 1)
    ||| (0xfc00 <= g[0] && g[0] <= 0xfdff)
    ||| (0xfe80 <= g[0] && g[0] <= 0xfebf)
    ||| (zero_prefix && g[5] == 0xffff && is_private_ip(embedded_ipv4(g)))
}

/// Classifies an IPv6 address given by its groups.
pub fn ipv6_is_private(g: [u16; 8]) -> (b: bool)
    ensures
        b == is_private_ipv6(g@),
{
    let zero_prefix = g[0] == 0 && g[1] == 0 && g[2] == 0 && g[3] == 0 && g[4] == 0;
    if zero_prefix && g[5] == 0 && g[6] == 0 && g[7] == 1 {
        return true;
    }
    if 0xfc00 <= g[0] && g[0] <= 0xfdff {
        return true;
    }
    if 0xfe80 <= g[0] && g[0] <= 0xfebf {
        return true;
    }
    if zero_prefix && g[5] == 0xffff {
        let ip = Ipv4 {
            a: (g[6] / 256) as u8,
            b: (g[6] % 256) as u8,
            c: (g[7] / 256) as u8,
            d: (g[7] % 256) as u8,
        };
        assert(ip == embedded_ipv4(g@));
        return ip_is_private(ip);
    }
    false
}

/// The host is a private or reserved address: an IPv6 address (written
/// `[...]`) that `is_private_ipv6` classifies so, or a private, loopback or
/// link-local IPv4 address.
pub open spec fn host_is_private_ip(host: Seq<char>) -> bool {
    match parsed_ipv6_host(host) {
        Some(g) => is_private_ipv6(g),
        None => ipv4_of(host) matches Some(ip) && is_private_ip(ip),
    }
}

/// Whether the host text is a private or reserved address (see
/// `host_is_private_ip`).
pub fn host_private_ip(host: &str) -> (b: bool)
    ensures
        b == host_is_private_ip(host@),
{
    match parse_ipv6_host(host) {
        Some(g) => ipv6_is_private(g),
        None => match parse_ipv4(host) {
            Some(ip) => ip_is_private(ip),
            None => false,
        },
    }
}

// ─── Git URL policy ────────────────────────────────────────────────────

/// The reason a git URL is refused, if it is: only HTTPS URLs with a host
/// that is neither a refused name nor a private address are accepted.
pub open spec fn git_url_problem(url: Seq<char>) -> Option<Seq<char>> {
    match parsed_url(url) {
        None => Some("invalid git URL: '"@ + url + "'"@),
        Some((scheme, host)) => if scheme != "https"@ {
            Some("only HTTPS git URLs are allowed, got scheme '"@ + scheme + "' in '"@ + url + "'"@)
        } else {
            match host {
                None => Some("git URL has no host: '"@ + url + "'"@),
                Some(h) => if blocked_hosts().contains(h) {
                    Some("git URL host '"@ + h + "' is blocked (private/reserved address)"@)
                } else if host_is_private_ip(h) {
                    Some("git URL resolves to private IP: '"@ + h + "'"@)
                } else {
                    None
                },
            }
        },
    }
}

/// Checks a git URL against the repository policy; returns the reason it is
/// refused, or `None` when it may be cloned.
pub fn git_url_refusal(url: &str) -> (r: Option<String>)
    ensures
        opt_view(r) == git_url_problem(url@),
{
    match parse_url(url) {
        None => {
            let mut m: Vec<char> = Vec::new();
            push_str(&mut m, "invalid git URL: '");
            push_str(&mut m, url);
            push_str(&mut m, "'");
            proof {
                assert(m@ =~= "invalid git URL: '"@ + url@ + "'"@);
            }
            Some(string_of(&m))
        },
        Some((scheme, host)) => {
            if !str_eq(scheme.as_str(), "https") {
                let mut m: Vec<char> = Vec::new();
                push_str(&mut m, "only HTTPS git URLs are allowed, got scheme '");
                push_str(&mut m, scheme.as_str());
                push_str(&mut m, "' in '");
                push_str(&mut m, url);
                push_str(&mut m, "'");
                proof {
                    assert(m@ =~= "only HTTPS git URLs are allowed, got scheme '"@ + scheme@
                        + "' in '"@ + url@ + "'"@);
                }
                return Some(string_of(&m));
            }
            match host {
                None => {
                    let mut m: Vec<char> = Vec::new();
                    push_str(&mut m, "git URL has no host: '");
                    push_str(&mut m, url);
                    push_str(&mut m, "'");
                    proof {
                        assert(m@ =~= "git URL has no host: '"@ + url@ + "'"@);
                    }
                    Some(string_of(&m))
                },
                Some(h) => {
                    if is_blocked_host(h.as_str()) {
                        let mut m: Vec<char> = Vec::new();
                        push_str(&mut m, "git URL host '");
                        push_str(&mut m, h.as_str());
                        push_str(&mut m, "' is blocked (private/reserved address)");
                        proof {
                            assert(m@ =~= "git URL host '"@ + h@
                                + "' is blocked (private/reserved address)"@);
                        }
                        Some(string_of(&m))
                    } else if host_private_ip(h.as_str()) {
                        let mut m: Vec<char> = Vec::new();
                        push_str(&mut m, "git URL resolves to private IP: '");
                        push_str(&mut m, h.as_str());
                        push_str(&mut m, "'");
                        proof {
                            assert(m@ =~= "git URL resolves to private IP: '"@ + h@ + "'"@);
                        }
                        Some(string_of(&m))
                    } else {
                        None
                    }
                },
            }
        },
    }
}

} // verus!
