//! Host functions exposed to plugins: permission checks, request guards and
//! the values handed to plugins.
use vstd::prelude::*;

use vstd::utf8::{decode_utf8, valid_utf8};

use crate::error::PluginError;
use crate::registry::{uuid_string, uuid_text};
use crate::manifest::Permissions;
use crate::netguard::{
    blocked_hosts, host_is_private_ip, host_private_ip, is_blocked_host, parse_url,
    parsed_url,
};
use crate::text::{
    byte_len, chars_of, dec, is_cc, is_control, is_suffix, push_decimal, push_str,
    str_eq, string_of,
};

verus! {

/// Maximum size of an HTTP response body handed to a plugin (10 MB).
pub const MAX_HTTP_RESPONSE_BYTES: usize = 10485760;

/// Maximum number of characters kept from a plugin log message.
pub const MAX_LOG_MESSAGE_LEN: usize = 2048;

// ─── Log message sanitizing ────────────────────────────────────────────

/// `s` without its control characters other than newline and tab.
pub open spec fn strip_controls(s: Seq<char>) -> Seq<char> {
    s.filter(|c: char| !is_cc(c) || c == '\n' || c == '\t')
}

/// What a plugin log message becomes: control characters other than newline
/// and tab removed, at most 2048 characters kept, and a truncation marker when
/// the message given was longer than 2048 bytes.
pub open spec fn sanitized(message: Seq<char>) -> Seq<char> {
    let cleaned = strip_controls(message);
    let kept = if cleaned.len() <= MAX_LOG_MESSAGE_LEN {
        cleaned
    } else {
        cleaned.take(MAX_LOG_MESSAGE_LEN as int)
    };
    if byte_len(message) > MAX_LOG_MESSAGE_LEN {
        kept + "… (truncated)"@
    } else {
        kept
    }
}

/// Cleans a log message from a plugin.
pub fn sanitize_log_message(message: &str) -> (r: String)
    requires
        byte_len(message@) <= usize::MAX,
    ensures
        r@ == sanitized(message@),
{
    let cs = chars_of(message);
    let mut out: Vec<char> = Vec::new();
    let mut i: usize = 0;
    while i < cs.len()
        invariant
            i <= cs@.len(),
            out@.len() <= MAX_LOG_MESSAGE_LEN,
            ({
                let c = strip_controls(cs@.take(i as int));
                if c.len() <= MAX_LOG_MESSAGE_LEN {
                    out@ == c
                } else {
                    out@ == c.take(MAX_LOG_MESSAGE_LEN as int)
                }
            }),
        decreases cs.len() - i,
    {
        let c = cs[i];
        proof {
            reveal(Seq::filter);
            assert(cs@.take(i + 1).drop_last() =~= cs@.take(i as int));
            assert(cs@.take(i + 1).last() == c);
            let before = strip_controls(cs@.take(i as int));
            let after = strip_controls(cs@.take(i + 1));
            if !is_cc(c) || c == '\n' || c == '\t' {
                assert(after == before.push(c));
                if before.len() > MAX_LOG_MESSAGE_LEN {
                    assert(after.take(MAX_LOG_MESSAGE_LEN as int) =~= before.take(
                        MAX_LOG_MESSAGE_LEN as int,
                    ));
                } else if before.len() == MAX_LOG_MESSAGE_LEN {
                    assert(after.take(MAX_LOG_MESSAGE_LEN as int) =~= before);
                }
            } else {
                assert(after == before);
            }
        }
        if (!is_control(c) || c == '\n' || c == '\t') && out.len() < MAX_LOG_MESSAGE_LEN {
            out.push(c);
        }
        i = i + 1;
    }
    proof {
        assert(cs@.take(cs@.len() as int) =~= cs@);
    }
    if message.len() > MAX_LOG_MESSAGE_LEN {
        push_str(&mut out, "… (truncated)");
    }
    string_of(&out)
}

// ─── Values handed to plugins ──────────────────────────────────────────

/// HTTP response returned by `http_get` / `http_post`.
pub struct HttpResponse {
    pub status: u16,
    pub headers: std::collections::HashMap<String, String>,
    pub body: String,
}

/// Instance information.
#[derive(Debug, Clone)]
pub struct InstanceInfo {
    pub name: String,
    pub version: String,
    pub domain: String,
    pub track_count: u64,
    pub user_count: u64,
}

/// User information (never password hashes or tokens).
#[derive(Debug, Clone)]
pub struct UserInfo {
    pub id: String,
    pub username: String,
    pub display_name: Option<String>,
    pub role: String,
    pub created_at: String,
}

/// A metadata field a plugin may set on a track.
#[derive(Debug, Clone)]
pub enum TrackMetadataUpdate {
    Title(String),
    Genre(String),
}

/// A page window for listing tracks.
#[derive(Debug, Clone, Copy)]
pub struct PageWindow {
    pub page: u32,
    pub per_page: u32,
    pub offset: u64,
}

// ─── Outside calls: UUIDs and the clock ────────────────────────────────

/// What `uuid::Uuid::parse_str` makes of a text, as a 128-bit number.
pub uninterp spec fn parsed_uuid(text: Seq<char>) -> Option<u128>;

/// Trusted: calls `uuid::Uuid::parse_str` and converts with `Uuid::as_u128`;
/// claims the result is `parsed_uuid` of the text.
#[verifier::external_body]
pub(crate) fn parse_uuid(text: &str) -> (r: Option<u128>)
    ensures
        r == parsed_uuid(text@),
{
    uuid::Uuid::parse_str(text).ok().map(|u| u.as_u128())
}

/// Whether `t` has the shape of a UTC time in RFC 3339 form as chrono
/// writes it: at least `YYYY-MM-DDTHH:MM:SS+00:00`, with a `T` between date
/// and time, ending in the offset `+00:00`.
pub open spec fn utc_rfc3339_shape(t: Seq<char>) -> bool {
    &&& t.len() >= 25
    &&& t.contains('T')
    &&& t.subrange(t.len() - 6, t.len() as int) == "+00:00"@
}

/// Trusted: calls `chrono::Utc::now` and formats it with `to_rfc3339`.
/// Which time it gives depends on the clock; claims only the shape that
/// chrono's `write_rfc3339` gives every UTC time (date, `T`, time, and the
/// zero offset written `+00:00`).
#[verifier::external_body]
fn now_rfc3339() -> (r: String)
    ensures
        utc_rfc3339_shape(r@),
{
    chrono::Utc::now().to_rfc3339()
}

/// What std's `Debug` renders for a list of strings (`["a", "b"]`, each
/// string quoted and escaped).
pub uninterp spec fn debug_strings(items: Seq<Seq<char>>) -> Seq<char>;

/// The views of a list of strings.
pub open spec fn string_views(v: Seq<String>) -> Seq<Seq<char>> {
    v.map_values(|s: String| s@)
}

/// Trusted: formats the list with `{:?}` (std's `Debug` for `Vec<String>`).
/// Claims the text is `debug_strings` of the strings.
#[verifier::external_body]
fn debug_list(v: &Vec<String>) -> (r: String)
    ensures
        r@ == debug_strings(string_views(v@)),
{
    format!("{:?}", v)
}

// ─── Host glob patterns ────────────────────────────────────────────────

/// Whether `host` is allowed by `pattern`: `*.suffix` allows the suffix
/// itself and every name ending in `.suffix`; other patterns allow exactly
/// themselves.
pub open spec fn host_matches(host: Seq<char>, pattern: Seq<char>) -> bool {
    if pattern.len() >= 2 && pattern[0] == '*' && pattern[1] == '.' {
        let suffix = pattern.skip(2);
        host == suffix || is_suffix(seq!['.'] + suffix, host)
    } else {
        host == pattern
    }
}

/// Whether `host` is allowed by `pattern`.
pub fn host_matches_pattern(host: &str, pattern: &str) -> (b: bool)
    ensures
        b == host_matches(host@, pattern@),
{
    let p = chars_of(pattern);
    let h = chars_of(host);
    if p.len() >= 2 && p[0] == '*' && p[1] == '.' {
        let mut suffix: Vec<char> = Vec::new();
        let mut dotted: Vec<char> = Vec::new();
        dotted.push('.');
        let mut i: usize = 2;
        while i < p.len()
            invariant
                2 <= i <= p@.len(),
                suffix@ == p@.subrange(2, i as int),
                dotted@ == seq!['.'] + suffix@,
            decreases p.len() - i,
        {
            suffix.push(p[i]);
            dotted.push(p[i]);
            proof {
                assert(p@.subrange(2, i + 1) =~= p@.subrange(2, i as int).push(p@[i as int]));
            }
            i = i + 1;
        }
        proof {
            assert(p@.skip(2) =~= suffix@);
        }
        crate::text::chars_eq(&h, &suffix) || crate::text::ends_with(&h, &dotted)
    } else {
        crate::text::chars_eq(&h, &p)
    }
}

/// Some pattern of `patterns` allows `host`.
pub open spec fn any_pattern_matches(host: Seq<char>, patterns: Seq<String>) -> bool {
    exists|i: int| 0 <= i < patterns.len() && host_matches(host, #[trigger] patterns[i]@)
}

/// Some entry of `patterns` is the wildcard `*`.
pub open spec fn has_wildcard(patterns: Seq<String>) -> bool {
    exists|i: int| 0 <= i < patterns.len() && #[trigger] patterns[i]@ == "*"@
}

fn clone_strings(v: &Vec<String>) -> (r: Vec<String>)
    ensures
        r@ == v@,
{
    let mut r: Vec<String> = Vec::new();
    let mut i: usize = 0;
    while i < v.len()
        invariant
            i <= v@.len(),
            r@ == v@.take(i as int),
        decreases v.len() - i,
    {
        r.push(v[i].clone());
        assert(v@.take(i + 1) =~= v@.take(i as int).push(v@[i as int]));
        i = i + 1;
    }
    assert(v@.take(v@.len() as int) =~= v@);
    r
}

// ─── Host context ──────────────────────────────────────────────────────

/// Identity and permissions of a plugin on whose behalf host functions run.
pub struct HostContext {
    pub plugin_id: u128,
    pub plugin_name: String,
    pub permissions: Permissions,
    pub http_hosts: Vec<String>,
    pub domain: String,
    pub server_version: String,
    pub http_timeout_secs: u64,
}

/// The message of a permission refusal for a missing permission flag.
pub open spec fn missing_permission_text(plugin: Seq<char>, flag: Seq<char>) -> Seq<char> {
    "plugin '"@ + plugin + "' does not have "@ + flag + " permission"@
}

/// The outcome of `check_http_host` for a URL.
pub open spec fn http_host_outcome(plugin: Seq<char>, hosts: Seq<String>, url: Seq<char>) -> Option<
    PluginErrorModel,
> {
    if hosts.len() == 0 {
        Some(PluginErrorModel::PermissionDenied(
            "plugin '"@ + plugin + "' has no http_hosts permission"@,
        ))
    } else if has_wildcard(hosts) {
        None
    } else {
        match parsed_url(url) {
            None => Some(PluginErrorModel::HostFunction("invalid URL: "@ + url)),
            Some((_, None)) => Some(PluginErrorModel::HostFunction("URL has no host: "@ + url)),
            Some((_, Some(h))) => if any_pattern_matches(h, hosts) {
                None
            } else {
                Some(PluginErrorModel::PermissionDenied(
                    "plugin '"@ + plugin + "' is not allowed to access host '"@ + h + "'; allowed: "@
                        + debug_strings(string_views(hosts)),
                ))
            },
        }
    }
}

/// The kind and message of an error a host function check raises.
pub enum PluginErrorModel {
    PermissionDenied(Seq<char>),
    HostFunction(Seq<char>),
}

/// `e` is the error described by `m` for the plugin `plugin`.
pub open spec fn error_matches(e: PluginError, m: PluginErrorModel, plugin: Seq<char>) -> bool {
    match m {
        PluginErrorModel::PermissionDenied(t) => e matches PluginError::PermissionDenied(s) && s@
            == t,
        PluginErrorModel::HostFunction(t) => e matches PluginError::HostFunction(s) && s@ == t,
    }
}

/// The outcome of `check_private_ip` for a URL.
pub open spec fn private_ip_outcome(url: Seq<char>) -> Option<PluginErrorModel> {
    match parsed_url(url) {
        None => Some(PluginErrorModel::HostFunction("invalid URL: "@ + url)),
        Some((_, None)) => None,
        Some((_, Some(h))) => if blocked_hosts().contains(h) {
            Some(
                PluginErrorModel::PermissionDenied(
                    "HTTP requests to '"@ + h + "' are blocked (private/reserved address)"@,
                ),
            )
        } else if host_is_private_ip(h) {
            Some(PluginErrorModel::PermissionDenied("HTTP requests to private IP '"@ + h + "' are blocked"@))
        } else {
            None
        },
    }
}

/// `r` is the outcome described by `o`.
pub open spec fn outcome_matches(r: Result<(), PluginError>, o: Option<PluginErrorModel>, plugin: Seq<
    char,
>) -> bool {
    match o {
        None => r is Ok,
        Some(m) => r matches Err(e) && error_matches(e, m, plugin),
    }
}

fn permission_denied(msg: &Vec<char>) -> (e: PluginError)
    ensures
        e matches PluginError::PermissionDenied(s) && s@ == msg@,
{
    PluginError::PermissionDenied(string_of(msg))
}

fn host_function_error(msg: &Vec<char>) -> (e: PluginError)
    ensures
        e matches PluginError::HostFunction(s) && s@ == msg@,
{
    PluginError::HostFunction(string_of(msg))
}

impl HostContext {
    /// Creates the context of a plugin; its allowed hosts are those of its
    /// permissions.
    pub fn new(
        plugin_id: u128,
        plugin_name: String,
        permissions: Permissions,
        http_timeout_secs: u64,
        domain: String,
        server_version: String,
    ) -> (c: Self)
        ensures
            c.plugin_id == plugin_id,
            c.plugin_name == plugin_name,
            c.permissions == permissions,
            c.http_hosts@ == permissions.http_hosts@,
            c.http_timeout_secs == http_timeout_secs,
            c.domain == domain,
            c.server_version == server_version,
    {
        let http_hosts = clone_strings(&permissions.http_hosts);
        HostContext {
            plugin_id,
            plugin_name,
            permissions,
            http_hosts,
            domain,
            server_version,
            http_timeout_secs,
        }
    }

    /// The plugin's ID.
    pub fn plugin_id(&self) -> (id: u128)
        ensures
            id == self.plugin_id,
    {
        self.plugin_id
    }

    /// The plugin's name.
    pub fn plugin_name(&self) -> (n: &str)
        ensures
            n@ == self.plugin_name@,
    {
        self.plugin_name.as_str()
    }

    /// The plugin's permissions.
    pub fn permissions(&self) -> (p: &Permissions)
        ensures
            *p == self.permissions,
    {
        &self.permissions
    }

    fn missing_permission(&self, flag: &str) -> (e: PluginError)
        ensures
            e matches PluginError::PermissionDenied(s) && s@ == missing_permission_text(
                self.plugin_name@,
                flag@,
            ),
    {
        let mut m: Vec<char> = Vec::new();
        push_str(&mut m, "plugin '");
        push_str(&mut m, self.plugin_name.as_str());
        push_str(&mut m, "' does not have ");
        push_str(&mut m, flag);
        push_str(&mut m, " permission");
        proof {
            assert(m@ =~= missing_permission_text(self.plugin_name@, flag@));
        }
        permission_denied(&m)
    }

    /// Refuses unless the plugin may write tracks.
    pub fn require_write_tracks(&self) -> (r: Result<(), PluginError>)
        ensures
            r is Ok <==> self.permissions.write_tracks,
            r matches Err(e) ==> e matches PluginError::PermissionDenied(s) && s@
                == missing_permission_text(self.plugin_name@, "write_tracks"@),
    {
        if !self.permissions.write_tracks {
            return Err(self.missing_permission("write_tracks"));
        }
        Ok(())
    }

    /// Refuses unless the plugin may read and write its configuration.
    pub fn require_config_access(&self) -> (r: Result<(), PluginError>)
        ensures
            r is Ok <==> self.permissions.config_access,
            r matches Err(e) ==> e matches PluginError::PermissionDenied(s) && s@
                == missing_permission_text(self.plugin_name@, "config_access"@),
    {
        if !self.permissions.config_access {
            return Err(self.missing_permission("config_access"));
        }
        Ok(())
    }

    /// Refuses unless the plugin may read user information.
    pub fn require_read_users(&self) -> (r: Result<(), PluginError>)
        ensures
            r is Ok <==> self.permissions.read_users,
            r matches Err(e) ==> e matches PluginError::PermissionDenied(s) && s@
                == missing_permission_text(self.plugin_name@, "read_users"@),
    {
        if !self.permissions.read_users {
            return Err(self.missing_permission("read_users"));
        }
        Ok(())
    }

    /// Checks that a URL's host is in the plugin's allow list (which may
    /// hold `*` or `*.suffix` patterns).
    #[verifier::loop_isolation(false)]
    pub fn check_http_host(&self, url: &str) -> (r: Result<(), PluginError>)
        ensures
            outcome_matches(r, http_host_outcome(self.plugin_name@, self.http_hosts@, url@), self.plugin_name@),
    {
        if self.http_hosts.len() == 0 {
            let mut m: Vec<char> = Vec::new();
            push_str(&mut m, "plugin '");
            push_str(&mut m, self.plugin_name.as_str());
            push_str(&mut m, "' has no http_hosts permission");
            proof {
                assert(m@ =~= "plugin '"@ + self.plugin_name@ + "' has no http_hosts permission"@);
            }
            return Err(permission_denied(&m));
        }
        let mut i: usize = 0;
        while i < self.http_hosts.len()
            invariant
                i <= self.http_hosts@.len(),
                forall|j: int| 0 <= j < i ==> self.http_hosts@[j]@ != "*"@,
            decreases self.http_hosts.len() - i,
        {
            if str_eq(self.http_hosts[i].as_str(), "*") {
                assert(has_wildcard(self.http_hosts@));
                return Ok(());
            }
            i = i + 1;
        }
        assert(!has_wildcard(self.http_hosts@));
        let parsed = parse_url(url);
        match parsed {
            None => {
                let mut m: Vec<char> = Vec::new();
                push_str(&mut m, "invalid URL: ");
                push_str(&mut m, url);
                Err(host_function_error(&m))
            },
            Some((_, None)) => {
                let mut m: Vec<char> = Vec::new();
                push_str(&mut m, "URL has no host: ");
                push_str(&mut m, url);
                Err(host_function_error(&m))
            },
            Some((_, Some(host))) => {
                let mut k: usize = 0;
                while k < self.http_hosts.len()
                    invariant
                        k <= self.http_hosts@.len(),
                        forall|j: int| 0 <= j < k ==> !host_matches(host@, #[trigger] self.http_hosts@[j]@),
                    decreases self.http_hosts.len() - k,
                {
                    if host_matches_pattern(host.as_str(), self.http_hosts[k].as_str()) {
                        assert(any_pattern_matches(host@, self.http_hosts@));
                        return Ok(());
                    }
                    k = k + 1;
                }
                let mut m: Vec<char> = Vec::new();
                push_str(&mut m, "plugin '");
                push_str(&mut m, self.plugin_name.as_str());
                push_str(&mut m, "' is not allowed to access host '");
                push_str(&mut m, host.as_str());
                push_str(&mut m, "'; allowed: ");
                let ghost head = m@;
                proof {
                    assert(head =~= "plugin '"@ + self.plugin_name@
                        + "' is not allowed to access host '"@ + host@ + "'; allowed: "@);
                }
                let listed = debug_list(&self.http_hosts);
                push_str(&mut m, listed.as_str());
                Err(permission_denied(&m))
            },
        }
    }

    /// Refuses URLs whose host is a refused name or a private, loopback or
    /// link-local address (applies even with the `*` permission).
    pub fn check_private_ip(&self, url: &str) -> (r: Result<(), PluginError>)
        ensures
            outcome_matches(r, private_ip_outcome(url@), self.plugin_name@),
    {
        match parse_url(url) {
            None => {
                let mut m: Vec<char> = Vec::new();
                push_str(&mut m, "invalid URL: ");
                push_str(&mut m, url);
                Err(host_function_error(&m))
            },
            Some((_, None)) => Ok(()),
            Some((_, Some(host))) => {
                if is_blocked_host(host.as_str()) {
                    let mut m: Vec<char> = Vec::new();
                    push_str(&mut m, "HTTP requests to '");
                    push_str(&mut m, host.as_str());
                    push_str(&mut m, "' are blocked (private/reserved address)");
                    proof {
                        assert(m@ =~= "HTTP requests to '"@ + host@
                            + "' are blocked (private/reserved address)"@);
                    }
                    return Err(permission_denied(&m));
                }
                if host_private_ip(host.as_str()) {
                    let mut m: Vec<char> = Vec::new();
                    push_str(&mut m, "HTTP requests to private IP '");
                    push_str(&mut m, host.as_str());
                    push_str(&mut m, "' are blocked");
                    proof {
                        assert(m@ =~= "HTTP requests to private IP '"@ + host@ + "' are blocked"@);
                    }
                    return Err(permission_denied(&m));
                }
                Ok(())
            },
        }
    }

    /// Both guards that run before an outgoing HTTP request, in order: the
    /// allow list, then the private-address refusal.
    pub fn check_http_request(&self, url: &str) -> (r: Result<(), PluginError>)
        ensures
            http_host_outcome(self.plugin_name@, self.http_hosts@, url@) is Some ==> outcome_matches(
                r,
                http_host_outcome(self.plugin_name@, self.http_hosts@, url@),
                self.plugin_name@,
            ),
            http_host_outcome(self.plugin_name@, self.http_hosts@, url@) is None ==> outcome_matches(
                r,
                private_ip_outcome(url@),
                self.plugin_name@,
            ),
    {
        self.check_http_host(url)?;
        self.check_private_ip(url)
    }

    /// The metadata change a plugin asks for; only `title` and `genre` may be
    /// set, and only with the `write_tracks` permission.
    pub fn track_metadata_update(&self, field: &str, value: &str) -> (r: Result<
        TrackMetadataUpdate,
        PluginError,
    >)
        ensures
            !self.permissions.write_tracks ==> (r matches Err(PluginError::PermissionDenied(s)) && s@
                == missing_permission_text(self.plugin_name@, "write_tracks"@)),
            self.permissions.write_tracks ==> match r {
                Ok(TrackMetadataUpdate::Title(v)) => field@ == "title"@ && v@ == value@,
                Ok(TrackMetadataUpdate::Genre(v)) => field@ == "genre"@ && v@ == value@,
                Err(e) => field@ != "title"@ && field@ != "genre"@ && (e matches PluginError::HostFunction(s)
                    && s@ == "unsupported metadata field: "@ + field@),
            },
    {
        self.require_write_tracks()?;
        let v = string_of(&chars_of(value));
        if str_eq(field, "title") {
            Ok(TrackMetadataUpdate::Title(v))
        } else if str_eq(field, "genre") {
            Ok(TrackMetadataUpdate::Genre(v))
        } else {
            let mut m: Vec<char> = Vec::new();
            push_str(&mut m, "unsupported metadata field: ");
            push_str(&mut m, field);
            Err(host_function_error(&m))
        }
    }

    /// The configuration key under which the lyrics of a track are stored,
    /// `lyrics:{track_id}`; requires the `write_tracks` permission.
    pub fn lyrics_config_key(&self, track_id: &str) -> (r: Result<String, PluginError>)
        ensures
            r is Ok <==> self.permissions.write_tracks,
            r matches Ok(k) ==> k@ == "lyrics:"@ + track_id@,
            r matches Err(e) ==> e matches PluginError::PermissionDenied(s) && s@
                == missing_permission_text(self.plugin_name@, "write_tracks"@),
    {
        self.require_write_tracks()?;
        let mut m: Vec<char> = Vec::new();
        push_str(&mut m, "lyrics:");
        push_str(&mut m, track_id);
        Ok(string_of(&m))
    }

    /// Accepts a custom event from the plugin; the name must not be empty.
    pub fn emit_event(&self, event_name: &str, payload: &str) -> (r: Result<bool, PluginError>)
        ensures
            event_name@.len() == 0 <==> r is Err,
            r matches Ok(b) ==> b,
            r matches Err(e) ==> e matches PluginError::HostFunction(s) && s@
                == "event name cannot be empty"@,
    {
        let n = chars_of(event_name);
        if n.len() == 0 {
            let mut m: Vec<char> = Vec::new();
            push_str(&mut m, "event name cannot be empty");
            return Err(host_function_error(&m));
        }
        Ok(true)
    }

    /// The current UTC time in RFC 3339 form (see `utc_rfc3339_shape`).
    pub fn get_current_timestamp(&self) -> (r: String)
        ensures
            utc_rfc3339_shape(r@),
    {
        now_rfc3339()
    }

    /// The instance information handed to plugins.
    pub fn instance_info(&self, track_count: u64, user_count: u64) -> (i: InstanceInfo)
        ensures
            i.name@ == "SoundTime"@,
            i.version@ == self.server_version@,
            i.domain@ == self.domain@,
            i.track_count == track_count,
            i.user_count == user_count,
    {
        InstanceInfo {
            name: string_of(&chars_of("SoundTime")),
            version: self.server_version.clone(),
            domain: self.domain.clone(),
            track_count,
            user_count,
        }
    }
}

/// Reads a track ID given by a plugin.
pub fn parse_track_id(track_id: &str) -> (r: Result<u128, PluginError>)
    ensures
        match parsed_uuid(track_id@) {
            Some(id) => r == Ok::<u128, PluginError>(id),
            None => r matches Err(PluginError::HostFunction(s)) && s@ == "invalid track UUID: "@
                + track_id@,
        },
{
    match parse_uuid(track_id) {
        Some(id) => Ok(id),
        None => {
            let mut m: Vec<char> = Vec::new();
            push_str(&mut m, "invalid track UUID: ");
            push_str(&mut m, track_id);
            Err(host_function_error(&m))
        },
    }
}

/// Reads a user ID given by a plugin.
pub fn parse_user_id(user_id: &str) -> (r: Result<u128, PluginError>)
    ensures
        match parsed_uuid(user_id@) {
            Some(id) => r == Ok::<u128, PluginError>(id),
            None => r matches Err(PluginError::HostFunction(s)) && s@ == "invalid user UUID: "@
                + user_id@,
        },
{
    match parse_uuid(user_id) {
        Some(id) => Ok(id),
        None => {
            let mut m: Vec<char> = Vec::new();
            push_str(&mut m, "invalid user UUID: ");
            push_str(&mut m, user_id);
            Err(host_function_error(&m))
        },
    }
}

/// Number of tracks a plugin search returns at most: the asked limit, capped
/// at 100.
pub fn search_limit(limit: u32) -> (n: u64)
    ensures
        n == if limit <= 100 { limit as u64 } else { 100 },
{
    if limit <= 100 {
        limit as u64
    } else {
        100
    }
}

/// The page window for listing tracks: `per_page` clamped to 1..=100,
/// `page` at least 1, and the offset of its first track.
pub fn track_page_window(page: u32, per_page: u32) -> (w: PageWindow)
    ensures
        w.per_page == if per_page < 1 { 1 } else if per_page > 100 { 100 } else { per_page },
        w.page == if page < 1 { 1 } else { page },
        w.offset == (w.page - 1) * w.per_page,
{
    let pp: u32 = if per_page < 1 {
        1
    } else if per_page > 100 {
        100
    } else {
        per_page
    };
    let p: u32 = if page < 1 {
        1
    } else {
        page
    };
    assert((p as u64 - 1) * (pp as u64) <= 0xFFFF_FFFFu64 * 100) by (nonlinear_arith)
        requires
            1 <= p,
            pp <= 100,
    ;
    let offset: u64 = (p as u64 - 1) * (pp as u64);
    PageWindow { page: p, per_page: pp, offset }
}

/// Checks the size of an HTTP response body against the 10 MB limit.
pub fn check_body_size(len: usize) -> (r: Result<(), PluginError>)
    ensures
        r is Ok <==> len <= MAX_HTTP_RESPONSE_BYTES,
        r matches Err(e) ==> e matches PluginError::Http(s) && s@ == "response body too large: "@
            + dec(len as nat) + " bytes (max: 10485760 bytes)"@,
{
    if len > MAX_HTTP_RESPONSE_BYTES {
        let mut m: Vec<char> = Vec::new();
        push_str(&mut m, "response body too large: ");
        push_decimal(&mut m, len as u64);
        push_str(&mut m, " bytes (max: 10485760 bytes)");
        return Err(PluginError::Http(string_of(&m)));
    }
    Ok(())
}

/// What `String::from_utf8_lossy` makes of bytes: the text they encode,
/// each invalid sequence replaced by U+FFFD.
pub uninterp spec fn lossy_utf8(bytes: Seq<u8>) -> Seq<char>;

/// Trusted: calls `String::from_utf8_lossy`.  Names its result; as its
/// documentation says, bytes that are valid UTF-8 come back as the text they
/// encode.
#[verifier::external_body]
fn utf8_lossy(bytes: &[u8]) -> (r: String)
    ensures
        r@ == lossy_utf8(bytes@),
        valid_utf8(bytes@) ==> r@ == decode_utf8(bytes@),
{
    String::from_utf8_lossy(bytes).to_string()
}

/// The body of an HTTP response handed to a plugin: refused over 10 MB (see
/// `check_body_size`), else its bytes read as UTF-8, invalid sequences
/// replaced.
pub fn response_body(bytes: &[u8]) -> (r: Result<String, PluginError>)
    ensures
        bytes@.len() <= MAX_HTTP_RESPONSE_BYTES ==> (r matches Ok(s) && s@ == lossy_utf8(bytes@)),
        valid_utf8(bytes@) && bytes@.len() <= MAX_HTTP_RESPONSE_BYTES ==> (r matches Ok(s) && s@
            == decode_utf8(bytes@)),
        bytes@.len() > MAX_HTTP_RESPONSE_BYTES ==> (r matches Err(PluginError::Http(m)) && m@
            == "response body too large: "@ + dec(bytes@.len()) + " bytes (max: 10485760 bytes)"@),
{
    match check_body_size(bytes.len()) {
        Err(e) => Err(e),
        Ok(()) => Ok(utf8_lossy(bytes)),
    }
}

/// The information on a user handed to a plugin: the ID in hyphenated
/// form, the username, display name and role name, and the creation time as
/// given.
pub fn user_info(id: u128, username: String, display_name: Option<String>, role: &str, created_at: String) -> (u: UserInfo)
    ensures
        u.id@ == uuid_text(id),
        u.username == username,
        u.display_name == display_name,
        u.role@ == role@,
        u.created_at == created_at,
{
    UserInfo { id: uuid_string(id), username, display_name, role: string_of(&chars_of(role)), created_at }
}

} // verus!
