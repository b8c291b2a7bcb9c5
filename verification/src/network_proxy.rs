use vstd::prelude::*;

use std::collections::VecDeque;

use crate::browser_cli::clone_string;
use crate::browser_cli::opt_view;
use crate::text::string_views;
use crate::browser_cli::cat2;
use crate::browser_cli::cat3;
use crate::browser_cli::env_lookup;
use crate::browser_cli::env_value;
use crate::browser_cli::env_view;
use crate::text::before_first;
use crate::text::before_first_seq;
use crate::text::contains_char;
use crate::text::decimal_seq;
use crate::text::lower_seq;
use crate::text::owned;
use crate::text::parse_u16;
use crate::text::parse_u16_spec;
use crate::text::replace_pct25;
use crate::text::rsplit_once;
use crate::text::rsplit_once_seq;
use crate::text::starts_with;
use crate::text::starts_with_seq;
use crate::text::str_eq;
use crate::text::to_ascii_lowercase;
use crate::text::trim;
use crate::text::trim_seq;
use crate::text::u64_to_decimal;
use crate::text::unescape_pct25;

verus! {

// ---------------------------------------------------------------------------
// Modes, reasons, protocols and decisions
// ---------------------------------------------------------------------------

#[derive(Debug, Clone, Copy, PartialEq, Eq, Structural)]
pub enum NetworkMode {
    Limited,
    Full,
}

impl Default for NetworkMode {
    fn default() -> (r: NetworkMode)
        ensures
            r == NetworkMode::Full,
    {
        NetworkMode::Full
    }
}

pub open spec fn method_allowed_spec(mode: NetworkMode, method: Seq<char>) -> bool {
    match mode {
        NetworkMode::Full => true,
        NetworkMode::Limited => method == "GET"@ || method == "HEAD"@ || method == "OPTIONS"@,
    }
}

impl NetworkMode {
    /// Full mode allows every method; limited mode only the read-only ones.
    pub fn allows_method(self, method: &str) -> (r: bool)
        ensures
            r == method_allowed_spec(self, method@),
    {
        match self {
            NetworkMode::Full => true,
            NetworkMode::Limited => str_eq(method, "GET") || str_eq(method, "HEAD") || str_eq(
                method,
                "OPTIONS",
            ),
        }
    }
}

/// Full mode allows every method; limited mode allows exactly the read-only
/// methods GET, HEAD and OPTIONS, and refuses every other method.
pub proof fn law_limited_mode_allows_read_only_methods(method: Seq<char>)
    ensures
        method_allowed_spec(NetworkMode::Full, method),
        method_allowed_spec(NetworkMode::Limited, "GET"@),
        method_allowed_spec(NetworkMode::Limited, "HEAD"@),
        method_allowed_spec(NetworkMode::Limited, "OPTIONS"@),
        method_allowed_spec(NetworkMode::Limited, method) ==> (method == "GET"@ || method == "HEAD"@
            || method == "OPTIONS"@),
{
}

#[derive(Debug, Clone, Copy, PartialEq, Eq, Structural)]
pub enum HostBlockReason {
    Denied,
    NotAllowed,
    NotAllowedLocal,
}

impl HostBlockReason {
    pub fn as_str(self) -> (r: &'static str)
        ensures
            r@ == match self {
                HostBlockReason::Denied => "denied"@,
                HostBlockReason::NotAllowed => "not_allowed"@,
                HostBlockReason::NotAllowedLocal => "not_allowed_local"@,
            },
    {
        match self {
            HostBlockReason::Denied => "denied",
            HostBlockReason::NotAllowed => "not_allowed",
            HostBlockReason::NotAllowedLocal => "not_allowed_local",
        }
    }
}

#[derive(Debug, Clone, Copy, PartialEq, Eq, Structural)]
pub enum HostBlockDecision {
    Allowed,
    Blocked(HostBlockReason),
}

#[derive(Debug, Clone, Copy, PartialEq, Eq, Structural)]
pub enum NetworkProtocol {
    Http,
    HttpsConnect,
    Socks5Tcp,
    Socks5Udp,
}

impl NetworkProtocol {
    pub fn as_policy_protocol(self) -> (r: &'static str)
        ensures
            r@ == match self {
                NetworkProtocol::Http => "http"@,
                NetworkProtocol::HttpsConnect => "https_connect"@,
                NetworkProtocol::Socks5Tcp => "socks5_tcp"@,
                NetworkProtocol::Socks5Udp => "socks5_udp"@,
            },
    {
        match self {
            NetworkProtocol::Http => "http",
            NetworkProtocol::HttpsConnect => "https_connect",
            NetworkProtocol::Socks5Tcp => "socks5_tcp",
            NetworkProtocol::Socks5Udp => "socks5_udp",
        }
    }
}

#[derive(Debug, Clone, Copy, PartialEq, Eq, Structural)]
pub enum NetworkPolicyDecision {
    Deny,
    Ask,
}

impl NetworkPolicyDecision {
    pub fn as_str(self) -> (r: &'static str)
        ensures
            r@ == match self {
                NetworkPolicyDecision::Deny => "deny"@,
                NetworkPolicyDecision::Ask => "ask"@,
            },
    {
        match self {
            NetworkPolicyDecision::Deny => "deny",
            NetworkPolicyDecision::Ask => "ask",
        }
    }
}

#[derive(Debug, Clone, Copy, PartialEq, Eq, Structural)]
pub enum NetworkDecisionSource {
    BaselinePolicy,
    ModeGuard,
    ProxyState,
    Decider,
}

impl NetworkDecisionSource {
    pub fn as_str(self) -> (r: &'static str)
        ensures
            r@ == match self {
                NetworkDecisionSource::BaselinePolicy => "baseline_policy"@,
                NetworkDecisionSource::ModeGuard => "mode_guard"@,
                NetworkDecisionSource::ProxyState => "proxy_state"@,
                NetworkDecisionSource::Decider => "decider"@,
            },
    {
        match self {
            NetworkDecisionSource::BaselinePolicy => "baseline_policy",
            NetworkDecisionSource::ModeGuard => "mode_guard",
            NetworkDecisionSource::ProxyState => "proxy_state",
            NetworkDecisionSource::Decider => "decider",
        }
    }
}

/// A policy decision reported to the user; `protocol` is the approval
/// protocol's name, where one was given.
#[derive(Debug, Clone, PartialEq, Eq)]
pub struct NetworkPolicyDecisionPayload {
    pub decision: NetworkPolicyDecision,
    pub source: NetworkDecisionSource,
    pub protocol: Option<String>,
    pub host: Option<String>,
    pub reason: Option<String>,
    pub port: Option<u16>,
}

impl NetworkPolicyDecisionPayload {
    /// Whether the decider asked for the user's approval.
    pub fn is_ask_from_decider(&self) -> (r: bool)
        ensures
            r == (self.decision == NetworkPolicyDecision::Ask && self.source
                == NetworkDecisionSource::Decider),
    {
        self.decision == NetworkPolicyDecision::Ask && self.source == NetworkDecisionSource::Decider
    }
}

/// The outcome of asking the policy about one connection.
#[derive(Debug, Clone, PartialEq, Eq)]
pub enum NetworkDecision {
    Allow,
    Deny { reason: String, source: NetworkDecisionSource, decision: NetworkPolicyDecision },
}

pub open spec fn decision_is(
    d: NetworkDecision,
    reason: Seq<char>,
    source: NetworkDecisionSource,
    decision: NetworkPolicyDecision,
) -> bool {
    d matches NetworkDecision::Deny { reason: r, source: s, decision: k } && r@ == reason && s
        == source && k == decision
}

impl NetworkDecision {
    pub fn deny(reason: String) -> (d: NetworkDecision)
        ensures
            decision_is(d, reason@, NetworkDecisionSource::Decider, NetworkPolicyDecision::Deny),
    {
        NetworkDecision::deny_with_source(reason, NetworkDecisionSource::Decider)
    }

    pub fn ask(reason: String) -> (d: NetworkDecision)
        ensures
            decision_is(d, reason@, NetworkDecisionSource::Decider, NetworkPolicyDecision::Ask),
    {
        NetworkDecision::ask_with_source(reason, NetworkDecisionSource::Decider)
    }

    pub fn deny_with_source(reason: String, source: NetworkDecisionSource) -> (d: NetworkDecision)
        ensures
            decision_is(d, reason@, source, NetworkPolicyDecision::Deny),
    {
        NetworkDecision::Deny { reason, source, decision: NetworkPolicyDecision::Deny }
    }

    pub fn ask_with_source(reason: String, source: NetworkDecisionSource) -> (d: NetworkDecision)
        ensures
            decision_is(d, reason@, source, NetworkPolicyDecision::Ask),
    {
        NetworkDecision::Deny { reason, source, decision: NetworkPolicyDecision::Ask }
    }
}

/// A connection the policy is asked about.
#[derive(Debug, Clone)]
pub struct NetworkPolicyRequest {
    pub protocol: NetworkProtocol,
    pub host: String,
    pub port: u16,
    pub client_addr: Option<String>,
    pub method: Option<String>,
    pub command: Option<String>,
    pub exec_policy_hint: Option<String>,
}

pub struct NetworkPolicyRequestArgs {
    pub protocol: NetworkProtocol,
    pub host: String,
    pub port: u16,
    pub client_addr: Option<String>,
    pub method: Option<String>,
    pub command: Option<String>,
    pub exec_policy_hint: Option<String>,
}

impl NetworkPolicyRequest {
    pub fn new(args: NetworkPolicyRequestArgs) -> (r: NetworkPolicyRequest)
        ensures
            r.protocol == args.protocol,
            r.host == args.host,
            r.port == args.port,
            r.client_addr == args.client_addr,
            r.method == args.method,
            r.command == args.command,
            r.exec_policy_hint == args.exec_policy_hint,
    {
        NetworkPolicyRequest {
            protocol: args.protocol,
            host: args.host,
            port: args.port,
            client_addr: args.client_addr,
            method: args.method,
            command: args.command,
            exec_policy_hint: args.exec_policy_hint,
        }
    }
}

/// A connection that the proxy refused, as it is reported.
#[derive(Debug)]
pub struct BlockedRequest {
    pub host: String,
    pub reason: String,
    pub client: Option<String>,
    pub method: Option<String>,
    pub mode: Option<NetworkMode>,
    pub protocol: String,
    pub decision: Option<String>,
    pub source: Option<String>,
    pub port: Option<u16>,
    pub timestamp: i64,
}

pub struct BlockedRequestArgs {
    pub host: String,
    pub reason: String,
    pub client: Option<String>,
    pub method: Option<String>,
    pub mode: Option<NetworkMode>,
    pub protocol: String,
    pub decision: Option<String>,
    pub source: Option<String>,
    pub port: Option<u16>,
}

impl BlockedRequest {
    /// A record of the refused connection; the browser build has no clock, so
    /// its timestamp is zero.
    pub fn new(args: BlockedRequestArgs) -> (r: BlockedRequest)
        ensures
            r.host == args.host,
            r.reason == args.reason,
            r.client == args.client,
            r.method == args.method,
            r.mode == args.mode,
            r.protocol == args.protocol,
            r.decision == args.decision,
            r.source == args.source,
            r.port == args.port,
            r.timestamp == 0,
    {
        BlockedRequest {
            host: args.host,
            reason: args.reason,
            client: args.client,
            method: args.method,
            mode: args.mode,
            protocol: args.protocol,
            decision: args.decision,
            source: args.source,
            port: args.port,
            timestamp: 0,
        }
    }
}

/// The browser build keeps no proxy certificate bundle.
pub fn is_managed_mitm_ca_trust_bundle_path(path: &str) -> (r: bool)
    ensures
        !r,
{
    false
}

// ---------------------------------------------------------------------------
// Domain permissions
// ---------------------------------------------------------------------------

/// What a domain pattern grants, ordered `NoPermission < Allow < Deny`.
#[derive(Debug, Clone, Copy, PartialEq, Eq, Structural)]
pub enum NetworkDomainPermission {
    NoPermission,
    Allow,
    Deny,
}

pub open spec fn permission_rank(p: NetworkDomainPermission) -> int {
    match p {
        NetworkDomainPermission::NoPermission => 0,
        NetworkDomainPermission::Allow => 1,
        NetworkDomainPermission::Deny => 2,
    }
}

/// The stronger of two permissions.
pub open spec fn max_permission(a: NetworkDomainPermission, b: NetworkDomainPermission) -> NetworkDomainPermission {
    if permission_rank(b) > permission_rank(a) {
        b
    } else {
        a
    }
}

fn rank(p: NetworkDomainPermission) -> (r: u8)
    ensures
        r == permission_rank(p),
{
    match p {
        NetworkDomainPermission::NoPermission => 0,
        NetworkDomainPermission::Allow => 1,
        NetworkDomainPermission::Deny => 2,
    }
}

#[derive(Debug, Clone, PartialEq, Eq)]
pub struct NetworkDomainPermissionEntry {
    pub pattern: String,
    pub permission: NetworkDomainPermission,
}

/// Domain patterns with their permissions, in the order they were written; a
/// pattern may appear more than once.
#[derive(Debug, Clone, PartialEq, Eq)]
pub struct NetworkDomainPermissions {
    pub entries: Vec<NetworkDomainPermissionEntry>,
}

impl Default for NetworkDomainPermissions {
    fn default() -> (r: NetworkDomainPermissions)
        ensures
            r.entries@.len() == 0,
    {
        NetworkDomainPermissions { entries: Vec::new() }
    }
}

pub type EntryView = (Seq<char>, NetworkDomainPermission);

pub open spec fn entries_view(v: Seq<NetworkDomainPermissionEntry>) -> Seq<EntryView> {
    v.map_values(|e: NetworkDomainPermissionEntry| (e.pattern@, e.permission))
}

pub open spec fn distinct_patterns(es: Seq<EntryView>) -> bool {
    forall|i: int, j: int| 0 <= i < j < es.len() ==> es[i].0 != es[j].0
}

/// The index of the entry for `p`, or -1.
pub open spec fn pattern_index(es: Seq<EntryView>, p: Seq<char>) -> int {
    if exists|j: int| 0 <= j < es.len() && es[j].0 == p {
        choose|j: int| 0 <= j < es.len() && es[j].0 == p
    } else {
        -1
    }
}

/// `acc` after one more entry: a new pattern is appended, a known one keeps
/// its place and the stronger permission.
pub open spec fn absorb(acc: Seq<EntryView>, e: EntryView) -> Seq<EntryView> {
    let j = pattern_index(acc, e.0);
    if j >= 0 {
        acc.update(j, (e.0, max_permission(acc[j].1, e.1)))
    } else {
        acc.push(e)
    }
}

pub open spec fn effective_upto(es: Seq<EntryView>, n: int) -> Seq<EntryView>
    decreases n,
{
    if n <= 0 || n > es.len() {
        Seq::empty()
    } else {
        absorb(effective_upto(es, n - 1), es[n - 1])
    }
}

/// One entry per pattern, in the order of first appearance, each with the
/// strongest permission written for it.
pub open spec fn effective_spec(es: Seq<EntryView>) -> Seq<EntryView> {
    effective_upto(es, es.len() as int)
}

impl NetworkDomainPermissions {
    pub fn effective_entries(&self) -> (r: Vec<NetworkDomainPermissionEntry>)
        ensures
            entries_view(r@) == effective_spec(entries_view(self.entries@)),
            distinct_patterns(entries_view(r@)),
    {
        let ghost es = entries_view(self.entries@);
        let mut out: Vec<NetworkDomainPermissionEntry> = Vec::new();
        let mut i: usize = 0;
        assert(entries_view(out@) =~= effective_upto(es, 0));
        while i < self.entries.len()
            invariant
                es == entries_view(self.entries@),
                i <= self.entries.len(),
                entries_view(out@) == effective_upto(es, i as int),
                distinct_patterns(entries_view(out@)),
            decreases self.entries.len() - i,
        {
            let entry = &self.entries[i];
            let ghost acc = entries_view(out@);
            let ghost e = es[i as int];
            assert(e == (entry.pattern@, entry.permission));
            let mut j: usize = 0;
            let mut found = false;
            while j < out.len()
                invariant_except_break
                    !found,
                invariant
                    acc == entries_view(out@),
                    e.0 == entry.pattern@,
                    j <= out.len(),
                    forall|k: int| 0 <= k < j ==> acc[k].0 != e.0,
                ensures
                    found ==> j < out.len() && acc[j as int].0 == e.0,
                    !found ==> forall|k: int| 0 <= k < out.len() ==> acc[k].0 != e.0,
                decreases out.len() - j,
            {
                assert(acc[j as int].0 == out@[j as int].pattern@);
                if str_eq(out[j].pattern.as_str(), entry.pattern.as_str()) {
                    found = true;
                    break;
                }
                j = j + 1;
            }
            if found {
                assert(exists|k: int| 0 <= k < acc.len() && acc[k].0 == e.0);
                let ghost c = choose|k: int| 0 <= k < acc.len() && acc[k].0 == e.0;
                assert(c == j as int);
                if rank(entry.permission) > rank(out[j].permission) {
                    let pattern = clone_string(&out[j].pattern);
                    out.set(j, NetworkDomainPermissionEntry { pattern, permission: entry.permission });
                }
                assert(entries_view(out@) =~= absorb(acc, e));
            } else {
                out.push(NetworkDomainPermissionEntry {
                    pattern: clone_string(&entry.pattern),
                    permission: entry.permission,
                });
                assert(entries_view(out@) =~= absorb(acc, e));
            }
            i = i + 1;
        }
        out
    }
}

// ---------------------------------------------------------------------------
// Hosts and addresses
// ---------------------------------------------------------------------------

/// A host as the policy compares it: trimmed, ASCII lower case, without IPv6
/// brackets (and with `%25` unescaped inside them), without a `:port` where
/// the rest holds no colon, and without one trailing dot.
pub open spec fn normalize_host_spec(host: Seq<char>) -> Seq<char> {
    let h = lower_seq(trim_seq(host));
    let h2 = if h.len() > 0 && h[0] == '[' {
        unescape_pct25(before_first_seq(h.drop_first(), ']'))
    } else {
        match rsplit_once_seq(h, ':') {
            Some((without_port, port)) => if !without_port.contains(':') && parse_u16_spec(
                port,
            ) is Some {
                without_port
            } else {
                h
            },
            None => h,
        }
    };
    if h2.len() > 0 && h2.last() == '.' {
        h2.drop_last()
    } else {
        h2
    }
}

pub fn normalize_host(host: &str) -> (r: String)
    ensures
        r@ == normalize_host_spec(host@),
{
    let lowered = to_ascii_lowercase(trim(host));
    let h: &str = lowered.as_str();
    let n = h.unicode_len();
    let h2: String = if n > 0 && h.get_char(0) == '[' {
        let inner = h.substring_char(1, n);
        assert(inner@ =~= h@.drop_first());
        replace_pct25(before_first(inner, ']'))
    } else {
        match rsplit_once(h, ':') {
            Some((without_port, port)) => {
                if !contains_char(without_port, ':') && parse_u16(port).is_some() {
                    owned(without_port)
                } else {
                    owned(h)
                }
            },
            None => owned(h),
        }
    };
    let m = h2.as_str().unicode_len();
    if m > 0 && h2.as_str().get_char(m - 1) == '.' {
        let r = owned(h2.as_str().substring_char(0, m - 1));
        assert(r@ =~= h2@.drop_last());
        r
    } else {
        h2
    }
}

/// `host:port`, with an IPv6 host put in brackets.
pub open spec fn host_port_spec(host: Seq<char>, port: u16) -> Seq<char> {
    if host.contains(':') && !starts_with_seq(host, "["@) {
        "["@ + host + "]:"@ + decimal_seq(port as nat)
    } else {
        host + ":"@ + decimal_seq(port as nat)
    }
}

pub fn format_host_port(host: &str, port: u16) -> (r: String)
    ensures
        r@ == host_port_spec(host@, port),
{
    let p = u64_to_decimal(port as u64);
    if contains_char(host, ':') && !starts_with(host, "[") {
        let head = cat3("[", host, "]:");
        cat2(head.as_str(), p.as_str())
    } else {
        cat3(host, ":", p.as_str())
    }
}

/// What `url::Url` makes of a text: `None` where it is no URL, else the
/// URL's host text and its port (the explicit one, or the scheme's default).
pub uninterp spec fn url_host_port(s: Seq<char>) -> Option<(Option<Seq<char>>, Option<u16>)>;

pub open spec fn parsed_url_view(r: Option<(Option<String>, Option<u16>)>) -> Option<
    (Option<Seq<char>>, Option<u16>),
> {
    match r {
        Some((h, p)) => Some((opt_view(h), p)),
        None => None,
    }
}

/// `url::Url::parse`, then `Url::host_str` and `Url::port_or_known_default`
/// on the result. Its result is named, not stated: it is whatever the `url`
/// crate's parser gives for this text.
#[verifier::external_body]
fn parse_url_host_port(s: &str) -> (r: Option<(Option<String>, Option<u16>)>)
    ensures
        parsed_url_view(r) == url_host_port(s@),
{
    match s.parse::<url::Url>() {
        Ok(url) => Some((url.host_str().map(|h| h.to_string()), url.port_or_known_default())),
        Err(_) => None,
    }
}

pub open spec fn loopback_addr(default_port: u16) -> Seq<char> {
    "127.0.0.1:"@ + decimal_seq(default_port as nat)
}

/// The `host:port` of a proxy address, from the trimmed text and what the URL
/// parser made of it.
pub open spec fn host_and_port_spec(
    trimmed: Seq<char>,
    parsed: Option<(Option<Seq<char>>, Option<u16>)>,
    default_port: u16,
) -> Seq<char> {
    if trimmed.len() == 0 {
        loopback_addr(default_port)
    } else {
        match parsed {
            Some((Some(host), Some(port))) => host_port_spec(host, port),
            Some((Some(host), None)) => host_port_spec(host, default_port),
            Some((None, _)) => loopback_addr(default_port),
            None => if trimmed.contains(':') {
                trimmed
            } else {
                trimmed + ":"@ + decimal_seq(default_port as nat)
            },
        }
    }
}

/// The `host:port` of a proxy address, given what the URL parser made of the
/// trimmed address.
pub fn host_and_port_from_parsed(
    trimmed: &str,
    parsed: Option<(Option<String>, Option<u16>)>,
    default_port: u16,
) -> (r: String)
    ensures
        r@ == host_and_port_spec(trimmed@, parsed_url_view(parsed), default_port),
{
    let d = u64_to_decimal(default_port as u64);
    if trimmed.unicode_len() == 0 {
        return cat2("127.0.0.1:", d.as_str());
    }
    match parsed {
        Some((Some(host), Some(port))) => format_host_port(host.as_str(), port),
        Some((Some(host), None)) => format_host_port(host.as_str(), default_port),
        Some((None, _)) => cat2("127.0.0.1:", d.as_str()),
        None => if contains_char(trimmed, ':') {
            owned(trimmed)
        } else {
            cat3(trimmed, ":", d.as_str())
        },
    }
}

/// The `host:port` that a proxy address names.
pub fn host_and_port_from_network_addr(value: &str, default_port: u16) -> (r: String)
    ensures
        r@ == host_and_port_spec(trim_seq(value@), url_host_port(trim_seq(value@)), default_port),
{
    let trimmed = trim(value);
    if trimmed.unicode_len() == 0 {
        return host_and_port_from_parsed(trimmed, None, default_port);
    }
    let parsed = parse_url_host_port(trimmed);
    host_and_port_from_parsed(trimmed, parsed, default_port)
}

// ---------------------------------------------------------------------------
// Proxy variables in an environment
// ---------------------------------------------------------------------------

/// The value of a proxy variable under its canonical name, else under its
/// lower-case name.
pub open spec fn proxy_env_spec(env: Seq<(Seq<char>, Seq<char>)>, key: Seq<char>) -> Option<Seq<char>> {
    match env_lookup(env, key) {
        Some(v) => Some(v),
        None => env_lookup(env, lower_seq(key)),
    }
}

/// The value of a proxy variable (see `proxy_env_spec`). The environment is
/// a list of name and value; read from a map, its names are distinct and the
/// lookup finds the one entry (`lemma_env_lookup_distinct`); where a name
/// repeats, its first entry counts.
pub fn proxy_url_env_value(env: &Vec<(String, String)>, canonical_key: &str) -> (r: Option<String>)
    ensures
        opt_view(r) == proxy_env_spec(env_view(env@), canonical_key@),
{
    if let Some(v) = env_value(env, canonical_key) {
        return Some(v);
    }
    let lower_key = to_ascii_lowercase(canonical_key);
    env_value(env, lower_key.as_str())
}

pub open spec fn proxy_set(env: Seq<(Seq<char>, Seq<char>)>, key: Seq<char>) -> bool {
    proxy_env_spec(env, key) matches Some(v) && trim_seq(v).len() > 0
}

/// Whether any proxy URL variable holds a non-blank value.
pub open spec fn has_proxy_url_spec(env: Seq<(Seq<char>, Seq<char>)>) -> bool {
    ||| proxy_set(env, "HTTP_PROXY"@)
    ||| proxy_set(env, "HTTPS_PROXY"@)
    ||| proxy_set(env, "http_proxy"@)
    ||| proxy_set(env, "https_proxy"@)
    ||| proxy_set(env, "ALL_PROXY"@)
    ||| proxy_set(env, "all_proxy"@)
}

fn proxy_var_set(env: &Vec<(String, String)>, key: &str) -> (r: bool)
    ensures
        r == proxy_set(env_view(env@), key@),
{
    match proxy_url_env_value(env, key) {
        Some(v) => trim(v.as_str()).unicode_len() > 0,
        None => false,
    }
}

pub fn has_proxy_url_env_vars(env: &Vec<(String, String)>) -> (r: bool)
    ensures
        r == has_proxy_url_spec(env_view(env@)),
{
    proxy_var_set(env, "HTTP_PROXY") || proxy_var_set(env, "HTTPS_PROXY") || proxy_var_set(
        env,
        "http_proxy",
    ) || proxy_var_set(env, "https_proxy") || proxy_var_set(env, "ALL_PROXY") || proxy_var_set(
        env,
        "all_proxy",
    )
}

// ---------------------------------------------------------------------------
// Proxy settings
// ---------------------------------------------------------------------------

#[derive(Debug, Clone, Copy, PartialEq, Eq, Structural)]
pub enum NetworkUnixSocketPermission {
    Allow,
    Deny,
}

/// Unix socket paths and their permissions, one entry per path, kept in
/// ascending path order.
#[derive(Debug, Clone, PartialEq, Eq)]
pub struct NetworkUnixSocketPermissions {
    pub entries: Vec<(String, NetworkUnixSocketPermission)>,
}

/// The settings of the network sandbox proxy.
pub struct NetworkProxySettings {
    pub enabled: bool,
    pub proxy_url: String,
    pub enable_socks5: bool,
    pub socks_url: String,
    pub enable_socks5_udp: bool,
    pub allow_upstream_proxy: bool,
    pub dangerously_allow_non_loopback_proxy: bool,
    pub dangerously_allow_all_unix_sockets: bool,
    pub mode: NetworkMode,
    pub domains: Option<NetworkDomainPermissions>,
    pub unix_sockets: Option<NetworkUnixSocketPermissions>,
    pub allow_local_binding: bool,
    pub mitm: bool,
}

impl Default for NetworkProxySettings {
    fn default() -> (r: NetworkProxySettings)
        ensures
            !r.enabled,
            r.proxy_url@ == "http://127.0.0.1:3128"@,
            r.enable_socks5,
            r.socks_url@ == "http://127.0.0.1:8081"@,
            r.enable_socks5_udp,
            r.allow_upstream_proxy,
            !r.dangerously_allow_non_loopback_proxy,
            !r.dangerously_allow_all_unix_sockets,
            r.mode == NetworkMode::Full,
            r.domains is None,
            r.unix_sockets is None,
            !r.allow_local_binding,
            !r.mitm,
    {
        NetworkProxySettings {
            enabled: false,
            proxy_url: owned("http://127.0.0.1:3128"),
            enable_socks5: true,
            socks_url: owned("http://127.0.0.1:8081"),
            enable_socks5_udp: true,
            allow_upstream_proxy: true,
            dangerously_allow_non_loopback_proxy: false,
            dangerously_allow_all_unix_sockets: false,
            mode: NetworkMode::Full,
            domains: None,
            unix_sockets: None,
            allow_local_binding: false,
            mitm: false,
        }
    }
}

pub open spec fn domains_view(d: Option<NetworkDomainPermissions>) -> Option<Seq<EntryView>> {
    match d {
        Some(p) => Some(entries_view(p.entries@)),
        None => None,
    }
}

/// The patterns of the entries with permission `p`, in order.
pub open spec fn patterns_with(es: Seq<EntryView>, p: NetworkDomainPermission) -> Seq<Seq<char>>
    decreases es.len(),
{
    if es.len() == 0 {
        Seq::empty()
    } else {
        let prev = patterns_with(es.drop_last(), p);
        if es.last().1 == p {
            prev.push(es.last().0)
        } else {
            prev
        }
    }
}

/// The entries whose permission is not `p`, in order.
pub open spec fn entries_without(es: Seq<EntryView>, p: NetworkDomainPermission) -> Seq<EntryView>
    decreases es.len(),
{
    if es.len() == 0 {
        Seq::empty()
    } else {
        let prev = entries_without(es.drop_last(), p);
        if es.last().1 != p {
            prev.push(es.last())
        } else {
            prev
        }
    }
}

/// The entries whose normalized pattern differs from `host`, in order.
pub open spec fn entries_not_for_host(es: Seq<EntryView>, host: Seq<char>) -> Seq<EntryView>
    decreases es.len(),
{
    if es.len() == 0 {
        Seq::empty()
    } else {
        let prev = entries_not_for_host(es.drop_last(), host);
        if normalize_host_spec(es.last().0) != host {
            prev.push(es.last())
        } else {
            prev
        }
    }
}

pub open spec fn domain_entries_spec(d: Option<Seq<EntryView>>, p: NetworkDomainPermission) -> Option<
    Seq<Seq<char>>,
> {
    match d {
        None => None,
        Some(es) => {
            let ps = patterns_with(effective_spec(es), p);
            if ps.len() > 0 {
                Some(ps)
            } else {
                None
            }
        },
    }
}

pub open spec fn opt_strings_view(o: Option<Vec<String>>) -> Option<Seq<Seq<char>>> {
    match o {
        Some(v) => Some(string_views(v@)),
        None => None,
    }
}

pub open spec fn nonempty_entries(es: Seq<EntryView>) -> Option<Seq<EntryView>> {
    if es.len() > 0 {
        Some(es)
    } else {
        None
    }
}

pub open spec fn entries_or_empty(d: Option<Seq<EntryView>>) -> Seq<EntryView> {
    match d {
        Some(es) => es,
        None => Seq::empty(),
    }
}

pub open spec fn entries_for(patterns: Seq<Seq<char>>, p: NetworkDomainPermission) -> Seq<EntryView> {
    patterns.map_values(|s: Seq<char>| (s, p))
}

/// The settings other than the domain list are the same.
pub open spec fn same_but_domains(a: NetworkProxySettings, b: NetworkProxySettings) -> bool {
    &&& a.enabled == b.enabled
    &&& a.proxy_url == b.proxy_url
    &&& a.enable_socks5 == b.enable_socks5
    &&& a.socks_url == b.socks_url
    &&& a.enable_socks5_udp == b.enable_socks5_udp
    &&& a.allow_upstream_proxy == b.allow_upstream_proxy
    &&& a.dangerously_allow_non_loopback_proxy == b.dangerously_allow_non_loopback_proxy
    &&& a.dangerously_allow_all_unix_sockets == b.dangerously_allow_all_unix_sockets
    &&& a.mode == b.mode
    &&& a.unix_sockets == b.unix_sockets
    &&& a.allow_local_binding == b.allow_local_binding
    &&& a.mitm == b.mitm
}

fn take_entries(d: Option<NetworkDomainPermissions>) -> (r: Vec<NetworkDomainPermissionEntry>)
    ensures
        entries_view(r@) == entries_or_empty(domains_view(d)),
{
    match d {
        Some(p) => p.entries,
        None => {
            let v: Vec<NetworkDomainPermissionEntry> = Vec::new();
            assert(entries_view(v@) =~= Seq::<EntryView>::empty());
            v
        },
    }
}

impl NetworkProxySettings {
    /// The patterns that end up with permission `permission`, or `None` where
    /// there are none.
    pub fn domain_entries(&self, permission: NetworkDomainPermission) -> (r: Option<Vec<String>>)
        ensures
            opt_strings_view(r) == domain_entries_spec(domains_view(self.domains), permission),
    {
        match &self.domains {
            None => None,
            Some(domains) => {
                let eff = domains.effective_entries();
                let ghost es = entries_view(eff@);
                let mut out: Vec<String> = Vec::new();
                let mut i: usize = 0;
                while i < eff.len()
                    invariant
                        es == entries_view(eff@),
                        i <= eff.len(),
                        string_views(out@) == patterns_with(es.subrange(0, i as int), permission),
                    decreases eff.len() - i,
                {
                    let ghost prefix = es.subrange(0, i as int + 1);
                    assert(prefix.drop_last() =~= es.subrange(0, i as int));
                    if eff[i].permission == permission {
                        let ghost before = string_views(out@);
                        out.push(clone_string(&eff[i].pattern));
                        assert(string_views(out@) =~= before.push(es[i as int].0));
                    }
                    i = i + 1;
                }
                assert(es.subrange(0, eff.len() as int) =~= es);
                if out.len() > 0 {
                    Some(out)
                } else {
                    None
                }
            },
        }
    }

    pub fn allowed_domains(&self) -> (r: Option<Vec<String>>)
        ensures
            opt_strings_view(r) == domain_entries_spec(
                domains_view(self.domains),
                NetworkDomainPermission::Allow,
            ),
    {
        self.domain_entries(NetworkDomainPermission::Allow)
    }

    pub fn denied_domains(&self) -> (r: Option<Vec<String>>)
        ensures
            opt_strings_view(r) == domain_entries_spec(
                domains_view(self.domains),
                NetworkDomainPermission::Deny,
            ),
    {
        self.domain_entries(NetworkDomainPermission::Deny)
    }

    /// Replaces the entries with permission `permission` by `entries`, which
    /// come after the kept ones; an empty list leaves no domain table.
    pub fn set_domain_entries(&mut self, entries: Vec<String>, permission: NetworkDomainPermission)
        ensures
            same_but_domains(*old(self), *final(self)),
            domains_view(final(self).domains) == nonempty_entries(
                entries_without(entries_or_empty(domains_view(old(self).domains)), permission)
                    + entries_for(string_views(entries@), permission),
            ),
    {
        let ghost before = entries_or_empty(domains_view(self.domains));
        let old_entries = take_entries(self.domains.take());
        let mut kept: Vec<NetworkDomainPermissionEntry> = Vec::new();
        let mut i: usize = 0;
        assert(entries_view(kept@) =~= entries_without(before.subrange(0, 0), permission));
        while i < old_entries.len()
            invariant
                before == entries_view(old_entries@),
                i <= old_entries.len(),
                entries_view(kept@) == entries_without(before.subrange(0, i as int), permission),
            decreases old_entries.len() - i,
        {
            let ghost prefix = before.subrange(0, i as int + 1);
            assert(prefix.drop_last() =~= before.subrange(0, i as int));
            if old_entries[i].permission != permission {
                let ghost b = entries_view(kept@);
                kept.push(NetworkDomainPermissionEntry {
                    pattern: clone_string(&old_entries[i].pattern),
                    permission: old_entries[i].permission,
                });
                assert(entries_view(kept@) =~= b.push(before[i as int]));
            }
            i = i + 1;
        }
        assert(before.subrange(0, old_entries.len() as int) =~= before);
        let ghost kept_view = entries_view(kept@);
        let ghost added = entries_for(string_views(entries@), permission);
        let mut j: usize = 0;
        while j < entries.len()
            invariant
                kept_view + added.subrange(0, j as int) == entries_view(kept@),
                added == entries_for(string_views(entries@), permission),
                j <= entries.len(),
            decreases entries.len() - j,
        {
            let ghost b = entries_view(kept@);
            kept.push(NetworkDomainPermissionEntry { pattern: clone_string(&entries[j]), permission });
            assert(entries_view(kept@) =~= b.push(added[j as int]));
            j = j + 1;
            assert(kept_view + added.subrange(0, j as int) =~= entries_view(kept@));
        }
        assert(added.subrange(0, entries.len() as int) =~= added);
        if kept.len() > 0 {
            self.domains = Some(NetworkDomainPermissions { entries: kept });
        } else {
            self.domains = None;
        }
    }

    pub fn set_allowed_domains(&mut self, allowed_domains: Vec<String>)
        ensures
            same_but_domains(*old(self), *final(self)),
            domains_view(final(self).domains) == nonempty_entries(
                entries_without(entries_or_empty(domains_view(old(self).domains)), NetworkDomainPermission::Allow)
                    + entries_for(string_views(allowed_domains@), NetworkDomainPermission::Allow),
            ),
    {
        self.set_domain_entries(allowed_domains, NetworkDomainPermission::Allow);
    }

    pub fn set_denied_domains(&mut self, denied_domains: Vec<String>)
        ensures
            same_but_domains(*old(self), *final(self)),
            domains_view(final(self).domains) == nonempty_entries(
                entries_without(entries_or_empty(domains_view(old(self).domains)), NetworkDomainPermission::Deny)
                    + entries_for(string_views(denied_domains@), NetworkDomainPermission::Deny),
            ),
    {
        self.set_domain_entries(denied_domains, NetworkDomainPermission::Deny);
    }

    /// Drops every entry for the same host (after `normalize_host`) and
    /// appends `host` with `permission`.
    pub fn upsert_domain_permission(&mut self, host: String, permission: NetworkDomainPermission)
        ensures
            same_but_domains(*old(self), *final(self)),
            domains_view(final(self).domains) == Some(
                entries_not_for_host(
                    entries_or_empty(domains_view(old(self).domains)),
                    normalize_host_spec(host@),
                ).push((host@, permission)),
            ),
    {
        let ghost before = entries_or_empty(domains_view(self.domains));
        let old_entries = take_entries(self.domains.take());
        let normalized_host = normalize_host(host.as_str());
        let ghost nh = normalized_host@;
        let mut kept: Vec<NetworkDomainPermissionEntry> = Vec::new();
        let mut i: usize = 0;
        assert(entries_view(kept@) =~= entries_not_for_host(before.subrange(0, 0), nh));
        while i < old_entries.len()
            invariant
                before == entries_view(old_entries@),
                nh == normalized_host@,
                i <= old_entries.len(),
                entries_view(kept@) == entries_not_for_host(before.subrange(0, i as int), nh),
            decreases old_entries.len() - i,
        {
            let ghost prefix = before.subrange(0, i as int + 1);
            assert(prefix.drop_last() =~= before.subrange(0, i as int));
            let np = normalize_host(old_entries[i].pattern.as_str());
            if !str_eq(np.as_str(), normalized_host.as_str()) {
                let ghost b = entries_view(kept@);
                kept.push(NetworkDomainPermissionEntry {
                    pattern: clone_string(&old_entries[i].pattern),
                    permission: old_entries[i].permission,
                });
                assert(entries_view(kept@) =~= b.push(before[i as int]));
            }
            i = i + 1;
        }
        assert(before.subrange(0, old_entries.len() as int) =~= before);
        let ghost b = entries_view(kept@);
        let ghost hv = host@;
        kept.push(NetworkDomainPermissionEntry { pattern: host, permission });
        assert(entries_view(kept@) =~= b.push((hv, permission)));
        self.domains = Some(NetworkDomainPermissions { entries: kept });
    }
}

// ---------------------------------------------------------------------------
// Plain configuration records
// ---------------------------------------------------------------------------

/// The proxy's command line (it takes no options).
pub struct Args {}

#[derive(Debug, Clone, PartialEq, Eq)]
pub struct InjectedHeaderConfig {
    pub name: String,
    pub secret_env_var: Option<String>,
    pub secret_file: Option<String>,
    pub prefix: Option<String>,
}

impl Default for InjectedHeaderConfig {
    fn default() -> (r: InjectedHeaderConfig)
        ensures
            r.name@.len() == 0,
            r.secret_env_var is None,
            r.secret_file is None,
            r.prefix is None,
    {
        InjectedHeaderConfig { name: String::new(), secret_env_var: None, secret_file: None, prefix: None }
    }
}

#[derive(Debug, Clone, PartialEq, Eq)]
pub struct MitmHookActionsConfig {
    pub strip_request_headers: Vec<String>,
    pub inject_request_headers: Vec<InjectedHeaderConfig>,
}

impl Default for MitmHookActionsConfig {
    fn default() -> (r: MitmHookActionsConfig)
        ensures
            r.strip_request_headers@.len() == 0,
            r.inject_request_headers@.len() == 0,
    {
        MitmHookActionsConfig { strip_request_headers: Vec::new(), inject_request_headers: Vec::new() }
    }
}

/// Who and what a proxy session belongs to, for audit records.
#[derive(Debug, Clone, PartialEq, Eq)]
pub struct NetworkProxyAuditMetadata {
    pub conversation_id: Option<String>,
    pub app_version: Option<String>,
    pub user_account_id: Option<String>,
    pub auth_mode: Option<String>,
    pub originator: Option<String>,
    pub user_email: Option<String>,
    pub terminal_type: Option<String>,
    pub model: Option<String>,
    pub slug: Option<String>,
}

impl Default for NetworkProxyAuditMetadata {
    fn default() -> (r: NetworkProxyAuditMetadata)
        ensures
            r.conversation_id is None,
            r.app_version is None,
            r.user_account_id is None,
            r.auth_mode is None,
            r.originator is None,
            r.user_email is None,
            r.terminal_type is None,
            r.model is None,
            r.slug is None,
    {
        NetworkProxyAuditMetadata {
            conversation_id: None,
            app_version: None,
            user_account_id: None,
            auth_mode: None,
            originator: None,
            user_email: None,
            terminal_type: None,
            model: None,
            slug: None,
        }
    }
}

/// Limits that managed configuration puts on the proxy settings.
#[derive(Debug, Clone, PartialEq, Eq)]
pub struct NetworkProxyConstraints {
    pub enabled: Option<bool>,
    pub mode: Option<NetworkMode>,
    pub allow_upstream_proxy: Option<bool>,
    pub dangerously_allow_non_loopback_proxy: Option<bool>,
    pub dangerously_allow_all_unix_sockets: Option<bool>,
    pub allowed_domains: Option<Vec<String>>,
    pub allowlist_expansion_enabled: Option<bool>,
    pub denied_domains: Option<Vec<String>>,
    pub denylist_expansion_enabled: Option<bool>,
    pub allow_unix_sockets: Option<Vec<String>>,
    pub allow_local_binding: Option<bool>,
}

impl Default for NetworkProxyConstraints {
    fn default() -> (r: NetworkProxyConstraints)
        ensures
            r.enabled is None,
            r.mode is None,
            r.allow_upstream_proxy is None,
            r.dangerously_allow_non_loopback_proxy is None,
            r.dangerously_allow_all_unix_sockets is None,
            r.allowed_domains is None,
            r.allowlist_expansion_enabled is None,
            r.denied_domains is None,
            r.denylist_expansion_enabled is None,
            r.allow_unix_sockets is None,
            r.allow_local_binding is None,
    {
        NetworkProxyConstraints {
            enabled: None,
            mode: None,
            allow_upstream_proxy: None,
            dangerously_allow_non_loopback_proxy: None,
            dangerously_allow_all_unix_sockets: None,
            allowed_domains: None,
            allowlist_expansion_enabled: None,
            denied_domains: None,
            denylist_expansion_enabled: None,
            allow_unix_sockets: None,
            allow_local_binding: None,
        }
    }
}

/// A setting that the managed constraints do not allow.
#[derive(Debug, PartialEq, Eq)]
pub enum NetworkProxyConstraintError {
    InvalidValue { field_name: String, candidate: String, allowed: String },
}

impl NetworkProxyConstraintError {
    /// The error's message.
    pub fn message(&self) -> (r: String)
        ensures
            r@ == match self {
                NetworkProxyConstraintError::InvalidValue { field_name, candidate, allowed } =>
                    "invalid value for "@ + field_name@ + ": "@ + candidate@ + "; allowed: "@
                    + allowed@,
            },
    {
        match self {
            NetworkProxyConstraintError::InvalidValue { field_name, candidate, allowed } => {
                let mut m = cat3("invalid value for ", field_name.as_str(), ": ");
                m.append(candidate.as_str());
                m.append("; allowed: ");
                m.append(allowed.as_str());
                m
            },
        }
    }
}

/// The browser build runs no proxy daemon, so its handle holds nothing.
pub struct NetworkProxyHandle {}

// ---------------------------------------------------------------------------
// Proxy state
// ---------------------------------------------------------------------------

/// The live configuration of the proxy and the connections it refused.
pub struct ConfigState {
    pub config: NetworkProxySettings,
    pub constraints: NetworkProxyConstraints,
    pub blocked: VecDeque<BlockedRequest>,
    pub blocked_total: u64,
}

pub fn build_config_state(config: NetworkProxySettings, constraints: NetworkProxyConstraints) -> (r: ConfigState)
    ensures
        r.config == config,
        r.constraints == constraints,
        r.blocked@.len() == 0,
        r.blocked_total == 0,
{
    ConfigState { config, constraints, blocked: VecDeque::new(), blocked_total: 0 }
}

/// The proxy's state as the browser build keeps it.
pub struct NetworkProxyState {
    pub state: ConfigState,
    pub audit_metadata: NetworkProxyAuditMetadata,
}

impl NetworkProxyState {
    pub fn with_audit_metadata(state: ConfigState, audit_metadata: NetworkProxyAuditMetadata) -> (r: NetworkProxyState)
        ensures
            r.state == state,
            r.audit_metadata == audit_metadata,
    {
        NetworkProxyState { state, audit_metadata }
    }

    pub fn audit_metadata(&self) -> (r: &NetworkProxyAuditMetadata)
        ensures
            *r == self.audit_metadata,
    {
        &self.audit_metadata
    }

    pub fn enabled(&self) -> (r: bool)
        ensures
            r == self.state.config.enabled,
    {
        self.state.config.enabled
    }

    /// The allowed and the denied patterns, each empty where there are none.
    pub fn current_patterns(&self) -> (r: (Vec<String>, Vec<String>))
        ensures
            Some(string_views(r.0@)) == domain_entries_spec(
                domains_view(self.state.config.domains),
                NetworkDomainPermission::Allow,
            ) || (string_views(r.0@).len() == 0 && domain_entries_spec(
                domains_view(self.state.config.domains),
                NetworkDomainPermission::Allow,
            ) is None),
            Some(string_views(r.1@)) == domain_entries_spec(
                domains_view(self.state.config.domains),
                NetworkDomainPermission::Deny,
            ) || (string_views(r.1@).len() == 0 && domain_entries_spec(
                domains_view(self.state.config.domains),
                NetworkDomainPermission::Deny,
            ) is None),
    {
        let allowed = match self.state.config.allowed_domains() {
            Some(v) => v,
            None => Vec::new(),
        };
        let denied = match self.state.config.denied_domains() {
            Some(v) => v,
            None => Vec::new(),
        };
        (allowed, denied)
    }

    /// The browser build blocks no host itself.
    pub fn host_blocked(&self, host: &str, port: u16) -> (r: HostBlockDecision)
        ensures
            r == HostBlockDecision::Allowed,
    {
        HostBlockDecision::Allowed
    }

    /// Remembers a refused connection.
    pub fn record_blocked(&mut self, entry: BlockedRequest)
        requires
            old(self).state.blocked_total < u64::MAX,
        ensures
            final(self).state.blocked@ == old(self).state.blocked@.push(entry),
            final(self).state.blocked_total == old(self).state.blocked_total + 1,
            final(self).state.config == old(self).state.config,
            final(self).audit_metadata == old(self).audit_metadata,
    {
        self.state.blocked.push_back(entry);
        self.state.blocked_total = self.state.blocked_total + 1;
    }

    /// Hands out the refused connections remembered so far, oldest first, and
    /// forgets them; the running total stays.
    pub fn drain_blocked(&mut self) -> (r: Vec<BlockedRequest>)
        ensures
            r@ == old(self).state.blocked@,
            final(self).state.blocked@.len() == 0,
            final(self).state.blocked_total == old(self).state.blocked_total,
            final(self).state.config == old(self).state.config,
            final(self).audit_metadata == old(self).audit_metadata,
    {
        let ghost start = self.state.blocked@;
        let mut out: Vec<BlockedRequest> = Vec::new();
        while self.state.blocked.len() > 0
            invariant
                start == out@ + self.state.blocked@,
                self.state.blocked_total == old(self).state.blocked_total,
                self.state.config == old(self).state.config,
                self.audit_metadata == old(self).audit_metadata,
            decreases self.state.blocked@.len(),
        {
            let ghost b = self.state.blocked@;
            match self.state.blocked.pop_front() {
                Some(x) => {
                    out.push(x);
                    assert(start =~= out@ + self.state.blocked@) by {
                        assert(b =~= seq![x] + b.subrange(1, b.len() as int));
                    }
                },
                None => {},
            }
        }
        assert(out@ =~= start);
        out
    }

    /// The browser build allows no unix socket.
    pub fn is_unix_socket_allowed(&self, path: &str) -> (r: bool)
        ensures
            !r,
    {
        false
    }

    pub fn method_allowed(&self, method: &str) -> (r: bool)
        ensures
            r == method_allowed_spec(self.state.config.mode, method@),
    {
        self.state.config.mode.allows_method(method)
    }

    pub fn allow_upstream_proxy(&self) -> (r: bool)
        ensures
            r == self.state.config.allow_upstream_proxy,
    {
        self.state.config.allow_upstream_proxy
    }

    pub fn allow_local_binding(&self) -> (r: bool)
        ensures
            r == self.state.config.allow_local_binding,
    {
        self.state.config.allow_local_binding
    }

    pub fn network_mode(&self) -> (r: NetworkMode)
        ensures
            r == self.state.config.mode,
    {
        self.state.config.mode
    }

    pub fn set_network_mode(&mut self, mode: NetworkMode)
        ensures
            final(self).state.config.mode == mode,
            same_but_mode(old(self).state.config, final(self).state.config),
            final(self).state.blocked == old(self).state.blocked,
            final(self).state.blocked_total == old(self).state.blocked_total,
    {
        self.state.config.mode = mode;
    }

    /// The browser build has no interception hooks.
    pub fn host_has_mitm_hooks(&self, host: &str) -> (r: bool)
        ensures
            !r,
    {
        false
    }

    pub fn add_allowed_domain(&mut self, host: &str)
        ensures
            same_but_domains(old(self).state.config, final(self).state.config),
            domains_view(final(self).state.config.domains) == Some(
                entries_not_for_host(
                    entries_or_empty(domains_view(old(self).state.config.domains)),
                    normalize_host_spec(host@),
                ).push((host@, NetworkDomainPermission::Allow)),
            ),
    {
        self.state.config.upsert_domain_permission(owned(host), NetworkDomainPermission::Allow);
    }

    pub fn add_denied_domain(&mut self, host: &str)
        ensures
            same_but_domains(old(self).state.config, final(self).state.config),
            domains_view(final(self).state.config.domains) == Some(
                entries_not_for_host(
                    entries_or_empty(domains_view(old(self).state.config.domains)),
                    normalize_host_spec(host@),
                ).push((host@, NetworkDomainPermission::Deny)),
            ),
    {
        self.state.config.upsert_domain_permission(owned(host), NetworkDomainPermission::Deny);
    }
}

/// The settings other than the mode are the same.
pub open spec fn same_but_mode(a: NetworkProxySettings, b: NetworkProxySettings) -> bool {
    &&& a.enabled == b.enabled
    &&& a.proxy_url == b.proxy_url
    &&& a.enable_socks5 == b.enable_socks5
    &&& a.socks_url == b.socks_url
    &&& a.enable_socks5_udp == b.enable_socks5_udp
    &&& a.allow_upstream_proxy == b.allow_upstream_proxy
    &&& a.dangerously_allow_non_loopback_proxy == b.dangerously_allow_non_loopback_proxy
    &&& a.dangerously_allow_all_unix_sockets == b.dangerously_allow_all_unix_sockets
    &&& a.domains == b.domains
    &&& a.unix_sockets == b.unix_sockets
    &&& a.allow_local_binding == b.allow_local_binding
    &&& a.mitm == b.mitm
}

} // verus!
