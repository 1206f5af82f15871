//! The request pipeline's decisions: the kill switch, the filters in
//! their fixed order, the non-blocking threat tagger, and what each request
//! or tunnel becomes.
use vstd::prelude::*;
use crate::blocklist::TrackerBlocker;
use crate::config::Config;
use crate::fingerprint::{BrowserFingerprint, CanvasProtection};
use crate::ipv6_protection::Ipv6Protection;
use crate::proxy::{connect_target_of, parse_connect_target};
use crate::text::{contains, lowercase, lowercase_of, starts_with, str_contains, str_starts_with};
use crate::tor_network::{build_http_request, fingerprint_lines, outbound_request, target_port};
use crate::web_api::{
    applied, appended, lemma_appended_extends, lemma_ring_compose, recent, ring_extended, ApiState, LogDetails,
    LogEntry, Stats, StatsUpdate, LOG_CAPACITY,
};
use crate::webrtc_protection::WebRtcProtection;

verus! {

/// Number of path and host substrings the threat tagger looks for.
pub const THREAT_PATTERN_COUNT: usize = 27;

/// Rules below this index look at the path for credentials.
pub const CREDENTIAL_RULES_END: usize = 10;

/// Rules from `CREDENTIAL_RULES_END` below this index look at the path for
/// tracking endpoints; the rest look at the host.
pub const PATH_RULES_END: usize = 19;

/// The rule for a host written with an `http://` scheme.
pub const UNENCRYPTED_RULE: usize = 27;

/// The substring that the `i`-th tagging rule looks for.
pub open spec fn threat_pattern(i: int) -> Seq<char> {
    if i == 0 {
        "password"@
    } else if i == 1 {
        "pwd"@
    } else if i == 2 {
        "api_key"@
    } else if i == 3 {
        "apikey"@
    } else if i == 4 {
        "token"@
    } else if i == 5 {
        "access_token"@
    } else if i == 6 {
        "secret"@
    } else if i == 7 {
        "private"@
    } else if i == 8 {
        "auth"@
    } else if i == 9 {
        "session"@
    } else if i == 10 {
        "/track"@
    } else if i == 11 {
        "/collect"@
    } else if i == 12 {
        "/analytics"@
    } else if i == 13 {
        "/beacon"@
    } else if i == 14 {
        "/pixel"@
    } else if i == 15 {
        "/impression"@
    } else if i == 16 {
        "/conversion"@
    } else if i == 17 {
        "/telemetry"@
    } else if i == 18 {
        "/fingerprint"@
    } else if i == 19 {
        "analytics"@
    } else if i == 20 {
        "doubleclick"@
    } else if i == 21 {
        "adserver"@
    } else if i == 22 {
        "tracker"@
    } else if i == 23 {
        "metric"@
    } else if i == 24 {
        "stats"@
    } else if i == 25 {
        "tag-manager"@
    } else {
        "remarketing"@
    }
}

/// The threat that the `i`-th tagging rule reports.
pub open spec fn threat_label(i: int) -> Seq<char> {
    if i == UNENCRYPTED_RULE {
        "Unencrypted connection"@
    } else {
    if i == 0 {
            "Password in URL"@
        } else if i == 1 {
            "Password in URL"@
        } else if i == 2 {
            "API Key in URL"@
        } else if i == 3 {
            "API Key in URL"@
        } else if i == 4 {
            "Token in URL"@
        } else if i == 5 {
            "Access Token in URL"@
        } else if i == 6 {
            "Secret in URL"@
        } else if i == 7 {
            "Private data in URL"@
        } else if i == 8 {
            "Auth data in URL"@
        } else if i == 9 {
            "Session ID in URL"@
        } else if i == 10 {
            "Tracking endpoint"@
        } else if i == 11 {
            "Data collection endpoint"@
        } else if i == 12 {
            "Analytics tracking"@
        } else if i == 13 {
            "Tracking beacon"@
        } else if i == 14 {
            "Tracking pixel"@
        } else if i == 15 {
            "Ad impression tracking"@
        } else if i == 16 {
            "Conversion tracking"@
        } else if i == 17 {
            "Telemetry data collection"@
        } else if i == 18 {
            "Browser fingerprinting"@
        } else if i == 19 {
            "Analytics service"@
        } else if i == 20 {
            "Ad network"@
        } else if i == 21 {
            "Ad server"@
        } else if i == 22 {
            "Tracking service"@
        } else if i == 23 {
            "Metrics collection"@
        } else if i == 24 {
            "Statistics collection"@
        } else if i == 25 {
            "Tag management"@
        } else {
            "Remarketing service"@
        }
    }
}

fn threat_pattern_at(i: usize) -> (r: &'static str)
    requires
        i < THREAT_PATTERN_COUNT,
    ensures
        r@ == threat_pattern(i as int),
{
    match i {
        0 => "password",
        1 => "pwd",
        2 => "api_key",
        3 => "apikey",
        4 => "token",
        5 => "access_token",
        6 => "secret",
        7 => "private",
        8 => "auth",
        9 => "session",
        10 => "/track",
        11 => "/collect",
        12 => "/analytics",
        13 => "/beacon",
        14 => "/pixel",
        15 => "/impression",
        16 => "/conversion",
        17 => "/telemetry",
        18 => "/fingerprint",
        19 => "analytics",
        20 => "doubleclick",
        21 => "adserver",
        22 => "tracker",
        23 => "metric",
        24 => "stats",
        25 => "tag-manager",
        _ => "remarketing",
    }
}

fn threat_label_at(i: usize) -> (r: &'static str)
    requires
        i <= UNENCRYPTED_RULE,
    ensures
        r@ == threat_label(i as int),
{
    match i {
        0 => "Password in URL",
        1 => "Password in URL",
        2 => "API Key in URL",
        3 => "API Key in URL",
        4 => "Token in URL",
        5 => "Access Token in URL",
        6 => "Secret in URL",
        7 => "Private data in URL",
        8 => "Auth data in URL",
        9 => "Session ID in URL",
        10 => "Tracking endpoint",
        11 => "Data collection endpoint",
        12 => "Analytics tracking",
        13 => "Tracking beacon",
        14 => "Tracking pixel",
        15 => "Ad impression tracking",
        16 => "Conversion tracking",
        17 => "Telemetry data collection",
        18 => "Browser fingerprinting",
        19 => "Analytics service",
        20 => "Ad network",
        21 => "Ad server",
        22 => "Tracking service",
        23 => "Metrics collection",
        24 => "Statistics collection",
        25 => "Tag management",
        26 => "Remarketing service",
        _ => "Unencrypted connection",
    }
}

/// The text the `i`-th rule reads: the lowercased path, or the lowercased host.
pub open spec fn rule_text(lower_path: Seq<char>, lower_host: Seq<char>, i: int) -> Seq<char> {
    if i < PATH_RULES_END {
        lower_path
    } else {
        lower_host
    }
}

/// The substring rules below `k` that fire, in rule order.
pub open spec fn pattern_hits(lower_path: Seq<char>, lower_host: Seq<char>, k: int) -> Seq<int>
    decreases k,
{
    if k <= 0 {
        Seq::empty()
    } else {
        let rest = pattern_hits(lower_path, lower_host, k - 1);
        if contains(rule_text(lower_path, lower_host, k - 1), threat_pattern(k - 1)) {
            rest.push(k - 1)
        } else {
            rest
        }
    }
}

/// Every tagging rule that fires for a request, in order: the substring rules,
/// then the unencrypted-scheme rule.
pub open spec fn threat_rules_of(lower_path: Seq<char>, lower_host: Seq<char>, host: Seq<char>) -> Seq<int> {
    let hits = pattern_hits(lower_path, lower_host, THREAT_PATTERN_COUNT as int);
    if starts_with(host, "http://"@) {
        hits.push(UNENCRYPTED_RULE as int)
    } else {
        hits
    }
}

/// The tagging rules that fire, given the path and host already lowercased.
pub fn threat_rules(lower_path: &str, lower_host: &str, host: &str) -> (r: Vec<usize>)
    ensures
        r@.len() == threat_rules_of(lower_path@, lower_host@, host@).len(),
        forall|i: int| 0 <= i < r@.len() ==> r@[i] as int == threat_rules_of(lower_path@, lower_host@, host@)[i],
        forall|i: int| 0 <= i < r@.len() ==> r@[i] <= UNENCRYPTED_RULE,
        r@.len() <= UNENCRYPTED_RULE + 1,
{
    let mut r: Vec<usize> = Vec::new();
    let mut i: usize = 0;
    while i < THREAT_PATTERN_COUNT
        invariant
            i <= THREAT_PATTERN_COUNT,
            r@.len() == pattern_hits(lower_path@, lower_host@, i as int).len(),
            forall|j: int| 0 <= j < r@.len() ==> r@[j] as int == pattern_hits(lower_path@, lower_host@, i as int)[j],
            forall|j: int| 0 <= j < r@.len() ==> r@[j] < i,
            r@.len() <= i,
        decreases THREAT_PATTERN_COUNT - i,
    {
        let text = if i < PATH_RULES_END { lower_path } else { lower_host };
        if str_contains(text, threat_pattern_at(i)) {
            r.push(i);
        }
        i = i + 1;
    }
    if str_starts_with(host, "http://") {
        r.push(UNENCRYPTED_RULE);
    }
    proof {
        reveal_strlit("http://");
    }
    r
}

/// The outcome of the checks on one request, in the order they are made.
#[derive(Clone, Copy, Debug, PartialEq, Eq, Structural)]
pub enum Verdict {
    Allowed,
    KillSwitchBlocked,
    Ipv6Blocked,
    WebRtcBlocked,
    TrackerBlocked,
}

/// Checks run in a fixed order (kill switch, IPv6, WebRTC, tracker) and the
/// first one that refuses settles the outcome.
pub open spec fn verdict_of(admits: bool, ipv6: bool, webrtc: bool, tracker: bool) -> Verdict {
    if !admits {
        Verdict::KillSwitchBlocked
    } else if ipv6 {
        Verdict::Ipv6Blocked
    } else if webrtc {
        Verdict::WebRtcBlocked
    } else if tracker {
        Verdict::TrackerBlocked
    } else {
        Verdict::Allowed
    }
}

/// The counter update a verdict makes, if any.
pub open spec fn after_verdict(s: Stats, v: Verdict) -> Stats {
    match v {
        Verdict::Allowed => s,
        Verdict::KillSwitchBlocked => applied(s, StatsUpdate::KillSwitchBlocked),
        Verdict::Ipv6Blocked => applied(s, StatsUpdate::Ipv6Blocked),
        Verdict::WebRtcBlocked => applied(s, StatsUpdate::WebRtcBlocked),
        Verdict::TrackerBlocked => applied(s, StatsUpdate::TrackerBlocked),
    }
}

/// The statistics after `n` threat findings.
pub open spec fn with_threats(s: Stats, n: int) -> Stats {
    Stats {
        security_threats_detected: if s.security_threats_detected + n <= u64::MAX {
            (s.security_threats_detected + n) as u64
        } else {
            u64::MAX
        },
        ..s
    }
}

/// A synthesized reply to the client.
#[derive(Debug)]
pub struct HttpReply {
    pub status: u16,
    pub body: String,
}

/// Body of the reply while the kill switch refuses traffic.
pub const KILL_SWITCH_BODY: &'static str = "Service unavailable: Privacy protection disconnected";

/// Body of the reply when the upstream fetch cannot be made.
pub const UPSTREAM_FAILURE_BODY: &'static str = "Error processing request";

/// The status of the reply for a verdict that refuses.
pub open spec fn reply_status(v: Verdict) -> u16 {
    if v == Verdict::KillSwitchBlocked {
        503
    } else {
        403
    }
}

/// The body of the reply for a verdict that refuses.
pub open spec fn reply_body(v: Verdict) -> Seq<char> {
    match v {
        Verdict::KillSwitchBlocked => KILL_SWITCH_BODY@,
        Verdict::Ipv6Blocked => "IPv6 blocked for privacy protection"@,
        Verdict::WebRtcBlocked => "WebRTC blocked for privacy protection"@,
        Verdict::TrackerBlocked => "Tracker blocked by Privacy Suite"@,
        Verdict::Allowed => Seq::empty(),
    }
}

/// The category and the threat type of the log entry for a verdict that refuses.
pub open spec fn verdict_category(v: Verdict) -> Seq<char> {
    match v {
        Verdict::KillSwitchBlocked => "security"@,
        Verdict::Ipv6Blocked => "ipv6"@,
        Verdict::WebRtcBlocked => "webrtc"@,
        Verdict::TrackerBlocked => "tracker"@,
        Verdict::Allowed => "network"@,
    }
}

pub open spec fn verdict_threat(v: Verdict) -> Seq<char> {
    match v {
        Verdict::KillSwitchBlocked => "Kill Switch Block"@,
        Verdict::Ipv6Blocked => "IPv6 Leak Attempt"@,
        Verdict::WebRtcBlocked => "WebRTC Leak Attempt"@,
        Verdict::TrackerBlocked => "Known Tracker"@,
        Verdict::Allowed => Seq::empty(),
    }
}

/// The reply a verdict that refuses sends.
pub fn verdict_reply(v: Verdict) -> (r: HttpReply)
    requires
        v != Verdict::Allowed,
    ensures
        r.status == reply_status(v),
        r.body@ == reply_body(v),
{
    match v {
        Verdict::KillSwitchBlocked => HttpReply { status: 503, body: String::from_str(KILL_SWITCH_BODY) },
        Verdict::Ipv6Blocked => HttpReply { status: 403, body: String::from_str("IPv6 blocked for privacy protection") },
        Verdict::WebRtcBlocked => HttpReply { status: 403, body: String::from_str("WebRTC blocked for privacy protection") },
        _ => HttpReply { status: 403, body: String::from_str("Tracker blocked by Privacy Suite") },
    }
}

/// The reply when the upstream fetch fails or cannot be made.
pub fn upstream_failure_reply() -> (r: HttpReply)
    ensures
        r.status == 502,
        r.body@ == UPSTREAM_FAILURE_BODY@,
{
    HttpReply { status: 502, body: String::from_str(UPSTREAM_FAILURE_BODY) }
}

/// What a plain HTTP request becomes.
#[derive(Debug)]
pub enum RouteDecision {
    /// Answer the client with this reply; nothing goes to the circuit.
    Reply(HttpReply),
    /// Write `request` to a circuit stream opened to `host:port`, and answer
    /// the client with the body of what comes back.
    Forward { host: String, port: u16, request: String },
}

/// What a `CONNECT` request becomes.
#[derive(Debug)]
pub enum ConnectDecision {
    /// Close the connection without writing anything.
    Drop,
    /// Answer with this refusal and close.
    Refuse(HttpReply),
    /// Open a circuit stream to `host:port` and relay bytes both ways.
    Tunnel { host: String, port: u16 },
}

/// The parts of a plain HTTP request that the pipeline reads.
#[derive(Debug)]
pub struct RequestInfo {
    pub method: String,
    pub uri: String,
    pub host: Option<String>,
    pub path: String,
    pub path_and_query: String,
    pub port: Option<u16>,
    pub https: bool,
}

/// The port a forwarded request goes to.
pub open spec fn target_port_of(port: Option<u16>, https: bool) -> u16 {
    match port {
        Some(p) => p,
        None => if https { 443u16 } else { 80u16 },
    }
}

fn copy_option(s: &Option<String>) -> (r: Option<String>)
    ensures
        r == *s,
{
    match s {
        Some(v) => Some(v.clone()),
        None => None,
    }
}

/// The entry has this level and category.
pub open spec fn entry_is(e: LogEntry, level: Seq<char>, category: Seq<char>) -> bool {
    e.level@ == level && e.category@ == category
}

/// The entry's details record this threat type.
pub open spec fn entry_threat(e: LogEntry, threat: Seq<char>) -> bool {
    match e.details {
        Some(d) => match d.threat_type {
            Some(t) => t@ == threat,
            None => false,
        },
        None => false,
    }
}

/// The entry's details record this domain.
pub open spec fn entry_domain(e: LogEntry, host: Seq<char>) -> bool {
    match e.details {
        Some(d) => match d.domain {
            Some(t) => t@ == host,
            None => false,
        },
        None => false,
    }
}

/// The level at which a tagging rule's finding is logged.
pub open spec fn rule_level(rule: int) -> Seq<char> {
    if rule < CREDENTIAL_RULES_END {
        "error"@
    } else if rule < PATH_RULES_END {
        "warn"@
    } else if rule < UNENCRYPTED_RULE {
        "info"@
    } else {
        "warn"@
    }
}

/// The log entry of a finding of `rule`: category `security`, the rule's
/// level, and the rule's threat type.
pub open spec fn threat_entry(e: LogEntry, rule: int) -> bool {
    entry_is(e, rule_level(rule), "security"@) && entry_threat(e, threat_label(rule))
}

/// The entry for a refusal by a filter: a warning in the filter's category,
/// with the threat type and the host.
pub open spec fn block_entry(e: LogEntry, v: Verdict, host: Seq<char>) -> bool {
    entry_is(e, "warn"@, verdict_category(v)) && entry_threat(e, verdict_threat(v)) && entry_domain(e, host)
}

/// What a plain request admitted by the kill switch adds to the log: one
/// network entry for `host`, one entry per threat finding in rule order, and
/// one entry for a refusal when a filter refused.
pub open spec fn request_logged(before: Seq<LogEntry>, after: Seq<LogEntry>, host: Seq<char>, hits: Seq<int>, v: Verdict) -> bool {
    let k = 1 + hits.len() + if v == Verdict::Allowed { 0int } else { 1int };
    &&& ring_extended(before, after, k)
    &&& entry_is(recent(after, k, 0), "info"@, "network"@)
    &&& entry_domain(recent(after, k, 0), host)
    &&& forall|j: int| 0 <= j < hits.len() ==> threat_entry(#[trigger] recent(after, k, 1 + j), hits[j])
    &&& v != Verdict::Allowed ==> block_entry(recent(after, k, k - 1), v, host)
}

/// What a `CONNECT` request admitted by the kill switch, with target host
/// `host`, adds to the log: one network entry for the request, then either the
/// refusal's entry or a network entry for the tunnel.
pub open spec fn connect_logged(before: Seq<LogEntry>, after: Seq<LogEntry>, host: Seq<char>, v: Verdict) -> bool {
    &&& ring_extended(before, after, 2)
    &&& entry_is(recent(after, 2, 0), "info"@, "network"@)
    &&& entry_domain(recent(after, 2, 0), host)
    &&& v != Verdict::Allowed ==> block_entry(recent(after, 2, 1), v, host)
    &&& v == Verdict::Allowed ==> entry_is(recent(after, 2, 1), "info"@, "network"@)
}

/// The last log entry records the given threat type.
pub open spec fn last_threat(s: ApiState, threat: Seq<char>) -> bool {
    s.logs@.len() > 0 && match s.logs@.last().details {
        Some(d) => match d.threat_type {
            Some(t) => t@ == threat,
            None => false,
        },
        None => false,
    }
}

/// The pipeline's policy: the filters and the browser fingerprint of this session.
#[derive(Debug)]
pub struct Router {
    pub config: Config,
    pub fingerprint: BrowserFingerprint,
    pub tracker_blocker: TrackerBlocker,
    pub webrtc_protection: WebRtcProtection,
    pub ipv6_protection: Ipv6Protection,
    pub canvas_protection: CanvasProtection,
}

impl Router {
    /// The verdict on a request to `host`, given whether the kill switch admits traffic.
    pub open spec fn verdict_for(&self, admits: bool, host: Seq<char>) -> Verdict {
        verdict_of(
            admits,
            self.ipv6_protection.blocks(host),
            self.webrtc_protection.blocks(host),
            self.tracker_blocker.blocks(host),
        )
    }

    /// The filters and the fingerprint are those of `o`; only counters differ.
    pub open spec fn same_policy(&self, o: Router) -> bool {
        &&& self.fingerprint == o.fingerprint
        &&& self.tracker_blocker.domains() == o.tracker_blocker.domains()
        &&& self.webrtc_protection == o.webrtc_protection
        &&& self.ipv6_protection.enabled == o.ipv6_protection.enabled
        &&& self.canvas_protection == o.canvas_protection
        &&& self.config == o.config
    }

    /// A router with every protection on and a fingerprint drawn for this session.
    pub fn new(config: Config) -> (r: Self)
        ensures
            r.config == config,
            r.fingerprint.from_catalog(),
            r.ipv6_protection.enabled,
            r.webrtc_protection.enabled,
            r.canvas_protection.enabled,
            r.tracker_blocker.wf(),
            forall|k: int|
                0 <= k < crate::blocklist::TRACKER_DOMAIN_COUNT ==> r.tracker_blocker.domains().contains(
                    crate::blocklist::tracker_domain(k),
                ),
            r.tracker_blocker.blocked() == 0,
            r.ipv6_protection.blocked_count == 0,
    {
        Router {
            config,
            fingerprint: BrowserFingerprint::random(),
            tracker_blocker: TrackerBlocker::new(),
            webrtc_protection: WebRtcProtection::new(true),
            ipv6_protection: Ipv6Protection::new(true),
            canvas_protection: CanvasProtection::new(true),
        }
    }

    /// Tags the request with every threat rule that fires; each finding is
    /// counted and logged, and nothing is refused.
    fn tag_threats(&self, state: &mut ApiState, host: &str, path: &str, method: &str)
        requires
            old(state).wf(),
        ensures
            final(state).wf(),
            final(state).stats == with_threats(
                old(state).stats,
                threat_rules_of(lowercase_of(path@), lowercase_of(host@), host@).len() as int,
            ),
            final(state).kill_switch == old(state).kill_switch,
            final(state).connection == old(state).connection,
            final(state).connected_since == old(state).connected_since,
            ({
                let hits = threat_rules_of(lowercase_of(path@), lowercase_of(host@), host@);
                &&& hits.len() <= UNENCRYPTED_RULE + 1
                &&& ring_extended(old(state).logs@, final(state).logs@, hits.len() as int)
                &&& forall|j: int|
                    0 <= j < hits.len() ==> threat_entry(
                        #[trigger] recent(final(state).logs@, hits.len() as int, j),
                        hits[j],
                    )
            }),
    {
        let lower_path = lowercase(path);
        let lower_host = lowercase(host);
        let rules = threat_rules(lower_path.as_str(), lower_host.as_str(), host);
        let ghost s0 = state.stats;
        let ghost l0 = state.logs@;
        let ghost hits = threat_rules_of(lowercase_of(path@), lowercase_of(host@), host@);
        let mut i: usize = 0;
        assert(s0 == with_threats(s0, 0));
        assert(state.logs@.subrange(0, state.logs@.len() as int) =~= l0);
        while i < rules.len()
            invariant
                i <= rules@.len(),
                state.wf(),
                forall|j: int| 0 <= j < rules@.len() ==> rules@[j] <= UNENCRYPTED_RULE,
                state.stats == with_threats(s0, i as int),
                state.kill_switch == old(state).kill_switch,
                state.connection == old(state).connection,
                state.connected_since == old(state).connected_since,
                rules@.len() == hits.len(),
                rules@.len() <= UNENCRYPTED_RULE + 1,
                forall|j: int| 0 <= j < rules@.len() ==> rules@[j] as int == hits[j],
                l0.len() <= LOG_CAPACITY,
                ring_extended(l0, state.logs@, i as int),
                forall|j: int| 0 <= j < i ==> threat_entry(#[trigger] recent(state.logs@, i as int, j), hits[j]),
            decreases rules.len() - i,
        {
            let rule = rules[i];
            let label = threat_label_at(rule);
            let ghost before = state.logs@;
            let mut d = LogDetails::empty();
            d.url = Some(String::from_str(host).concat(path));
            d.domain = Some(String::from_str(host));
            d.path = Some(String::from_str(path));
            d.method = Some(String::from_str(method));
            d.threat_type = Some(String::from_str(label));
            state.update_stats(StatsUpdate::ThreatDetected);
            if rule < CREDENTIAL_RULES_END {
                d.reason = Some(String::from_str("Sensitive data detected in URL - potential credential leak"));
                let m = String::from_str("SECURITY: ").concat(label).concat(" - ").concat(host);
                state.add_log_with_details("error", m, "security", Some(d));
            } else if rule < PATH_RULES_END {
                d.reason = Some(String::from_str("Suspicious tracking pattern detected"));
                let m = String::from_str(label).concat(" detected: ").concat(host);
                state.add_log_with_details("warn", m, "security", Some(d));
            } else if rule < UNENCRYPTED_RULE {
                d.reason = Some(String::from_str("Suspicious domain pattern - likely tracking/advertising"));
                let m = String::from_str(label).concat(" detected: ").concat(host);
                state.add_log_with_details("info", m, "security", Some(d));
            } else {
                d.reason = Some(String::from_str("HTTP connection detected - data transmitted in plain text"));
                let m = String::from_str("Unencrypted HTTP: ").concat(host);
                state.add_log_with_details("warn", m, "security", Some(d));
            }
            proof {
                lemma_appended_extends(before, state.logs@, rule_level(rule as int), "security"@);
                lemma_ring_compose(l0, before, state.logs@, i as int, 1);
                assert(recent(state.logs@, i + 1, i as int) == state.logs@.last());
                assert forall|j: int| 0 <= j < i + 1 implies threat_entry(
                    #[trigger] recent(state.logs@, i + 1, j),
                    hits[j],
                ) by {
                    if j < i {
                        assert(recent(state.logs@, i + 1, j) == recent(before, i as int, j));
                    }
                }
            }
            i = i + 1;
        }
    }

    /// The kill switch, with its outcome counted and logged.
    fn check_kill_switch(&self, state: &mut ApiState, details: LogDetails) -> (r: bool)
        requires
            old(state).wf(),
        ensures
            final(state).wf(),
            r == old(state).kill_switch.admits(),
            final(state).connection == old(state).connection,
            final(state).connected_since == old(state).connected_since,
            final(state).kill_switch.kill_switch_active == old(state).kill_switch.kill_switch_active,
            final(state).kill_switch.tor_connected == old(state).kill_switch.tor_connected,
            r ==> final(state).kill_switch == old(state).kill_switch,
            !r ==> final(state).kill_switch.blocked_requests == old(state).kill_switch.blocked_requests.saturating_add(1),
            r ==> final(state).stats == old(state).stats && final(state).logs == old(state).logs,
            !r ==> final(state).stats == applied(old(state).stats, StatsUpdate::KillSwitchBlocked)
                && appended(old(state).logs@, final(state).logs@, "error"@, "security"@)
                && last_threat(*final(state), "Kill Switch Block"@),
    {
        if state.kill_switch.should_allow_traffic() {
            return true;
        }
        let mut d = details;
        d.threat_type = Some(String::from_str("Kill Switch Block"));
        d.reason = Some(String::from_str("Tor connection lost - blocking traffic to prevent IP leaks"));
        state.update_stats(StatsUpdate::KillSwitchBlocked);
        state.add_log_with_details(
            "error",
            String::from_str("Kill switch blocked request - Tor disconnected!"),
            "security",
            Some(d),
        );
        false
    }

    /// The IPv6, WebRTC and tracker filters in order, the first refusal counted and logged.
    fn apply_filters(&mut self, state: &mut ApiState, host: &str, path: &str, port: u16, method: &str) -> (r: Verdict)
        requires
            old(state).wf(),
        ensures
            final(state).wf(),
            r == old(self).verdict_for(true, host@),
            final(self).same_policy(*old(self)),
            final(state).stats == after_verdict(old(state).stats, r),
            final(state).kill_switch == old(state).kill_switch,
            final(state).connection == old(state).connection,
            final(state).connected_since == old(state).connected_since,
            r == Verdict::Allowed ==> final(state).logs == old(state).logs,
            r != Verdict::Allowed ==> appended(old(state).logs@, final(state).logs@, "warn"@, verdict_category(r))
                && block_entry(final(state).logs@.last(), r, host@),
    {
        let v = if self.ipv6_protection.should_block_ipv6(host) {
            Verdict::Ipv6Blocked
        } else if self.webrtc_protection.should_block_request(host, port) {
            Verdict::WebRtcBlocked
        } else if self.tracker_blocker.should_block(host) {
            Verdict::TrackerBlocked
        } else {
            Verdict::Allowed
        };
        if v == Verdict::Allowed {
            return v;
        }
        let mut d = LogDetails::empty();
        d.url = Some(String::from_str(host).concat(path));
        d.domain = Some(String::from_str(host));
        d.path = Some(String::from_str(path));
        d.port = Some(port);
        d.method = Some(String::from_str(method));
        match v {
            Verdict::Ipv6Blocked => {
                d.threat_type = Some(String::from_str("IPv6 Leak Attempt"));
                d.reason = Some(String::from_str("IPv6 connection blocked to prevent real IP address exposure"));
                state.update_stats(StatsUpdate::Ipv6Blocked);
                let m = String::from_str("Blocked IPv6 leak: ").concat(host).concat(path);
                state.add_log_with_details("warn", m, "ipv6", Some(d));
            },
            Verdict::WebRtcBlocked => {
                d.threat_type = Some(String::from_str("WebRTC Leak Attempt"));
                d.reason = Some(String::from_str(
                    "WebRTC/STUN connection blocked to prevent real IP address exposure via peer connections",
                ));
                state.update_stats(StatsUpdate::WebRtcBlocked);
                let m = String::from_str("Blocked WebRTC leak attempt: ").concat(host);
                state.add_log_with_details("warn", m, "webrtc", Some(d));
            },
            _ => {
                d.threat_type = Some(String::from_str("Known Tracker"));
                d.reason = Some(String::from_str(
                    "Domain matched against known tracker database - preventing data collection",
                ));
                state.update_stats(StatsUpdate::TrackerBlocked);
                let m = String::from_str("Blocked tracker: ").concat(host).concat(path);
                state.add_log_with_details("warn", m, "tracker", Some(d));
            },
        }
        v
    }

    /// Decides a plain HTTP request: the kill switch, then the filters, then the
    /// circuit. The counters are updated before the decision is returned.
    pub fn route_request(&mut self, state: &mut ApiState, req: &RequestInfo) -> (r: RouteDecision)
        requires
            old(state).wf(),
        ensures
            final(state).wf(),
            final(self).same_policy(*old(self)),
            old(state).stats.counters_le(final(state).stats),
            final(state).connection == old(state).connection,
            final(state).connected_since == old(state).connected_since,
            !old(state).kill_switch.admits() ==> final(state).stats == applied(
                old(state).stats,
                StatsUpdate::KillSwitchBlocked,
            ) && match r {
                RouteDecision::Reply(reply) => reply.status == 503 && reply.body@ == KILL_SWITCH_BODY@,
                RouteDecision::Forward { .. } => false,
            },
            !old(state).kill_switch.admits() ==> final(state).kill_switch.blocked_requests
                == old(state).kill_switch.blocked_requests.saturating_add(1)
                && appended(old(state).logs@, final(state).logs@, "error"@, "security"@)
                && last_threat(*final(state), "Kill Switch Block"@),
            old(state).kill_switch.admits() ==> final(state).kill_switch == old(state).kill_switch,
            old(state).kill_switch.admits() && req.host is None ==> final(state).logs == old(state).logs,
            old(state).kill_switch.admits() ==> match req.host {
                Some(h) => request_logged(
                    old(state).logs@,
                    final(state).logs@,
                    h@,
                    threat_rules_of(lowercase_of(req.path@), lowercase_of(h@), h@),
                    old(self).verdict_for(true, h@),
                ),
                None => true,
            },
            old(state).kill_switch.admits() ==> match req.host {
                None => final(state).stats == applied(old(state).stats, StatsUpdate::TotalRequest)
                    && match r {
                    RouteDecision::Reply(reply) => reply.status == 502,
                    RouteDecision::Forward { .. } => false,
                },
                Some(h) => final(state).stats == after_verdict(
                    with_threats(
                        applied(old(state).stats, StatsUpdate::TotalRequest),
                        threat_rules_of(lowercase_of(req.path@), lowercase_of(h@), h@).len() as int,
                    ),
                    old(self).verdict_for(true, h@),
                ) && match r {
                    RouteDecision::Reply(reply) => old(self).verdict_for(true, h@) != Verdict::Allowed
                        && reply.status == reply_status(old(self).verdict_for(true, h@))
                        && reply.body@ == reply_body(old(self).verdict_for(true, h@)),
                    RouteDecision::Forward { host, port, request } => old(self).verdict_for(true, h@)
                        == Verdict::Allowed && host@ == h@ && port == target_port_of(req.port, req.https)
                        && request@ == outbound_request(
                        req.method@,
                        req.path_and_query@,
                        h@,
                        old(self).fingerprint,
                    ),
                },
            },
    {
        let mut ks_details = LogDetails::empty();
        ks_details.url = Some(req.uri.clone());
        ks_details.domain = copy_option(&req.host);
        ks_details.path = Some(req.path.clone());
        ks_details.port = req.port;
        ks_details.method = Some(req.method.clone());
        if !self.check_kill_switch(state, ks_details) {
            return RouteDecision::Reply(verdict_reply(Verdict::KillSwitchBlocked));
        }
        state.update_stats(StatsUpdate::TotalRequest);
        let host = match &req.host {
            Some(h) => h,
            None => {
                return RouteDecision::Reply(upstream_failure_reply());
            },
        };
        let path = req.path.as_str();
        let port: u16 = match req.port {
            Some(p) => p,
            None => 443,
        };
        let mut d = LogDetails::empty();
        d.url = Some(host.clone().concat(path));
        d.domain = Some(host.clone());
        d.path = Some(req.path.clone());
        d.port = Some(port);
        d.method = Some(req.method.clone());
        let ghost l0 = state.logs@;
        state.add_log_with_details("info", host.clone().concat(path), "network", Some(d));
        let ghost l1 = state.logs@;
        self.tag_threats(state, host.as_str(), path, req.method.as_str());
        let ghost l2 = state.logs@;
        let ghost hits = threat_rules_of(lowercase_of(req.path@), lowercase_of(host@), host@);
        let v = self.apply_filters(state, host.as_str(), path, port, req.method.as_str());
        proof {
            let n = hits.len() as int;
            lemma_appended_extends(l0, l1, "info"@, "network"@);
            lemma_ring_compose(l0, l1, l2, 1, n);
            assert(recent(l2, 1 + n, 0) == recent(l1, 1, 0));
            assert forall|j: int| 0 <= j < n implies threat_entry(#[trigger] recent(l2, 1 + n, 1 + j), hits[j]) by {
                assert(recent(l2, 1 + n, 1 + j) == recent(l2, n, j));
            }
            if v != Verdict::Allowed {
                let l3 = state.logs@;
                lemma_appended_extends(l2, l3, "warn"@, verdict_category(v));
                lemma_ring_compose(l0, l2, l3, 1 + n, 1);
                assert(recent(l3, 2 + n, 1 + n) == l3.last());
                assert(recent(l3, 2 + n, 0) == recent(l2, 1 + n, 0));
                assert forall|j: int| 0 <= j < n implies threat_entry(#[trigger] recent(l3, 2 + n, 1 + j), hits[j]) by {
                    assert(recent(l3, 2 + n, 1 + j) == recent(l2, 1 + n, 1 + j));
                }
            }
        }
        if v != Verdict::Allowed {
            return RouteDecision::Reply(verdict_reply(v));
        }
        let request = build_http_request(
            req.method.as_str(),
            req.path_and_query.as_str(),
            host.as_str(),
            &self.fingerprint,
        );
        RouteDecision::Forward { host: host.clone(), port: target_port(req.port, req.https), request }
    }

    /// Decides a `CONNECT` request: the kill switch, then the target, then the filters
    /// on its host. Counters are updated before the decision is returned.
    pub fn route_connect(&mut self, state: &mut ApiState, request: &str) -> (r: ConnectDecision)
        requires
            old(state).wf(),
        ensures
            final(state).wf(),
            final(self).same_policy(*old(self)),
            old(state).stats.counters_le(final(state).stats),
            final(state).connection == old(state).connection,
            final(state).connected_since == old(state).connected_since,
            !old(state).kill_switch.admits() ==> final(state).stats == applied(
                old(state).stats,
                StatsUpdate::KillSwitchBlocked,
            ) && r is Drop,
            !old(state).kill_switch.admits() ==> final(state).kill_switch.blocked_requests
                == old(state).kill_switch.blocked_requests.saturating_add(1)
                && appended(old(state).logs@, final(state).logs@, "error"@, "security"@)
                && last_threat(*final(state), "Kill Switch Block"@),
            old(state).kill_switch.admits() ==> final(state).kill_switch == old(state).kill_switch,
            old(state).kill_switch.admits() ==> match connect_target_of(request@) {
                None => final(state).logs == old(state).logs,
                Some((h, p)) => connect_logged(
                    old(state).logs@,
                    final(state).logs@,
                    h,
                    old(self).verdict_for(true, h),
                ),
            },
            old(state).kill_switch.admits() ==> match connect_target_of(request@) {
                None => final(state).stats == old(state).stats && r is Drop,
                Some((h, p)) => final(state).stats == after_verdict(
                    applied(old(state).stats, StatsUpdate::TotalRequest),
                    old(self).verdict_for(true, h),
                ) && match r {
                    ConnectDecision::Tunnel { host, port } => old(self).verdict_for(true, h)
                        == Verdict::Allowed && host@ == h && port == p,
                    ConnectDecision::Refuse(reply) => old(self).verdict_for(true, h) != Verdict::Allowed
                        && reply.status == 403 && reply.body@ == reply_body(old(self).verdict_for(true, h)),
                    ConnectDecision::Drop => false,
                },
            },
    {
        if !self.check_kill_switch(state, LogDetails::empty()) {
            return ConnectDecision::Drop;
        }
        let (host, port) = match parse_connect_target(request) {
            Some(t) => t,
            None => {
                return ConnectDecision::Drop;
            },
        };
        state.update_stats(StatsUpdate::TotalRequest);
        let mut d = LogDetails::empty();
        d.domain = Some(host.clone());
        d.port = Some(port);
        d.method = Some(String::from_str("CONNECT"));
        let ghost l0 = state.logs@;
        state.add_log_with_details("info", String::from_str("HTTPS tunnel request: ").concat(host.as_str()), "network", Some(d));
        let ghost l1 = state.logs@;
        let v = self.apply_filters(state, host.as_str(), "", port, "CONNECT");
        if v != Verdict::Allowed {
            proof {
                lemma_appended_extends(l0, l1, "info"@, "network"@);
                lemma_appended_extends(l1, state.logs@, "warn"@, verdict_category(v));
                lemma_ring_compose(l0, l1, state.logs@, 1, 1);
                assert(recent(state.logs@, 2, 1) == state.logs@.last());
            }
            return ConnectDecision::Refuse(verdict_reply(v));
        }
        state.add_log("info", String::from_str("Opening tunnel to ").concat(host.as_str()), "network");
        proof {
            lemma_appended_extends(l0, l1, "info"@, "network"@);
            lemma_appended_extends(l1, state.logs@, "info"@, "network"@);
            lemma_ring_compose(l0, l1, state.logs@, 1, 1);
            assert(recent(state.logs@, 2, 1) == state.logs@.last());
        }
        ConnectDecision::Tunnel { host, port }
    }

    /// The size of the blocklist and the number of trackers blocked so far.
    pub fn get_stats(&self) -> (r: (usize, u64))
        ensures
            r.0 == self.tracker_blocker.domains().len(),
            r.1 == self.tracker_blocker.blocked(),
    {
        (self.tracker_blocker.blocklist_size(), self.tracker_blocker.total_blocked())
    }
}

} // verus!

verus! {

/// Exactly one verdict holds, checked in the order kill switch, IPv6, WebRTC,
/// tracker; the first that refuses wins.
pub proof fn lemma_filter_order(admits: bool, ipv6: bool, webrtc: bool, tracker: bool)
    ensures
        (verdict_of(admits, ipv6, webrtc, tracker) == Verdict::KillSwitchBlocked) == !admits,
        (verdict_of(admits, ipv6, webrtc, tracker) == Verdict::Ipv6Blocked) == (admits && ipv6),
        (verdict_of(admits, ipv6, webrtc, tracker) == Verdict::WebRtcBlocked) == (admits && !ipv6 && webrtc),
        (verdict_of(admits, ipv6, webrtc, tracker) == Verdict::TrackerBlocked) == (admits && !ipv6 && !webrtc
            && tracker),
        (verdict_of(admits, ipv6, webrtc, tracker) == Verdict::Allowed) == (admits && !ipv6 && !webrtc
            && !tracker),
{
}

/// The statistics after a request never have a smaller counter than before.
pub proof fn lemma_request_counters_monotone(s: Stats, n: int, v: Verdict)
    requires
        n >= 0,
        s.trackers_blocked + s.webrtc_blocked + s.ipv6_blocked <= s.requests_blocked,
    ensures
        s.counters_le(after_verdict(with_threats(applied(s, StatsUpdate::TotalRequest), n), v)),
        s.counters_le(after_verdict(applied(s, StatsUpdate::TotalRequest), v)),
{
}

/// Two requests sent out with one session's fingerprint carry the same
/// User-Agent, Accept-Language and Accept-Encoding lines: right after the Host
/// line come that fingerprint's lines, in both.
pub proof fn lemma_fingerprint_per_session(
    fp: BrowserFingerprint,
    m1: Seq<char>, p1: Seq<char>, h1: Seq<char>,
    m2: Seq<char>, p2: Seq<char>, h2: Seq<char>,
)
    ensures
        ({
            let r1 = outbound_request(m1, p1, h1, fp);
            let r2 = outbound_request(m2, p2, h2, fp);
            let a1 = (m1 + " "@ + p1 + " HTTP/1.1\r\nHost: "@ + h1 + "\r\n"@).len();
            let a2 = (m2 + " "@ + p2 + " HTTP/1.1\r\nHost: "@ + h2 + "\r\n"@).len();
            let f = fingerprint_lines(fp).len();
            &&& r1.subrange(a1 as int, (a1 + f) as int) == fingerprint_lines(fp)
            &&& r2.subrange(a2 as int, (a2 + f) as int) == fingerprint_lines(fp)
            &&& r1.subrange(a1 as int, (a1 + f) as int) == r2.subrange(a2 as int, (a2 + f) as int)
        }),
{
    let head1 = m1 + " "@ + p1 + " HTTP/1.1\r\nHost: "@ + h1 + "\r\n"@;
    let head2 = m2 + " "@ + p2 + " HTTP/1.1\r\nHost: "@ + h2 + "\r\n"@;
    let tail = "Connection: close\r\n\r\n"@;
    let f = fingerprint_lines(fp);
    assert(outbound_request(m1, p1, h1, fp) =~= head1 + f + tail);
    assert(outbound_request(m2, p2, h2, fp) =~= head2 + f + tail);
    assert((head1 + f + tail).subrange(head1.len() as int, (head1.len() + f.len()) as int) =~= f);
    assert((head2 + f + tail).subrange(head2.len() as int, (head2.len() + f.len()) as int) =~= f);
}

} // verus!
