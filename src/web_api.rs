//! Shared state of the proxy: counters, the kill switch, the bounded log
//! ring, and the connection lifecycle that the control interface drives.
use vstd::prelude::*;
use crate::config::Config;
use crate::kill_switch::KillSwitch;
use crate::system_proxy::SystemProxy;
use crate::text::str_equals;

verus! {

/// Most log entries kept; the oldest goes first.
pub const LOG_CAPACITY: usize = 2000;

/// Counters and flags shown to the control interface.
#[derive(Debug)]
pub struct Stats {
    pub tor_connected: bool,
    pub kill_switch_active: bool,
    pub requests_blocked: u64,
    pub trackers_blocked: u64,
    pub webrtc_blocked: u64,
    pub ipv6_blocked: u64,
    pub total_requests: u64,
    pub proxy_running: bool,
    pub auto_proxy_enabled: bool,
    pub uptime_seconds: u64,
    pub security_threats_detected: u64,
    pub exit_country: Option<String>,
}

/// What a structured log entry records about a request.
#[derive(Debug)]
pub struct LogDetails {
    pub url: Option<String>,
    pub domain: Option<String>,
    pub path: Option<String>,
    pub port: Option<u16>,
    pub method: Option<String>,
    pub client_ip: Option<String>,
    pub threat_type: Option<String>,
    pub reason: Option<String>,
    pub request_headers: Option<Vec<String>>,
}

/// One entry of the log ring. Levels are `info`, `warn` and `error`; categories
/// are `general`, `network`, `tracker`, `webrtc`, `ipv6` and `security`.
#[derive(Debug)]
pub struct LogEntry {
    pub timestamp: String,
    pub level: String,
    pub message: String,
    pub category: String,
    pub details: Option<LogDetails>,
}

/// Where the proxy is in its lifecycle.
#[derive(Clone, Copy, Debug, PartialEq, Eq, Structural)]
pub enum ConnectionState {
    Disconnected,
    Connecting,
    Connected,
    Disconnecting,
}

/// What the caller must do to the proxy task after a connection toggle.
#[derive(Clone, Copy, Debug, PartialEq, Eq, Structural)]
pub enum ConnectionAction {
    Nothing,
    StartProxy,
    StopProxy,
}

/// A counter update made by the request pipeline.
#[derive(Clone, Copy, Debug, PartialEq, Eq, Structural)]
pub enum StatsUpdate {
    TotalRequest,
    TrackerBlocked,
    WebRtcBlocked,
    Ipv6Blocked,
    KillSwitchBlocked,
    ThreatDetected,
}

fn copy_string_option(s: &Option<String>) -> (r: Option<String>)
    ensures
        r == *s,
{
    match s {
        Some(v) => Some(v.clone()),
        None => None,
    }
}

fn copy_strings(v: &Vec<String>) -> (r: Vec<String>)
    ensures
        r@ == v@,
{
    let mut r: Vec<String> = Vec::new();
    let mut i: usize = 0;
    while i < v.len()
        invariant
            i <= v@.len(),
            r@ == v@.subrange(0, i as int),
        decreases v.len() - i,
    {
        r.push(v[i].clone());
        assert(r@ =~= v@.subrange(0, i + 1));
        i = i + 1;
    }
    assert(r@ =~= v@);
    r
}

impl Stats {
    /// Each of the six counters of `self` is at most the same counter of `later`.
    pub open spec fn counters_le(&self, later: Stats) -> bool {
        &&& self.total_requests <= later.total_requests
        &&& self.requests_blocked <= later.requests_blocked
        &&& self.trackers_blocked <= later.trackers_blocked
        &&& self.webrtc_blocked <= later.webrtc_blocked
        &&& self.ipv6_blocked <= later.ipv6_blocked
        &&& self.security_threats_detected <= later.security_threats_detected
    }

    /// All six counters are zero.
    pub open spec fn counters_zero(&self) -> bool {
        &&& self.total_requests == 0
        &&& self.requests_blocked == 0
        &&& self.trackers_blocked == 0
        &&& self.webrtc_blocked == 0
        &&& self.ipv6_blocked == 0
        &&& self.security_threats_detected == 0
    }

    /// A copy of these statistics.
    pub fn copy(&self) -> (r: Stats)
        ensures
            r == *self,
    {
        Stats {
            tor_connected: self.tor_connected,
            kill_switch_active: self.kill_switch_active,
            requests_blocked: self.requests_blocked,
            trackers_blocked: self.trackers_blocked,
            webrtc_blocked: self.webrtc_blocked,
            ipv6_blocked: self.ipv6_blocked,
            total_requests: self.total_requests,
            proxy_running: self.proxy_running,
            auto_proxy_enabled: self.auto_proxy_enabled,
            uptime_seconds: self.uptime_seconds,
            security_threats_detected: self.security_threats_detected,
            exit_country: copy_string_option(&self.exit_country),
        }
    }
}

impl LogDetails {
    /// Details with nothing recorded.
    pub fn empty() -> (r: LogDetails)
        ensures
            r.url.is_none() && r.domain.is_none() && r.path.is_none() && r.port.is_none(),
            r.method.is_none() && r.client_ip.is_none() && r.threat_type.is_none(),
            r.reason.is_none() && r.request_headers.is_none(),
    {
        LogDetails {
            url: None,
            domain: None,
            path: None,
            port: None,
            method: None,
            client_ip: None,
            threat_type: None,
            reason: None,
            request_headers: None,
        }
    }

    /// The two record the same things.
    pub open spec fn same_as(&self, o: LogDetails) -> bool {
        &&& self.url == o.url && self.domain == o.domain && self.path == o.path
        &&& self.port == o.port && self.method == o.method && self.client_ip == o.client_ip
        &&& self.threat_type == o.threat_type && self.reason == o.reason
        &&& match (self.request_headers, o.request_headers) {
            (Some(a), Some(b)) => a@ == b@,
            (None, None) => true,
            _ => false,
        }
    }

    /// A copy of these details.
    pub fn copy(&self) -> (r: LogDetails)
        ensures
            r.same_as(*self),
    {
        let request_headers = match &self.request_headers {
            Some(h) => Some(copy_strings(h)),
            None => None,
        };
        LogDetails {
            url: copy_string_option(&self.url),
            domain: copy_string_option(&self.domain),
            path: copy_string_option(&self.path),
            port: self.port,
            method: copy_string_option(&self.method),
            client_ip: copy_string_option(&self.client_ip),
            threat_type: copy_string_option(&self.threat_type),
            reason: copy_string_option(&self.reason),
            request_headers,
        }
    }
}

impl LogEntry {
    /// The two entries record the same event.
    pub open spec fn same_as(&self, o: LogEntry) -> bool {
        &&& self.timestamp == o.timestamp && self.level == o.level
        &&& self.message == o.message && self.category == o.category
        &&& match (self.details, o.details) {
            (Some(a), Some(b)) => a.same_as(b),
            (None, None) => true,
            _ => false,
        }
    }

    /// A copy of this entry.
    pub fn copy(&self) -> (r: LogEntry)
        ensures
            r.same_as(*self),
    {
        LogEntry {
            timestamp: self.timestamp.clone(),
            level: self.level.clone(),
            message: self.message.clone(),
            category: self.category.clone(),
            details: match &self.details {
                Some(d) => Some(d.copy()),
                None => None,
            },
        }
    }
}

} // verus!

verus! {

/// The display name of an exit-country code; unknown codes stand for themselves.
pub open spec fn country_name(code: Seq<char>) -> Seq<char> {
    if code == "us"@ {
        "United States 🇺🇸"@
    } else if code == "uk"@ {
        "United Kingdom 🇬🇧"@
    } else if code == "de"@ {
        "Germany 🇩🇪"@
    } else if code == "nl"@ {
        "Netherlands 🇳🇱"@
    } else if code == "fr"@ {
        "France 🇫🇷"@
    } else if code == "se"@ {
        "Sweden 🇸🇪"@
    } else if code == "ch"@ {
        "Switzerland 🇨🇭"@
    } else if code == "ca"@ {
        "Canada 🇨🇦"@
    } else if code == "au"@ {
        "Australia 🇦🇺"@
    } else if code == "jp"@ {
        "Japan 🇯🇵"@
    } else {
        code
    }
}

/// The display name of an exit-country preference; none means a random exit.
pub open spec fn exit_label(country: Option<String>) -> Seq<char> {
    match country {
        Some(c) => country_name(c@),
        None => "Auto (Random)"@,
    }
}

/// The display name of an exit-country code.
pub fn country_display_name(code: &str) -> (r: String)
    ensures
        r@ == country_name(code@),
{
    if str_equals(code, "us") {
        String::from_str("United States 🇺🇸")
    } else if str_equals(code, "uk") {
        String::from_str("United Kingdom 🇬🇧")
    } else if str_equals(code, "de") {
        String::from_str("Germany 🇩🇪")
    } else if str_equals(code, "nl") {
        String::from_str("Netherlands 🇳🇱")
    } else if str_equals(code, "fr") {
        String::from_str("France 🇫🇷")
    } else if str_equals(code, "se") {
        String::from_str("Sweden 🇸🇪")
    } else if str_equals(code, "ch") {
        String::from_str("Switzerland 🇨🇭")
    } else if str_equals(code, "ca") {
        String::from_str("Canada 🇨🇦")
    } else if str_equals(code, "au") {
        String::from_str("Australia 🇦🇺")
    } else if str_equals(code, "jp") {
        String::from_str("Japan 🇯🇵")
    } else {
        String::from_str(code)
    }
}

/// The display name of an exit-country preference.
pub fn exit_country_label(country: &Option<String>) -> (r: String)
    ensures
        r@ == exit_label(*country),
{
    match country {
        Some(c) => country_display_name(c.as_str()),
        None => String::from_str("Auto (Random)"),
    }
}

/// The entries kept from `logs` when one more is appended.
pub open spec fn ring_keep(logs: Seq<LogEntry>) -> Seq<LogEntry> {
    if logs.len() >= LOG_CAPACITY {
        logs.subrange(logs.len() - (LOG_CAPACITY - 1), logs.len() as int)
    } else {
        logs
    }
}

/// `after` is `before` with one more entry, of `level` in `category`, the oldest
/// dropped when the ring was full.
pub open spec fn appended(
    before: Seq<LogEntry>,
    after: Seq<LogEntry>,
    level: Seq<char>,
    category: Seq<char>,
) -> bool {
    &&& after.len() >= 1
    &&& after.drop_last() == ring_keep(before)
    &&& after.last().level@ == level
    &&& after.last().category@ == category
}

/// `after` is `before` with `k` more entries at its end, the oldest dropped
/// as far as the ring's capacity demands.
pub open spec fn ring_extended(before: Seq<LogEntry>, after: Seq<LogEntry>, k: int) -> bool {
    let kept = after.len() - k;
    &&& 0 <= k <= after.len()
    &&& after.len() == if before.len() + k <= LOG_CAPACITY { before.len() + k } else { LOG_CAPACITY as int }
    &&& after.subrange(0, kept) == before.subrange(before.len() - kept, before.len() as int)
}

/// The `j`-th of the last `k` entries of `logs`.
pub open spec fn recent(logs: Seq<LogEntry>, k: int, j: int) -> LogEntry {
    logs[logs.len() - k + j]
}

/// One entry appended is a ring extended by one.
pub proof fn lemma_appended_extends(before: Seq<LogEntry>, after: Seq<LogEntry>, level: Seq<char>, category: Seq<char>)
    requires
        before.len() <= LOG_CAPACITY,
        appended(before, after, level, category),
    ensures
        ring_extended(before, after, 1),
        recent(after, 1, 0) == after.last(),
{
    assert(after.subrange(0, after.len() - 1) =~= after.drop_last());
    if before.len() < LOG_CAPACITY {
        assert(before.subrange(0, before.len() as int) =~= before);
    }
}

/// Extending by `k1` and then by `k2` extends by `k1 + k2`; the `m` newest
/// entries of the middle ring are still there, just before the last `k2`.
pub proof fn lemma_ring_compose(a: Seq<LogEntry>, b: Seq<LogEntry>, c: Seq<LogEntry>, k1: int, k2: int)
    requires
        a.len() <= LOG_CAPACITY,
        b.len() <= LOG_CAPACITY,
        k1 + k2 <= LOG_CAPACITY,
        ring_extended(a, b, k1),
        ring_extended(b, c, k2),
    ensures
        ring_extended(a, c, k1 + k2),
        forall|j: int| 0 <= j < k1 ==> #[trigger] recent(c, k1 + k2, j) == recent(b, k1, j),
{
    let kb = b.len() - k1;
    let kc = c.len() - k2;
    let kk = c.len() - k1 - k2;
    assert forall|i: int| 0 <= i < kk implies c.subrange(0, kk)[i] == a.subrange(a.len() - kk, a.len() as int)[i] by {
        assert(c.subrange(0, kc)[i] == b.subrange(b.len() - kc, b.len() as int)[i]);
        assert(b.subrange(0, kb)[b.len() - kc + i] == a.subrange(a.len() - kb, a.len() as int)[b.len() - kc + i]);
    }
    assert(c.subrange(0, kk) =~= a.subrange(a.len() - kk, a.len() as int));
    assert forall|j: int| 0 <= j < k1 implies #[trigger] recent(c, k1 + k2, j) == recent(b, k1, j) by {
        assert(c.subrange(0, kc)[kc - k1 + j] == b.subrange(b.len() - kc, b.len() as int)[kc - k1 + j]);
    }
}

/// The statistics after the pipeline records `u`. A block is counted only while
/// the blocked total has room, so that the total stays the sum of its parts.
pub open spec fn applied(s: Stats, u: StatsUpdate) -> Stats {
    match u {
        StatsUpdate::TotalRequest => Stats { total_requests: s.total_requests.saturating_add(1), ..s },
        StatsUpdate::TrackerBlocked => if s.requests_blocked < u64::MAX {
            Stats {
                trackers_blocked: (s.trackers_blocked + 1) as u64,
                requests_blocked: (s.requests_blocked + 1) as u64,
                ..s
            }
        } else {
            s
        },
        StatsUpdate::WebRtcBlocked => if s.requests_blocked < u64::MAX {
            Stats {
                webrtc_blocked: (s.webrtc_blocked + 1) as u64,
                requests_blocked: (s.requests_blocked + 1) as u64,
                ..s
            }
        } else {
            s
        },
        StatsUpdate::Ipv6Blocked => if s.requests_blocked < u64::MAX {
            Stats {
                ipv6_blocked: (s.ipv6_blocked + 1) as u64,
                requests_blocked: (s.requests_blocked + 1) as u64,
                ..s
            }
        } else {
            s
        },
        StatsUpdate::KillSwitchBlocked => Stats {
            requests_blocked: if s.requests_blocked < u64::MAX {
                (s.requests_blocked + 1) as u64
            } else {
                s.requests_blocked
            },
            security_threats_detected: s.security_threats_detected.saturating_add(1),
            ..s
        },
        StatsUpdate::ThreatDetected => Stats {
            security_threats_detected: s.security_threats_detected.saturating_add(1),
            ..s
        },
    }
}

/// What a connection toggle does: the action for the proxy task, and the next state.
pub open spec fn connection_step(c: ConnectionState, connect: bool) -> (ConnectionAction, ConnectionState) {
    if connect {
        if c == ConnectionState::Disconnected {
            (ConnectionAction::StartProxy, ConnectionState::Connecting)
        } else {
            (ConnectionAction::Nothing, c)
        }
    } else {
        if c == ConnectionState::Connecting || c == ConnectionState::Connected {
            (ConnectionAction::StopProxy, ConnectionState::Disconnected)
        } else {
            (ConnectionAction::Nothing, c)
        }
    }
}

/// The kill switch after it is turned on or off.
pub open spec fn kill_switch_set(k: KillSwitch, enabled: bool) -> KillSwitch {
    KillSwitch { kill_switch_active: enabled, ..k }
}

/// The statistics after the kill switch is turned on or off.
pub open spec fn stats_with_kill_switch(s: Stats, enabled: bool) -> Stats {
    Stats { kill_switch_active: enabled, ..s }
}

/// The statistics of a fresh session: counters at zero, running, circuit up.
pub open spec fn session_started(s: Stats) -> Stats {
    Stats {
        proxy_running: true,
        tor_connected: true,
        requests_blocked: 0,
        trackers_blocked: 0,
        webrtc_blocked: 0,
        ipv6_blocked: 0,
        total_requests: 0,
        uptime_seconds: 0,
        security_threats_detected: 0,
        ..s
    }
}

/// The statistics once the proxy no longer runs.
pub open spec fn session_ended(s: Stats) -> Stats {
    Stats { proxy_running: false, tor_connected: false, uptime_seconds: 0, ..s }
}

/// What the caller does, in this order, to shut down: the kill switch is already
/// off when this is returned; then the system proxy setting is restored, the
/// listener aborted, and the process ends.
#[derive(Debug)]
pub struct ShutdownPlan {
    pub restore_system_proxy: crate::system_proxy::ProxySettings,
    pub abort_listener: bool,
}

/// The proxy's shared state.
#[derive(Debug)]
pub struct ApiState {
    pub stats: Stats,
    pub logs: Vec<LogEntry>,
    /// When the current session began, in seconds of the caller's clock.
    pub connected_since: Option<u64>,
    pub kill_switch: KillSwitch,
    /// Requests refused by the kill switch in this session.
    pub kill_switch_blocks: u64,
    pub connection: ConnectionState,
    pub config: Config,
    pub system_proxy: SystemProxy,
}

/// Relies on chrono's `Local::now` and `format`: the local time of day, to the
/// millisecond. Nothing is promised of it.
#[verifier::external_body]
fn log_timestamp() -> String {
    chrono::Local::now().format("%H:%M:%S%.3f").to_string()
}

impl ApiState {
    /// The state's invariant.
    pub open spec fn wf(&self) -> bool {
        &&& self.logs@.len() <= LOG_CAPACITY
        &&& self.stats.requests_blocked == self.stats.trackers_blocked + self.stats.webrtc_blocked
            + self.stats.ipv6_blocked + self.kill_switch_blocks
        &&& self.stats.kill_switch_active == self.kill_switch.kill_switch_active
        &&& self.stats.tor_connected == self.kill_switch.tor_connected
        &&& self.stats.proxy_running == (self.connection == ConnectionState::Connected)
        &&& self.connected_since.is_some() == (self.connection == ConnectionState::Connected)
    }

    /// Seconds since the session began, at time `now`; zero when disconnected.
    pub open spec fn uptime_at(&self, now: u64) -> u64 {
        match self.connected_since {
            Some(t) => if now >= t { (now - t) as u64 } else { 0 },
            None => 0,
        }
    }

    /// Nothing but the log ring differs between `self` and `o`.
    pub open spec fn same_but_logs(&self, o: ApiState) -> bool {
        &&& self.stats == o.stats
        &&& self.connected_since == o.connected_since
        &&& self.kill_switch == o.kill_switch
        &&& self.kill_switch_blocks == o.kill_switch_blocks
        &&& self.connection == o.connection
        &&& self.config == o.config
        &&& self.system_proxy == o.system_proxy
    }

    /// Disconnected, with the kill switch active, the circuit down, and every counter at zero.
    pub fn new(config: Config) -> (r: Self)
        ensures
            r.wf(),
            r.stats.counters_zero(),
            r.logs@.len() == 0,
            r.connection == ConnectionState::Disconnected,
            r.kill_switch.kill_switch_active && !r.kill_switch.tor_connected,
            r.stats.exit_country.is_none(),
            !r.stats.auto_proxy_enabled,
            r.config == config,
            r.system_proxy.original_state.is_none(),
    {
        let kill_switch = KillSwitch::new();
        ApiState {
            stats: Stats {
                tor_connected: false,
                kill_switch_active: true,
                requests_blocked: 0,
                trackers_blocked: 0,
                webrtc_blocked: 0,
                ipv6_blocked: 0,
                total_requests: 0,
                proxy_running: false,
                auto_proxy_enabled: false,
                uptime_seconds: 0,
                security_threats_detected: 0,
                exit_country: None,
            },
            logs: Vec::new(),
            connected_since: None,
            kill_switch,
            kill_switch_blocks: 0,
            connection: ConnectionState::Disconnected,
            config,
            system_proxy: SystemProxy::new(),
        }
    }

    /// Uses `kill_switch` as the kill switch; the flags shown follow it.
    pub fn with_kill_switch(self, kill_switch: KillSwitch) -> (r: Self)
        requires
            self.wf(),
        ensures
            r.wf(),
            r.kill_switch == kill_switch,
            r.stats == (Stats {
                kill_switch_active: kill_switch.kill_switch_active,
                tor_connected: kill_switch.tor_connected,
                ..self.stats
            }),
            r.connection == self.connection,
    {
        let mut s = self;
        s.stats.kill_switch_active = kill_switch.kill_switch_active;
        s.stats.tor_connected = kill_switch.tor_connected;
        s.kill_switch = kill_switch;
        s
    }

    pub fn with_system_proxy(self, system_proxy: SystemProxy) -> (r: Self)
        requires
            self.wf(),
        ensures
            r.wf(),
            r.system_proxy == system_proxy,
            r.stats == self.stats,
            r.kill_switch == self.kill_switch,
            r.connection == self.connection,
    {
        let mut s = self;
        s.system_proxy = system_proxy;
        s
    }

    pub fn add_log(&mut self, level: &str, message: String, category: &str)
        requires
            old(self).wf(),
        ensures
            final(self).wf(),
            final(self).same_but_logs(*old(self)),
            old(self).stats.counters_le(final(self).stats),
            appended(old(self).logs@, final(self).logs@, level@, category@),
            final(self).logs@.last().message == message,
            final(self).logs@.last().details.is_none(),
    {
        self.add_log_with_details(level, message, category, None);
    }

    /// Appends an entry stamped with the local time; when the ring is full the oldest goes.
    pub fn add_log_with_details(
        &mut self,
        level: &str,
        message: String,
        category: &str,
        details: Option<LogDetails>,
    )
        requires
            old(self).wf(),
        ensures
            final(self).wf(),
            final(self).same_but_logs(*old(self)),
            old(self).stats.counters_le(final(self).stats),
            appended(old(self).logs@, final(self).logs@, level@, category@),
            final(self).logs@.last().message == message,
            final(self).logs@.last().details == details,
    {
        let entry = LogEntry {
            timestamp: log_timestamp(),
            level: String::from_str(level),
            message,
            category: String::from_str(category),
            details,
        };
        let ghost before = self.logs@;
        self.logs.push(entry);
        if self.logs.len() > LOG_CAPACITY {
            self.logs.remove(0);
            assert(self.logs@.drop_last() =~= ring_keep(before));
        } else {
            assert(self.logs@.drop_last() =~= ring_keep(before));
        }
    }

    fn note(&mut self, level: &str, message: &str, category: &str)
        requires
            old(self).wf(),
        ensures
            final(self).wf(),
            final(self).same_but_logs(*old(self)),
            appended(old(self).logs@, final(self).logs@, level@, category@),
            final(self).logs@.last().message@ == message@,
    {
        self.add_log_with_details(level, String::from_str(message), category, None);
    }

    /// Records one counter update of the request pipeline.
    pub fn update_stats(&mut self, update: StatsUpdate)
        requires
            old(self).wf(),
        ensures
            final(self).wf(),
            final(self).stats == applied(old(self).stats, update),
            old(self).stats.counters_le(final(self).stats),
            final(self).logs == old(self).logs,
            final(self).connection == old(self).connection,
            final(self).connected_since == old(self).connected_since,
            final(self).kill_switch == old(self).kill_switch,
    {
        let room = self.stats.requests_blocked < u64::MAX;
        match update {
            StatsUpdate::TotalRequest => {
                self.stats.total_requests = self.stats.total_requests.saturating_add(1);
            },
            StatsUpdate::TrackerBlocked => {
                if room {
                    self.stats.trackers_blocked = self.stats.trackers_blocked + 1;
                    self.stats.requests_blocked = self.stats.requests_blocked + 1;
                }
            },
            StatsUpdate::WebRtcBlocked => {
                if room {
                    self.stats.webrtc_blocked = self.stats.webrtc_blocked + 1;
                    self.stats.requests_blocked = self.stats.requests_blocked + 1;
                }
            },
            StatsUpdate::Ipv6Blocked => {
                if room {
                    self.stats.ipv6_blocked = self.stats.ipv6_blocked + 1;
                    self.stats.requests_blocked = self.stats.requests_blocked + 1;
                }
            },
            StatsUpdate::KillSwitchBlocked => {
                if room {
                    self.kill_switch_blocks = self.kill_switch_blocks + 1;
                    self.stats.requests_blocked = self.stats.requests_blocked + 1;
                }
                self.stats.security_threats_detected =
                    self.stats.security_threats_detected.saturating_add(1);
            },
            StatsUpdate::ThreatDetected => {
                self.stats.security_threats_detected =
                    self.stats.security_threats_detected.saturating_add(1);
            },
        }
    }

    /// A snapshot of the statistics at time `now`, with the session's uptime.
    pub fn get_stats(&self, now: u64) -> (r: Stats)
        ensures
            r == (Stats { uptime_seconds: self.uptime_at(now), ..self.stats }),
    {
        let mut s = self.stats.copy();
        s.uptime_seconds = match self.connected_since {
            Some(t) => if now >= t { now - t } else { 0 },
            None => 0,
        };
        s
    }
}

} // verus!

verus! {

/// The entry passes a filter on category and level; an absent part passes all.
pub open spec fn log_selected(e: LogEntry, category: Option<String>, level: Option<String>) -> bool {
    (match category {
        Some(c) => e.category@ == c@,
        None => true,
    }) && (match level {
        Some(l) => e.level@ == l@,
        None => true,
    })
}

/// The entries of `logs` that pass the filter, in order.
pub open spec fn selected_logs(logs: Seq<LogEntry>, category: Option<String>, level: Option<String>) -> Seq<LogEntry>
    decreases logs.len(),
{
    if logs.len() == 0 {
        Seq::empty()
    } else {
        let rest = selected_logs(logs.drop_last(), category, level);
        if log_selected(logs.last(), category, level) {
            rest.push(logs.last())
        } else {
            rest
        }
    }
}

/// The two sequences hold the same entries, one for one.
pub open spec fn same_entries(a: Seq<LogEntry>, b: Seq<LogEntry>) -> bool {
    a.len() == b.len() && forall|i: int| 0 <= i < a.len() ==> (#[trigger] a[i]).same_as(b[i])
}

fn option_matches(want: &Option<String>, have: &String) -> (r: bool)
    ensures
        r == match *want {
            Some(w) => have@ == w@,
            None => true,
        },
{
    match want {
        Some(w) => *have == *w,
        None => true,
    }
}

impl ApiState {
    /// A copy of the whole log ring, oldest first.
    pub fn get_logs(&self) -> (r: Vec<LogEntry>)
        ensures
            same_entries(r@, self.logs@),
    {
        let mut r: Vec<LogEntry> = Vec::new();
        let mut i: usize = 0;
        while i < self.logs.len()
            invariant
                i <= self.logs@.len(),
                same_entries(r@, self.logs@.subrange(0, i as int)),
            decreases self.logs.len() - i,
        {
            r.push(self.logs[i].copy());
            i = i + 1;
        }
        assert(self.logs@.subrange(0, self.logs@.len() as int) =~= self.logs@);
        r
    }

    /// The entries of the given category and level, oldest first.
    pub fn get_filtered_logs(&self, category: Option<String>, level: Option<String>) -> (r: Vec<LogEntry>)
        ensures
            same_entries(r@, selected_logs(self.logs@, category, level)),
    {
        let mut r: Vec<LogEntry> = Vec::new();
        let mut i: usize = 0;
        while i < self.logs.len()
            invariant
                i <= self.logs@.len(),
                same_entries(r@, selected_logs(self.logs@.subrange(0, i as int), category, level)),
            decreases self.logs.len() - i,
        {
            let e = &self.logs[i];
            let keep = option_matches(&category, &e.category) && option_matches(&level, &e.level);
            assert(self.logs@.subrange(0, i + 1).drop_last() =~= self.logs@.subrange(0, i as int));
            if keep {
                r.push(e.copy());
            }
            i = i + 1;
        }
        assert(self.logs@.subrange(0, self.logs@.len() as int) =~= self.logs@);
        r
    }

    /// Turns the kill switch on or off; the shown flag follows.
    pub fn toggle_kill_switch(&mut self, enabled: bool)
        requires
            old(self).wf(),
        ensures
            final(self).wf(),
            final(self).kill_switch == kill_switch_set(old(self).kill_switch, enabled),
            final(self).stats == stats_with_kill_switch(old(self).stats, enabled),
            old(self).stats.counters_le(final(self).stats),
            final(self).connection == old(self).connection,
            final(self).connected_since == old(self).connected_since,
            final(self).kill_switch_blocks == old(self).kill_switch_blocks,
            appended(old(self).logs@, final(self).logs@, "info"@, "general"@),
    {
        self.kill_switch.set_enabled(enabled);
        self.stats.kill_switch_active = enabled;
        if enabled {
            self.note("info", "Kill switch ENABLED - will block traffic if Tor disconnects", "general");
        } else {
            self.note("info", "Kill switch DISABLED - traffic may leak if Tor fails", "general");
        }
    }

    /// Records the exit-country preference; circuits already built keep theirs.
    pub fn change_exit_country(&mut self, country: Option<String>)
        requires
            old(self).wf(),
        ensures
            final(self).wf(),
            final(self).stats == (Stats { exit_country: country, ..old(self).stats }),
            old(self).stats.counters_le(final(self).stats),
            final(self).kill_switch == old(self).kill_switch,
            final(self).connection == old(self).connection,
            final(self).connected_since == old(self).connected_since,
            appended(old(self).logs@, final(self).logs@, "info"@, "network"@),
            final(self).logs@.last().message@ == "Exit location changed to: "@ + exit_label(country),
    {
        let name = exit_country_label(&country);
        self.stats.exit_country = country;
        let message = String::from_str("Exit location changed to: ").concat(name.as_str());
        self.add_log("info", message, "network");
    }

    /// Starts or stops the proxy. Starting while not disconnected, or stopping
    /// while not running, changes nothing but a warning in the log.
    pub fn toggle_connection(&mut self, connect: bool, exit_country: Option<String>) -> (r: ConnectionAction)
        requires
            old(self).wf(),
        ensures
            final(self).wf(),
            (r, final(self).connection) == connection_step(old(self).connection, connect),
            r == ConnectionAction::Nothing ==> final(self).same_but_logs(*old(self))
                && appended(old(self).logs@, final(self).logs@, "warn"@, "general"@),
            r == ConnectionAction::Nothing && connect ==> final(self).logs@.last().message@
                == "Already connected or connecting..."@,
            r == ConnectionAction::StartProxy ==> final(self).stats == (Stats { exit_country, ..old(self).stats })
                && final(self).kill_switch == old(self).kill_switch
                && final(self).connected_since.is_none(),
            r == ConnectionAction::StopProxy ==> final(self).stats == session_ended(old(self).stats)
                && final(self).kill_switch == (KillSwitch { tor_connected: false, ..old(self).kill_switch })
                && final(self).connected_since.is_none(),
            final(self).kill_switch_blocks == old(self).kill_switch_blocks,
            old(self).stats.counters_le(final(self).stats),
    {
        if connect {
            if self.connection != ConnectionState::Disconnected {
                self.note("warn", "Already connected or connecting...", "general");
                return ConnectionAction::Nothing;
            }
            self.note("info", "Connecting to Privacy Suite...", "general");
            self.note("info", "Establishing encrypted Tor connection...", "general");
            let name = exit_country_label(&exit_country);
            let message = String::from_str("Exit location set to: ").concat(name.as_str());
            self.add_log("info", message, "network");
            self.stats.exit_country = exit_country;
            self.connection = ConnectionState::Connecting;
            self.note("info", "Connection initiated...", "general");
            ConnectionAction::StartProxy
        } else {
            if self.connection == ConnectionState::Connecting || self.connection == ConnectionState::Connected {
                self.note("info", "Disconnecting from Privacy Suite...", "general");
                self.connected_since = None;
                self.stats.proxy_running = false;
                self.stats.tor_connected = false;
                self.stats.uptime_seconds = 0;
                self.kill_switch.set_tor_status(false);
                self.connection = ConnectionState::Disconnected;
                self.note("info", "Disconnected successfully", "general");
                ConnectionAction::StopProxy
            } else {
                self.note("warn", "No active connection to disconnect", "general");
                ConnectionAction::Nothing
            }
        }
    }

    /// Records the outcome of changing the system proxy setting (`enabling` says which way).
    pub fn record_system_proxy(&mut self, enabling: bool, outcome: Result<(), String>)
        requires
            old(self).wf(),
        ensures
            final(self).wf(),
            outcome is Ok ==> final(self).stats == (Stats { auto_proxy_enabled: enabling, ..old(self).stats }),
            outcome is Err ==> final(self).stats == old(self).stats,
            old(self).stats.counters_le(final(self).stats),
            final(self).kill_switch == old(self).kill_switch,
            final(self).connection == old(self).connection,
            final(self).connected_since == old(self).connected_since,
    {
        match outcome {
            Ok(()) => {
                self.stats.auto_proxy_enabled = enabling;
                if enabling {
                    self.note("info", "System proxy configured - all apps will be protected", "general");
                } else {
                    self.note("info", "System proxy disabled", "general");
                }
            },
            Err(e) => {
                let prefix = if enabling {
                    String::from_str("Failed to configure system proxy: ")
                } else {
                    String::from_str("Failed to disable system proxy: ")
                };
                self.add_log("warn", prefix.concat(e.as_str()), "general");
            },
        }
    }

    /// The proxy came up at time `now`: a fresh session begins, with every counter
    /// at zero. A start that arrives when no start is pending is refused (`false`).
    pub fn proxy_started(&mut self, now: u64) -> (r: bool)
        requires
            old(self).wf(),
        ensures
            final(self).wf(),
            r == (old(self).connection == ConnectionState::Connecting),
            r ==> final(self).connection == ConnectionState::Connected
                && final(self).stats == session_started(old(self).stats)
                && final(self).stats.counters_zero()
                && final(self).kill_switch == (KillSwitch { tor_connected: true, ..old(self).kill_switch })
                && final(self).connected_since == Some(now)
                && final(self).kill_switch_blocks == 0,
            !r ==> final(self).same_but_logs(*old(self)),
    {
        if self.connection != ConnectionState::Connecting {
            self.note("warn", "Proxy start ignored: no connection pending", "general");
            return false;
        }
        self.note("info", "Connected to Tor", "general");
        self.stats.proxy_running = true;
        self.stats.tor_connected = true;
        self.stats.requests_blocked = 0;
        self.stats.trackers_blocked = 0;
        self.stats.webrtc_blocked = 0;
        self.stats.ipv6_blocked = 0;
        self.stats.total_requests = 0;
        self.stats.uptime_seconds = 0;
        self.stats.security_threats_detected = 0;
        self.kill_switch_blocks = 0;
        self.kill_switch.set_tor_status(true);
        self.connected_since = Some(now);
        self.connection = ConnectionState::Connected;
        self.note("info", "All systems operational - Privacy Suite is LIVE", "general");
        true
    }

    /// The proxy could not start; a pending start is dropped.
    pub fn proxy_failed(&mut self, error: String)
        requires
            old(self).wf(),
        ensures
            final(self).wf(),
            old(self).connection == ConnectionState::Connecting ==> final(self).connection
                == ConnectionState::Disconnected,
            old(self).connection != ConnectionState::Connecting ==> final(self).connection
                == old(self).connection,
            old(self).connection == ConnectionState::Connecting ==> final(self).stats == (Stats {
                tor_connected: false,
                ..old(self).stats
            }) && final(self).kill_switch == (KillSwitch { tor_connected: false, ..old(self).kill_switch }),
            old(self).connection == ConnectionState::Connecting ==> !final(self).stats.tor_connected
                && !final(self).stats.proxy_running,
            old(self).connection != ConnectionState::Connecting ==> final(self).stats == old(self).stats
                && final(self).kill_switch == old(self).kill_switch,
            old(self).stats.counters_le(final(self).stats),
            final(self).connected_since == old(self).connected_since,
            appended(old(self).logs@, final(self).logs@, "error"@, "general"@),
    {
        if self.connection == ConnectionState::Connecting {
            self.connection = ConnectionState::Disconnected;
            self.stats.tor_connected = false;
            self.kill_switch.set_tor_status(false);
        }
        let message = String::from_str("Failed to start proxy: ").concat(error.as_str());
        self.add_log("error", message, "general");
    }

    /// The proxy's listener ended on its own; a running session ends.
    pub fn proxy_stopped(&mut self)
        requires
            old(self).wf(),
        ensures
            final(self).wf(),
            old(self).connection == ConnectionState::Connected ==> final(self).connection
                == ConnectionState::Disconnected
                && final(self).stats == session_ended(old(self).stats)
                && final(self).kill_switch == (KillSwitch { tor_connected: false, ..old(self).kill_switch })
                && final(self).connected_since.is_none(),
            old(self).connection != ConnectionState::Connected ==> final(self).same_but_logs(*old(self)),
            old(self).stats.counters_le(final(self).stats),
    {
        if self.connection == ConnectionState::Connected {
            self.connected_since = None;
            self.stats.proxy_running = false;
            self.stats.tor_connected = false;
            self.stats.uptime_seconds = 0;
            self.kill_switch.set_tor_status(false);
            self.connection = ConnectionState::Disconnected;
            self.note("info", "Proxy stopped", "general");
        } else {
            self.note("warn", "Proxy stop ignored: no session running", "general");
        }
    }

    /// Begins the final teardown: the kill switch is turned off first, so no traffic is
    /// stranded, and the rest of the order is returned to the caller.
    pub fn shutdown(&mut self) -> (r: ShutdownPlan)
        requires
            old(self).wf(),
        ensures
            final(self).wf(),
            !final(self).kill_switch.kill_switch_active,
            !final(self).stats.kill_switch_active,
            final(self).connection == ConnectionState::Disconnecting,
            r.abort_listener == (old(self).connection == ConnectionState::Connecting
                || old(self).connection == ConnectionState::Connected),
            match old(self).system_proxy.original_state {
                Some(o) => r.restore_system_proxy.enabled == o.enabled
                    && r.restore_system_proxy.server@ == o.server@,
                None => !r.restore_system_proxy.enabled,
            },
            old(self).stats.counters_le(final(self).stats),
    {
        self.note("info", "Shutdown requested", "general");
        self.kill_switch.set_enabled(false);
        self.stats.kill_switch_active = false;
        let abort_listener = self.connection == ConnectionState::Connecting
            || self.connection == ConnectionState::Connected;
        self.connected_since = None;
        self.stats.proxy_running = false;
        self.connection = ConnectionState::Disconnecting;
        let restore_system_proxy = self.system_proxy.disable();
        ShutdownPlan { restore_system_proxy, abort_listener }
    }
}

} // verus!

verus! {

/// Blocks decompose: the blocked total is at least the tracker, WebRTC and
/// IPv6 blocks together (the rest are refusals by the kill switch).
pub proof fn lemma_block_decomposition(s: ApiState)
    requires
        s.wf(),
    ensures
        s.stats.requests_blocked >= s.stats.trackers_blocked + s.stats.webrtc_blocked + s.stats.ipv6_blocked,
        s.stats.requests_blocked == s.stats.trackers_blocked + s.stats.webrtc_blocked + s.stats.ipv6_blocked
            + s.kill_switch_blocks,
{
}

/// The log ring never holds more than its capacity, and appending to a full
/// ring drops exactly its oldest entry.
pub proof fn lemma_log_bound(before: Seq<LogEntry>, after: Seq<LogEntry>, level: Seq<char>, category: Seq<char>)
    requires
        before.len() <= LOG_CAPACITY,
        appended(before, after, level, category),
    ensures
        after.len() <= LOG_CAPACITY,
        before.len() == LOG_CAPACITY ==> after.len() == LOG_CAPACITY
            && after.subrange(0, LOG_CAPACITY - 1) == before.subrange(1, LOG_CAPACITY as int),
        before.len() < LOG_CAPACITY ==> after.drop_last() == before,
{
    assert(after.len() == after.drop_last().len() + 1);
    if before.len() == LOG_CAPACITY {
        assert(after.subrange(0, LOG_CAPACITY - 1) =~= after.drop_last());
    }
}

/// Every pipeline update leaves each counter where it was or above it (for
/// statistics whose blocked total covers its parts, as the state's invariant keeps).
pub proof fn lemma_counters_monotone(s: Stats, u: StatsUpdate)
    requires
        s.trackers_blocked + s.webrtc_blocked + s.ipv6_blocked <= s.requests_blocked,
    ensures
        s.counters_le(applied(s, u)),
{
}

/// A new session starts with all six counters at zero.
pub proof fn lemma_session_reset(s: Stats)
    ensures
        session_started(s).counters_zero(),
        session_started(s).proxy_running,
        session_started(s).tor_connected,
{
}

/// Turning the kill switch to the same value twice leaves the kill switch and the
/// statistics as one call does.
pub proof fn lemma_kill_switch_idempotent(k: KillSwitch, s: Stats, x: bool)
    ensures
        kill_switch_set(kill_switch_set(k, x), x) == kill_switch_set(k, x),
        stats_with_kill_switch(stats_with_kill_switch(s, x), x) == stats_with_kill_switch(s, x),
{
}

/// A second request to connect asks for no second listener: it does nothing.
pub proof fn lemma_connect_twice(c: ConnectionState)
    ensures
        connection_step(connection_step(c, true).1, true).0 == ConnectionAction::Nothing,
        connection_step(connection_step(c, true).1, true).1 == connection_step(c, true).1,
        connection_step(c, true).0 == ConnectionAction::StartProxy ==> c == ConnectionState::Disconnected,
{
}

/// Connecting, disconnecting and connecting again starts a fresh session: the
/// third toggle asks for a new listener, whose start resets every counter.
/// (While shutting down, toggles do nothing.)
pub proof fn lemma_reconnect_fresh_session(c: ConnectionState, s: Stats)
    requires
        c != ConnectionState::Disconnecting,
    ensures
        connection_step(connection_step(c, true).1, false).0 == ConnectionAction::StopProxy,
        connection_step(connection_step(connection_step(c, true).1, false).1, true)
            == (ConnectionAction::StartProxy, ConnectionState::Connecting),
        session_started(s).counters_zero(),
{
}

} // verus!
