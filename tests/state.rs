use privacy_suite::config::Config;
use privacy_suite::kill_switch::KillSwitch;
use privacy_suite::routing::{RequestInfo, Router};
use privacy_suite::system_proxy::ProxySettings;
use privacy_suite::web_api::{
    country_display_name, exit_country_label, ApiState, ConnectionAction, ConnectionState, Stats,
    StatsUpdate, LOG_CAPACITY,
};

fn counters(s: &Stats) -> [u64; 6] {
    [
        s.total_requests,
        s.requests_blocked,
        s.trackers_blocked,
        s.webrtc_blocked,
        s.ipv6_blocked,
        s.security_threats_detected,
    ]
}

fn get(host: &str, path: &str) -> RequestInfo {
    RequestInfo {
        method: "GET".to_string(),
        uri: format!("http://{}{}", host, path),
        host: Some(host.to_string()),
        path: path.to_string(),
        path_and_query: path.to_string(),
        port: None,
        https: false,
    }
}

fn connected() -> ApiState {
    let mut state = ApiState::new(Config::default());
    state.toggle_connection(true, None);
    assert!(state.proxy_started(10));
    state
}

#[test]
fn counters_never_decrease_in_a_session() {
    let mut state = connected();
    let mut router = Router::new(Config::default());
    let mut last = counters(&state.stats);
    let requests = [
        ("google-analytics.com", "/collect"),
        ("::1", "/"),
        ("8.8.8.8", "/"),
        ("example.com", "/password"),
        ("example.com", "/"),
    ];
    for (h, p) in requests.iter() {
        router.route_request(&mut state, &get(h, p));
        let now = counters(&state.stats);
        for i in 0..6 {
            assert!(now[i] >= last[i]);
        }
        last = now;
    }
    state.toggle_kill_switch(false);
    state.change_exit_country(Some("de".to_string()));
    let now = counters(&state.stats);
    assert_eq!(now, last);
}

#[test]
fn blocked_total_covers_its_parts() {
    let mut state = connected();
    let mut router = Router::new(Config::default());
    router.route_request(&mut state, &get("doubleclick.net", "/"));
    router.route_request(&mut state, &get("[::1]", "/"));
    router.route_connect(&mut state, "CONNECT stun2.l.google.com:19302 HTTP/1.1");
    state.update_stats(StatsUpdate::KillSwitchBlocked);
    let s = &state.stats;
    assert_eq!((s.trackers_blocked, s.ipv6_blocked, s.webrtc_blocked), (1, 1, 1));
    assert_eq!(s.requests_blocked, 4);
    assert!(s.requests_blocked >= s.trackers_blocked + s.webrtc_blocked + s.ipv6_blocked);
}

#[test]
fn filters_run_in_order() {
    let mut state = connected();
    let mut router = Router::new(Config::default());
    // An IPv6 literal is also a direct IP, but the IPv6 check comes first.
    router.route_request(&mut state, &get("::1", "/"));
    assert_eq!((state.stats.ipv6_blocked, state.stats.webrtc_blocked), (1, 0));
    // A STUN host carrying a tracker word is refused as WebRTC.
    router.route_request(&mut state, &get("stun.l.google.com.analytics.example", "/"));
    assert_eq!((state.stats.webrtc_blocked, state.stats.trackers_blocked), (1, 0));
    // With the kill switch refusing, no filter is consulted.
    state.toggle_connection(false, None);
    router.route_request(&mut state, &get("::1", "/"));
    assert_eq!(state.stats.ipv6_blocked, 1);
    assert_eq!(state.stats.requests_blocked, 3);
}

#[test]
fn one_fingerprint_per_session() {
    let mut state = connected();
    let mut router = Router::new(Config::default());
    let mut lines = Vec::new();
    for h in ["example.com", "example.org"].iter() {
        match router.route_request(&mut state, &get(h, "/")) {
            privacy_suite::routing::RouteDecision::Forward { request, .. } => {
                let ua: Vec<String> = request
                    .split("\r\n")
                    .filter(|l| l.starts_with("User-Agent:") || l.starts_with("Accept-Language:") || l.starts_with("Accept-Encoding:"))
                    .map(|l| l.to_string())
                    .collect();
                assert_eq!(ua.len(), 3);
                lines.push(ua);
            },
            _ => panic!("expected a forward"),
        }
    }
    assert_eq!(lines[0], lines[1]);
}

#[test]
fn log_ring_keeps_the_newest() {
    let mut state = ApiState::new(Config::default());
    for i in 0..(LOG_CAPACITY + 5) {
        state.add_log("info", format!("entry {}", i), "general");
        assert!(state.logs.len() <= LOG_CAPACITY);
    }
    assert_eq!(state.logs.len(), 2000);
    assert_eq!(state.logs[0].message, "entry 5");
    assert_eq!(state.logs[1999].message, "entry 2004");
    assert_eq!(state.logs[1999].timestamp.len(), 12);
}

#[test]
fn session_reset_on_reconnect() {
    let mut state = connected();
    let mut router = Router::new(Config::default());
    router.route_request(&mut state, &get("google-analytics.com", "/"));
    assert!(state.stats.requests_blocked > 0);
    assert_eq!(state.toggle_connection(false, None), ConnectionAction::StopProxy);
    assert_eq!(state.connection, ConnectionState::Disconnected);
    assert_eq!(state.get_stats(500).uptime_seconds, 0);
    assert_eq!(state.toggle_connection(true, None), ConnectionAction::StartProxy);
    assert!(state.proxy_started(1000));
    let s = state.get_stats(1000);
    assert_eq!(counters(&s), [0; 6]);
    assert_eq!(s.uptime_seconds, 0);
    assert_eq!(state.get_stats(1042).uptime_seconds, 42);
    assert!(s.proxy_running && s.tor_connected);
}

#[test]
fn kill_switch_toggle_is_idempotent() {
    let mut state = ApiState::new(Config::default());
    state.toggle_kill_switch(false);
    let once = (state.kill_switch, state.stats.copy());
    state.toggle_kill_switch(false);
    assert_eq!(state.kill_switch, once.0);
    assert_eq!(counters(&state.stats), counters(&once.1));
    assert_eq!(state.stats.kill_switch_active, once.1.kill_switch_active);
    assert!(!state.kill_switch.kill_switch_active);
}

#[test]
fn connecting_twice_starts_one_listener() {
    let mut state = ApiState::new(Config::default());
    assert_eq!(state.toggle_connection(true, None), ConnectionAction::StartProxy);
    let logs = state.logs.len();
    assert_eq!(state.toggle_connection(true, None), ConnectionAction::Nothing);
    assert_eq!(state.connection, ConnectionState::Connecting);
    assert_eq!(state.logs.len(), logs + 1);
    let last = state.logs.last().unwrap();
    assert_eq!((last.level.as_str(), last.category.as_str()), ("warn", "general"));
    assert!(state.proxy_started(5));
    assert_eq!(state.toggle_connection(true, None), ConnectionAction::Nothing);
    assert!(!state.proxy_started(6));
}

#[test]
fn connect_disconnect_connect_is_a_fresh_session() {
    let mut state = ApiState::new(Config::default());
    assert_eq!(state.toggle_connection(true, Some("us".to_string())), ConnectionAction::StartProxy);
    assert_eq!(state.toggle_connection(false, None), ConnectionAction::StopProxy);
    assert_eq!(state.toggle_connection(true, None), ConnectionAction::StartProxy);
    assert!(state.proxy_started(7));
    assert_eq!(counters(&state.stats), [0; 6]);
    assert_eq!(state.toggle_connection(false, None), ConnectionAction::StopProxy);
    assert_eq!(state.toggle_connection(false, None), ConnectionAction::Nothing);
}

#[test]
fn exit_country_names() {
    assert_eq!(country_display_name("us"), "United States 🇺🇸");
    assert_eq!(country_display_name("jp"), "Japan 🇯🇵");
    assert_eq!(country_display_name("xx"), "xx");
    assert_eq!(exit_country_label(&None), "Auto (Random)");
    let mut state = ApiState::new(Config::default());
    state.change_exit_country(Some("de".to_string()));
    assert_eq!(state.stats.exit_country.as_deref(), Some("de"));
    assert_eq!(state.logs.last().unwrap().message, "Exit location changed to: Germany 🇩🇪");
}

#[test]
fn filtered_logs() {
    let mut state = ApiState::new(Config::default());
    state.add_log("info", "a".to_string(), "general");
    state.add_log("warn", "b".to_string(), "tracker");
    state.add_log("info", "c".to_string(), "tracker");
    let t = state.get_filtered_logs(Some("tracker".to_string()), None);
    assert_eq!(t.iter().map(|e| e.message.as_str()).collect::<Vec<_>>(), vec!["b", "c"]);
    let i = state.get_filtered_logs(None, Some("info".to_string()));
    assert_eq!(i.iter().map(|e| e.message.as_str()).collect::<Vec<_>>(), vec!["a", "c"]);
    let both = state.get_filtered_logs(Some("tracker".to_string()), Some("warn".to_string()));
    assert_eq!(both.len(), 1);
    assert_eq!(state.get_logs().len(), 3);
}

#[test]
fn shutdown_turns_the_kill_switch_off_first() {
    let mut state = connected();
    let current = ProxySettings { enabled: true, server: "10.0.0.1:3128".to_string() };
    let applied = state.system_proxy.enable(current, "0.0.0.0:8888");
    assert!(applied.enabled);
    assert_eq!(applied.server, "0.0.0.0:8888");
    state.record_system_proxy(true, Ok(()));
    assert!(state.stats.auto_proxy_enabled);
    let plan = state.shutdown();
    assert!(!state.kill_switch.kill_switch_active);
    assert!(plan.abort_listener);
    assert!(plan.restore_system_proxy.enabled);
    assert_eq!(plan.restore_system_proxy.server, "10.0.0.1:3128");
    assert_eq!(state.connection, ConnectionState::Disconnecting);
    assert_eq!(state.toggle_connection(true, None), ConnectionAction::Nothing);
}

#[test]
fn failed_and_stopped_proxies() {
    let mut state = ApiState::new(Config::default());
    state.toggle_connection(true, None);
    state.proxy_failed("bind refused".to_string());
    assert_eq!(state.connection, ConnectionState::Disconnected);
    assert!(!state.stats.tor_connected && !state.stats.proxy_running && !state.kill_switch.tor_connected);
    assert_eq!(state.logs.last().unwrap().message, "Failed to start proxy: bind refused");
    state.record_system_proxy(true, Err("denied".to_string()));
    assert!(!state.stats.auto_proxy_enabled);
    state.toggle_connection(true, None);
    state.proxy_started(3);
    state.proxy_stopped();
    assert_eq!(state.connection, ConnectionState::Disconnected);
    assert!(!state.stats.proxy_running && !state.kill_switch.tor_connected);
}

#[test]
fn kill_switch_gate() {
    let mut k = KillSwitch::new();
    assert!(!k.should_allow_traffic());
    assert_eq!(k.get_stats().blocked_requests, 1);
    k.set_tor_status(true);
    assert!(k.should_allow_traffic());
    assert!(k.is_tor_connected());
    k.set_tor_status(false);
    k.set_enabled(false);
    assert!(k.should_allow_traffic());
    assert_eq!(k.get_stats().blocked_requests, 1);
    assert_eq!(KillSwitch::default(), KillSwitch::new());
}
