use privacy_suite::config::Config;
use privacy_suite::proxy::{classify_request, parse_connect_target, parse_port, RequestKind, CONNECT_ESTABLISHED};
use privacy_suite::routing::{threat_rules, ConnectDecision, RequestInfo, RouteDecision, Router, UNENCRYPTED_RULE};
use privacy_suite::tor_network::{build_http_request, response_body, target_port};
use privacy_suite::web_api::{ApiState, ConnectionAction};

fn connected_state() -> ApiState {
    let mut state = ApiState::new(Config::default());
    assert_eq!(state.toggle_connection(true, None), ConnectionAction::StartProxy);
    assert!(state.proxy_started(100));
    state
}

fn get(host: &str, path: &str, query: &str) -> RequestInfo {
    RequestInfo {
        method: "GET".to_string(),
        uri: format!("http://{}{}{}", host, path, query),
        host: Some(host.to_string()),
        path: path.to_string(),
        path_and_query: format!("{}{}", path, query),
        port: None,
        https: false,
    }
}

fn reply(d: RouteDecision) -> (u16, String) {
    match d {
        RouteDecision::Reply(r) => (r.status, r.body),
        RouteDecision::Forward { .. } => panic!("expected a reply"),
    }
}

#[test]
fn tracker_block_scenario() {
    let mut state = connected_state();
    let mut router = Router::new(Config::default());
    let d = router.route_request(&mut state, &get("google-analytics.com", "/collect", "?x=1"));
    assert_eq!(reply(d), (403, "Tracker blocked by Privacy Suite".to_string()));
    assert_eq!(state.stats.trackers_blocked, 1);
    assert_eq!(state.stats.requests_blocked, 1);
    assert_eq!(state.stats.total_requests, 1);
    let network: Vec<_> = state.logs.iter().filter(|e| e.category == "network").collect();
    assert!(network.iter().any(|e| e.level == "info" && e.message == "google-analytics.com/collect"));
    let last = state.logs.last().unwrap();
    assert_eq!((last.level.as_str(), last.category.as_str()), ("warn", "tracker"));
}

#[test]
fn subdomain_absorption_scenario() {
    let mut state = connected_state();
    let mut router = Router::new(Config::default());
    let d = router.route_request(&mut state, &get("www.google-analytics.com", "/collect", "?x=1"));
    assert_eq!(reply(d), (403, "Tracker blocked by Privacy Suite".to_string()));
    assert_eq!(state.stats.trackers_blocked, 1);
    assert_eq!(state.stats.requests_blocked, 1);
    assert_eq!(state.stats.total_requests, 1);
    let last = state.logs.last().unwrap();
    assert_eq!((last.level.as_str(), last.category.as_str()), ("warn", "tracker"));
}

#[test]
fn ipv6_connect_scenario() {
    let mut state = connected_state();
    let mut router = Router::new(Config::default());
    let d = router.route_connect(&mut state, "CONNECT [2001:db8::1]:443 HTTP/1.1\r\n\r\n");
    match d {
        ConnectDecision::Refuse(r) => {
            assert_eq!(r.status, 403);
            assert_eq!(r.body, "IPv6 blocked for privacy protection");
        },
        _ => panic!("expected a refusal"),
    }
    assert_eq!(state.stats.ipv6_blocked, 1);
    let last = state.logs.last().unwrap();
    assert_eq!((last.level.as_str(), last.category.as_str()), ("warn", "ipv6"));
    let details = last.details.as_ref().unwrap();
    assert_eq!(details.threat_type.as_deref(), Some("IPv6 Leak Attempt"));
}

#[test]
fn stun_connect_scenario() {
    let mut state = connected_state();
    let mut router = Router::new(Config::default());
    let d = router.route_connect(&mut state, "CONNECT stun.l.google.com:3478 HTTP/1.1\r\n\r\n");
    assert!(matches!(d, ConnectDecision::Refuse(_)));
    assert_eq!(state.stats.webrtc_blocked, 1);
    assert_eq!(state.stats.requests_blocked, 1);
}

#[test]
fn kill_switch_deny_scenario() {
    let mut state = ApiState::new(Config::default());
    assert!(state.kill_switch.kill_switch_active && !state.kill_switch.tor_connected);
    let mut router = Router::new(Config::default());
    let (status, body) = reply(router.route_request(&mut state, &get("example.com", "/", "")));
    assert_eq!(status, 503);
    assert!(body.starts_with("Service unavailable"));
    assert_eq!(state.stats.requests_blocked, 1);
    assert_eq!(state.stats.security_threats_detected, 1);
    assert_eq!(state.stats.total_requests, 0);
    let d = router.route_connect(&mut state, "CONNECT example.com:443 HTTP/1.1\r\n\r\n");
    assert!(matches!(d, ConnectDecision::Drop));
    assert_eq!(state.stats.requests_blocked, 2);
    assert_eq!(state.kill_switch.blocked_requests, 2);
}

#[test]
fn connect_happy_path_scenario() {
    let mut state = connected_state();
    let mut router = Router::new(Config::default());
    match router.route_connect(&mut state, "CONNECT example.com:443 HTTP/1.1\r\nHost: example.com\r\n\r\n") {
        ConnectDecision::Tunnel { host, port } => {
            assert_eq!(host, "example.com");
            assert_eq!(port, 443);
        },
        _ => panic!("expected a tunnel"),
    }
    assert_eq!(CONNECT_ESTABLISHED, "HTTP/1.1 200 Connection Established\r\n\r\n");
    assert_eq!(state.stats.total_requests, 1);
    assert_eq!(state.stats.requests_blocked, 0);
}

#[test]
fn allowed_request_is_forwarded_with_the_fingerprint() {
    let mut state = connected_state();
    let mut router = Router::new(Config::default());
    match router.route_request(&mut state, &get("example.com", "/index.html", "?a=b")) {
        RouteDecision::Forward { host, port, request } => {
            assert_eq!(host, "example.com");
            assert_eq!(port, 80);
            let expected = build_http_request("GET", "/index.html?a=b", "example.com", &router.fingerprint);
            assert_eq!(request, expected);
            assert!(request.starts_with("GET /index.html?a=b HTTP/1.1\r\nHost: example.com\r\nUser-Agent: "));
            assert!(request.ends_with("\r\nConnection: close\r\n\r\n"));
        },
        _ => panic!("expected a forward"),
    }
    assert_eq!(state.stats.total_requests, 1);
}

#[test]
fn request_without_host_is_an_upstream_failure() {
    let mut state = connected_state();
    let mut router = Router::new(Config::default());
    let mut req = get("example.com", "/", "");
    req.host = None;
    let (status, body) = reply(router.route_request(&mut state, &req));
    assert_eq!(status, 502);
    assert_eq!(body, "Error processing request");
}

#[test]
fn threats_are_tagged_without_blocking() {
    let mut state = connected_state();
    let mut router = Router::new(Config::default());
    // "/login?password=x&token=y": password, token; the host has no pattern.
    let d = router.route_request(&mut state, &get("example.com", "/login-password-token", ""));
    assert!(matches!(d, RouteDecision::Forward { .. }));
    assert_eq!(state.stats.security_threats_detected, 2);
    assert_eq!(state.stats.requests_blocked, 0);
}

#[test]
fn threat_rules_exact() {
    assert_eq!(threat_rules("/collect", "google-analytics.com", "google-analytics.com"), vec![11, 19]);
    assert_eq!(threat_rules("/", "example.com", "http://example.com"), vec![UNENCRYPTED_RULE]);
    assert_eq!(threat_rules("/access_token", "stats.adserver.net", "x"), vec![4, 5, 21, 24]);
    assert!(threat_rules("/", "example.com", "example.com").is_empty());
}

#[test]
fn classify_first_bytes() {
    assert_eq!(classify_request(""), None);
    assert_eq!(classify_request("CONNECT a:1 HTTP/1.1"), Some(RequestKind::Connect));
    assert_eq!(classify_request("CONNECTa:1"), Some(RequestKind::Http));
    assert_eq!(classify_request("GET / HTTP/1.1"), Some(RequestKind::Http));
}

#[test]
fn connect_targets() {
    assert_eq!(parse_connect_target("CONNECT example.com:443 HTTP/1.1"), Some(("example.com".to_string(), 443)));
    assert_eq!(parse_connect_target("CONNECT  \t host:+80\r\nx"), Some(("host".to_string(), 80)));
    assert_eq!(parse_connect_target("CONNECT [::1]:8080 HTTP/1.1"), Some(("[::1]".to_string(), 8080)));
    assert_eq!(parse_connect_target("CONNECT a:b:443 HTTP/1.1"), None);
    assert_eq!(parse_connect_target("CONNECT example.com HTTP/1.1"), None);
    assert_eq!(parse_connect_target("CONNECT example.com:65536 HTTP/1.1"), None);
    assert_eq!(parse_connect_target("CONNECT :443 HTTP/1.1"), None);
    assert_eq!(parse_connect_target("CONNECT\n example.com:443"), None);
    assert_eq!(parse_connect_target(""), None);
}

#[test]
fn port_numbers() {
    let chars = |s: &str| s.chars().collect::<Vec<char>>();
    assert_eq!(parse_port(&chars("65535")), Some(65535));
    assert_eq!(parse_port(&chars("0443")), Some(443));
    assert_eq!(parse_port(&chars("+1")), Some(1));
    assert_eq!(parse_port(&chars("+")), None);
    assert_eq!(parse_port(&chars("")), None);
    assert_eq!(parse_port(&chars("99999")), None);
    assert_eq!(parse_port(&chars("1x")), None);
}

#[test]
fn response_bodies() {
    assert_eq!(response_body(b"HTTP/1.1 200 OK\r\nA: b\r\n\r\nhello\r\n\r\nworld"), Some(b"hello\r\n\r\nworld".to_vec()));
    assert_eq!(response_body(b"no headers here"), None);
    assert_eq!(response_body(b"HTTP/1.1 200 OK\r\n\r"), None);
    assert_eq!(response_body(b"\r\n\r\n"), Some(Vec::<u8>::new()));
    assert_eq!(response_body(b""), None);
}

#[test]
fn ports_default_by_scheme() {
    assert_eq!(target_port(None, true), 443);
    assert_eq!(target_port(None, false), 80);
    assert_eq!(target_port(Some(8080), true), 8080);
}

#[test]
fn threat_tagging_reads_lowercased_text() {
    let mut state = connected_state();
    let mut router = Router::new(Config::default());
    let d = router.route_request(&mut state, &get("Example.com", "/Login/PASSWORD", ""));
    assert!(matches!(d, RouteDecision::Forward { .. }));
    assert_eq!(state.stats.security_threats_detected, 1);
    let last = state.logs.last().unwrap();
    assert_eq!((last.level.as_str(), last.category.as_str()), ("error", "security"));
    assert_eq!(last.details.as_ref().unwrap().threat_type.as_deref(), Some("Password in URL"));
}

#[test]
fn request_log_sequence_is_network_threats_then_block() {
    let mut state = connected_state();
    let before = state.logs.len();
    let mut router = Router::new(Config::default());
    router.route_request(&mut state, &get("google-analytics.com", "/collect", "?x=1"));
    let new: Vec<_> = state.logs[before..].iter().map(|e| (e.level.as_str(), e.category.as_str())).collect();
    // network entry, two threat findings (/collect, analytics), then the tracker refusal
    assert_eq!(new, vec![("info", "network"), ("warn", "security"), ("info", "security"), ("warn", "tracker")]);
    let last = state.logs.last().unwrap().details.as_ref().unwrap();
    assert_eq!(last.domain.as_deref(), Some("google-analytics.com"));
    assert_eq!(last.threat_type.as_deref(), Some("Known Tracker"));
    let threats: Vec<_> = state.logs[before + 1..before + 3]
        .iter()
        .map(|e| e.details.as_ref().unwrap().threat_type.clone().unwrap())
        .collect();
    assert_eq!(threats, vec!["Data collection endpoint".to_string(), "Analytics service".to_string()]);
}

#[test]
fn connect_log_sequence() {
    let mut state = connected_state();
    let mut router = Router::new(Config::default());
    let before = state.logs.len();
    router.route_connect(&mut state, "CONNECT [2001:db8::1]:443 HTTP/1.1\r\n\r\n");
    let new: Vec<_> = state.logs[before..].iter().map(|e| (e.level.as_str(), e.category.as_str())).collect();
    assert_eq!(new, vec![("info", "network"), ("warn", "ipv6")]);
    let before = state.logs.len();
    router.route_connect(&mut state, "CONNECT example.com:443 HTTP/1.1\r\n\r\n");
    let new: Vec<_> = state.logs[before..].iter().map(|e| (e.level.as_str(), e.category.as_str())).collect();
    assert_eq!(new, vec![("info", "network"), ("info", "network")]);
}

#[test]
fn kill_switch_refusal_counts_in_the_switch_too() {
    let mut state = ApiState::new(Config::default());
    let mut router = Router::new(Config::default());
    router.route_request(&mut state, &get("example.com", "/", ""));
    assert_eq!(state.kill_switch.blocked_requests, 1);
    let last = state.logs.last().unwrap();
    assert_eq!((last.level.as_str(), last.category.as_str()), ("error", "security"));
}
