use privacy_suite::blocklist::{matches_tracker_pattern, TrackerBlocker, TRACKER_DOMAIN_COUNT};
use privacy_suite::ipv6_protection::Ipv6Protection;
use privacy_suite::webrtc_protection::WebRtcProtection;

#[test]
fn test_blocking() {
    let mut blocker = TrackerBlocker::new();

    assert!(blocker.should_block("google-analytics.com"));
    assert!(blocker.should_block("www.google-analytics.com"));
    assert!(blocker.should_block("stats.google-analytics.com"));

    assert!(!blocker.should_block("google.com"));
    assert!(!blocker.should_block("example.com"));
}

#[test]
fn test_blocks_ipv6_addresses() {
    let mut protection = Ipv6Protection::new(true);
    assert!(protection.should_block_ipv6("2001:db8::1"));
    assert!(protection.should_block_ipv6("::1"));
    assert!(protection.should_block_ipv6("fe80::1"));
}

#[test]
fn test_blocks_ipv6_brackets() {
    let mut protection = Ipv6Protection::new(true);
    assert!(protection.should_block_ipv6("[2001:db8::1]"));
}

#[test]
fn test_allows_ipv4() {
    let mut protection = Ipv6Protection::new(true);
    assert!(!protection.should_block_ipv6("192.168.1.1"));
    assert!(!protection.should_block_ipv6("8.8.8.8"));
}

#[test]
fn test_allows_domains() {
    let mut protection = Ipv6Protection::new(true);
    assert!(!protection.should_block_ipv6("example.com"));
    assert!(!protection.should_block_ipv6("google.com"));
}

#[test]
fn test_blocks_stun_servers() {
    let protection = WebRtcProtection::new(true);
    assert!(protection.should_block_request("stun.l.google.com", 3478));
    assert!(protection.should_block_request("stun1.l.google.com", 19302));
}

#[test]
fn test_blocks_direct_ips() {
    let protection = WebRtcProtection::new(true);
    assert!(protection.should_block_request("192.168.1.1", 443));
    assert!(protection.should_block_request("8.8.8.8", 53));
}

#[test]
fn test_allows_normal_domains() {
    let protection = WebRtcProtection::new(true);
    assert!(!protection.should_block_request("example.com", 443));
    assert!(!protection.should_block_request("google.com", 443));
}

#[test]
fn tracker_count_only_counts_blocks() {
    let mut blocker = TrackerBlocker::new();
    assert_eq!(blocker.blocklist_size(), TRACKER_DOMAIN_COUNT);
    assert_eq!(blocker.blocklist_size(), 74);
    assert!(blocker.should_block("doubleclick.net"));
    assert!(!blocker.should_block("example.org"));
    assert!(blocker.should_block("a.b.quantserve.com"));
    assert_eq!(blocker.total_blocked(), 2);
}

#[test]
fn tracker_suffix_must_start_at_a_label() {
    let mut blocker = TrackerBlocker::new();
    // "notfbcdn.net" ends with "fbcdn.net" but not at a label boundary.
    assert!(!blocker.should_block("notfbcdn.net"));
    assert!(blocker.should_block("x.fbcdn.net"));
}

#[test]
fn tracker_heuristics_read_the_lowercased_host() {
    let mut blocker = TrackerBlocker::new();
    assert!(blocker.should_block("Cdn.ANALYTICS.example"));
    assert!(blocker.should_block("PIXEL.example"));
    assert!(blocker.should_block("my-tracking-host.org"));
    assert!(matches_tracker_pattern("doubleclick"));
    assert!(!matches_tracker_pattern("DOUBLECLICK"));
    assert!(!matches_tracker_pattern(""));
}

#[test]
fn disabled_filters_block_nothing() {
    let mut v6 = Ipv6Protection::new(false);
    assert!(!v6.should_block_ipv6("::1"));
    assert_eq!(v6.get_blocked_count(), 0);
    assert!(!v6.is_enabled());
    let rtc = WebRtcProtection::new(false);
    assert!(!rtc.should_block_request("stun.l.google.com", 3478));
    assert!(rtc.get_protection_headers().is_empty());
}

#[test]
fn ipv6_blocks_are_counted() {
    let mut v6 = Ipv6Protection::new(true);
    assert!(v6.should_block_ipv6("::1"));
    assert!(!v6.should_block_ipv6("[nocolon]"));
    assert!(!v6.should_block_ipv6(""));
    assert!(v6.should_block_ipv6("[a:b"));
    assert_eq!(v6.get_blocked_count(), 2);
    assert!(Ipv6Protection::disable_system_ipv6().is_ok());
}

#[test]
fn webrtc_blocks_stun_substrings_and_headers() {
    let rtc = WebRtcProtection::new(true);
    assert!(rtc.should_block_request("eu.global.stun.twilio.com", 443));
    assert!(rtc.should_block_request("::1", 443));
    assert!(!rtc.should_block_request("stun.example.com", 3478));
    let h = rtc.get_protection_headers();
    assert_eq!(h.len(), 2);
    assert_eq!(h[0].0, "Permissions-Policy");
    assert_eq!(h[0].1, "camera=(), microphone=(), geolocation=()");
    assert_eq!(h[1].0, "X-WebRTC-Block");
    assert_eq!(h[1].1, "true");
}
