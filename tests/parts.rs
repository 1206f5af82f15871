use privacy_suite::blockchain::{BlockchainPayment, NodeRegistryContract};
use privacy_suite::config::Config;
use privacy_suite::crypto::{generate_keypair, CryptoLayer};
use privacy_suite::fingerprint::{BrowserFingerprint, CanvasProtection, Nudge, CANVAS_GUARD_SCRIPT};
use privacy_suite::gui::AppState;
use privacy_suite::system_proxy::SystemProxy;

#[test]
fn config_defaults() {
    let c = Config::default();
    assert_eq!(c.proxy_addr(), "0.0.0.0:8888");
    assert_eq!(c.num_hops, 3);
    assert_eq!(c.dns_servers, vec!["1.1.1.1:853".to_string(), "8.8.8.8:853".to_string()]);
    assert!(c.fingerprint_protection);
    assert_eq!(c.config_path(), "");
    let p = Config::default_with_path("/tmp/x/config.toml".to_string());
    assert_eq!(p.config_path(), "/tmp/x/config.toml");
}

#[test]
fn fingerprints_come_from_the_catalogs() {
    for _ in 0..20 {
        let f = BrowserFingerprint::random();
        assert!(f.user_agent.starts_with("Mozilla/5.0 ("));
        assert!(["en-US,en;q=0.9", "en-GB,en;q=0.9", "en-US,en;q=0.5"].contains(&f.accept_language.as_str()));
        assert_eq!(f.accept_encoding, "gzip, deflate, br");
        assert!(["1920x1080", "2560x1440", "1366x768", "1536x864", "3840x2160"].contains(&f.screen_resolution.as_str()));
        let h = f.header_pairs();
        assert_eq!(h[0], ("User-Agent", f.user_agent.clone()));
        assert_eq!(h[2], ("Accept-Encoding", "gzip, deflate, br".to_string()));
    }
}

#[test]
fn canvas_noise_touches_only_every_fourth_byte() {
    let before: Vec<u8> = (0..4000u32).map(|i| (i % 251) as u8).collect();
    let mut data = before.clone();
    CanvasProtection::add_noise(&mut data);
    assert_eq!(data.len(), before.len());
    for i in 0..data.len() {
        if i % 4 != 0 {
            assert_eq!(data[i], before[i]);
        } else {
            assert!(data[i].abs_diff(before[i]) <= 1);
        }
    }
    let on = CanvasProtection::new(true);
    assert_eq!(on.get_injection_script().as_deref(), Some(CANVAS_GUARD_SCRIPT));
    assert!(CANVAS_GUARD_SCRIPT.contains("<script>"));
    assert_eq!(CanvasProtection::new(false).get_injection_script(), None);
}

#[test]
fn onion_layers_round_trip() {
    let c = CryptoLayer::new();
    let one = c.build_onion_layers("GET", "http://example.com/", 1).unwrap();
    assert_eq!(one.len(), "GET::http://example.com/".len() + 12 + 16);
    assert_eq!(c.decrypt_layer(&one).unwrap(), b"GET::http://example.com/".to_vec());
    let three = c.build_onion_layers("GET", "/", 3).unwrap();
    assert_eq!(three.len(), 6 + 3 * 28);
    let two = c.decrypt_layer(&three).unwrap();
    assert_eq!(two.len(), 6 + 2 * 28);
    assert!(c.decrypt_layer(b"short").is_err());
    let mut tampered = one.clone();
    tampered[20] ^= 1;
    assert!(c.decrypt_layer(&tampered).is_err());
    let other = CryptoLayer::new();
    assert!(other.decrypt_layer(&one).is_err());
    let (_secret, public) = generate_keypair();
    assert_eq!(public.as_bytes().len(), 32);
}

#[test]
fn placeholders() {
    let p = BlockchainPayment::new(Config::default().blockchain);
    assert_eq!(p.pay_node("node", 5).unwrap(), "0x1234567890abcdef");
    assert!(p.verify_node_payment("0x1").unwrap());
    assert_eq!(p.claim_rewards().unwrap(), 0);
    let r = NodeRegistryContract::new("0xabc".to_string());
    assert_eq!(r.register_node("n", 1).unwrap(), "0xtxhash");
    assert!(r.get_active_nodes().unwrap().is_empty());
}

#[test]
fn desktop_counters() {
    let mut s = AppState::default();
    assert!(s.kill_switch_active);
    s.increment_tracker();
    s.increment_webrtc();
    s.increment_ipv6();
    s.increment_request();
    assert_eq!((s.requests_blocked, s.trackers_blocked, s.webrtc_blocked, s.ipv6_blocked, s.total_requests), (3, 1, 1, 1, 1));
}

#[test]
fn system_proxy_restores_nothing_when_unchanged() {
    let sp = SystemProxy::new();
    let r = sp.disable();
    assert!(!r.enabled);
    assert_eq!(r.server, "");
}

#[test]
fn fingerprint_from_choices_is_exact() {
    let f = BrowserFingerprint::from_choices(2, 1, 4, 3);
    assert_eq!(f.user_agent, "Mozilla/5.0 (X11; Linux x86_64) AppleWebKit/537.36 (KHTML, like Gecko) Chrome/120.0.0.0 Safari/537.36");
    assert_eq!(f.accept_language, "en-GB,en;q=0.9");
    assert_eq!(f.screen_resolution, "3840x2160");
    assert_eq!(f.timezone, "Europe/Paris");
    assert_eq!(f.webgl_vendor, "Google Inc. (NVIDIA)");
}

#[test]
fn canvas_nudges_are_exact() {
    let mut data = vec![10u8, 20, 30, 40, 0, 1, 2, 3, 255, 9];
    let nudges = [Nudge::Up, Nudge::Up, Nudge::Up, Nudge::Up, Nudge::Down, Nudge::Down, Nudge::Keep, Nudge::Keep, Nudge::Up, Nudge::Down];
    CanvasProtection::apply_noise(&mut data, &nudges);
    assert_eq!(data, vec![11u8, 20, 30, 40, 0, 1, 2, 3, 255, 9]);
    let mut data = vec![5u8, 5, 5, 5, 5];
    CanvasProtection::apply_noise(&mut data, &[Nudge::Down, Nudge::Up, Nudge::Up, Nudge::Up, Nudge::Keep]);
    assert_eq!(data, vec![4u8, 5, 5, 5, 5]);
}
