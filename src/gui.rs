//! The desktop view's copy of the counters.
use vstd::prelude::*;

verus! {

/// Counters and flags as the desktop view shows them.
#[derive(Clone, Copy, Debug, PartialEq, Eq, Structural)]
pub struct AppState {
    pub tor_connected: bool,
    pub kill_switch_active: bool,
    pub requests_blocked: u64,
    pub trackers_blocked: u64,
    pub webrtc_blocked: u64,
    pub ipv6_blocked: u64,
    pub total_requests: u64,
    pub proxy_running: bool,
    pub auto_proxy_enabled: bool,
}

impl AppState {
    pub fn increment_tracker(&mut self)
        ensures
            *final(self) == (AppState {
                trackers_blocked: old(self).trackers_blocked.saturating_add(1),
                requests_blocked: old(self).requests_blocked.saturating_add(1),
                ..*old(self)
            }),
    {
        self.trackers_blocked = self.trackers_blocked.saturating_add(1);
        self.requests_blocked = self.requests_blocked.saturating_add(1);
    }

    pub fn increment_webrtc(&mut self)
        ensures
            *final(self) == (AppState {
                webrtc_blocked: old(self).webrtc_blocked.saturating_add(1),
                requests_blocked: old(self).requests_blocked.saturating_add(1),
                ..*old(self)
            }),
    {
        self.webrtc_blocked = self.webrtc_blocked.saturating_add(1);
        self.requests_blocked = self.requests_blocked.saturating_add(1);
    }

    pub fn increment_ipv6(&mut self)
        ensures
            *final(self) == (AppState {
                ipv6_blocked: old(self).ipv6_blocked.saturating_add(1),
                requests_blocked: old(self).requests_blocked.saturating_add(1),
                ..*old(self)
            }),
    {
        self.ipv6_blocked = self.ipv6_blocked.saturating_add(1);
        self.requests_blocked = self.requests_blocked.saturating_add(1);
    }

    pub fn increment_request(&mut self)
        ensures
            *final(self) == (AppState { total_requests: old(self).total_requests.saturating_add(1), ..*old(self) }),
    {
        self.total_requests = self.total_requests.saturating_add(1);
    }
}

impl Default for AppState {
    fn default() -> (r: Self)
        ensures
            r == (AppState {
                tor_connected: false,
                kill_switch_active: true,
                requests_blocked: 0,
                trackers_blocked: 0,
                webrtc_blocked: 0,
                ipv6_blocked: 0,
                total_requests: 0,
                proxy_running: false,
                auto_proxy_enabled: false,
            }),
    {
        AppState {
            tor_connected: false,
            kill_switch_active: true,
            requests_blocked: 0,
            trackers_blocked: 0,
            webrtc_blocked: 0,
            ipv6_blocked: 0,
            total_requests: 0,
            proxy_running: false,
            auto_proxy_enabled: false,
        }
    }
}

} // verus!
