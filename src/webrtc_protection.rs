//! WebRTC leak protection: refuses STUN/TURN servers and direct IP connections.
use vstd::prelude::*;
use crate::addr::{classify_ip_literal, ip_literal_of, IpLiteral};
use crate::text::{contains, str_contains};

verus! {

/// Number of well-known STUN servers that are refused.
pub const STUN_SERVER_COUNT: usize = 11;

/// The `i`-th well-known STUN server.
pub open spec fn stun_server(i: int) -> Seq<char> {
    if i == 0 {
        "stun.l.google.com"@
    } else if i == 1 {
        "stun1.l.google.com"@
    } else if i == 2 {
        "stun2.l.google.com"@
    } else if i == 3 {
        "stun3.l.google.com"@
    } else if i == 4 {
        "stun4.l.google.com"@
    } else if i == 5 {
        "stun.cloudflare.com"@
    } else if i == 6 {
        "stun.services.mozilla.com"@
    } else if i == 7 {
        "stun.stunprotocol.org"@
    } else if i == 8 {
        "stun.voip.blackberry.com"@
    } else if i == 9 {
        "stun.voipbuster.com"@
    } else {
        "global.stun.twilio.com"@
    }
}

fn stun_server_at(i: usize) -> (r: &'static str)
    requires
        i < STUN_SERVER_COUNT,
    ensures
        r@ == stun_server(i as int),
{
    match i {
        0 => "stun.l.google.com",
        1 => "stun1.l.google.com",
        2 => "stun2.l.google.com",
        3 => "stun3.l.google.com",
        4 => "stun4.l.google.com",
        5 => "stun.cloudflare.com",
        6 => "stun.services.mozilla.com",
        7 => "stun.stunprotocol.org",
        8 => "stun.voip.blackberry.com",
        9 => "stun.voipbuster.com",
        _ => "global.stun.twilio.com",
    }
}

/// `host` names a known STUN server somewhere in it.
pub open spec fn mentions_stun_server(host: Seq<char>) -> bool {
    exists|i: int| 0 <= i < STUN_SERVER_COUNT && #[trigger] contains(host, stun_server(i))
}

/// `host` is a STUN server or an IP address literal of either version.
pub open spec fn is_webrtc_host(host: Seq<char>) -> bool {
    mentions_stun_server(host) || ip_literal_of(host) != IpLiteral::NotAnAddress
}

/// Refuses the hosts that WebRTC uses to learn or expose the real address.
#[derive(Clone, Copy, Debug)]
pub struct WebRtcProtection {
    pub enabled: bool,
}

impl WebRtcProtection {
    pub open spec fn blocks(&self, host: Seq<char>) -> bool {
        self.enabled && is_webrtc_host(host)
    }

    pub fn new(enabled: bool) -> (r: Self)
        ensures
            r.enabled == enabled,
    {
        WebRtcProtection { enabled }
    }

    /// Whether a connection to `host` is refused. The port plays no part.
    pub fn should_block_request(&self, host: &str, port: u16) -> (r: bool)
        ensures
            r == self.blocks(host@),
    {
        if !self.enabled {
            return false;
        }
        let mut i: usize = 0;
        while i < STUN_SERVER_COUNT
            invariant
                self.enabled,
                forall|k: int| 0 <= k < i ==> !contains(host@, #[trigger] stun_server(k)),
            decreases STUN_SERVER_COUNT - i,
        {
            if str_contains(host, stun_server_at(i)) {
                assert(contains(host@, stun_server(i as int)));
                return true;
            }
            i = i + 1;
        }
        classify_ip_literal(host) != IpLiteral::NotAnAddress
    }

    /// Response headers that ask the browser to keep WebRTC devices off.
    pub fn get_protection_headers(&self) -> (r: Vec<(&'static str, String)>)
        ensures
            !self.enabled ==> r@.len() == 0,
            self.enabled ==> r@.len() == 2
                && r@[0].0@ == "Permissions-Policy"@
                && r@[0].1@ == "camera=(), microphone=(), geolocation=()"@
                && r@[1].0@ == "X-WebRTC-Block"@
                && r@[1].1@ == "true"@,
    {
        let mut r: Vec<(&'static str, String)> = Vec::new();
        if self.enabled {
            r.push(("Permissions-Policy", String::from_str("camera=(), microphone=(), geolocation=()")));
            r.push(("X-WebRTC-Block", String::from_str("true")));
        }
        r
    }

    pub fn is_enabled(&self) -> (r: bool)
        ensures
            r == self.enabled,
    {
        self.enabled
    }
}

} // verus!
