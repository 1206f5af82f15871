//! IPv6 leak protection: refuses hosts written as IPv6 addresses.
use vstd::prelude::*;
use crate::addr::{classify_ip_literal, ip_literal_of, IpLiteral};
use crate::text::{contains, starts_with, str_contains, str_starts_with};

verus! {

/// `host` is an IPv6 address, or a bracketed authority that holds a colon.
pub open spec fn is_ipv6_host(host: Seq<char>) -> bool {
    ip_literal_of(host) == IpLiteral::V6 || (starts_with(host, seq!['[']) && contains(host, seq![':']))
}

/// Refuses IPv6 hosts, so that traffic cannot leave outside the circuit's IPv4 path.
#[derive(Clone, Copy, Debug)]
pub struct Ipv6Protection {
    pub enabled: bool,
    pub blocked_count: u64,
}

impl Ipv6Protection {
    pub open spec fn blocks(&self, host: Seq<char>) -> bool {
        self.enabled && is_ipv6_host(host)
    }

    pub fn new(enabled: bool) -> (r: Self)
        ensures
            r.enabled == enabled,
            r.blocked_count == 0,
    {
        Ipv6Protection { enabled, blocked_count: 0 }
    }

    /// Whether `host` is refused; each refusal is counted.
    pub fn should_block_ipv6(&mut self, host: &str) -> (r: bool)
        ensures
            r == old(self).blocks(host@),
            final(self).enabled == old(self).enabled,
            final(self).blocked_count == if r {
                old(self).blocked_count.saturating_add(1)
            } else {
                old(self).blocked_count
            },
    {
        if !self.enabled {
            return false;
        }
        let bracketed = str_starts_with(host, "[") && str_contains(host, ":");
        proof {
            reveal_strlit("[");
            reveal_strlit(":");
            assert("["@ =~= seq!['[']);
            assert(":"@ =~= seq![':']);
        }
        let blocked = classify_ip_literal(host) == IpLiteral::V6 || bracketed;
        if blocked {
            self.blocked_count = self.blocked_count.saturating_add(1);
        }
        blocked
    }

    pub fn get_blocked_count(&self) -> (r: u64)
        ensures
            r == self.blocked_count,
    {
        self.blocked_count
    }

    pub fn is_enabled(&self) -> (r: bool)
        ensures
            r == self.enabled,
    {
        self.enabled
    }

    /// Turning IPv6 off for the whole system needs administrator rights and is
    /// left to the user; this reports success without changing anything.
    pub fn disable_system_ipv6() -> (r: Result<(), String>)
        ensures
            r is Ok,
    {
        Ok(())
    }
}

} // verus!
