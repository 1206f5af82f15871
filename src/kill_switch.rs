//! The kill switch: while it is active and the circuit is down, no traffic passes.
use vstd::prelude::*;

verus! {

/// The kill switch's state; the one place that decides whether traffic is admissible.
#[derive(Clone, Copy, Debug, PartialEq, Eq, Structural)]
pub struct KillSwitch {
    pub tor_connected: bool,
    pub kill_switch_active: bool,
    pub blocked_requests: u64,
}

/// A copy of the kill switch's state for readers.
#[derive(Clone, Copy, Debug, PartialEq, Eq, Structural)]
pub struct KillSwitchStats {
    pub tor_connected: bool,
    pub active: bool,
    pub blocked_requests: u64,
}

impl KillSwitch {
    /// Traffic is admissible: the kill switch is off, or the circuit is up.
    pub open spec fn admits(&self) -> bool {
        !self.kill_switch_active || self.tor_connected
    }

    /// Active, with the circuit down and nothing blocked yet.
    pub fn new() -> (r: Self)
        ensures
            !r.tor_connected,
            r.kill_switch_active,
            r.blocked_requests == 0,
    {
        KillSwitch { tor_connected: false, kill_switch_active: true, blocked_requests: 0 }
    }

    pub fn set_tor_status(&mut self, connected: bool)
        ensures
            *final(self) == (KillSwitch { tor_connected: connected, ..*old(self) }),
    {
        self.tor_connected = connected;
    }

    /// Whether the next request may pass; a refused one is counted.
    pub fn should_allow_traffic(&mut self) -> (r: bool)
        ensures
            r == old(self).admits(),
            final(self).tor_connected == old(self).tor_connected,
            final(self).kill_switch_active == old(self).kill_switch_active,
            final(self).blocked_requests == if r {
                old(self).blocked_requests
            } else {
                old(self).blocked_requests.saturating_add(1)
            },
    {
        if !self.kill_switch_active {
            return true;
        }
        if !self.tor_connected {
            self.blocked_requests = self.blocked_requests.saturating_add(1);
            return false;
        }
        true
    }

    pub fn set_enabled(&mut self, enabled: bool)
        ensures
            *final(self) == (KillSwitch { kill_switch_active: enabled, ..*old(self) }),
    {
        self.kill_switch_active = enabled;
    }

    pub fn get_stats(&self) -> (r: KillSwitchStats)
        ensures
            r.tor_connected == self.tor_connected,
            r.active == self.kill_switch_active,
            r.blocked_requests == self.blocked_requests,
    {
        KillSwitchStats {
            tor_connected: self.tor_connected,
            active: self.kill_switch_active,
            blocked_requests: self.blocked_requests,
        }
    }

    pub fn is_tor_connected(&self) -> (r: bool)
        ensures
            r == self.tor_connected,
    {
        self.tor_connected
    }
}

impl Default for KillSwitch {
    fn default() -> (r: Self)
        ensures
            !r.tor_connected,
            r.kill_switch_active,
            r.blocked_requests == 0,
    {
        KillSwitch::new()
    }
}

} // verus!
