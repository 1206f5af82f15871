//! The operating system's proxy setting: what to apply when the proxy is
//! registered, and what to restore when it is released.
use vstd::prelude::*;

verus! {

/// A system-wide proxy setting.
#[derive(Clone, Debug)]
pub struct ProxySettings {
    pub enabled: bool,
    pub server: String,
}

/// Remembers the setting found before this proxy was registered, so it can be restored.
#[derive(Clone, Debug)]
pub struct SystemProxy {
    pub original_state: Option<ProxySettings>,
}

impl SystemProxy {
    pub fn new() -> (r: Self)
        ensures
            r.original_state.is_none(),
    {
        SystemProxy { original_state: None }
    }

    /// Records `current`, the setting in force now, and returns the setting
    /// that routes the system through `proxy_addr`.
    pub fn enable(&mut self, current: ProxySettings, proxy_addr: &str) -> (r: ProxySettings)
        ensures
            final(self).original_state == Some(current),
            r.enabled,
            r.server@ == proxy_addr@,
    {
        self.original_state = Some(current);
        ProxySettings { enabled: true, server: String::from_str(proxy_addr) }
    }

    /// The setting to restore: the one recorded before registration, or none at all.
    pub fn disable(&self) -> (r: ProxySettings)
        ensures
            match self.original_state {
                Some(o) => r.enabled == o.enabled && r.server@ == o.server@,
                None => !r.enabled && r.server@.len() == 0,
            },
    {
        match &self.original_state {
            Some(o) => ProxySettings { enabled: o.enabled, server: o.server.clone() },
            None => ProxySettings { enabled: false, server: String::new() },
        }
    }
}

} // verus!
