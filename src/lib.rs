//! A privacy-preserving forward proxy: policy filters, the kill switch,
//! the request pipeline's decisions, and the shared statistics and log ring.
pub mod text;
pub mod addr;
pub mod ipv6_protection;
pub mod webrtc_protection;
pub mod blocklist;
pub mod kill_switch;
pub mod config;
pub mod system_proxy;
pub mod web_api;
pub mod fingerprint;
pub mod proxy;
pub mod tor_network;
pub mod routing;
pub mod blockchain;
pub mod gui;
pub mod crypto;
