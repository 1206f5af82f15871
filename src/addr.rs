//! Whether a host string is an IP address literal.
use vstd::prelude::*;

verus! {

/// The form of a host string as an IP address literal.
#[derive(Clone, Copy, Debug, PartialEq, Eq, Structural)]
pub enum IpLiteral {
    NotAnAddress,
    V4,
    V6,
}

/// What parsing the characters as an IP address (`IpAddr`'s `FromStr`) yields.
pub uninterp spec fn ip_literal_of(s: Seq<char>) -> IpLiteral;

/// Relies on `IpAddr`'s `FromStr` in `core::net` (address types only, no I/O):
/// the result depends on the characters alone.
#[verifier::external_body]
pub(crate) fn classify_ip_literal(host: &str) -> (r: IpLiteral)
    ensures
        r == ip_literal_of(host@),
{
    match host.parse::<core::net::IpAddr>() {
        Ok(core::net::IpAddr::V4(_)) => IpLiteral::V4,
        Ok(core::net::IpAddr::V6(_)) => IpLiteral::V6,
        Err(_) => IpLiteral::NotAnAddress,
    }
}

} // verus!
