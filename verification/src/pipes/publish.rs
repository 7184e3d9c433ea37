//! The publish target policy: a pipe may only publish a loopback target
//! (`127.0.0.0/8` or `::1`) on a port from 1 to 65535, and this is checked
//! before any round trip. The host text is parsed as an IP address by the
//! caller into a [`HostAddr`]; which addresses are loopback, and the
//! decision, are here.

use vstd::prelude::*;

use crate::api::Target;
use crate::files::errors::FlowFailure;
use crate::text::chars_of;

verus! {

/// A publish host as parsed: an IPv4 address by its octets, an IPv6
/// address by its eight groups, or not an IP address (a name such as
/// `localhost` is never resolved).
#[derive(Clone, Copy, PartialEq, Eq, Debug, Structural)]
pub enum HostAddr {
    V4(u8, u8, u8, u8),
    V6(u16, u16, u16, u16, u16, u16, u16, u16),
    NotIp,
}

/// Whether an address is loopback: an IPv4 address in `127.0.0.0/8`, or
/// the IPv6 address `::1`.
pub open spec fn is_loopback_spec(addr: HostAddr) -> bool {
    match addr {
        HostAddr::V4(a, _, _, _) => a == 127,
        HostAddr::V6(a, b, c, d, e, f, g, h) => a == 0 && b == 0 && c == 0 && d == 0 && e == 0
            && f == 0 && g == 0 && h == 1,
        HostAddr::NotIp => false,
    }
}

/// Whether an address is loopback.
pub fn is_loopback(addr: HostAddr) -> (r: bool)
    ensures
        r == is_loopback_spec(addr),
{
    match addr {
        HostAddr::V4(a, _, _, _) => a == 127,
        HostAddr::V6(a, b, c, d, e, f, g, h) => a == 0 && b == 0 && c == 0 && d == 0 && e == 0
            && f == 0 && g == 0 && h == 1,
        HostAddr::NotIp => false,
    }
}

/// The host without one pair of surrounding brackets (`[::1]` to `::1`),
/// or unchanged.
pub open spec fn unbracketed_spec(host: Seq<char>) -> Seq<char> {
    if host.len() >= 2 && host[0] == '[' && host.last() == ']' {
        host.subrange(1, host.len() - 1)
    } else {
        host
    }
}

/// The host text to parse as an address: without its surrounding brackets.
pub fn unbracketed(host: &str) -> (r: String)
    ensures
        r@ == unbracketed_spec(host@),
{
    let v = chars_of(host);
    let n = v.len();
    if n >= 2 && v[0] == '[' && v[n - 1] == ']' {
        crate::text::string_of_range(&v, 1, n - 1)
    } else {
        crate::text::string_of(&v)
    }
}

/// Whether a publish target passes the loopback policy, given `addr`, its
/// host parsed as an address: a loopback address on a port from 1 to
/// 65535. A refusal carries nothing of the target.
pub open spec fn target_accepted(addr: HostAddr, port: u64) -> bool {
    is_loopback_spec(addr) && 1 <= port <= 65535
}

/// Validate a publish target before any round trip, given `addr`, the
/// target's unbracketed host parsed as an IP address (or
/// [`HostAddr::NotIp`]).
pub fn validate_loopback_target(target: &Target, addr: HostAddr) -> (r: Result<(), FlowFailure>)
    ensures
        r == if target_accepted(addr, target.port) {
            Ok::<(), FlowFailure>(())
        } else {
            Err(FlowFailure::PipeTargetRefused)
        },
{
    let port_ok = 1 <= target.port && target.port <= 65535;
    if is_loopback(addr) && port_ok {
        Ok(())
    } else {
        Err(FlowFailure::PipeTargetRefused)
    }
}

} // verus!
