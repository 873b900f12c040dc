//! Network addresses as plain values.

use vstd::prelude::*;

verus! {

/// An IP address: four octets for IPv4, eight segments for IPv6, most
/// significant first.
#[derive(Clone, Copy, Debug, PartialEq, Eq, Structural)]
pub enum IpAddress {
    V4(u8, u8, u8, u8),
    V6(u16, u16, u16, u16, u16, u16, u16, u16),
}

/// An IP address and a port.
#[derive(Clone, Copy, Debug, PartialEq, Eq, Structural)]
pub struct SocketAddress {
    pub ip: IpAddress,
    pub port: u16,
}

/// Whether `ip` is a loopback address: `127.0.0.0/8` for IPv4 and `::1`
/// for IPv6.
pub open spec fn spec_is_loopback(ip: IpAddress) -> bool {
    match ip {
        IpAddress::V4(a, _, _, _) => a == 127,
        IpAddress::V6(a, b, c, d, e, f, g, h) => a == 0 && b == 0 && c == 0 && d == 0 && e == 0 && f == 0 && g == 0 && h == 1,
    }
}

impl IpAddress {
    /// Whether this is a loopback address.
    pub fn is_loopback(&self) -> (loopback: bool)
        ensures
            loopback == spec_is_loopback(*self),
    {
        match self {
            IpAddress::V4(a, _, _, _) => *a == 127,
            IpAddress::V6(a, b, c, d, e, f, g, h) => {
                *a == 0 && *b == 0 && *c == 0 && *d == 0 && *e == 0 && *f == 0 && *g == 0 && *h == 1
            },
        }
    }
}

} // verus!
