//! Socket addresses as plain values.

use vstd::prelude::*;

verus! {

/// An IP address: the four octets of an IPv4 address in the order they are
/// written, or the 128 bits of an IPv6 address, first group uppermost.
#[derive(Debug, Clone, Copy, PartialEq, Eq, Hash, Structural)]
pub enum IpAddress {
    V4(u8, u8, u8, u8),
    V6(u128),
}

/// An IP address with a port. `flow_info` and `scope_id` are the two extra
/// fields of an IPv6 socket address and are 0 for IPv4.
#[derive(Debug, Clone, Copy, PartialEq, Eq, Hash, Structural)]
pub struct SocketAddress {
    pub ip: IpAddress,
    pub port: u16,
    pub flow_info: u32,
    pub scope_id: u32,
}

impl SocketAddress {
    /// The address `a.b.c.d:port`.
    pub open spec fn spec_v4(a: u8, b: u8, c: u8, d: u8, port: u16) -> SocketAddress {
        SocketAddress { ip: IpAddress::V4(a, b, c, d), port, flow_info: 0, scope_id: 0 }
    }

    /// The address `127.0.0.1:port`.
    pub open spec fn spec_loopback(port: u16) -> SocketAddress {
        Self::spec_v4(127, 0, 0, 1, port)
    }

    /// The IPv4 address `a.b.c.d:port`.
    pub fn v4(a: u8, b: u8, c: u8, d: u8, port: u16) -> (addr: SocketAddress)
        ensures
            addr == Self::spec_v4(a, b, c, d, port),
    {
        SocketAddress { ip: IpAddress::V4(a, b, c, d), port, flow_info: 0, scope_id: 0 }
    }

    /// The IPv4 loopback address with the given port: `127.0.0.1:port`.
    pub fn loopback(port: u16) -> (addr: SocketAddress)
        ensures
            addr == Self::spec_loopback(port),
    {
        Self::v4(127, 0, 0, 1, port)
    }

    /// Whether this is an IPv4 address.
    pub fn is_ipv4(&self) -> (r: bool)
        ensures
            r == (self.ip is V4),
    {
        match self.ip {
            IpAddress::V4(_, _, _, _) => true,
            IpAddress::V6(_) => false,
        }
    }
}

} // verus!
