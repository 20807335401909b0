//! Plain-value network addresses: what the packet plane reads of an IP
//! address and of a transport endpoint.

use vstd::prelude::*;

verus! {

/// An IPv4 address as its four octets, most significant first.
#[derive(Clone, Copy, Debug, PartialEq, Eq, Structural)]
pub struct Ipv4Address {
    pub a: u8,
    pub b: u8,
    pub c: u8,
    pub d: u8,
}

impl Ipv4Address {
    /// The four octets in network order.
    pub open spec fn spec_octets(&self) -> Seq<u8> {
        seq![self.a, self.b, self.c, self.d]
    }

    pub open spec fn spec_is_unspecified(&self) -> bool {
        self.a == 0 && self.b == 0 && self.c == 0 && self.d == 0
    }

    /// The address `a.b.c.d`.
    pub fn new(a: u8, b: u8, c: u8, d: u8) -> (ip: Self)
        ensures
            ip == (Ipv4Address { a, b, c, d }),
    {
        Ipv4Address { a, b, c, d }
    }

    /// The address `0.0.0.0`.
    pub fn unspecified() -> (ip: Self)
        ensures
            ip.spec_is_unspecified(),
            ip == (Ipv4Address { a: 0, b: 0, c: 0, d: 0 }),
    {
        Ipv4Address { a: 0, b: 0, c: 0, d: 0 }
    }

    /// Whether this is `0.0.0.0`.
    pub fn is_unspecified(&self) -> (r: bool)
        ensures
            r == self.spec_is_unspecified(),
    {
        self.a == 0 && self.b == 0 && self.c == 0 && self.d == 0
    }

    /// The four octets in network order.
    pub fn octets(&self) -> (o: [u8; 4])
        ensures
            o@ == self.spec_octets(),
    {
        let o: [u8; 4] = [self.a, self.b, self.c, self.d];
        assert(o@ =~= self.spec_octets());
        o
    }
}

/// An IPv6 address as the 128-bit number its sixteen octets spell in network
/// order.
#[derive(Clone, Copy, Debug, PartialEq, Eq, Structural)]
pub struct Ipv6Address {
    pub bits: u128,
}

/// An IP address of either family.
#[derive(Clone, Copy, Debug, PartialEq, Eq, Structural)]
pub enum IpAddress {
    V4(Ipv4Address),
    V6(Ipv6Address),
}

/// A transport endpoint: an IP address and a port.
#[derive(Clone, Copy, Debug, PartialEq, Eq, Structural)]
pub struct Endpoint {
    pub ip: IpAddress,
    pub port: u16,
}

impl Endpoint {
    /// The endpoint `ip:port`.
    pub fn new(ip: IpAddress, port: u16) -> (e: Self)
        ensures
            e == (Endpoint { ip, port }),
    {
        Endpoint { ip, port }
    }

    /// The IPv4 endpoint `ip:port`.
    pub fn v4(ip: Ipv4Address, port: u16) -> (e: Self)
        ensures
            e == (Endpoint { ip: IpAddress::V4(ip), port }),
    {
        Endpoint { ip: IpAddress::V4(ip), port }
    }
}

} // verus!
