//! Headers of the inner datagram, read with `pnet` and held as plain values.

use vstd::prelude::*;
use pnet::packet::ipv4::Ipv4Packet;
use pnet::packet::ipv6::Ipv6Packet;
use pnet::packet::tcp::TcpPacket;
use pnet::packet::udp::UdpPacket;
use pnet::packet::Packet;
use crate::addr::{Ipv4Address, Ipv6Address};
use crate::wire::be_value;

verus! {

/// Shortest IPv4 header.
pub const IPV4_MIN_SIZE: usize = 20;

/// The fixed IPv6 header.
pub const IPV6_MIN_SIZE: usize = 40;

/// Shortest TCP header.
pub const TCP_MIN_SIZE: usize = 20;

/// The UDP header.
pub const UDP_MIN_SIZE: usize = 8;

/// Protocol number of ICMP.
pub const PROTO_ICMP: u8 = 1;

/// Protocol number of TCP.
pub const PROTO_TCP: u8 = 6;

/// Protocol number of UDP.
pub const PROTO_UDP: u8 = 17;

/// Protocol number of ICMPv6.
pub const PROTO_ICMPV6: u8 = 58;

/// The IP version that a datagram announces in its first four bits.
#[derive(Clone, Copy, Debug, PartialEq, Eq, Structural)]
pub enum IpVersion {
    V4,
    V6,
}

/// What is read of an IPv4 datagram.
#[derive(Debug)]
pub struct Ipv4Datagram {
    pub version: u8,
    pub source: Ipv4Address,
    pub destination: Ipv4Address,
    pub next_level_protocol: u8,
    pub payload: Vec<u8>,
}

/// What is read of an IPv6 datagram.
#[derive(Debug)]
pub struct Ipv6Datagram {
    pub version: u8,
    pub source: Ipv6Address,
    pub destination: Ipv6Address,
    pub next_header: u8,
    pub payload: Vec<u8>,
}

/// The ports of a TCP segment.
#[derive(Clone, Copy, Debug, PartialEq, Eq, Structural)]
pub struct TcpPorts {
    pub source: u16,
    pub destination: u16,
}

/// The ports of a UDP datagram.
#[derive(Clone, Copy, Debug, PartialEq, Eq, Structural)]
pub struct UdpPorts {
    pub source: u16,
    pub destination: u16,
}

/// The version field: the upper four bits of the first byte.
pub open spec fn ip_version(p: Seq<u8>) -> nat
    recommends
        p.len() > 0,
{
    p[0] as nat / 16
}

/// The IPv4 address that four bytes spell.
pub open spec fn ipv4_at(p: Seq<u8>, at: int) -> Ipv4Address
    recommends
        0 <= at && at + 4 <= p.len(),
{
    Ipv4Address { a: p[at], b: p[at + 1], c: p[at + 2], d: p[at + 3] }
}

/// Length of the IPv4 header as its length field gives it, in bytes.
pub open spec fn ipv4_header_len(p: Seq<u8>) -> nat
    recommends
        p.len() > 0,
{
    (p[0] as nat % 16) * 4
}

/// Where the payload of an IPv4 datagram begins: after the header and its
/// options, and never before byte 20.
pub open spec fn ipv4_payload_start(p: Seq<u8>) -> nat {
    if ipv4_header_len(p) > 20 {
        ipv4_header_len(p)
    } else {
        20
    }
}

/// Where the payload of an IPv4 datagram ends: as many bytes after its start
/// as the total length exceeds the header length, and never past the buffer.
pub open spec fn ipv4_payload_end(p: Seq<u8>) -> nat {
    let total = be_value(p.subrange(2, 4));
    let announced = if total > ipv4_header_len(p) {
        (total - ipv4_header_len(p)) as nat
    } else {
        0
    };
    if ipv4_payload_start(p) + announced < p.len() {
        ipv4_payload_start(p) + announced
    } else {
        p.len()
    }
}

/// The payload of an IPv4 datagram of at least twenty bytes.
pub open spec fn ipv4_payload(p: Seq<u8>) -> Seq<u8> {
    if p.len() <= ipv4_payload_start(p) {
        Seq::empty()
    } else {
        p.subrange(ipv4_payload_start(p) as int, ipv4_payload_end(p) as int)
    }
}

/// Where the payload of an IPv6 datagram ends: as many bytes after the fixed
/// header as the payload length says, and never past the buffer.
pub open spec fn ipv6_payload_end(p: Seq<u8>) -> nat {
    let announced = be_value(p.subrange(4, 6));
    if 40 + announced < p.len() {
        40 + announced
    } else {
        p.len()
    }
}

/// The payload of an IPv6 datagram of at least forty bytes. Extension
/// headers are not walked: they count as payload.
pub open spec fn ipv6_payload(p: Seq<u8>) -> Seq<u8> {
    if p.len() <= 40 {
        Seq::empty()
    } else {
        p.subrange(40, ipv6_payload_end(p) as int)
    }
}

/// Reads an IPv4 header with `pnet`'s `Ipv4Packet`: `new`, which refuses a
/// buffer under twenty bytes, then `get_version`, `get_source`,
/// `get_destination`, `get_next_level_protocol` and `payload`. The contract
/// gives each field by the bytes it is read from.
#[verifier::external_body]
pub fn to_ipv4(packet: &[u8]) -> (r: Option<Ipv4Datagram>)
    ensures
        r is Some <==> packet@.len() >= IPV4_MIN_SIZE,
        r matches Some(d) ==> {
            &&& d.version == ip_version(packet@)
            &&& d.source == ipv4_at(packet@, 12)
            &&& d.destination == ipv4_at(packet@, 16)
            &&& d.next_level_protocol == packet@[9]
            &&& d.payload@ == ipv4_payload(packet@)
        },
{
    let p = Ipv4Packet::new(packet)?;
    let s = p.get_source().octets();
    let d = p.get_destination().octets();
    Some(Ipv4Datagram {
        version: p.get_version(),
        source: Ipv4Address { a: s[0], b: s[1], c: s[2], d: s[3] },
        destination: Ipv4Address { a: d[0], b: d[1], c: d[2], d: d[3] },
        next_level_protocol: p.get_next_level_protocol().0,
        payload: p.payload().to_vec(),
    })
}

/// Reads an IPv6 header with `pnet`'s `Ipv6Packet`: `new`, which refuses a
/// buffer under forty bytes, then `get_version`, `get_source`,
/// `get_destination`, `get_next_header` and `payload`.
#[verifier::external_body]
pub fn to_ipv6(packet: &[u8]) -> (r: Option<Ipv6Datagram>)
    ensures
        r is Some <==> packet@.len() >= IPV6_MIN_SIZE,
        r matches Some(d) ==> {
            &&& d.version == ip_version(packet@)
            &&& d.source.bits == be_value(packet@.subrange(8, 24))
            &&& d.destination.bits == be_value(packet@.subrange(24, 40))
            &&& d.next_header == packet@[6]
            &&& d.payload@ == ipv6_payload(packet@)
        },
{
    let p = Ipv6Packet::new(packet)?;
    Some(Ipv6Datagram {
        version: p.get_version(),
        source: Ipv6Address { bits: u128::from(p.get_source()) },
        destination: Ipv6Address { bits: u128::from(p.get_destination()) },
        next_header: p.get_next_header().0,
        payload: p.payload().to_vec(),
    })
}

/// Reads the ports of a TCP header with `pnet`'s `TcpPacket`: `new`, which
/// refuses a buffer under twenty bytes, then `get_source` and
/// `get_destination`.
#[verifier::external_body]
pub fn to_tcp(packet: &[u8]) -> (r: Option<TcpPorts>)
    ensures
        r is Some <==> packet@.len() >= TCP_MIN_SIZE,
        r matches Some(t) ==> {
            &&& t.source == be_value(packet@.subrange(0, 2))
            &&& t.destination == be_value(packet@.subrange(2, 4))
        },
{
    let p = TcpPacket::new(packet)?;
    Some(TcpPorts { source: p.get_source(), destination: p.get_destination() })
}

/// Reads the ports of a UDP header with `pnet`'s `UdpPacket`: `new`, which
/// refuses a buffer under eight bytes, then `get_source` and
/// `get_destination`.
#[verifier::external_body]
pub fn to_udp(packet: &[u8]) -> (r: Option<UdpPorts>)
    ensures
        r is Some <==> packet@.len() >= UDP_MIN_SIZE,
        r matches Some(u) ==> {
            &&& u.source == be_value(packet@.subrange(0, 2))
            &&& u.destination == be_value(packet@.subrange(2, 4))
        },
{
    let p = UdpPacket::new(packet)?;
    Some(UdpPorts { source: p.get_source(), destination: p.get_destination() })
}

/// The IP version of a datagram: `None` where the buffer is shorter than an
/// IPv4 header or announces a version other than 4 and 6.
pub open spec fn ip_version_of(buf: Seq<u8>) -> Option<IpVersion> {
    if buf.len() < IPV4_MIN_SIZE {
        None
    } else if ip_version(buf) == 4 {
        Some(IpVersion::V4)
    } else if ip_version(buf) == 6 {
        Some(IpVersion::V6)
    } else {
        None
    }
}

/// Tells which IP version a raw datagram announces.
pub fn from_ip_payload(buf: &[u8]) -> (r: Option<IpVersion>)
    ensures
        r == ip_version_of(buf@),
{
    match to_ipv4(buf) {
        None => None,
        Some(ip_packet) => {
            if ip_packet.version == 4 {
                Some(IpVersion::V4)
            } else if ip_packet.version == 6 {
                Some(IpVersion::V6)
            } else {
                None
            }
        },
    }
}

} // verus!
