//! Flow identities: the `ip:port` text of one end of a TCP or UDP flow.

use vstd::prelude::*;
use crate::addr::Ipv4Address;
use crate::device::packet::{
    from_ip_payload, ip_version_of, ipv4_at, ipv4_header_len, ipv4_payload, ipv4_payload_end,
    ipv4_payload_start, ipv6_payload, to_ipv4, to_ipv6, to_tcp, to_udp, IpVersion,
    IPV6_MIN_SIZE, PROTO_ICMP, PROTO_ICMPV6, PROTO_TCP, PROTO_UDP, TCP_MIN_SIZE, UDP_MIN_SIZE,
};
use crate::text::{
    identity_text, ipv4_text, ipv6_text, ipv6_to_string, push_decimal, push_ipv4,
};
use crate::wire::be_value;

verus! {

/// The end of a flow that an identity names.
#[derive(Clone, Copy, Debug, PartialEq, Eq, Structural)]
pub enum FlowEnd {
    Source,
    Destination,
}

/// The port of `end` in a TCP or UDP header: the first two bytes spell the
/// source port, the next two the destination port.
pub open spec fn port_of(transport: Seq<u8>, end: FlowEnd) -> u16 {
    match end {
        FlowEnd::Source => be_value(transport.subrange(0, 2)) as u16,
        FlowEnd::Destination => be_value(transport.subrange(2, 4)) as u16,
    }
}

/// The port of `end` where `protocol` is TCP or UDP and `transport` holds a
/// whole header of it; nothing for any other protocol or a cut header.
pub open spec fn transport_port(protocol: u8, transport: Seq<u8>, end: FlowEnd) -> Option<u16> {
    if protocol == PROTO_TCP && transport.len() >= TCP_MIN_SIZE {
        Some(port_of(transport, end))
    } else if protocol == PROTO_UDP && transport.len() >= UDP_MIN_SIZE {
        Some(port_of(transport, end))
    } else {
        None
    }
}

/// The IPv4 address of `end` in an IPv4 header.
pub open spec fn ipv4_end(buf: Seq<u8>, end: FlowEnd) -> Ipv4Address {
    match end {
        FlowEnd::Source => ipv4_at(buf, 12),
        FlowEnd::Destination => ipv4_at(buf, 16),
    }
}

/// The IPv6 address of `end` in an IPv6 header, as a 128-bit number.
pub open spec fn ipv6_end(buf: Seq<u8>, end: FlowEnd) -> u128 {
    match end {
        FlowEnd::Source => be_value(buf.subrange(8, 24)) as u128,
        FlowEnd::Destination => be_value(buf.subrange(24, 40)) as u128,
    }
}

/// The identity of one end of the flow that a raw IP datagram belongs to:
/// the text of the address, a colon, the port in decimal. There is none
/// where the datagram is cut short, is neither IPv4 nor IPv6, or carries
/// anything but TCP or UDP.
pub open spec fn identity_of(buf: Seq<u8>, end: FlowEnd) -> Option<Seq<char>> {
    match ip_version_of(buf) {
        None => None,
        Some(IpVersion::V4) => match transport_port(buf[9], ipv4_payload(buf), end) {
            None => None,
            Some(port) => Some(identity_text(ipv4_text(ipv4_end(buf, end)), port)),
        },
        Some(IpVersion::V6) => if buf.len() < IPV6_MIN_SIZE {
            None
        } else {
            match transport_port(buf[6], ipv6_payload(buf), end) {
                None => None,
                Some(port) => Some(identity_text(ipv6_text(ipv6_end(buf, end)), port)),
            }
        },
    }
}

/// Whether `r` is the text `expected`, or nothing where nothing is expected.
pub open spec fn is_text(r: Option<String>, expected: Option<Seq<char>>) -> bool {
    match r {
        Some(s) => expected == Some(s@),
        None => expected is None,
    }
}

/// Reads the port of `end` from the transport header that follows an IP
/// header.
pub fn read_transport_port(protocol: u8, transport: &[u8], end: FlowEnd) -> (r: Option<u16>)
    ensures
        r == transport_port(protocol, transport@, end),
{
    if protocol == PROTO_TCP {
        match to_tcp(transport) {
            None => None,
            Some(tcp_pkt) => match end {
                FlowEnd::Source => Some(tcp_pkt.source),
                FlowEnd::Destination => Some(tcp_pkt.destination),
            },
        }
    } else if protocol == PROTO_UDP {
        match to_udp(transport) {
            None => None,
            Some(udp_pkt) => match end {
                FlowEnd::Source => Some(udp_pkt.source),
                FlowEnd::Destination => Some(udp_pkt.destination),
            },
        }
    } else {
        None
    }
}

/// The identity of one end of the flow of a raw IP datagram.
pub fn get_identity(buf: &[u8], end: FlowEnd) -> (r: Option<String>)
    ensures
        is_text(r, identity_of(buf@, end)),
{
    match from_ip_payload(buf) {
        None => None,
        Some(IpVersion::V4) => {
            let ip_pkt = match to_ipv4(buf) {
                Some(p) => p,
                None => { return None; },
            };
            let port = match read_transport_port(
                ip_pkt.next_level_protocol,
                ip_pkt.payload.as_slice(),
                end,
            ) {
                Some(p) => p,
                None => { return None; },
            };
            let ip = match end {
                FlowEnd::Source => ip_pkt.source,
                FlowEnd::Destination => ip_pkt.destination,
            };
            let mut identity = String::new();
            push_ipv4(&mut identity, ip);
            identity.push(':');
            push_decimal(&mut identity, port as u32);
            assert(identity@ =~= identity_text(ipv4_text(ipv4_end(buf@, end)), port));
            Some(identity)
        },
        Some(IpVersion::V6) => {
            let ip_pkt = match to_ipv6(buf) {
                Some(p) => p,
                None => { return None; },
            };
            let port = match read_transport_port(
                ip_pkt.next_header,
                ip_pkt.payload.as_slice(),
                end,
            ) {
                Some(p) => p,
                None => { return None; },
            };
            let ip = match end {
                FlowEnd::Source => ip_pkt.source,
                FlowEnd::Destination => ip_pkt.destination,
            };
            let mut identity = ipv6_to_string(ip);
            identity.push(':');
            push_decimal(&mut identity, port as u32);
            assert(identity@ =~= identity_text(ipv6_text(ipv6_end(buf@, end)), port));
            Some(identity)
        },
    }
}

/// The identity of the sender of a raw IP datagram: `ip:port` of its source,
/// or nothing where the datagram has no identity.
pub fn get_source_identity(buf: &[u8]) -> (r: Option<String>)
    ensures
        is_text(r, identity_of(buf@, FlowEnd::Source)),
{
    get_identity(buf, FlowEnd::Source)
}

/// The identity of the receiver of a raw IP datagram: `ip:port` of its
/// destination, or nothing where the datagram has no identity.
pub fn get_destination_identity(buf: &[u8]) -> (r: Option<String>)
    ensures
        is_text(r, identity_of(buf@, FlowEnd::Destination)),
{
    get_identity(buf, FlowEnd::Destination)
}


/// A well-formed IPv4 datagram that carries `protocol` with a transport
/// header of at least `header` bytes: version 4, a header length of twenty
/// bytes or more, and a total length and a buffer that both hold the IP
/// header and the transport header.
pub open spec fn is_ipv4_carrying(p: Seq<u8>, protocol: u8, header: nat) -> bool {
    &&& p.len() >= 20
    &&& p[0] as nat / 16 == 4
    &&& ipv4_header_len(p) >= 20
    &&& p[9] == protocol
    &&& be_value(p.subrange(2, 4)) >= ipv4_header_len(p) + header
    &&& p.len() >= ipv4_header_len(p) + header
}

/// A well-formed IPv4 datagram that carries TCP.
pub open spec fn is_ipv4_tcp(p: Seq<u8>) -> bool {
    is_ipv4_carrying(p, PROTO_TCP, TCP_MIN_SIZE as nat)
}

/// A well-formed IPv4 datagram that carries UDP.
pub open spec fn is_ipv4_udp(p: Seq<u8>) -> bool {
    is_ipv4_carrying(p, PROTO_UDP, UDP_MIN_SIZE as nat)
}

/// The port that the two bytes at `at` spell.
pub open spec fn port_at(p: Seq<u8>, at: nat) -> u16 {
    be_value(p.subrange(at as int, at as int + 2)) as u16
}

proof fn lemma_ipv4_carrying(p: Seq<u8>, protocol: u8, header: nat)
    requires
        is_ipv4_carrying(p, protocol, header),
        header >= 4,
    ensures
        ipv4_payload(p).len() >= header,
        ipv4_payload(p).subrange(0, 2) == p.subrange(
            ipv4_header_len(p) as int,
            ipv4_header_len(p) as int + 2,
        ),
        ipv4_payload(p).subrange(2, 4) == p.subrange(
            ipv4_header_len(p) as int + 2,
            ipv4_header_len(p) as int + 4,
        ),
{
    let h = ipv4_header_len(p) as int;
    assert(ipv4_payload_start(p) == h);
    assert(ipv4_payload_end(p) >= h + header);
    assert(ipv4_payload(p).subrange(0, 2) =~= p.subrange(h as int, h + 2));
    assert(ipv4_payload(p).subrange(2, 4) =~= p.subrange(h + 2, h + 4));
}

/// Of every well-formed IPv4 datagram that carries TCP, the source identity
/// is the source address in dotted decimal, a colon and the source port, and
/// the destination identity is the same of the destination address and port.
/// The ports are the first and the second pair of bytes after the IP header.
pub proof fn lemma_ipv4_tcp_identity(p: Seq<u8>)
    requires
        is_ipv4_tcp(p),
    ensures
        identity_of(p, FlowEnd::Source) == Some(
            identity_text(ipv4_text(ipv4_at(p, 12)), port_at(p, ipv4_header_len(p))),
        ),
        identity_of(p, FlowEnd::Destination) == Some(
            identity_text(ipv4_text(ipv4_at(p, 16)), port_at(p, ipv4_header_len(p) + 2)),
        ),
{
    lemma_ipv4_carrying(p, PROTO_TCP, TCP_MIN_SIZE as nat);
}

/// Of every well-formed IPv4 datagram that carries UDP, the identities are
/// built from its addresses and ports as they are for TCP.
pub proof fn lemma_ipv4_udp_identity(p: Seq<u8>)
    requires
        is_ipv4_udp(p),
    ensures
        identity_of(p, FlowEnd::Source) == Some(
            identity_text(ipv4_text(ipv4_at(p, 12)), port_at(p, ipv4_header_len(p))),
        ),
        identity_of(p, FlowEnd::Destination) == Some(
            identity_text(ipv4_text(ipv4_at(p, 16)), port_at(p, ipv4_header_len(p) + 2)),
        ),
{
    lemma_ipv4_carrying(p, PROTO_UDP, UDP_MIN_SIZE as nat);
}

/// A well-formed IPv6 datagram whose fixed header is followed at once by a
/// header of `protocol` of at least `header` bytes: version 6, and a payload
/// length and a buffer that both hold that header.
pub open spec fn is_ipv6_carrying(p: Seq<u8>, protocol: u8, header: nat) -> bool {
    &&& p.len() >= 40 + header
    &&& p[0] as nat / 16 == 6
    &&& p[6] == protocol
    &&& be_value(p.subrange(4, 6)) >= header
}

/// Of every well-formed IPv6 datagram that carries TCP or UDP right after
/// its fixed header, the source identity is the text of the source address,
/// a colon and the source port, and the destination identity is the same of
/// the destination address and port. The ports are the first and the second
/// pair of bytes after the fixed header.
pub proof fn lemma_ipv6_identity(p: Seq<u8>)
    requires
        is_ipv6_carrying(p, PROTO_TCP, TCP_MIN_SIZE as nat) || is_ipv6_carrying(
            p,
            PROTO_UDP,
            UDP_MIN_SIZE as nat,
        ),
    ensures
        identity_of(p, FlowEnd::Source) == Some(
            identity_text(ipv6_text(ipv6_end(p, FlowEnd::Source)), port_at(p, 40)),
        ),
        identity_of(p, FlowEnd::Destination) == Some(
            identity_text(ipv6_text(ipv6_end(p, FlowEnd::Destination)), port_at(p, 42)),
        ),
{
    assert(ipv6_payload(p).subrange(0, 2) =~= p.subrange(40, 42));
    assert(ipv6_payload(p).subrange(2, 4) =~= p.subrange(42, 44));
}

/// An ICMP packet: an IPv4 datagram whose protocol is ICMP, or an IPv6
/// datagram whose next header is ICMPv6.
pub open spec fn is_icmp(p: Seq<u8>) -> bool {
    ||| ip_version_of(p) == Some(IpVersion::V4) && p[9] == PROTO_ICMP
    ||| ip_version_of(p) == Some(IpVersion::V6) && p.len() >= IPV6_MIN_SIZE && p[6]
        == PROTO_ICMPV6
}

/// An ICMP packet has no identity, neither of its source nor of its
/// destination.
pub proof fn lemma_icmp_has_no_identity(p: Seq<u8>, end: FlowEnd)
    requires
        is_icmp(p),
    ensures
        identity_of(p, end) is None,
{
}

/// Only TCP and UDP give an identity: a datagram that has one of either end
/// is IPv4 or IPv6 and carries one of the two.
pub proof fn lemma_identity_needs_transport(p: Seq<u8>, end: FlowEnd)
    requires
        identity_of(p, end) is Some,
    ensures
        ip_version_of(p) == Some(IpVersion::V4) ==> p[9] == PROTO_TCP || p[9] == PROTO_UDP,
        ip_version_of(p) == Some(IpVersion::V6) ==> p[6] == PROTO_TCP || p[6] == PROTO_UDP,
        ip_version_of(p) is Some,
{
}

/// A buffer shorter than an IPv4 header has no identity.
pub proof fn lemma_short_has_no_identity(p: Seq<u8>, end: FlowEnd)
    requires
        p.len() < 20,
    ensures
        identity_of(p, end) is None,
{
}

} // verus!
