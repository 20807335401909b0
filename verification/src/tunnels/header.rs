//! The sixteen-byte overlay header that precedes every payload on the wire.

use vstd::prelude::*;
use bytes::Bytes;
use crate::buf::{bytes_from_vec, bytes_seq};
use crate::addr::{Endpoint, IpAddress, Ipv4Address};
use crate::tunnels::errors::{TunnelError, PAYLOAD_SIZE_OVERFLOW};
use crate::wire::{
    be_bytes2, be_bytes4, be_value, lemma_be_roundtrip2, lemma_be_roundtrip4, lemma_be_value2,
    read_u16_be, read_u32_be,
};

verus! {

/// Length of the overlay header in bytes.
pub const HEADER_SIZE: usize = 0x10;

/// Frames of this many bytes or more are refused.
pub const MAX_IP_FRAME_SIZE: usize = 0x400;

/// The decoded fields of an overlay header.
#[derive(Debug, Clone, Copy, PartialEq, Eq, Structural)]
pub struct HeaderFrame {
    /// Total length of the frame, header included.
    pub frame_size: u32,
    /// Address of the primary node; `0.0.0.0` asks for no rerouting.
    pub primary_node_ip: Ipv4Address,
    pub primary_node_port: u16,
}

/// The header bytes for a frame of `frame_size` bytes routed to `primary`.
pub open spec fn header_bytes(frame_size: nat, primary: Option<Endpoint>) -> Seq<u8> {
    let route = match primary {
        Some(Endpoint { ip: IpAddress::V4(ip), port }) => ip.spec_octets() + be_bytes2(port as nat),
        _ => Seq::new(6, |i: int| 0u8),
    };
    be_bytes4(frame_size) + route + Seq::new(6, |i: int| 0u8)
}

/// The frame that carries `payload` towards `primary`: header, then payload.
pub open spec fn frame_bytes(payload: Seq<u8>, primary: Option<Endpoint>) -> Seq<u8> {
    header_bytes(payload.len() + HEADER_SIZE as nat, primary) + payload
}

/// What a header's sixteen bytes mean.
pub open spec fn decode_spec(buf: Seq<u8>) -> HeaderFrame {
    HeaderFrame {
        frame_size: be_value(buf.subrange(0, 4)) as u32,
        primary_node_ip: Ipv4Address { a: buf[4], b: buf[5], c: buf[6], d: buf[7] },
        primary_node_port: be_value(buf.subrange(8, 10)) as u16,
    }
}

/// An error of the strict category that reports a frame too large to send.
fn payload_size_overflow() -> (e: TunnelError)
    ensures
        e is Strict,
        e.spec_code() == PAYLOAD_SIZE_OVERFLOW,
{
    TunnelError::Strict(
        ("the ip frame size reaches the frame size limit".to_string(), PAYLOAD_SIZE_OVERFLOW),
    )
}

/// Decodes the sixteen bytes of an overlay header. The reserved bytes are
/// not looked at.
pub fn decode(buf: [u8; 16]) -> (frame: HeaderFrame)
    ensures
        frame == decode_spec(buf@),
{
    let frame_size = read_u32_be(buf.as_slice(), 0);
    let primary_node_port = read_u16_be(buf.as_slice(), 8);
    HeaderFrame {
        frame_size,
        primary_node_ip: Ipv4Address::new(buf[4], buf[5], buf[6], buf[7]),
        primary_node_port,
    }
}

/// Writes the length of `payload` into its first four bytes, unless that
/// length reaches the frame-size limit.
pub fn total_packet_size(payload: &mut [u8]) -> (r: Result<(), TunnelError>)
    requires
        old(payload)@.len() >= 4,
    ensures
        final(payload)@.len() == old(payload)@.len(),
        old(payload)@.len() < MAX_IP_FRAME_SIZE ==> r is Ok && final(payload)@ == be_bytes4(
            old(payload)@.len(),
        ) + old(payload)@.subrange(4, old(payload)@.len() as int),
        old(payload)@.len() >= MAX_IP_FRAME_SIZE ==> r is Err && r->Err_0 is Strict
            && r->Err_0.spec_code() == PAYLOAD_SIZE_OVERFLOW && final(payload)@ == old(payload)@,
{
    let len = payload.len();
    if len >= MAX_IP_FRAME_SIZE {
        return Err(payload_size_overflow());
    }
    payload[0] = ((len / 16777216) % 256) as u8;
    payload[1] = ((len / 65536) % 256) as u8;
    payload[2] = ((len / 256) % 256) as u8;
    payload[3] = (len % 256) as u8;
    assert(payload@ =~= be_bytes4(old(payload)@.len()) + old(payload)@.subrange(
        4,
        old(payload)@.len() as int,
    ));
    Ok(())
}


/// Writes an IPv4 primary node into bytes 4 to 9 of a header. An IPv6
/// address cannot be encoded and leaves the header as it is.
pub fn primary_node(payload: &mut [u8], node_addr: &Endpoint)
    requires
        old(payload)@.len() >= 10,
    ensures
        final(payload)@.len() == old(payload)@.len(),
        match node_addr.ip {
            IpAddress::V4(ip) => final(payload)@ == old(payload)@.subrange(0, 4)
                + ip.spec_octets() + be_bytes2(node_addr.port as nat) + old(payload)@.subrange(
                10,
                old(payload)@.len() as int,
            ),
            IpAddress::V6(_) => final(payload)@ == old(payload)@,
        },
{
    match node_addr.ip {
        IpAddress::V4(ip) => {
            payload[4] = ip.a;
            payload[5] = ip.b;
            payload[6] = ip.c;
            payload[7] = ip.d;
            payload[8] = ((node_addr.port / 256) % 256) as u8;
            payload[9] = (node_addr.port % 256) as u8;
            assert(payload@ =~= old(payload)@.subrange(0, 4) + ip.spec_octets() + be_bytes2(
                node_addr.port as nat,
            ) + old(payload)@.subrange(10, old(payload)@.len() as int));
        },
        IpAddress::V6(_) => {},
    }
}

/// Frames `payload` for the wire: a header that carries the total length
/// and, where `pnode_addr` is an IPv4 endpoint, the primary node, then the
/// payload itself. A frame that would reach the frame-size limit is refused.
pub fn extend_payload(payload: &[u8], pnode_addr: Option<Endpoint>) -> (r: Result<
    Bytes,
    TunnelError,
>)
    ensures
        payload@.len() + HEADER_SIZE < MAX_IP_FRAME_SIZE ==> r is Ok && bytes_seq(r->Ok_0)
            == frame_bytes(payload@, pnode_addr),
        payload@.len() + HEADER_SIZE >= MAX_IP_FRAME_SIZE ==> r is Err && r->Err_0 is Strict
            && r->Err_0.spec_code() == PAYLOAD_SIZE_OVERFLOW,
{
    if payload.len() >= MAX_IP_FRAME_SIZE - HEADER_SIZE {
        return Err(payload_size_overflow());
    }
    let mut extended_buffer: Vec<u8> = Vec::with_capacity(payload.len() + HEADER_SIZE);
    let mut i: usize = 0;
    while i < HEADER_SIZE
        invariant
            i <= HEADER_SIZE,
            extended_buffer@ == Seq::new(i as nat, |k: int| 0u8),
        decreases HEADER_SIZE - i,
    {
        extended_buffer.push(0u8);
        i = i + 1;
        assert(extended_buffer@ =~= Seq::new(i as nat, |k: int| 0u8));
    }
    let mut j: usize = 0;
    while j < payload.len()
        invariant
            j <= payload@.len(),
            extended_buffer@ == Seq::new(16, |k: int| 0u8) + payload@.subrange(0, j as int),
        decreases payload@.len() - j,
    {
        extended_buffer.push(payload[j]);
        j = j + 1;
        assert(extended_buffer@ =~= Seq::new(16, |k: int| 0u8) + payload@.subrange(0, j as int));
    }
    assert(payload@.subrange(0, j as int) =~= payload@);
    let sized = total_packet_size(extended_buffer.as_mut_slice());
    assert(sized is Ok);
    if let Some(node_addr) = pnode_addr {
        primary_node(extended_buffer.as_mut_slice(), &node_addr);
    }
    assert(extended_buffer@ =~= frame_bytes(payload@, pnode_addr));
    Ok(bytes_from_vec(extended_buffer))
}

/// Decoding the first sixteen bytes of a frame gives back the length that
/// the frame was sized with, the payload's length plus the header's, and the
/// primary node it was routed to: an IPv4 endpoint's address and port, and
/// `0.0.0.0` with port 0 where none, or an IPv6 one, was given.
pub proof fn lemma_decode_of_frame(payload: Seq<u8>, primary: Option<Endpoint>)
    requires
        payload.len() + HEADER_SIZE < MAX_IP_FRAME_SIZE,
    ensures
        decode_spec(frame_bytes(payload, primary).subrange(0, 16)).frame_size == payload.len()
            + HEADER_SIZE,
        match primary {
            Some(Endpoint { ip: IpAddress::V4(ip), port }) => {
                &&& decode_spec(frame_bytes(payload, primary).subrange(0, 16)).primary_node_ip
                    == ip
                &&& decode_spec(frame_bytes(payload, primary).subrange(0, 16)).primary_node_port
                    == port
            },
            _ => {
                &&& decode_spec(
                    frame_bytes(payload, primary).subrange(0, 16),
                ).primary_node_ip.spec_is_unspecified()
                &&& decode_spec(frame_bytes(payload, primary).subrange(0, 16)).primary_node_port
                    == 0
            },
        },
{
    let n = payload.len() + HEADER_SIZE as nat;
    let head = frame_bytes(payload, primary).subrange(0, 16);
    assert(head =~= header_bytes(n, primary));
    assert(head.subrange(0, 4) =~= be_bytes4(n));
    lemma_be_roundtrip4(n);
    match primary {
        Some(Endpoint { ip: IpAddress::V4(ip), port }) => {
            assert(head.subrange(8, 10) =~= be_bytes2(port as nat));
            lemma_be_roundtrip2(port as nat);
        },
        _ => {
            assert(head.subrange(8, 10) =~= seq![0u8, 0u8]);
            lemma_be_value2(seq![0u8, 0u8]);
        },
    }
}

/// A frame is sixteen bytes longer than its payload, and what follows its
/// first sixteen bytes is the payload, byte for byte.
pub proof fn lemma_frame_carries_payload(payload: Seq<u8>, primary: Option<Endpoint>)
    ensures
        frame_bytes(payload, primary).len() == payload.len() + HEADER_SIZE,
        frame_bytes(payload, primary).subrange(
            HEADER_SIZE as int,
            frame_bytes(payload, primary).len() as int,
        ) == payload,
{
    assert(frame_bytes(payload, primary).subrange(
        HEADER_SIZE as int,
        frame_bytes(payload, primary).len() as int,
    ) =~= payload);
}

/// The reserved bytes of a frame, bytes 10 to 15, are zero.
pub proof fn lemma_frame_reserved_zero(payload: Seq<u8>, primary: Option<Endpoint>, i: int)
    requires
        10 <= i < 16,
    ensures
        frame_bytes(payload, primary)[i] == 0,
{
}

} // verus!
