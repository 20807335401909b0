//! The incoming UDP tunnel: datagrams from any peer, one frame each.

use vstd::prelude::*;
use crate::tunnels::header::HEADER_SIZE;

verus! {

/// Size of the buffer that a datagram is received into.
pub const RECV_BUFFER_SIZE: usize = 1500;

/// The part of a receive buffer that a datagram of `n` bytes filled.
pub fn received(buffer: &[u8], n: usize) -> (datagram: &[u8])
    requires
        n <= buffer@.len(),
    ensures
        datagram@ == buffer@.subrange(0, n as int),
{
    vstd::slice::slice_subrange(buffer, 0, n)
}

/// Whether a datagram holds a header and at least one byte of payload, as
/// the coordinator asks of a frame.
pub fn carries_payload(datagram: &[u8]) -> (r: bool)
    ensures
        r == (datagram@.len() > HEADER_SIZE),
{
    datagram.len() > HEADER_SIZE
}

} // verus!
