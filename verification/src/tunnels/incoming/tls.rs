//! The incoming TLS tunnel: frames read off a stream, header first.

use vstd::prelude::*;
use bytes::Bytes;
use crate::buf::bytes_seq;
use crate::tunnels::errors::{TunnelError, PAYLOAD_SIZE_OVERFLOW};
use crate::addr::Endpoint;
use crate::tunnels::header::{
    decode_spec, extend_payload, frame_bytes, lemma_decode_of_frame, HeaderFrame, HEADER_SIZE,
    MAX_IP_FRAME_SIZE,
};

verus! {

/// Whether a frame size is one that a sender can have written: the header
/// at least, and under the frame-size limit.
pub open spec fn valid_frame_size(frame_size: u32) -> bool {
    HEADER_SIZE <= frame_size < MAX_IP_FRAME_SIZE
}

/// How many bytes of payload follow a header on the stream: the frame size
/// less the header. A header with a frame size that no sender writes gives
/// nothing, and the frame is not read.
pub fn payload_size(header_frame: &HeaderFrame) -> (r: Option<usize>)
    ensures
        valid_frame_size(header_frame.frame_size) ==> r == Some(
            (header_frame.frame_size - HEADER_SIZE) as usize,
        ),
        !valid_frame_size(header_frame.frame_size) ==> r is None,
{
    let frame_size = header_frame.frame_size as usize;
    if frame_size < HEADER_SIZE || frame_size >= MAX_IP_FRAME_SIZE {
        None
    } else {
        Some(frame_size - HEADER_SIZE)
    }
}

/// What to write back to a peer: the payload behind a header that names no
/// primary node, or nothing where the peer is not connected, in which case
/// zero bytes count as written and no error is raised. A frame that would
/// reach the frame-size limit is refused.
pub fn frame_for_peer(peer_known: bool, payload: &[u8]) -> (r: Result<Option<Bytes>, TunnelError>)
    ensures
        !peer_known ==> (r matches Ok(None)),
        peer_known && payload@.len() + HEADER_SIZE < MAX_IP_FRAME_SIZE ==> (r matches Ok(Some(b))
            && bytes_seq(b) == frame_bytes(payload@, None)),
        peer_known && payload@.len() + HEADER_SIZE >= MAX_IP_FRAME_SIZE ==> r is Err
            && r->Err_0 is Strict && r->Err_0.spec_code() == PAYLOAD_SIZE_OVERFLOW,
{
    if !peer_known {
        return Ok(None);
    }
    match extend_payload(payload, None) {
        Ok(frame) => Ok(Some(frame)),
        Err(e) => Err(e),
    }
}


/// The header of every frame that a sender writes announces a valid frame
/// size, the length of the frame itself, so that a reader who takes sixteen
/// bytes and then the announced payload has read one whole frame.
pub proof fn lemma_frame_announces_itself(payload: Seq<u8>, primary: Option<Endpoint>)
    requires
        payload.len() + HEADER_SIZE < MAX_IP_FRAME_SIZE,
    ensures
        valid_frame_size(decode_spec(frame_bytes(payload, primary).subrange(0, 16)).frame_size),
        decode_spec(frame_bytes(payload, primary).subrange(0, 16)).frame_size == frame_bytes(
            payload,
            primary,
        ).len(),
        decode_spec(frame_bytes(payload, primary).subrange(0, 16)).frame_size - HEADER_SIZE
            == payload.len(),
{
    lemma_decode_of_frame(payload, primary);
}

} // verus!
