//! Tunnels: their kinds, their errors, the overlay header, and the session
//! rules of the outgoing side.

pub mod errors;
pub mod header;
pub mod incoming;
pub mod outgoing;

use vstd::prelude::*;
use crate::tunnels::errors::TunnelError;

verus! {

/// The transport that a tunnel runs over.
#[derive(Debug, Clone, Copy, PartialEq, Eq, Structural)]
pub enum TunnelType {
    Tls,
    Rtmp,
    Udp,
    Tcp,
    Unknown,
}

/// The tunnel type that a configuration word names.
pub open spec fn tunnel_type_of(word: Seq<char>) -> TunnelType {
    if word == "tls"@ {
        TunnelType::Tls
    } else if word == "rtmp"@ {
        TunnelType::Rtmp
    } else if word == "udp"@ {
        TunnelType::Udp
    } else if word == "tcp"@ {
        TunnelType::Tcp
    } else {
        TunnelType::Unknown
    }
}

impl From<String> for TunnelType {
    fn from(t: String) -> (r: Self) {
        if t == "tls".to_owned() {
            TunnelType::Tls
        } else if t == "rtmp".to_owned() {
            TunnelType::Rtmp
        } else if t == "udp".to_owned() {
            TunnelType::Udp
        } else if t == "tcp".to_owned() {
            TunnelType::Tcp
        } else {
            TunnelType::Unknown
        }
    }
}

impl vstd::std_specs::convert::FromSpecImpl<String> for TunnelType {
    open spec fn obeys_from_spec() -> bool {
        true
    }

    open spec fn from_spec(t: String) -> Self {
        tunnel_type_of(t@)
    }
}

/// An outgoing tunnel driven by blocking calls.
pub trait SyncOutgoingTunnel {
    /// Sends one payload; gives the number of bytes written.
    fn send(&self, payload: &[u8]) -> Result<usize, TunnelError>;

    /// Receives into `buffer`; gives the number of bytes read.
    fn recv(&self, buffer: &mut [u8]) -> Result<usize, TunnelError>;

    /// Receives until `buffer` is full.
    fn recv_exact(&self, buffer: &mut [u8]) -> Result<usize, TunnelError>;

    /// Tries to reach the peer.
    fn check_connect() -> Result<(), TunnelError>;
}

/// A tunnel driven by blocking calls, without exact reads.
pub trait SyncTunnel {
    /// Sends one payload; gives the number of bytes written.
    fn send(&self, payload: &[u8]) -> Result<usize, TunnelError>;

    /// Receives into `buffer`; gives the number of bytes read.
    fn recv(&self, buffer: &mut [u8]) -> Result<usize, TunnelError>;

    /// Tries to reach the peer.
    fn check_connect() -> Result<(), TunnelError>;
}

} // verus!
