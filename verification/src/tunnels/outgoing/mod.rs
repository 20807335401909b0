//! Outgoing tunnels: how they are configured and when their session is
//! made, kept and renewed. The sockets themselves live with the caller.

pub mod session;
pub mod tls;
pub mod udp;

use vstd::prelude::*;

verus! {

/// The outgoing tunnel of a node record: UDP.
pub type OutgoingTunnel = udp::UDPTunnel;

} // verus!
