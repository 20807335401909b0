//! Names for what travels between the tasks of a client or a relay.

use vstd::prelude::*;
use bytes::Bytes;

verus! {

/// The `ip:port` text of one end of a flow.
pub type Identity = String;

/// One IP datagram read from, or to be written to, the TUN device.
pub type DeviceMessage = Bytes;

/// A payload with the incoming tunnel and the peer it came from, or goes to.
pub type PacketCoordinatorMessage = (String, String, DeviceMessage);

} // verus!
