//! The inner IP datagram: what the packet plane reads of it.

pub mod checksum;
pub mod config;
pub mod packet;
pub mod util;

use vstd::prelude::*;

verus! {

/// How many messages a channel between two tasks holds before its producer
/// has to wait.
pub const DEVICE_BUFFER_SIZE: usize = 1024;

} // verus!
