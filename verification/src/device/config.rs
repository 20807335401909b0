//! Settings of the TUN device.

use vstd::prelude::*;

verus! {

/// How the TUN device is set up.
#[derive(Debug, Clone)]
pub struct DeviceConfig {
    pub name: String,
    pub mtu: u16,
    pub addr: String,
    pub mask: String,
    pub disable_on_exit: bool,
}

} // verus!
