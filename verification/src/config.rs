//! The configuration as the packet plane reads it.

use vstd::prelude::*;
use crate::tunnels::header::HEADER_SIZE;

verus! {

/// The whole configuration of a client or a relay.
#[derive(Debug, Clone)]
pub struct Config {
    pub device: DeviceConfig,
    pub tunnel: Option<TunnelConfig>,
    pub tunnels: Vec<TunnelConfig>,
    pub rules: Option<ClientRules>,
    pub nodes: Vec<NodeConfig>,
}

/// The `[device]` section.
#[derive(Debug, Clone)]
pub struct DeviceConfig {
    pub name: String,
    pub mtu: u16,
    pub addr: String,
    pub mask: String,
    pub disable_on_exit: bool,
}

/// The network interface section of a client.
#[derive(Debug, Clone)]
pub struct IfaceConfig {
    pub name: String,
    pub mtu: u16,
    pub address: String,
    pub mask: String,
    pub disable_on_exit: bool,
}

/// A `[[tunnels]]` entry: an incoming tunnel of a relay.
#[derive(Debug, Clone)]
pub struct TunnelConfig {
    pub tunnel_type: String,
    pub addr: String,
    pub cert: Option<String>,
    pub key: Option<String>,
}

/// The `[rules]` section of a client.
#[derive(Debug, Clone)]
pub struct ClientRules {
    pub tunnels: Vec<String>,
    pub nodes: u64,
}

/// The client section: which tunnels to use and how many nodes.
#[derive(Debug, Clone)]
pub struct ClientConfig {
    pub tunnels: Vec<String>,
    pub nodes: u64,
}

/// A `[[nodes]]` entry.
#[derive(Debug, Clone)]
pub struct NodeConfig {
    pub id: String,
    pub addr: String,
    pub tunnel: String,
    pub keepalive: Option<u64>,
    pub primary: Option<bool>,
    pub ca: Option<String>,
    pub sni: Option<String>,
}

/// Whether a node entry is marked as primary.
pub open spec fn is_primary(node: NodeConfig) -> bool {
    node.primary == Some(true)
}

/// The first node entry marked as primary, if any is.
pub fn find_primary(nodes: &Vec<NodeConfig>) -> (r: Option<usize>)
    ensures
        match r {
            Some(i) => {
                &&& i < nodes@.len()
                &&& is_primary(nodes@[i as int])
                &&& forall|j: int| 0 <= j < i ==> !is_primary(nodes@[j])
            },
            None => forall|j: int| 0 <= j < nodes@.len() ==> !is_primary(nodes@[j]),
        },
{
    let mut i: usize = 0;
    while i < nodes.len()
        invariant
            i <= nodes@.len(),
            forall|j: int| 0 <= j < i ==> !is_primary(nodes@[j]),
        decreases nodes@.len() - i,
    {
        match nodes[i].primary {
            Some(primary) => {
                if primary {
                    return Some(i);
                }
            },
            None => {},
        }
        i = i + 1;
    }
    None
}

/// The largest frame that a node's tunnel carries: a datagram of the
/// device's MTU behind a header.
pub fn max_fragment_size(mtu: u16) -> (n: usize)
    ensures
        n == mtu + HEADER_SIZE,
{
    mtu as usize + HEADER_SIZE
}

} // verus!
