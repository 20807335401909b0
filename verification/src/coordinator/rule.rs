//! Rules that narrow the client's choice of node.

use vstd::prelude::*;
use crate::tunnels::TunnelType;

verus! {

/// The rules a node coordinator follows when it picks a node.
#[derive(Debug, Clone)]
pub struct CoodinatorRules {
    pub filter: Option<CoordinatorNodeFilter>,
}

/// Which tunnels may be used, and how many nodes at once.
#[derive(Debug, Clone)]
pub struct CoordinatorNodeFilter {
    pub tunnels: Vec<TunnelType>,
    pub nodes: u64,
}

} // verus!
