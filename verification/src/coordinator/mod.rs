//! Coordination: which return path a flow is pinned to, and which node a
//! packet goes to.

pub mod node;
pub mod packet;
pub mod rule;
pub mod table;
