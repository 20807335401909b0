//! Packet plane of a multi-path overlay VPN: the overlay header codec, flow
//! identities of inner IP datagrams, the relay's coordination table and routing
//! decisions, the client's node selection, and the session rules of outgoing
//! tunnels.

pub mod addr;
pub mod buf;
pub mod config;
pub mod coordinator;
pub mod device;
pub mod text;
pub mod tunnels;
pub mod types;
pub mod wire;
