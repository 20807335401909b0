//! The relay's packet coordinator: where a framed packet from an incoming
//! tunnel goes, and which peer a reply is sent back to.

use std::sync::Arc;
use vstd::prelude::*;
use bytes::Bytes;
use crate::addr::{Endpoint, IpAddress, Ipv4Address};
use crate::buf::{bytes_as_slice, bytes_seq};
use crate::coordinator::node::Node;
use crate::coordinator::table::{CoordinationTable, ReturnPeer};
use crate::device::util::{
    get_destination_identity, get_source_identity, identity_of, FlowEnd,
};
use crate::tunnels::errors::{TunnelError, NO_PEER_FOUND};
use crate::tunnels::header::{decode, decode_spec, HeaderFrame, HEADER_SIZE};

verus! {

/// Why a packet was dropped.
#[derive(Clone, Copy, Debug, PartialEq, Eq, Structural)]
pub enum DropReason {
    /// The frame holds no payload after its header.
    UnusualSize,
    /// The payload has no source identity.
    NoSourceIdentity,
    /// The payload has no destination identity.
    NoDestinationIdentity,
    /// No return peer is recorded for the destination identity.
    NoCoordination,
}

/// What is to be done with a frame that came in through a tunnel.
#[derive(Debug)]
pub enum IngressAction {
    /// Nothing: the packet is dropped.
    Drop(DropReason),
    /// The payload goes to the local TUN device.
    Tun(Bytes),
    /// The payload, without header, goes out through the tunnel of
    /// `nodes[node]`; where `spawn_demux` is set, the task that reads the
    /// replies of that node is to be started.
    Forward { node: usize, payload: Bytes, spawn_demux: bool },
    /// The header names a primary node that no node record matches.
    Fail(TunnelError),
}

/// What is to be done with a packet that travels back to its originator.
#[derive(Debug)]
pub enum EgressAction {
    /// Nothing: the packet is dropped.
    Drop(DropReason),
    /// The payload is written to `peer` by the incoming tunnel `tunnel_id`.
    Send { tunnel_id: String, peer: String, payload: Bytes },
}

/// Where a rerouted payload goes.
#[derive(Clone, Copy, Debug, PartialEq, Eq, Structural)]
pub struct Route {
    /// Index of the node record.
    pub node: usize,
    /// Whether this is the first packet routed to that primary node.
    pub first: bool,
}

/// The relay's state as the decisions see it.
pub struct RelayState {
    /// Flow identity to return peer: incoming tunnel and peer.
    pub table: Map<Seq<char>, (Seq<char>, Seq<char>)>,
    /// The primary nodes that a packet was already routed to.
    pub primaries: Set<Endpoint>,
    /// The addresses of the known nodes, in order.
    pub nodes: Seq<Endpoint>,
    /// The relay's own address.
    pub machine_addr: Ipv4Address,
}

/// The decision on an incoming frame.
pub enum IngressStep {
    Drop(DropReason),
    Tun(Seq<u8>),
    Forward { node: int, payload: Seq<u8>, spawn_demux: bool },
    NoSuchNode,
}

/// The decision on a packet that travels back.
pub enum EgressStep {
    Drop(DropReason),
    Send { tunnel_id: Seq<char>, peer: Seq<char>, payload: Seq<u8> },
}

/// The header of a frame of more than sixteen bytes.
pub open spec fn frame_header(frame: Seq<u8>) -> HeaderFrame {
    decode_spec(frame.subrange(0, HEADER_SIZE as int))
}

/// What follows the header in a frame.
pub open spec fn frame_payload(frame: Seq<u8>) -> Seq<u8> {
    frame.subrange(HEADER_SIZE as int, frame.len() as int)
}

/// Whether a header asks for another relay: it names a primary node, and
/// not this machine.
pub open spec fn asks_reroute(header: HeaderFrame, machine_addr: Ipv4Address) -> bool {
    !header.primary_node_ip.spec_is_unspecified() && header.primary_node_ip != machine_addr
}

/// The primary node that a header names.
pub open spec fn primary_of(header: HeaderFrame) -> Endpoint {
    Endpoint { ip: IpAddress::V4(header.primary_node_ip), port: header.primary_node_port }
}

/// Whether `i` is the first node with address `addr`.
pub open spec fn is_first_at(nodes: Seq<Endpoint>, addr: Endpoint, i: int) -> bool {
    &&& 0 <= i < nodes.len()
    &&& nodes[i] == addr
    &&& forall|j: int| 0 <= j < i ==> nodes[j] != addr
}

/// The index of the first node with address `addr`.
pub open spec fn first_at(nodes: Seq<Endpoint>, addr: Endpoint) -> int {
    choose|i: int| is_first_at(nodes, addr, i)
}

/// What the relay does with a frame from an incoming tunnel.
pub open spec fn ingress_step(s: RelayState, frame: Seq<u8>) -> IngressStep {
    if frame.len() <= HEADER_SIZE {
        IngressStep::Drop(DropReason::UnusualSize)
    } else if identity_of(frame_payload(frame), FlowEnd::Source) is None {
        IngressStep::Drop(DropReason::NoSourceIdentity)
    } else if asks_reroute(frame_header(frame), s.machine_addr) {
        if s.nodes.contains(primary_of(frame_header(frame))) {
            IngressStep::Forward {
                node: first_at(s.nodes, primary_of(frame_header(frame))),
                payload: frame_payload(frame),
                spawn_demux: !s.primaries.contains(primary_of(frame_header(frame))),
            }
        } else {
            IngressStep::NoSuchNode
        }
    } else {
        IngressStep::Tun(frame_payload(frame))
    }
}

/// The relay's state after a frame came in from `peer` through tunnel
/// `tunnel_id`: a packet that is passed on pins its source identity to that
/// peer, and one that is rerouted makes its primary node known.
pub open spec fn after_ingress(
    s: RelayState,
    tunnel_id: Seq<char>,
    peer: Seq<char>,
    frame: Seq<u8>,
) -> RelayState {
    match ingress_step(s, frame) {
        IngressStep::Drop(_) => s,
        IngressStep::NoSuchNode => s,
        IngressStep::Tun(payload) => RelayState {
            table: s.table.insert(
                identity_of(payload, FlowEnd::Source)->Some_0,
                (tunnel_id, peer),
            ),
            ..s
        },
        IngressStep::Forward { node, payload, spawn_demux } => RelayState {
            table: s.table.insert(
                identity_of(payload, FlowEnd::Source)->Some_0,
                (tunnel_id, peer),
            ),
            primaries: s.primaries.insert(primary_of(frame_header(frame))),
            ..s
        },
    }
}

/// What the relay does with a packet that travels back: one read from the
/// TUN device, or a reply read from a primary node.
pub open spec fn egress_step(s: RelayState, payload: Seq<u8>) -> EgressStep {
    match identity_of(payload, FlowEnd::Destination) {
        None => EgressStep::Drop(DropReason::NoDestinationIdentity),
        Some(identity) => if s.table.contains_key(identity) {
            EgressStep::Send {
                tunnel_id: s.table[identity].0,
                peer: s.table[identity].1,
                payload: payload,
            }
        } else {
            EgressStep::Drop(DropReason::NoCoordination)
        },
    }
}

/// Whether an action is the one that a decision asks for.
pub open spec fn ingress_action_is(action: IngressAction, step: IngressStep) -> bool {
    match action {
        IngressAction::Drop(reason) => step == IngressStep::Drop(reason),
        IngressAction::Tun(payload) => step == IngressStep::Tun(bytes_seq(payload)),
        IngressAction::Forward { node, payload, spawn_demux } => step == (IngressStep::Forward {
            node: node as int,
            payload: bytes_seq(payload),
            spawn_demux: spawn_demux,
        }),
        IngressAction::Fail(e) => step == IngressStep::NoSuchNode && e is Connection
            && e.spec_code() == NO_PEER_FOUND,
    }
}

/// Whether an action is the one that a decision asks for.
pub open spec fn egress_action_is(action: EgressAction, step: EgressStep) -> bool {
    match action {
        EgressAction::Drop(reason) => step == EgressStep::Drop(reason),
        EgressAction::Send { tunnel_id, peer, payload } => step == (EgressStep::Send {
            tunnel_id: tunnel_id@,
            peer: peer@,
            payload: bytes_seq(payload),
        }),
    }
}

/// The relay's packet coordinator.
#[derive(Debug)]
pub struct PacketCoordinator<T> {
    pub coordination_table: CoordinationTable,
    pub nodes: Vec<Arc<Node<T>>>,
    pub primary_nodes: Vec<Endpoint>,
    pub machine_addr: Ipv4Address,
}

impl<T> View for PacketCoordinator<T> {
    type V = RelayState;

    open spec fn view(&self) -> RelayState {
        RelayState {
            table: self.coordination_table@,
            primaries: self.primary_nodes@.to_set(),
            nodes: Seq::new(self.nodes@.len(), |i: int| self.nodes@[i].addr),
            machine_addr: self.machine_addr,
        }
    }
}


/// The sixteen bytes of a header as an array.
fn header_array(head: &[u8]) -> (a: [u8; 16])
    requires
        head@.len() == HEADER_SIZE,
    ensures
        a@ == head@,
{
    let mut a: [u8; 16] = [0u8; 16];
    let mut i: usize = 0;
    while i < HEADER_SIZE
        invariant
            i <= HEADER_SIZE,
            head@.len() == HEADER_SIZE,
            forall|j: int| 0 <= j < i ==> a@[j] == head@[j],
        decreases HEADER_SIZE - i,
    {
        a[i] = head[i];
        i = i + 1;
    }
    assert(a@ =~= head@);
    a
}

impl<T> PacketCoordinator<T> {
    /// A coordinator for the relay at `machine_addr` that can reroute to
    /// `nodes`. Its table is empty and no primary node is known yet.
    pub fn new(machine_addr: Ipv4Address, nodes: Vec<Arc<Node<T>>>) -> (c: Self)
        ensures
            c.nodes == nodes,
            c.machine_addr == machine_addr,
            c@.table == Map::<Seq<char>, (Seq<char>, Seq<char>)>::empty(),
            c@.primaries == Set::<Endpoint>::empty(),
    {
        let c = PacketCoordinator {
            coordination_table: CoordinationTable::new(),
            nodes,
            primary_nodes: Vec::new(),
            machine_addr,
        };
        assert(c@.primaries =~= Set::<Endpoint>::empty());
        c
    }

    /// Records that replies for `identity` go back to `peer`.
    pub fn add_coordination(&mut self, identity: String, peer: ReturnPeer)
        ensures
            final(self)@ == (RelayState {
                table: old(self)@.table.insert(identity@, peer@),
                ..old(self)@
            }),
            final(self).nodes == old(self).nodes,
    {
        self.coordination_table.add_coordination(identity, peer);
    }

    /// The peer that replies for `identity` go back to, if one is recorded.
    pub fn get_coordination(&self, identity: &String) -> (r: Option<ReturnPeer>)
        ensures
            match r {
                Some(p) => self@.table.contains_key(identity@) && self@.table[identity@] == p@,
                None => !self@.table.contains_key(identity@),
            },
    {
        self.coordination_table.get_coordination(identity)
    }

    /// The first node record with address `addr`, if there is one.
    pub fn find_node(&self, addr: Endpoint) -> (r: Option<usize>)
        ensures
            match r {
                Some(i) => is_first_at(self@.nodes, addr, i as int) && i as int == first_at(
                    self@.nodes,
                    addr,
                ),
                None => !self@.nodes.contains(addr),
            },
    {
        let mut i: usize = 0;
        while i < self.nodes.len()
            invariant
                i <= self.nodes@.len(),
                forall|j: int| 0 <= j < i ==> self@.nodes[j] != addr,
            decreases self.nodes@.len() - i,
        {
            if self.nodes[i].addr == addr {
                assert(is_first_at(self@.nodes, addr, i as int));
                return Some(i);
            }
            i = i + 1;
        }
        None
    }

    /// Whether a packet was already routed to the primary node `addr`.
    pub fn is_primary_known(&self, addr: Endpoint) -> (r: bool)
        ensures
            r == self@.primaries.contains(addr),
    {
        let mut i: usize = 0;
        while i < self.primary_nodes.len()
            invariant
                i <= self.primary_nodes@.len(),
                forall|j: int| 0 <= j < i ==> self.primary_nodes@[j] != addr,
            decreases self.primary_nodes@.len() - i,
        {
            if self.primary_nodes[i] == addr {
                return true;
            }
            i = i + 1;
        }
        false
    }

    /// Routes a payload to the primary node `addr`: names the node record
    /// whose tunnel it goes out through, and makes the primary node known.
    /// The first route to a primary node is marked as such, and only that
    /// one. Without a node record of that address nothing changes and the
    /// error says that no peer was found.
    pub fn route_to(&mut self, addr: Endpoint) -> (r: Result<Route, TunnelError>)
        ensures
            final(self).nodes == old(self).nodes,
            match r {
                Ok(route) => {
                    &&& is_first_at(old(self)@.nodes, addr, route.node as int)
                    &&& route.node as int == first_at(old(self)@.nodes, addr)
                    &&& route.first == !old(self)@.primaries.contains(addr)
                    &&& final(self)@ == (RelayState {
                        primaries: old(self)@.primaries.insert(addr),
                        ..old(self)@
                    })
                },
                Err(e) => {
                    &&& !old(self)@.nodes.contains(addr)
                    &&& e is Connection
                    &&& e.spec_code() == NO_PEER_FOUND
                    &&& final(self)@ == old(self)@
                },
            },
    {
        let node = match self.find_node(addr) {
            Some(node) => node,
            None => {
                return Err(TunnelError::Connection(("no such node".to_string(), NO_PEER_FOUND)));
            },
        };
        let first = !self.is_primary_known(addr);
        if first {
            self.primary_nodes.push(addr);
            assert(final(self)@.primaries =~= old(self)@.primaries.insert(addr)) by {
                assert(final(self).primary_nodes@.drop_last() =~= old(self).primary_nodes@);
                assert forall|e: Endpoint|
                    final(self)@.primaries.contains(e) == old(self)@.primaries.insert(
                        addr,
                    ).contains(e) by {
                    if old(self).primary_nodes@.contains(e) {
                        let i = choose|i: int|
                            0 <= i < old(self).primary_nodes@.len() && old(
                                self,
                            ).primary_nodes@[i] == e;
                        assert(final(self).primary_nodes@[i] == e);
                    }
                    if e == addr {
                        assert(final(self).primary_nodes@[old(self).primary_nodes@.len() as int]
                            == e);
                    }
                }
            }
        } else {
            assert(final(self)@.primaries =~= old(self)@.primaries.insert(addr));
        }
        assert(final(self)@.nodes =~= old(self)@.nodes);
        Ok(Route { node, first })
    }

    /// Decides on a frame that came in from `peer` through the incoming
    /// tunnel `tunnel_id`. A frame without payload, or whose payload has no
    /// source identity, is dropped. A frame whose header names another
    /// machine as primary node is rerouted to that node, one that names none
    /// or this machine goes to the TUN device; either way the source
    /// identity is pinned to `peer`.
    pub fn ingress(&mut self, tunnel_id: String, peer: String, payload: Bytes) -> (action:
        IngressAction)
        ensures
            ingress_action_is(action, ingress_step(old(self)@, bytes_seq(payload))),
            final(self)@ == after_ingress(old(self)@, tunnel_id@, peer@, bytes_seq(payload)),
            final(self).nodes == old(self).nodes,
    {
        let ghost frame = bytes_seq(payload);
        let mut payload = payload;
        if payload.len() <= HEADER_SIZE {
            return IngressAction::Drop(DropReason::UnusualSize);
        }
        let header_buffer = payload.split_to(HEADER_SIZE);
        let header_frame = decode(header_array(bytes_as_slice(&header_buffer)));
        let identity = match get_source_identity(bytes_as_slice(&payload)) {
            Some(identity) => identity,
            None => {
                return IngressAction::Drop(DropReason::NoSourceIdentity);
            },
        };
        if !header_frame.primary_node_ip.is_unspecified() && header_frame.primary_node_ip
            != self.machine_addr {
            let primary_node_addr = Endpoint::v4(
                header_frame.primary_node_ip,
                header_frame.primary_node_port,
            );
            match self.route_to(primary_node_addr) {
                Err(e) => IngressAction::Fail(e),
                Ok(route) => {
                    self.add_coordination(identity, ReturnPeer::new(tunnel_id, peer));
                    IngressAction::Forward {
                        node: route.node,
                        payload,
                        spawn_demux: route.first,
                    }
                },
            }
        } else {
            self.add_coordination(identity, ReturnPeer::new(tunnel_id, peer));
            IngressAction::Tun(payload)
        }
    }

    /// Decides on a packet that travels back to its originator, read from
    /// the TUN device: it goes to the peer that its destination identity is
    /// pinned to, and is dropped where it has no identity or none is pinned.
    pub fn egress(&self, payload: Bytes) -> (action: EgressAction)
        ensures
            egress_action_is(action, egress_step(self@, bytes_seq(payload))),
    {
        let identity = match get_destination_identity(bytes_as_slice(&payload)) {
            Some(identity) => identity,
            None => {
                return EgressAction::Drop(DropReason::NoDestinationIdentity);
            },
        };
        match self.get_coordination(&identity) {
            Some(back) => EgressAction::Send {
                tunnel_id: back.tunnel_id,
                peer: back.peer,
                payload,
            },
            None => EgressAction::Drop(DropReason::NoCoordination),
        }
    }

    /// Decides on a reply read from the outgoing tunnel of a primary node:
    /// it is sent back as a packet from the TUN device is.
    pub fn demux_reply(&self, reply: Bytes) -> (action: EgressAction)
        ensures
            egress_action_is(action, egress_step(self@, bytes_seq(reply))),
    {
        self.egress(reply)
    }
}


/// A frame whose header names no primary node, or this machine, goes to the
/// TUN device and pins its source identity to the peer it came from. A
/// packet that then travels back to that identity is sent to that peer
/// through the tunnel the frame came in by.
pub proof fn lemma_local_frame_pins_return_path(
    s: RelayState,
    tunnel_id: Seq<char>,
    peer: Seq<char>,
    frame: Seq<u8>,
    reply: Seq<u8>,
)
    requires
        frame.len() > HEADER_SIZE,
        identity_of(frame_payload(frame), FlowEnd::Source) is Some,
        frame_header(frame).primary_node_ip.spec_is_unspecified() || frame_header(
            frame,
        ).primary_node_ip == s.machine_addr,
        identity_of(reply, FlowEnd::Destination) == identity_of(
            frame_payload(frame),
            FlowEnd::Source,
        ),
    ensures
        ingress_step(s, frame) == IngressStep::Tun(frame_payload(frame)),
        after_ingress(s, tunnel_id, peer, frame).table == s.table.insert(
            identity_of(frame_payload(frame), FlowEnd::Source)->Some_0,
            (tunnel_id, peer),
        ),
        egress_step(after_ingress(s, tunnel_id, peer, frame), reply) == (EgressStep::Send {
            tunnel_id: tunnel_id,
            peer: peer,
            payload: reply,
        }),
{
}

/// A frame whose header names another machine that is among the nodes goes
/// out, without its header, through the first node of that address. The
/// reply task of that primary node is asked for exactly where no packet was
/// routed to it before; after the frame the primary node is known, so a
/// second frame to it asks for none.
pub proof fn lemma_reroute_spawns_once(
    s: RelayState,
    tunnel_id: Seq<char>,
    peer: Seq<char>,
    frame: Seq<u8>,
    tunnel_id2: Seq<char>,
    peer2: Seq<char>,
    frame2: Seq<u8>,
)
    requires
        frame.len() > HEADER_SIZE,
        frame2.len() > HEADER_SIZE,
        identity_of(frame_payload(frame), FlowEnd::Source) is Some,
        identity_of(frame_payload(frame2), FlowEnd::Source) is Some,
        asks_reroute(frame_header(frame), s.machine_addr),
        primary_of(frame_header(frame2)) == primary_of(frame_header(frame)),
        s.nodes.contains(primary_of(frame_header(frame))),
    ensures
        ingress_step(s, frame) == (IngressStep::Forward {
            node: first_at(s.nodes, primary_of(frame_header(frame))),
            payload: frame_payload(frame),
            spawn_demux: !s.primaries.contains(primary_of(frame_header(frame))),
        }),
        is_first_at(
            s.nodes,
            primary_of(frame_header(frame)),
            first_at(s.nodes, primary_of(frame_header(frame))),
        ),
        after_ingress(s, tunnel_id, peer, frame).primaries.contains(
            primary_of(frame_header(frame)),
        ),
        ingress_step(after_ingress(s, tunnel_id, peer, frame), frame2) == (IngressStep::Forward {
            node: first_at(s.nodes, primary_of(frame_header(frame))),
            payload: frame_payload(frame2),
            spawn_demux: false,
        }),
{
    let r = primary_of(frame_header(frame));
    let i = choose|i: int| 0 <= i < s.nodes.len() && s.nodes[i] == r;
    lemma_first_exists(s.nodes, r, i);
}

/// Where some node has address `addr`, a first one has.
proof fn lemma_first_exists(nodes: Seq<Endpoint>, addr: Endpoint, i: int)
    requires
        0 <= i < nodes.len(),
        nodes[i] == addr,
    ensures
        is_first_at(nodes, addr, first_at(nodes, addr)),
    decreases i,
{
    if exists|j: int| 0 <= j < i && nodes[j] == addr {
        let j = choose|j: int| 0 <= j < i && nodes[j] == addr;
        lemma_first_exists(nodes, addr, j);
    } else {
        assert(is_first_at(nodes, addr, i));
    }
}

/// No frame makes the relay forget: the primary nodes known before are
/// known after, every identity pinned before is pinned after, and the nodes
/// and the relay's own address stay as they are.
pub proof fn lemma_ingress_only_adds(
    s: RelayState,
    tunnel_id: Seq<char>,
    peer: Seq<char>,
    frame: Seq<u8>,
)
    ensures
        s.primaries.subset_of(after_ingress(s, tunnel_id, peer, frame).primaries),
        s.table.dom().subset_of(after_ingress(s, tunnel_id, peer, frame).table.dom()),
        after_ingress(s, tunnel_id, peer, frame).nodes == s.nodes,
        after_ingress(s, tunnel_id, peer, frame).machine_addr == s.machine_addr,
{
}

/// A frame of sixteen bytes or fewer, or one whose payload has no source
/// identity, is dropped and changes nothing.
pub proof fn lemma_dropped_frame_changes_nothing(
    s: RelayState,
    tunnel_id: Seq<char>,
    peer: Seq<char>,
    frame: Seq<u8>,
)
    requires
        frame.len() <= HEADER_SIZE || identity_of(frame_payload(frame), FlowEnd::Source) is None,
    ensures
        ingress_step(s, frame) is Drop,
        after_ingress(s, tunnel_id, peer, frame) == s,
{
}

} // verus!
