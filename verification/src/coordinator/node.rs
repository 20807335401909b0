//! The client's node coordinator: which node an outbound packet goes to, and
//! which nodes' replies are already being read.

use std::sync::Arc;
use vstd::prelude::*;
use crate::addr::Endpoint;
use crate::coordinator::rule::CoodinatorRules;
use crate::tunnels::TunnelType;

verus! {

/// A node that traffic can be sent through. `tunnel` is the handle of its
/// outgoing tunnel.
#[derive(Debug)]
pub struct Node<T> {
    pub id: String,
    pub addr: Endpoint,
    pub tunnel_type: TunnelType,
    pub tunnel: T,
    pub max_fragment_size: usize,
}

/// `rand::random_range(0..n)`: a number drawn from the thread's generator.
/// Every outcome lies in the range; the call panics on an empty range,
/// which `requires` leaves out.
#[verifier::external_body]
fn random_index(n: usize) -> (r: usize)
    requires
        n > 0,
    ensures
        r < n,
{
    rand::random_range(0..n)
}

/// The ids in `s`, as a set.
pub open spec fn id_set(s: Seq<String>) -> Set<Seq<char>> {
    Set::new(|id: Seq<char>| exists|i: int| 0 <= i < s.len() && s[i]@ == id)
}

/// Picks nodes for outbound packets and remembers which nodes are
/// subscribed to.
#[derive(Debug)]
pub struct NodeCoordinator<T> {
    pub nodes: Vec<Arc<Node<T>>>,
    pub subscribes: Vec<String>,
    pub rules: Option<CoodinatorRules>,
}

impl<T> NodeCoordinator<T> {
    /// The ids of the nodes whose replies are being read.
    pub open spec fn subscribed(&self) -> Set<Seq<char>> {
        id_set(self.subscribes@)
    }

    /// The index of the node that a packet goes to when `draw` was drawn:
    /// the first node where rules are set, else the node drawn.
    pub open spec fn choice(&self, draw: usize) -> usize {
        if self.rules is Some {
            0
        } else {
            draw
        }
    }

    /// A coordinator over `nodes`, without rules and with no node
    /// subscribed to.
    pub fn new(nodes: Vec<Arc<Node<T>>>) -> (c: Self)
        ensures
            c.nodes == nodes,
            c.rules is None,
            c.subscribed() == Set::<Seq<char>>::empty(),
    {
        let c = NodeCoordinator { nodes, rules: None, subscribes: Vec::new() };
        assert(c.subscribed() =~= Set::<Seq<char>>::empty());
        c
    }

    /// The index of the node to use once `draw` has been drawn among the
    /// nodes.
    pub fn node_index(&self, draw: usize) -> (i: usize)
        requires
            draw < self.nodes@.len(),
        ensures
            i == self.choice(draw),
            i < self.nodes@.len(),
    {
        if self.rules.is_some() {
            0
        } else {
            draw
        }
    }

    /// The node for the next outbound packet: the first node where rules
    /// are set, else one drawn at random among all.
    pub fn pick_node(&self) -> (node: Arc<Node<T>>)
        requires
            self.nodes@.len() > 0,
        ensures
            exists|i: int| 0 <= i < self.nodes@.len() && node == self.nodes@[i],
            self.rules is Some ==> node == self.nodes@[0],
    {
        if self.rules.is_some() {
            return self.pick_policy_node();
        }
        self.pick_random_node()
    }

    /// A node drawn at random among all.
    pub fn pick_random_node(&self) -> (node: Arc<Node<T>>)
        requires
            self.nodes@.len() > 0,
        ensures
            exists|i: int| 0 <= i < self.nodes@.len() && node == self.nodes@[i],
    {
        let n = self.nodes.len();
        let rand_n = random_index(n);
        self.nodes[rand_n].clone()
    }

    /// The node that the rules name: the first.
    pub fn pick_policy_node(&self) -> (node: Arc<Node<T>>)
        requires
            self.nodes@.len() > 0,
        ensures
            node == self.nodes@[0],
    {
        self.nodes[0].clone()
    }

    /// Whether replies of node `node_id` are being read.
    pub fn is_subscribed(&self, node_id: &String) -> (r: bool)
        ensures
            r == self.subscribed().contains(node_id@),
    {
        let mut i: usize = 0;
        while i < self.subscribes.len()
            invariant
                i <= self.subscribes@.len(),
                forall|j: int| 0 <= j < i ==> self.subscribes@[j]@ != node_id@,
            decreases self.subscribes@.len() - i,
        {
            if self.subscribes[i] == *node_id {
                return true;
            }
            i = i + 1;
        }
        false
    }

    /// Subscribes to node `node_id` unless that was done before. Gives
    /// `true` exactly where it was not: the caller then starts the task that
    /// reads the node's replies, once per node.
    pub fn subscribe_to_node(&mut self, node_id: &String) -> (first: bool)
        ensures
            first == !old(self).subscribed().contains(node_id@),
            final(self).subscribed() == old(self).subscribed().insert(node_id@),
            final(self).nodes == old(self).nodes,
            final(self).rules == old(self).rules,
    {
        if self.is_subscribed(node_id) {
            assert(self.subscribed() =~= self.subscribed().insert(node_id@));
            false
        } else {
            let ghost before = self.subscribes@;
            self.subscribes.push(node_id.clone());
            assert forall|id: Seq<char>|
                final(self).subscribed().contains(id) == old(self).subscribed().insert(
                    node_id@,
                ).contains(id) by {
                if old(self).subscribed().insert(node_id@).contains(id) {
                    if id == node_id@ {
                        assert(final(self).subscribes@[before.len() as int]@ == id);
                    } else {
                        let i = choose|i: int| 0 <= i < before.len() && before[i]@ == id;
                        assert(final(self).subscribes@[i]@ == id);
                    }
                }
            }
            assert(final(self).subscribed() =~= old(self).subscribed().insert(node_id@));
            true
        }
    }
}

} // verus!
