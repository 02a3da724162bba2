//! The operator graph as this core consumes it: an arena of slots indexed by
//! stable integer ids, supplied by the graph-construction collaborator. The
//! core reads only each node's domain, address and successors, and takes the
//! node payload out of its slot when a descriptor is built.

use vstd::prelude::*;
use crate::message::NodeAddress;
use crate::node::NodeType;

verus! {

/// One arena slot: topology that stays behind, and the node payload a
/// descriptor takes ownership of.
pub struct GraphNode<O> {
    /// The domain this node runs in.
    pub domain: usize,
    /// The node's address within its domain.
    pub addr: NodeAddress,
    /// The node payload; taken when the descriptor is built, leaving the slot
    /// as a topology-only marker.
    pub payload: Option<NodeType<O>>,
    /// The arena indices of this node's successors.
    pub successors: Vec<usize>,
}

/// The operator graph arena.
pub struct Graph<O> {
    pub nodes: Vec<GraphNode<O>>,
}

impl<O> Graph<O> {
    /// Every successor index points back into the arena.
    pub open spec fn wf(&self) -> bool {
        forall|i: int, k: int|
            0 <= i < self.nodes@.len() && 0 <= k < self.nodes@[i].successors@.len() ==> (
            #[trigger] self.nodes@[i].successors@[k]) < self.nodes@.len()
    }
}

} // verus!
