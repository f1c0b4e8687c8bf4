//! Cluster members: a node id and the network address the node listens on.

use vstd::prelude::*;

verus! {

/// Id of a cluster node.
pub type NodeId = u64;

/// A cluster node known to the configuration.
#[derive(Debug, Hash)]
pub struct NodeItem {
    pub id: NodeId,
    pub addr: String,
}

impl View for NodeItem {
    type V = (u64, Seq<char>);

    open spec fn view(&self) -> (u64, Seq<char>) {
        (self.id, self.addr@)
    }
}

impl NodeItem {
    /// A node with the given id and address.
    pub fn new(id: NodeId, addr: &str) -> (node: NodeItem)
        ensures
            node.id == id,
            node.addr@ == addr@,
    {
        NodeItem { id, addr: addr.to_owned() }
    }

    /// A copy of this node.
    pub fn duplicate(&self) -> (copy: NodeItem)
        ensures
            copy@ == self@,
    {
        NodeItem { id: self.id, addr: self.addr.clone() }
    }
}

} // verus!
