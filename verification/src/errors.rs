//! Errors of the cluster node and of the actor registry.

use vstd::prelude::*;

use crate::actor_registry::ActorRegistryError;
use crate::node_item::NodeId;
use crate::text::{append_decimal, append_str, decimal};
use crate::transport::ServerError;

verus! {

/// A node that the cluster does not know.
#[derive(Debug)]
pub struct NodeNotFoundError {
    node_id: String,
}

impl NodeNotFoundError {
    /// The text of the missing node's id.
    pub closed spec fn spec_node_id(&self) -> Seq<char> {
        self.node_id@
    }

    /// The error for node `node_id`.
    pub fn new(node_id: NodeId) -> (e: NodeNotFoundError)
        ensures
            e.spec_node_id() == decimal(node_id as nat),
    {
        NodeNotFoundError { node_id: crate::text::u64_to_decimal(node_id) }
    }

    /// The error message: `Node '{id}' not found`.
    pub fn to_string(&self) -> (msg: String)
        ensures
            msg@ == "Node '"@ + self.spec_node_id() + "' not found"@,
    {
        let mut s = String::new();
        append_str(&mut s, "Node '");
        append_str(&mut s, self.node_id.as_str());
        append_str(&mut s, "' not found");
        s
    }
}

/// Why attaching a node to the leader failed.
#[derive(Debug)]
pub enum AttachError {
    /// Network communication error (the message says why).
    SendError(String),
    /// The leader refused the node (the message says why).
    AttachNodeError(String),
    /// The answer channel failed (the message says why).
    ReceiveError(String),
    /// Leader node is not found.
    LeaderNodeIsNotFound { id: NodeId },
}

impl AttachError {
    /// The message of a missing leader: `Leader Node {id} is not found`.
    pub fn leader_not_found_message(id: NodeId) -> (msg: String)
        ensures
            msg@ == "Leader Node "@ + decimal(id as nat) + " is not found"@,
    {
        let mut s = String::new();
        append_str(&mut s, "Leader Node ");
        append_decimal(&mut s, id);
        append_str(&mut s, " is not found");
        s
    }
}

/// Node General Error.
#[derive(Debug)]
pub enum NodeError {
    AttachToLeaderError(AttachError),
    ActorRegistryError(ActorRegistryError),
    ServerStartError(ServerError),
    /// The server stopped with an error (the message says why).
    ServerRunError(String),
    /// The current thread has no actor system.
    ThreadDoesntHaveSystem,
}

} // verus!
