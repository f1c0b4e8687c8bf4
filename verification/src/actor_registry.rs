//! The actors a node knows how to reach, and how a request for an actor that
//! is not known yet is served: reach it remotely, activate it here, or refuse.

use vstd::prelude::*;

use crate::nodes_registry::{
    actor_key, placement_of, ActorFromNodes, ActorPlacements, NodesRegistry, Placement,
    RemoteActorAddr,
};
use crate::table::StringTable;

verus! {

/// Why an actor could not be reached.
#[derive(Debug)]
pub enum ActorRegistryError {
    /// Activating the actor failed (the message says why).
    ActivatorError(String),
    /// Sending to a local actor failed (the message says why).
    LocalSendError(String),
    /// Sending to a remote actor failed (the message says why).
    RemoteSendError(String),
    /// No node is known for the actor.
    NodeNotFound,
}

/// What to do for an actor that is not known yet, once the nodes registry
/// has said where it lives.
#[derive(Debug)]
pub enum ActivationStep {
    /// Remember it as a remote actor at this address.
    AddRemote(RemoteActorAddr),
    /// Start it on this node and remember it as local.
    ActivateLocal,
    /// Refuse the request.
    Fail(ActorRegistryError),
}

/// The step for an actor that is not known yet, from where the nodes
/// registry says it lives.
pub fn activation_step(from_nodes: ActorFromNodes) -> (step: ActivationStep)
    ensures
        match from_nodes {
            ActorFromNodes::Remote(a) => step matches ActivationStep::AddRemote(b) && b == a,
            ActorFromNodes::Local => step is ActivateLocal,
            ActorFromNodes::NotFound => step matches ActivationStep::Fail(e) && e is NodeNotFound,
        },
{
    match from_nodes {
        ActorFromNodes::Remote(a) => ActivationStep::AddRemote(a),
        ActorFromNodes::Local => ActivationStep::ActivateLocal,
        ActorFromNodes::NotFound => ActivationStep::Fail(ActorRegistryError::NodeNotFound),
    }
}

/// How a request for an actor is served.
pub enum Activation<'a, N> {
    /// The actor is known, through this handle.
    Known(&'a N),
    /// The actor is not known yet; this step reaches it or refuses.
    Step(ActivationStep),
}

/// The actors this node has reached so far, by actor id, with the handle
/// (`N`) used to talk to each.
pub struct ActorRegistry<N> {
    actors: StringTable<N>,
}

impl<N> ActorRegistry<N> {
    /// The handle of each known actor, by id.
    pub closed spec fn actors(&self) -> Map<Seq<char>, N> {
        self.actors.map()
    }

    /// No actor known yet.
    pub fn new() -> (registry: ActorRegistry<N>)
        ensures
            registry.actors() == Map::<Seq<char>, N>::empty(),
    {
        ActorRegistry { actors: StringTable::new() }
    }

    /// The handle of the actor `id`, when it is known.
    pub fn extract_node(&self, id: &str) -> (node: Option<&N>)
        ensures
            match node {
                Some(n) => self.actors().dom().contains(id@) && *n == self.actors()[id@],
                None => !self.actors().dom().contains(id@),
            },
    {
        self.actors.get(id)
    }

    /// How to serve a request for the actor of type `name` with id `id`: the
    /// known handle when there is one; otherwise the step that where `nodes`
    /// places the actor leads to (see `activation_step`).
    pub fn get_or_activate_node(
        &self,
        nodes: &NodesRegistry,
        placements: &ActorPlacements,
        name: &str,
        id: &str,
    ) -> (r: Activation<'_, N>)
        ensures
            activation_answer(*self, *nodes, *placements, name@, id@, r),
    {
        match self.extract_node(id) {
            Some(n) => Activation::Known(n),
            None => Activation::Step(activation_step(nodes.get_actor(placements, name, id))),
        }
    }

    /// Remembers `node` as the handle of actor `id`, replacing an older one.
    pub fn add_node(&mut self, id: String, node: N)
        ensures
            final(self).actors() == old(self).actors().insert(id@, node),
    {
        let _ = self.actors.insert(id, node);
    }

    /// The ids of all known actors, each once.
    pub fn get_members(&self) -> (ids: Vec<String>)
        ensures
            forall|i: int| 0 <= i < ids.len() ==> self.actors().dom().contains(#[trigger] ids[i]@),
            forall|k: Seq<char>|
                self.actors().dom().contains(k) ==> exists|i: int|
                    0 <= i < ids.len() && #[trigger] ids[i]@ == k,
            forall|i: int, j: int|
                0 <= i < ids.len() && 0 <= j < ids.len() && i != j ==> (#[trigger] ids[i])@
                    != (#[trigger] ids[j])@,
    {
        self.actors.keys()
    }
}

/// `r` is an answer `get_or_activate_node` can give for the actor of type
/// `name` with id `id`: its handle when it is known; otherwise the step that
/// its placement leads to, where for another node the read of that node in
/// the configuration decides between reaching it at the address read and
/// refusing.
pub open spec fn activation_answer<'a, N>(
    registry: ActorRegistry<N>,
    nodes: NodesRegistry,
    placements: ActorPlacements,
    name: Seq<char>,
    id: Seq<char>,
    r: Activation<'a, N>,
) -> bool {
    &&& registry.actors().dom().contains(id) ==> (r matches Activation::Known(n) && *n
        == registry.actors()[id])
    &&& !registry.actors().dom().contains(id) ==> match placement_of(
        placements.placements().get(actor_key(name, id)),
        nodes.this_node(),
    ) {
        Placement::Local => r matches Activation::Step(s) && s is ActivateLocal,
        Placement::Unplaced => r matches Activation::Step(ActivationStep::Fail(e))
            && e is NodeNotFound,
        Placement::OnNode(k) => (r matches Activation::Step(ActivationStep::Fail(e))
            && e is NodeNotFound && nodes.node_answer(k, None)) || (r matches Activation::Step(
            ActivationStep::AddRemote(a),
        ) && a.id@ == id && nodes.node_answer(k, Some(a.addr@))),
    }
}

/// An actor is activated once: after `add_node`, `get_or_activate_node`
/// answers with the handle it was added with, wherever the actor is placed.
pub proof fn lemma_added_actor_is_found<'a, N>(
    before: ActorRegistry<N>,
    after: ActorRegistry<N>,
    nodes: NodesRegistry,
    placements: ActorPlacements,
    name: Seq<char>,
    id: Seq<char>,
    node: N,
    r: Activation<'a, N>,
)
    requires
        after.actors() == before.actors().insert(id, node),
        activation_answer(after, nodes, placements, name, id, r),
    ensures
        r matches Activation::Known(n) && *n == node,
{
}

} // verus!
