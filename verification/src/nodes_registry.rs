//! Where actors live: the placement of each actor on a cluster node, and how
//! a request for an actor is answered from it.

use std::collections::HashSet;
use vstd::prelude::*;

use crate::cluster_nodes_config::{
    ClusterNodesConfig, ClusterNodesConfigHandle, ClusterNodesConfigHandleFactory,
};
use crate::node_item::{NodeId, NodeItem};
use crate::table::StringTable;

verus! {

/// How to reach an actor that lives on another node: the actor's id and the
/// address of its node.
#[derive(Debug)]
pub struct RemoteActorAddr {
    pub id: String,
    pub addr: String,
}

/// Where a requested actor lives, as far as the nodes registry knows.
#[derive(Debug)]
pub enum ActorFromNodes {
    /// On another node, reachable at this address.
    Remote(RemoteActorAddr),
    /// On this node.
    Local,
    /// Nowhere the registry knows of.
    NotFound,
}

/// The key of an actor in the placement table: `{actor type name}:{actor id}`.
pub open spec fn actor_key(name: Seq<char>, id: Seq<char>) -> Seq<char> {
    name + ":"@ + id
}

/// Builds the placement key of the actor of type `name` with id `id`.
pub fn build_actor_id(name: &str, id: &str) -> (key: String)
    ensures
        key@ == actor_key(name@, id@),
{
    let mut key = name.to_owned();
    crate::text::append_str(&mut key, ":");
    crate::text::append_str(&mut key, id);
    assert(key@ =~= actor_key(name@, id@));
    key
}

/// Which node each registered actor was placed on. One table is shared by all
/// the nodes registries of a cluster node.
pub struct ActorPlacements {
    table: StringTable<NodeId>,
}

impl ActorPlacements {
    /// The node of each registered actor, by actor key.
    pub closed spec fn placements(&self) -> Map<Seq<char>, NodeId> {
        self.table.map()
    }

    /// No actor placed yet.
    pub fn new() -> (placements: ActorPlacements)
        ensures
            placements.placements() == Map::<Seq<char>, NodeId>::empty(),
    {
        ActorPlacements { table: StringTable::new() }
    }

    /// The node the actor with this key was placed on, if any.
    pub fn node_of(&self, key: &str) -> (node: Option<NodeId>)
        ensures
            node == self.placements().get(key@),
    {
        match self.table.get(key) {
            Some(n) => Some(*n),
            None => None,
        }
    }
}

/// What a lookup of an actor's placement leads to.
pub enum Placement {
    /// The actor lives on this node.
    Local,
    /// The actor lives on the given other node, whose address the
    /// configuration gives.
    OnNode(NodeId),
    /// The actor is not placed.
    Unplaced,
}

/// The meaning of a placement for the node `this_node`.
pub open spec fn placement_of(placed: Option<NodeId>, this_node: NodeId) -> Placement {
    match placed {
        Some(n) => if n == this_node {
            Placement::Local
        } else {
            Placement::OnNode(n)
        },
        None => Placement::Unplaced,
    }
}

/// The answer for an actor placed on another node, from what the
/// configuration knows of that node: its address, or nothing.
pub fn remote_actor(id: &str, node: Option<NodeItem>) -> (found: ActorFromNodes)
    ensures
        match node {
            Some(n) => found matches ActorFromNodes::Remote(a) && a.id@ == id@ && a.addr@
                == n.addr@,
            None => found is NotFound,
        },
{
    match node {
        Some(n) => ActorFromNodes::Remote(RemoteActorAddr { id: id.to_owned(), addr: n.addr }),
        None => ActorFromNodes::NotFound,
    }
}

/// Produces nodes registries for one cluster configuration.
pub struct NodesRegistryFactory {
    config_factory: ClusterNodesConfigHandleFactory,
}

impl NodesRegistryFactory {
    /// The node the registries are for.
    pub closed spec fn this_node(&self) -> NodeId {
        self.config_factory.this_node()
    }

    /// A factory of registries reading `config`.
    pub fn new(config: &ClusterNodesConfig) -> (factory: NodesRegistryFactory)
        ensures
            factory.this_node() == config.this_node(),
    {
        NodesRegistryFactory { config_factory: config.factory() }
    }

    /// A new registry with its own read handle on the configuration.
    pub fn create(&self) -> (registry: NodesRegistry)
        ensures
            registry.this_node() == self.this_node(),
    {
        NodesRegistry { config: self.config_factory.create() }
    }
}

/// The view of one user of the cluster on where actors and nodes are.
pub struct NodesRegistry {
    config: ClusterNodesConfigHandle,
}

impl NodesRegistry {
    /// The node this registry runs on.
    pub closed spec fn this_node(&self) -> NodeId {
        self.config.this_node()
    }

    /// The node this registry runs on.
    pub fn this_node_id(&self) -> (id: NodeId)
        ensures
            id == self.this_node(),
    {
        self.config.this_node_id()
    }

    /// Places the actor of type `name` with id `id` on node `node_id`,
    /// replacing any earlier placement of it.
    pub fn register_actor(
        &self,
        placements: &mut ActorPlacements,
        name: &str,
        id: &str,
        node_id: NodeId,
    )
        ensures
            final(placements).placements() == old(placements).placements().insert(
                actor_key(name@, id@),
                node_id,
            ),
    {
        let key = build_actor_id(name, id);
        let _ = placements.table.insert(key, node_id);
    }

    /// Where the actor of type `name` with id `id` lives: locally when it was
    /// placed on this node, remotely when it was placed on a node the
    /// configuration knows, and not found otherwise.
    pub fn get_actor(&self, placements: &ActorPlacements, name: &str, id: &str) -> (found:
        ActorFromNodes)
        ensures
            get_actor_answer(*self, *placements, name@, id@, found),
    {
        let key = build_actor_id(name, id);
        match placements.node_of(key.as_str()) {
            Some(node_id) => {
                if node_id == self.config.this_node_id() {
                    return ActorFromNodes::Local;
                }
                remote_actor(id, self.config.node_by_id(&node_id))
            },
            None => ActorFromNodes::NotFound,
        }
    }

    /// `answer` is what a read of node `id` in the configuration can give.
    pub closed spec fn node_answer(&self, id: NodeId, answer: Option<Seq<char>>) -> bool {
        self.config.node_answer(id, answer)
    }

    /// `ids` is what a read of all node ids in the configuration can give.
    pub closed spec fn ids_answer(&self, ids: Set<NodeId>) -> bool {
        self.config.ids_answer(ids)
    }

    /// The ids of all nodes of the cluster, as a read of the configuration
    /// gives them.
    pub fn get_members(&self) -> (ids: HashSet<NodeId>)
        ensures
            self.ids_answer(ids@),
    {
        self.config.all_node_ids()
    }
}

/// `found` is an answer `get_actor` can give for the actor of type `name`
/// with id `id`: local when it is placed on this node, not found when it is
/// not placed, and for another node what a read of that node in the
/// configuration gave: not found when the read gave nothing, and that actor,
/// remote at the address read, otherwise.
pub open spec fn get_actor_answer(
    registry: NodesRegistry,
    placements: ActorPlacements,
    name: Seq<char>,
    id: Seq<char>,
    found: ActorFromNodes,
) -> bool {
    match placement_of(placements.placements().get(actor_key(name, id)), registry.this_node()) {
        Placement::Local => found is Local,
        Placement::Unplaced => found is NotFound,
        Placement::OnNode(k) => (found is NotFound && registry.node_answer(k, None)) || (
        found matches ActorFromNodes::Remote(a) && a.id@ == id && registry.node_answer(
            k,
            Some(a.addr@),
        )),
    }
}

/// Registering an actor on a node and then asking for it finds it there:
/// `get_actor` after `register_actor` answers local when the node is this
/// one, and otherwise what a read of that node in the configuration gave.
pub proof fn lemma_register_then_get_actor(
    registry: NodesRegistry,
    before: ActorPlacements,
    after: ActorPlacements,
    name: Seq<char>,
    id: Seq<char>,
    node: NodeId,
    found: ActorFromNodes,
)
    requires
        after.placements() == before.placements().insert(actor_key(name, id), node),
        get_actor_answer(registry, after, name, id, found),
    ensures
        node == registry.this_node() ==> found is Local,
        node != registry.this_node() ==> (found is NotFound && registry.node_answer(node, None)) || (
        found matches ActorFromNodes::Remote(a) && a.id@ == id && registry.node_answer(
            node,
            Some(a.addr@),
        )),
{
}

/// Registering one actor leaves every other actor where it was: `get_actor`
/// for another actor answers after `register_actor` as it could before.
pub proof fn lemma_register_keeps_others(
    registry: NodesRegistry,
    before: ActorPlacements,
    after: ActorPlacements,
    name: Seq<char>,
    id: Seq<char>,
    node: NodeId,
    other_name: Seq<char>,
    other_id: Seq<char>,
    found: ActorFromNodes,
)
    requires
        after.placements() == before.placements().insert(actor_key(name, id), node),
        actor_key(other_name, other_id) != actor_key(name, id),
    ensures
        get_actor_answer(registry, after, other_name, other_id, found) <==> get_actor_answer(
            registry,
            before,
            other_name,
            other_id,
            found,
        ),
{
    assert(after.placements().get(actor_key(other_name, other_id)) == before.placements().get(
        actor_key(other_name, other_id),
    ));
}

/// The placement key holds the whole type name and the whole id: the name,
/// then `:`, then the id.
pub proof fn lemma_actor_key_parts(name: Seq<char>, id: Seq<char>)
    ensures
        actor_key(name, id).len() == name.len() + 1 + id.len(),
        actor_key(name, id).subrange(0, name.len() as int) == name,
        actor_key(name, id)[name.len() as int] == ':',
        actor_key(name, id).subrange(name.len() + 1int, actor_key(name, id).len() as int) == id,
{
    reveal_strlit(":");
    assert(actor_key(name, id).subrange(0, name.len() as int) =~= name);
    assert(actor_key(name, id).subrange(name.len() + 1int, actor_key(name, id).len() as int) =~= id);
}

/// Actors of one type with different ids have different placement keys.
pub proof fn lemma_actor_keys_differ(name: Seq<char>, id: Seq<char>, other_id: Seq<char>)
    requires
        id != other_id,
    ensures
        actor_key(name, id) != actor_key(name, other_id),
{
    lemma_actor_key_parts(name, id);
    lemma_actor_key_parts(name, other_id);
    if actor_key(name, id) == actor_key(name, other_id) {
        assert(id == actor_key(name, id).subrange(name.len() + 1int, actor_key(name, id).len() as int));
    }
}

/// Registering an actor never changes where another actor of the same type
/// is found: after `register_actor` for id `id`, `get_actor` for any other id
/// answers as it could before.
pub proof fn lemma_register_keeps_other_ids(
    registry: NodesRegistry,
    before: ActorPlacements,
    after: ActorPlacements,
    name: Seq<char>,
    id: Seq<char>,
    node: NodeId,
    other_id: Seq<char>,
    found: ActorFromNodes,
)
    requires
        after.placements() == before.placements().insert(actor_key(name, id), node),
        other_id != id,
    ensures
        get_actor_answer(registry, after, name, other_id, found) <==> get_actor_answer(
            registry,
            before,
            name,
            other_id,
            found,
        ),
{
    lemma_actor_keys_differ(name, id, other_id);
    lemma_register_keeps_others(registry, before, after, name, id, node, name, other_id, found);
}

} // verus!
