//! The cluster configuration: which nodes exist and where they listen.
//!
//! The nodes are kept in an eventually consistent concurrent map. The
//! configuration owns the only writer; any number of read handles, created
//! through a handle factory, can be moved to other threads and see every
//! change once the writer has published it.

use evmap::{ReadHandle, ReadHandleFactory, WriteHandle};
use std::collections::HashSet;
use std::hash::{BuildHasher, Hash};
use vstd::multiset::Multiset;
use vstd::prelude::*;

use crate::node_item::{NodeId, NodeItem};

verus! {

/// The writing end of the node map. Its contents are `node_map_contents`, and
/// only the wrappers below read or change it.
#[verifier::external_body]
pub struct NodeMapWriter {
    inner: WriteHandle<u64, String>,
}

#[verifier::external_type_specification]
#[verifier::external_body]
#[verifier::reject_recursive_types(K)]
#[verifier::reject_recursive_types(V)]
#[verifier::reject_recursive_types(M)]
#[verifier::reject_recursive_types(S)]
pub struct ExReadHandle<K, V, M, S>(ReadHandle<K, V, M, S>) where K: Eq + Hash, S: BuildHasher;

#[verifier::external_type_specification]
#[verifier::external_body]
#[verifier::reject_recursive_types(K)]
#[verifier::reject_recursive_types(V)]
#[verifier::reject_recursive_types(M)]
#[verifier::reject_recursive_types(S)]
pub struct ExReadHandleFactory<K, V, M, S>(ReadHandleFactory<K, V, M, S>) where
    K: Eq + Hash,
    S: BuildHasher,
;

/// Everything written through a node-map writer so far, published or not:
/// for each node id, the bag of addresses stored under it.
pub uninterp spec fn node_map_contents(w: NodeMapWriter) -> Map<
    u64,
    Multiset<Seq<char>>,
>;

/// What the readers of a node-map writer see: the contents as of the writer's
/// last publication (nothing before the first one).
pub uninterp spec fn node_map_published(w: NodeMapWriter) -> Map<
    u64,
    Multiset<Seq<char>>,
>;

/// The bag map `m` with one more `entry` under `key`.
pub open spec fn bag_insert(
    m: Map<u64, Multiset<Seq<char>>>,
    key: u64,
    entry: Seq<char>,
) -> Map<u64, Multiset<Seq<char>>> {
    if m.dom().contains(key) {
        m.insert(key, m[key].insert(entry))
    } else {
        m.insert(key, Multiset::singleton(entry))
    }
}

/// `evmap::new`: a fresh map, returned as a reader and its writer; nothing has
/// been written or published yet.
#[verifier::external_body]
fn node_map_new() -> (handles: NodeMapHandles)
    ensures
        node_map_contents(handles.writer) =~= Map::empty(),
        node_map_published(handles.writer) =~= Map::empty(),
{
    let (reader, writer) = evmap::new();
    NodeMapHandles { reader, writer: NodeMapWriter { inner: writer } }
}

/// The two ends of a fresh node map.
struct NodeMapHandles {
    reader: ReadHandle<u64, String>,
    writer: NodeMapWriter,
}

/// `WriteHandle::insert`: adds `entry` to the bag of `key`; readers see it
/// only after the next publication.
#[verifier::external_body]
fn node_map_insert(w: &mut NodeMapWriter, key: u64, entry: String)
    ensures
        node_map_contents(*final(w)) == bag_insert(
            node_map_contents(*old(w)),
            key,
            entry@,
        ),
        node_map_published(*final(w)) == node_map_published(*old(w)),
{
    w.inner.insert(key, entry);
}

/// `WriteHandle::empty`: removes the whole bag of `key`; readers see it gone
/// only after the next publication.
#[verifier::external_body]
fn node_map_empty(w: &mut NodeMapWriter, key: u64)
    ensures
        node_map_contents(*final(w)) == node_map_contents(*old(w)).remove(key),
        node_map_published(*final(w)) == node_map_published(*old(w)),
{
    w.inner.empty(key);
}

/// `WriteHandle::refresh`: publishes every write so far to the readers; the
/// written contents stay as they are.
#[verifier::external_body]
fn node_map_refresh(w: &mut NodeMapWriter)
    ensures
        node_map_contents(*final(w)) == node_map_contents(*old(w)),
        node_map_published(*final(w)) == node_map_contents(*final(w)),
{
    w.inner.refresh();
}

/// `ReadHandle::factory`: a factory of read handles on the same map.
#[verifier::external_body]
fn node_map_factory(r: &ReadHandle<u64, String>) -> ReadHandleFactory<u64, String> {
    r.factory()
}

/// `ReadHandleFactory::clone`: another factory of read handles on the same map.
#[verifier::external_body]
fn node_map_factory_clone(
    f: &ReadHandleFactory<u64, String>,
) -> ReadHandleFactory<u64, String> {
    f.clone()
}

/// `ReadHandleFactory::handle`: a new read handle on the map.
#[verifier::external_body]
fn node_map_handle(f: &ReadHandleFactory<u64, String>) -> ReadHandle<u64, String> {
    f.handle()
}

/// `answer` is what a read of `key` through the read handle `r` can give:
/// one of the addresses published under `key` at the time of the read, or
/// nothing. It depends on what the writer has published by then, so two reads
/// may give different answers.
pub uninterp spec fn node_map_answer(
    r: ReadHandle<u64, String>,
    key: u64,
    answer: Option<Seq<char>>,
) -> bool;

/// `keys` is what a read of all keys through the read handle `r` can give:
/// the keys published at the time of the read.
pub uninterp spec fn node_map_keys_answer(r: ReadHandle<u64, String>, keys: Set<u64>) -> bool;

/// The view of an optional address.
pub open spec fn opt_view(a: Option<String>) -> Option<Seq<char>> {
    match a {
        Some(s) => Some(s@),
        None => None,
    }
}

/// `ReadHandle::get_one`: one of the addresses currently published under
/// `key`, if any; the answer is one that a read of `key` through `r` gives.
#[verifier::external_body]
fn node_map_get_one(r: &ReadHandle<u64, String>, key: u64) -> (answer: Option<String>)
    ensures
        node_map_answer(*r, key, opt_view(answer)),
{
    r.get_one(&key).map(|entry| (*entry).clone())
}

/// `ReadHandle::map_into`: the keys currently published; the answer is one
/// that a read of all keys through `r` gives.
#[verifier::external_body]
fn node_map_keys(r: &ReadHandle<u64, String>) -> (keys: HashSet<u64>)
    ensures
        node_map_keys_answer(*r, keys@),
{
    r.map_into(|key, _| *key)
}

/// The node map: the factory of its read handles and its only writer.
pub struct NodeMap {
    reader_factory: ReadHandleFactory<u64, String>,
    writer: NodeMapWriter,
}

/// A factory of read handles on a node map.
pub struct NodeMapReaders {
    factory: ReadHandleFactory<u64, String>,
}

/// A read handle on a node map.
pub struct NodeMapReader {
    handle: ReadHandle<u64, String>,
}

/// The node map that writing `nodes` one after the other gives.
pub open spec fn nodes_map(nodes: Seq<NodeItem>) -> Map<u64, Multiset<Seq<char>>>
    decreases nodes.len(),
{
    if nodes.len() == 0 {
        Map::empty()
    } else {
        bag_insert(nodes_map(nodes.drop_last()), nodes.last().id, nodes.last().addr@)
    }
}

/// Cluster config.
/// Because it's not async, it uses an in-memory concurrent map internally
/// whose readers never block.
pub struct ClusterNodesConfig {
    pub this_node_id: NodeId,
    /// The nodes, by id.
    pub map: NodeMap,
}

impl ClusterNodesConfig {
    /// The node this configuration belongs to.
    pub open spec fn this_node(&self) -> NodeId {
        self.this_node_id
    }

    /// The node the configuration belongs to.
    pub fn this_node_id(&self) -> (id: NodeId)
        ensures
            id == self.this_node(),
    {
        self.this_node_id
    }

    /// The node entries written so far, by node id.
    pub closed spec fn nodes(&self) -> Map<u64, Multiset<Seq<char>>> {
        node_map_contents(self.map.writer)
    }

    /// The node entries published to the read handles, by node id.
    pub closed spec fn published(&self) -> Map<u64, Multiset<Seq<char>>> {
        node_map_published(self.map.writer)
    }

    /// A configuration of `this_node_id` holding `nodes`, published to readers.
    pub fn new(this_node_id: NodeId, nodes: &Vec<NodeItem>) -> (config: ClusterNodesConfig)
        ensures
            config.this_node() == this_node_id,
            config.nodes() == nodes_map(nodes@),
            config.published() == config.nodes(),
    {
        let handles = node_map_new();
        let r = handles.reader;
        let mut w = handles.writer;
        let mut i: usize = 0;
        while i < nodes.len()
            invariant
                i <= nodes.len(),
                node_map_contents(w) == nodes_map(nodes@.take(i as int)),
            decreases nodes.len() - i,
        {
            let node = &nodes[i];
            node_map_insert(&mut w, node.id, node.addr.clone());
            assert(nodes@.take(i + 1).drop_last() =~= nodes@.take(i as int));
            i = i + 1;
        }
        assert(nodes@.take(nodes.len() as int) =~= nodes@);
        node_map_refresh(&mut w);
        let reader_factory = node_map_factory(&r);
        ClusterNodesConfig { this_node_id, map: NodeMap { reader_factory, writer: w } }
    }

    /// A factory of read handles on this configuration.
    pub fn factory(&self) -> (factory: ClusterNodesConfigHandleFactory)
        ensures
            factory.this_node() == self.this_node(),
    {
        ClusterNodesConfigHandleFactory {
            this_node_id: self.this_node_id,
            readers: NodeMapReaders { factory: node_map_factory_clone(&self.map.reader_factory) },
        }
    }

    /// Adds `node`, replacing whatever was known under its id, and publishes
    /// the change to every reader.
    pub fn add_node(&mut self, node: NodeItem)
        ensures
            final(self).this_node() == old(self).this_node(),
            final(self).nodes() == old(self).nodes().insert(node.id, Multiset::singleton(node.addr@)),
            final(self).published() == final(self).nodes(),
    {
        let id: u64 = node.id;
        node_map_empty(&mut self.map.writer, id);
        node_map_insert(&mut self.map.writer, id, node.addr);
        node_map_refresh(&mut self.map.writer);
        assert(self.nodes() =~= old(self).nodes().insert(id, Multiset::singleton(node.addr@)));
    }
}

/// Every node written is held under its own id, and nothing else is.
pub proof fn lemma_nodes_map_keys(nodes: Seq<NodeItem>)
    ensures
        forall|k: u64| #[trigger]
            nodes_map(nodes).dom().contains(k) <==> exists|i: int|
                0 <= i < nodes.len() && #[trigger] nodes[i].id == k,
        forall|i: int| #![trigger nodes[i]]
            0 <= i < nodes.len() ==> nodes_map(nodes)[nodes[i].id].count(nodes[i].addr@) > 0,
    decreases nodes.len(),
{
    if nodes.len() > 0 {
        let init = nodes.drop_last();
        lemma_nodes_map_keys(init);
        let last = nodes.last();
        assert forall|k: u64| #[trigger]
            nodes_map(nodes).dom().contains(k) <==> exists|i: int|
                0 <= i < nodes.len() && #[trigger] nodes[i].id == k by {
            if nodes_map(nodes).dom().contains(k) && k != last.id {
                assert(nodes_map(init).dom().contains(k));
                let i = choose|i: int| 0 <= i < init.len() && #[trigger] init[i].id == k;
                assert(nodes[i] == init[i]);
                assert(0 <= i < nodes.len() && nodes[i].id == k);
            }
            if nodes_map(nodes).dom().contains(k) && k == last.id {
                assert(nodes[nodes.len() - 1].id == k);
            }
            if exists|i: int| 0 <= i < nodes.len() && #[trigger] nodes[i].id == k {
                let i = choose|i: int| 0 <= i < nodes.len() && #[trigger] nodes[i].id == k;
                if i < nodes.len() - 1 {
                    assert(init[i] == nodes[i]);
                    assert(nodes_map(init).dom().contains(k));
                }
            }
        }
        assert forall|i: int| #![trigger nodes[i]]
            0 <= i < nodes.len() implies nodes_map(nodes)[nodes[i].id].count(nodes[i].addr@) > 0 by {
            if i < nodes.len() - 1 {
                assert(init[i] == nodes[i]);
            }
        }
    }
}

/// No two of `nodes` share an id.
pub open spec fn ids_distinct(nodes: Seq<NodeItem>) -> bool {
    forall|i: int, j: int|
        0 <= i < nodes.len() && 0 <= j < nodes.len() && i != j ==> (#[trigger] nodes[i]).id
            != (#[trigger] nodes[j]).id
}

/// With distinct ids, writing `nodes` stores under each id exactly that
/// node's address, and nothing under any other id.
pub proof fn lemma_nodes_map_exact(nodes: Seq<NodeItem>)
    requires
        ids_distinct(nodes),
    ensures
        forall|i: int|
            #![trigger nodes[i]]
            0 <= i < nodes.len() ==> nodes_map(nodes).dom().contains(nodes[i].id) && nodes_map(
                nodes,
            )[nodes[i].id] == Multiset::singleton(nodes[i].addr@),
        forall|k: u64|
            (forall|i: int| 0 <= i < nodes.len() ==> #[trigger] nodes[i].id != k) ==> !nodes_map(
                nodes,
            ).dom().contains(k),
    decreases nodes.len(),
{
    lemma_nodes_map_keys(nodes);
    if nodes.len() > 0 {
        let init = nodes.drop_last();
        let last = nodes.last();
        assert(ids_distinct(init)) by {
            assert forall|i: int, j: int|
                0 <= i < init.len() && 0 <= j < init.len() && i != j implies (#[trigger] init[i]).id
                != (#[trigger] init[j]).id by {
                assert(init[i] == nodes[i] && init[j] == nodes[j]);
            }
        }
        lemma_nodes_map_exact(init);
        lemma_nodes_map_keys(init);
        assert(!nodes_map(init).dom().contains(last.id)) by {
            if nodes_map(init).dom().contains(last.id) {
                let i = choose|i: int| 0 <= i < init.len() && #[trigger] init[i].id == last.id;
                assert(nodes[i] == init[i]);
                assert(nodes[nodes.len() - 1] == last);
            }
        }
        assert forall|i: int| #![trigger nodes[i]]
            0 <= i < nodes.len() implies nodes_map(nodes).dom().contains(nodes[i].id) && nodes_map(
            nodes,
        )[nodes[i].id] == Multiset::singleton(nodes[i].addr@) by {
            if i < nodes.len() - 1 {
                assert(nodes[i] == init[i]);
                assert(nodes[nodes.len() - 1] == last);
                assert(nodes[i].id != last.id);
            }
        }
    }
}

/// A new configuration over nodes with distinct ids holds, and publishes to
/// its readers, exactly each node's address under its id.
pub proof fn lemma_new_config_exact(config: ClusterNodesConfig, nodes: Seq<NodeItem>)
    requires
        config.nodes() == nodes_map(nodes),
        config.published() == config.nodes(),
        ids_distinct(nodes),
    ensures
        forall|i: int|
            #![trigger nodes[i]]
            0 <= i < nodes.len() ==> config.published()[nodes[i].id] == Multiset::singleton(
                nodes[i].addr@,
            ),
        forall|k: u64|
            (forall|i: int| 0 <= i < nodes.len() ==> #[trigger] nodes[i].id != k)
                ==> !config.published().dom().contains(k),
{
    lemma_nodes_map_exact(nodes);
}

/// Produces read handles on one cluster configuration; it can be shared
/// between threads.
pub struct ClusterNodesConfigHandleFactory {
    pub this_node_id: NodeId,
    /// Makes read handles on the node map.
    pub readers: NodeMapReaders,
}

impl ClusterNodesConfigHandleFactory {
    /// The node the configuration belongs to.
    pub open spec fn this_node(&self) -> NodeId {
        self.this_node_id
    }

    /// The node the configuration belongs to.
    pub fn this_node_id(&self) -> (id: NodeId)
        ensures
            id == self.this_node(),
    {
        self.this_node_id
    }

    /// A new read handle on the configuration.
    pub fn create(&self) -> (handle: ClusterNodesConfigHandle)
        ensures
            handle.this_node() == self.this_node(),
    {
        ClusterNodesConfigHandle {
            this_node_id: self.this_node_id,
            reader: NodeMapReader { handle: node_map_handle(&self.readers.factory) },
        }
    }
}

/// A read handle on the cluster configuration. It sees the nodes as the
/// configuration last published them.
pub struct ClusterNodesConfigHandle {
    pub this_node_id: NodeId,
    /// The read handle on the node map.
    pub reader: NodeMapReader,
}

/// The node `id`, at the address published for it, if any.
pub fn node_from_entry(id: NodeId, addr: Option<String>) -> (node: Option<NodeItem>)
    ensures
        match addr {
            Some(a) => node matches Some(n) && n.id == id && n.addr@ == a@,
            None => node is None,
        },
{
    match addr {
        Some(a) => Some(NodeItem { id, addr: a }),
        None => None,
    }
}

impl ClusterNodesConfigHandle {
    /// The node the configuration belongs to.
    pub open spec fn this_node(&self) -> NodeId {
        self.this_node_id
    }

    /// The node the configuration belongs to.
    pub fn this_node_id(&self) -> (id: NodeId)
        ensures
            id == self.this_node(),
    {
        self.this_node_id
    }

    /// `answer` is what a read of node `id` through this handle can give.
    pub closed spec fn node_answer(&self, id: NodeId, answer: Option<Seq<char>>) -> bool {
        node_map_answer(self.reader.handle, id, answer)
    }

    /// `ids` is what a read of all node ids through this handle can give.
    pub closed spec fn ids_answer(&self, ids: Set<NodeId>) -> bool {
        node_map_keys_answer(self.reader.handle, ids)
    }

    /// The node published under `id`, if any: it is node `id`, at the address
    /// that the read of `id` through this handle gave.
    pub fn node_by_id(&self, id: &NodeId) -> (node: Option<NodeItem>)
        ensures
            match node {
                Some(n) => n.id == *id && self.node_answer(*id, Some(n.addr@)),
                None => self.node_answer(*id, None),
            },
    {
        node_from_entry(*id, node_map_get_one(&self.reader.handle, *id))
    }

    /// The ids of all published nodes, as a read through this handle gives
    /// them.
    pub fn all_node_ids(&self) -> (ids: HashSet<NodeId>)
        ensures
            self.ids_answer(ids@),
    {
        node_map_keys(&self.reader.handle)
    }
}

} // verus!
