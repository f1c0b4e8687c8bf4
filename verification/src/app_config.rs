//! The cluster file configuration and the command-line choice of the node to
//! run, and how they make the configuration of that node.

use vstd::prelude::*;

use crate::node_config::{NodeConfig, RemoteNodeConfig, RemoteNodeConfigProtocol};
use crate::node_item::NodeId;
use crate::text::{append_decimal, append_str, decimal};

verus! {

/// One node of the cluster file configuration.
#[derive(Debug)]
pub struct ClusterNodeConfig {
    pub id: u64,
    pub host: String,
    pub port: u16,
}

/// The cluster file configuration.
#[derive(Debug)]
pub struct ClusterConfig {
    pub cluster_name: String,
    pub nodes: Vec<ClusterNodeConfig>,
}

/// The command-line arguments of a node: which node of the cluster to run and
/// where the cluster configuration file is.
#[derive(Debug)]
pub struct NodeArgConfig {
    pub node_id: u64,
    pub config_file: String,
}

/// Why no node configuration could be made from the arguments.
#[derive(Debug, Clone, Copy, PartialEq, Eq)]
pub enum NodeArgConfigError {
    /// The chosen node is not in the cluster configuration.
    NodeIsNotFound { id: u64 },
}

impl NodeArgConfigError {
    /// The error message: `Node {id} is not found`.
    pub fn to_string(&self) -> (msg: String)
        ensures
            msg@ == match *self {
                NodeArgConfigError::NodeIsNotFound { id } => "Node "@ + decimal(id as nat)
                    + " is not found"@,
            },
    {
        match self {
            NodeArgConfigError::NodeIsNotFound { id } => {
                let mut s = String::new();
                append_str(&mut s, "Node ");
                append_decimal(&mut s, *id);
                append_str(&mut s, " is not found");
                s
            },
        }
    }
}

/// A cluster file node, as the node configuration knows it: reached over http.
pub open spec fn remote_node_of(n: ClusterNodeConfig) -> (NodeId, RemoteNodeConfigProtocol, Seq<
    char,
>, u16) {
    (n.id, RemoteNodeConfigProtocol::Http, n.host@, n.port)
}

/// Whether the cluster file holds a node with id `id`.
pub open spec fn node_in_cluster(cfg: &ClusterConfig, id: u64) -> bool {
    exists|i: int| 0 <= i < cfg.nodes.len() && #[trigger] cfg.nodes[i].id == id
}

/// `config` is what `node_config` makes of the arguments `args` and the
/// cluster file `cfg`: the configuration of the chosen node, named after the
/// cluster, knowing every node of the cluster file (in order, over http); or
/// the refusal when the chosen node is not in the cluster file.
pub open spec fn made_node_config(
    args: NodeArgConfig,
    cfg: ClusterConfig,
    config: Result<NodeConfig, NodeArgConfigError>,
) -> bool {
    match config {
        Ok(c) => {
            &&& node_in_cluster(&cfg, args.node_id)
            &&& c.cluster_name@ == cfg.cluster_name@
            &&& c.this_node_id == args.node_id
            &&& c.sever_workers_number == 4
            &&& c.nodes.len() == cfg.nodes.len()
            &&& forall|i: int|
                0 <= i < cfg.nodes.len() ==> (#[trigger] c.nodes[i])@ == remote_node_of(
                    cfg.nodes[i],
                )
        },
        Err(e) => !node_in_cluster(&cfg, args.node_id) && e == NodeArgConfigError::NodeIsNotFound {
            id: args.node_id,
        },
    }
}

/// The made configuration keeps every node of the cluster file as the file
/// gives it: node `i` of the configuration has the id, host and port of node
/// `i` of the file, reached over http; and the chosen node is one of them.
pub proof fn lemma_node_config_keeps_nodes(
    args: NodeArgConfig,
    cfg: ClusterConfig,
    config: Result<NodeConfig, NodeArgConfigError>,
)
    requires
        made_node_config(args, cfg, config),
    ensures
        config matches Ok(c) ==> {
            &&& c.nodes.len() == cfg.nodes.len()
            &&& forall|i: int|
                #![trigger c.nodes[i]]
                0 <= i < cfg.nodes.len() ==> c.nodes[i].node_id == cfg.nodes[i].id
                    && c.nodes[i].host@ == cfg.nodes[i].host@ && c.nodes[i].port
                    == cfg.nodes[i].port && c.nodes[i].protocol == RemoteNodeConfigProtocol::Http
            &&& exists|i: int| 0 <= i < c.nodes.len() && #[trigger] c.nodes[i].node_id == c.this_node_id
        },
        config is Err <==> forall|i: int| 0 <= i < cfg.nodes.len() ==> #[trigger] cfg.nodes[i].id
            != args.node_id,
{
    if let Ok(c) = config {
        assert forall|i: int| 0 <= i < cfg.nodes.len() implies c.nodes[i].node_id == cfg.nodes[i].id
            && c.nodes[i].host@ == cfg.nodes[i].host@ && c.nodes[i].port == cfg.nodes[i].port
            && c.nodes[i].protocol == RemoteNodeConfigProtocol::Http by {
            assert(c.nodes[i]@ == remote_node_of(cfg.nodes[i]));
        }
        let k = choose|k: int| 0 <= k < cfg.nodes.len() && #[trigger] cfg.nodes[k].id == args.node_id;
        assert(c.nodes[k]@ == remote_node_of(cfg.nodes[k]));
        assert(c.nodes[k].node_id == c.this_node_id);
    }
}

impl NodeArgConfig {
    /// The configuration of the chosen node: named after the cluster, knowing
    /// every node of the cluster file (in order, over http). It is refused when
    /// the chosen node is not in the cluster file.
    pub fn node_config(&self, cfg: &ClusterConfig) -> (config: Result<NodeConfig, NodeArgConfigError>)
        ensures
            made_node_config(*self, *cfg, config),
    {
        let mut found: Option<u64> = None;
        let mut nodes: Vec<RemoteNodeConfig> = Vec::new();
        let mut i: usize = 0;
        while i < cfg.nodes.len()
            invariant
                i <= cfg.nodes.len(),
                nodes.len() == i,
                forall|k: int|
                    0 <= k < i ==> (#[trigger] nodes[k])@ == remote_node_of(cfg.nodes[k]),
                match found {
                    Some(id) => id == self.node_id && exists|k: int|
                        0 <= k < i && #[trigger] cfg.nodes[k].id == self.node_id,
                    None => forall|k: int| 0 <= k < i ==> #[trigger] cfg.nodes[k].id != self.node_id,
                },
            decreases cfg.nodes.len() - i,
        {
            let n = &cfg.nodes[i];
            if found.is_none() && n.id == self.node_id {
                found = Some(n.id);
            }
            nodes.push(
                RemoteNodeConfig {
                    node_id: n.id,
                    host: n.host.clone(),
                    port: n.port,
                    protocol: RemoteNodeConfigProtocol::Http,
                },
            );
            i = i + 1;
        }
        match found {
            Some(id) => Ok(NodeConfig::new(cfg.cluster_name.as_str(), id, nodes)),
            None => Err(NodeArgConfigError::NodeIsNotFound { id: self.node_id }),
        }
    }
}

} // verus!
