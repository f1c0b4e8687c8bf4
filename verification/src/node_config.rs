//! Configuration of one cluster node: the cluster it belongs to, the nodes it
//! knows, and what its web server binds to.

use vstd::prelude::*;

use crate::node_item::{NodeId, NodeItem};
use crate::text::{append_decimal, append_str, decimal};

verus! {

/// Known protocols for cluster node.
#[derive(Debug, Clone, Copy, PartialEq, Eq)]
pub enum RemoteNodeConfigProtocol {
    /// Http protocol
    Http,
}

/// The scheme name of a protocol, as it appears in node addresses.
pub open spec fn protocol_name(p: RemoteNodeConfigProtocol) -> Seq<char> {
    match p {
        RemoteNodeConfigProtocol::Http => "http"@,
    }
}

impl RemoteNodeConfigProtocol {
    /// The scheme name of the protocol.
    pub fn to_string(&self) -> (s: String)
        ensures
            s@ == protocol_name(*self),
    {
        let mut s = String::new();
        match self {
            RemoteNodeConfigProtocol::Http => append_str(&mut s, "http"),
        }
        assert(s@ =~= protocol_name(*self));
        s
    }
}

/// Config of remote node.
#[derive(Debug)]
pub struct RemoteNodeConfig {
    /// Remote node Id
    pub node_id: NodeId,
    /// Server network protocol (Http/Https)
    pub protocol: RemoteNodeConfigProtocol,
    /// Server host
    pub host: String,
    ///Server port
    pub port: u16,
}

/// The network address of a node: `protocol://host:port`.
pub open spec fn node_addr(protocol: RemoteNodeConfigProtocol, host: Seq<char>, port: u16) -> Seq<
    char,
> {
    protocol_name(protocol) + "://"@ + host + ":"@ + decimal(port as nat)
}

/// `host:port`, the point a server binds to.
pub open spec fn bind_point(host: Seq<char>, port: u16) -> Seq<char> {
    host + ":"@ + decimal(port as nat)
}

impl View for RemoteNodeConfig {
    type V = (NodeId, RemoteNodeConfigProtocol, Seq<char>, u16);

    open spec fn view(&self) -> (NodeId, RemoteNodeConfigProtocol, Seq<char>, u16) {
        (self.node_id, self.protocol, self.host@, self.port)
    }
}

impl RemoteNodeConfig {
    /// Returns network address of node.
    pub fn addr(&self) -> (addr: String)
        ensures
            addr@ == node_addr(self.protocol, self.host@, self.port),
    {
        let mut s = self.protocol.to_string();
        append_str(&mut s, "://");
        append_str(&mut s, self.host.as_str());
        append_str(&mut s, ":");
        append_decimal(&mut s, self.port as u64);
        assert(s@ =~= node_addr(self.protocol, self.host@, self.port));
        s
    }

    /// A copy of this node configuration.
    pub fn duplicate(&self) -> (copy: RemoteNodeConfig)
        ensures
            copy@ == self@,
    {
        RemoteNodeConfig {
            node_id: self.node_id,
            protocol: self.protocol,
            host: self.host.clone(),
            port: self.port,
        }
    }
}

/// Error of a node configuration.
#[derive(Debug, Clone, Copy, PartialEq, Eq)]
pub enum ConfigError {
    /// Node config not found
    NodeConfigIsNotFound {
        /// Leader Node Id
        id: NodeId,
    },
}

impl ConfigError {
    /// The error message: `Config for node {id} is not found`.
    pub fn to_string(&self) -> (msg: String)
        ensures
            msg@ == match *self {
                ConfigError::NodeConfigIsNotFound { id } => "Config for node "@ + decimal(id as nat)
                    + " is not found"@,
            },
    {
        match self {
            ConfigError::NodeConfigIsNotFound { id } => {
                let mut s = String::new();
                append_str(&mut s, "Config for node ");
                append_decimal(&mut s, *id);
                append_str(&mut s, " is not found");
                s
            },
        }
    }
}

/// What the web server of a node is configured with.
#[derive(Debug)]
pub struct ServerConfig {
    pub name: String,
    pub bind_point: String,
    pub sever_workers_number: usize,
    /// Seconds the server waits for connections to close when it stops.
    pub shutdown_timeout_secs: u64,
}

impl ServerConfig {
    /// The server configuration for `this_node`, binding to its host and port.
    pub fn new(name: &str, sever_workers_number: usize, this_node: &RemoteNodeConfig) -> (config:
        ServerConfig)
        ensures
            config.name@ == name@,
            config.sever_workers_number == sever_workers_number,
            config.bind_point@ == bind_point(this_node.host@, this_node.port),
            config.shutdown_timeout_secs == 60,
    {
        let mut bind = this_node.host.clone();
        append_str(&mut bind, ":");
        append_decimal(&mut bind, this_node.port as u64);
        assert(bind@ =~= bind_point(this_node.host@, this_node.port));
        ServerConfig {
            name: name.to_owned(),
            sever_workers_number,
            bind_point: bind,
            shutdown_timeout_secs: 60,
        }
    }
}

/// The answer of a node's web server at its root: `Cluster Node. {name}!`.
pub fn index_reply(name: &str) -> (reply: String)
    ensures
        reply@ == "Cluster Node. "@ + name@ + "!"@,
{
    let mut s = String::new();
    append_str(&mut s, "Cluster Node. ");
    append_str(&mut s, name);
    append_str(&mut s, "!");
    s
}

/// The part of a node configuration that the cluster configuration is built
/// from.
pub struct NodesConfig {
    pub this_node_id: NodeId,
    pub nodes: Vec<NodeItem>,
}

/// Node configuration
#[derive(Debug)]
pub struct NodeConfig {
    /// Cluster name
    pub cluster_name: String,
    /// Numbers of actix-web workers
    pub sever_workers_number: usize,
    /// Id of current node
    pub this_node_id: NodeId,
    /// Nodes configurations
    pub nodes: Vec<RemoteNodeConfig>,
}

/// The position of the first node of `nodes` whose id is `id`, if any.
pub open spec fn first_with_id(nodes: Seq<RemoteNodeConfig>, id: NodeId) -> Option<int> {
    if exists|i: int| 0 <= i < nodes.len() && #[trigger] nodes[i].node_id == id {
        Some(
            choose|i: int|
                0 <= i < nodes.len() && #[trigger] nodes[i].node_id == id && forall|j: int|
                    0 <= j < i ==> #[trigger] nodes[j].node_id != id,
        )
    } else {
        None
    }
}

/// The name the server of a node runs under: `{cluster_name} {node_id}`.
pub open spec fn server_name(cluster_name: Seq<char>, node_id: NodeId) -> Seq<char> {
    cluster_name + " "@ + decimal(node_id as nat)
}

impl NodeConfig {
    /// Creates new node configuration
    pub fn new(cluster_name: &str, this_node_id: NodeId, nodes: Vec<RemoteNodeConfig>) -> (config:
        NodeConfig)
        ensures
            config.cluster_name@ == cluster_name@,
            config.sever_workers_number == 4,
            config.this_node_id == this_node_id,
            config.nodes == nodes,
    {
        NodeConfig { cluster_name: cluster_name.to_owned(), sever_workers_number: 4, this_node_id, nodes }
    }

    /// Position of the first node whose id is `this_node_id`.
    fn find_this_node(&self) -> (index: Option<usize>)
        ensures
            match index {
                Some(i) => i < self.nodes.len() && self.nodes[i as int].node_id == self.this_node_id
                    && forall|j: int| 0 <= j < i ==> #[trigger] self.nodes[j].node_id != self.this_node_id,
                None => forall|j: int|
                    0 <= j < self.nodes.len() ==> #[trigger] self.nodes[j].node_id != self.this_node_id,
            },
    {
        let mut i: usize = 0;
        while i < self.nodes.len()
            invariant
                i <= self.nodes.len(),
                forall|j: int| 0 <= j < i ==> #[trigger] self.nodes[j].node_id != self.this_node_id,
            decreases self.nodes.len() - i,
        {
            if self.nodes[i].node_id == self.this_node_id {
                return Some(i);
            }
            i = i + 1;
        }
        None
    }

    proof fn lemma_first_with_id(&self, index: Option<usize>)
        requires
            match index {
                Some(i) => i < self.nodes.len() && self.nodes[i as int].node_id == self.this_node_id
                    && forall|j: int| 0 <= j < i ==> #[trigger] self.nodes[j].node_id != self.this_node_id,
                None => forall|j: int|
                    0 <= j < self.nodes.len() ==> #[trigger] self.nodes[j].node_id != self.this_node_id,
            },
        ensures
            match index {
                Some(i) => first_with_id(self.nodes@, self.this_node_id) == Some(i as int),
                None => first_with_id(self.nodes@, self.this_node_id) is None,
            },
    {
        let nodes = self.nodes@;
        let id: u64 = self.this_node_id;
        if let Some(i) = index {
            assert(nodes[i as int].node_id == id);
            let k = choose|k: int|
                0 <= k < nodes.len() && #[trigger] nodes[k].node_id == id && forall|j: int|
                    0 <= j < k ==> #[trigger] nodes[j].node_id != id;
            if k < i {
                assert(nodes[k].node_id != id);
            }
            if k > i {
                assert(nodes[i as int].node_id != id);
            }
        }
    }

    /// Returns copy of node with id == this_node_id.
    pub fn this_node(&self) -> (node: Option<RemoteNodeConfig>)
        ensures
            match first_with_id(self.nodes@, self.this_node_id) {
                Some(i) => node matches Some(n) && n@ == self.nodes[i]@,
                None => node is None,
            },
    {
        let index = self.find_this_node();
        proof {
            self.lemma_first_with_id(index);
        }
        match index {
            Some(i) => Some(self.nodes[i].duplicate()),
            None => None,
        }
    }

    /// The configuration of this node's web server, named after the cluster
    /// and the node, bound to this node's host and port.
    pub fn server_config(&self) -> (config: Result<ServerConfig, ConfigError>)
        ensures
            match first_with_id(self.nodes@, self.this_node_id) {
                Some(i) => config matches Ok(c) && c.name@ == server_name(
                    self.cluster_name@,
                    self.this_node_id,
                ) && c.sever_workers_number == self.sever_workers_number && c.bind_point@
                    == bind_point(self.nodes[i].host@, self.nodes[i].port)
                    && c.shutdown_timeout_secs == 60,
                None => config == Err::<ServerConfig, ConfigError>(
                    ConfigError::NodeConfigIsNotFound { id: self.this_node_id },
                ),
            },
    {
        let index = self.find_this_node();
        proof {
            self.lemma_first_with_id(index);
        }
        match index {
            Some(i) => {
                let mut name = self.cluster_name.clone();
                append_str(&mut name, " ");
                append_decimal(&mut name, self.this_node_id);
                assert(name@ =~= server_name(self.cluster_name@, self.this_node_id));
                Ok(ServerConfig::new(name.as_str(), self.sever_workers_number, &self.nodes[i]))
            },
            None => Err(ConfigError::NodeConfigIsNotFound { id: self.this_node_id }),
        }
    }

    /// The cluster members as the cluster configuration takes them: each
    /// configured node, in order, with its network address.
    pub fn nodes_config(&self) -> (config: NodesConfig)
        ensures
            config.this_node_id == self.this_node_id,
            config.nodes.len() == self.nodes.len(),
            forall|i: int|
                0 <= i < self.nodes.len() ==> (#[trigger] config.nodes[i]).id
                    == self.nodes[i].node_id && config.nodes[i].addr@ == node_addr(
                    self.nodes[i].protocol,
                    self.nodes[i].host@,
                    self.nodes[i].port,
                ),
    {
        let mut nodes: Vec<NodeItem> = Vec::new();
        let mut i: usize = 0;
        while i < self.nodes.len()
            invariant
                i <= self.nodes.len(),
                nodes.len() == i,
                forall|k: int|
                    0 <= k < i ==> (#[trigger] nodes[k]).id == self.nodes[k].node_id
                        && nodes[k].addr@ == node_addr(
                        self.nodes[k].protocol,
                        self.nodes[k].host@,
                        self.nodes[k].port,
                    ),
            decreases self.nodes.len() - i,
        {
            let n = &self.nodes[i];
            let addr = n.addr();
            nodes.push(NodeItem::new(n.node_id, addr.as_str()));
            i = i + 1;
        }
        NodesConfig { this_node_id: self.this_node_id, nodes }
    }
}

} // verus!
