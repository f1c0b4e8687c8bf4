use cluster_node::app_config::{ClusterConfig, ClusterNodeConfig, NodeArgConfig, NodeArgConfigError};
use cluster_node::node_config::{
    index_reply, ConfigError, NodeConfig, RemoteNodeConfig, RemoteNodeConfigProtocol, ServerConfig,
};

fn remote(id: u64, host: &str, port: u16) -> RemoteNodeConfig {
    RemoteNodeConfig {
        node_id: id,
        protocol: RemoteNodeConfigProtocol::Http,
        host: host.to_string(),
        port,
    }
}

#[test]
fn protocol_name_is_http() {
    assert_eq!(RemoteNodeConfigProtocol::Http.to_string(), "http");
}

#[test]
fn remote_node_addr() {
    assert_eq!(remote(1, "127.0.0.1", 8080).addr(), "http://127.0.0.1:8080");
    assert_eq!(remote(1, "h", 0).addr(), "http://h:0");
    assert_eq!(remote(1, "h", 65535).addr(), "http://h:65535");
}

#[test]
fn node_config_new_uses_four_workers() {
    let cfg = NodeConfig::new("test_cluster", 2, vec![remote(1, "a", 1), remote(2, "b", 2)]);
    assert_eq!(cfg.cluster_name, "test_cluster");
    assert_eq!(cfg.sever_workers_number, 4);
    assert_eq!(cfg.this_node_id, 2);
    assert_eq!(cfg.nodes.len(), 2);
}

#[test]
fn this_node_is_the_first_with_the_id() {
    let cfg = NodeConfig::new("c", 2, vec![remote(1, "a", 1), remote(2, "b", 2), remote(2, "c", 3)]);
    let n = cfg.this_node().expect("this node");
    assert_eq!(n.host, "b");
    assert_eq!(n.port, 2);
    let missing = NodeConfig::new("c", 9, vec![remote(1, "a", 1)]);
    assert!(missing.this_node().is_none());
}

#[test]
fn server_config_of_this_node() {
    let cfg = NodeConfig::new("test_cluster", 1, vec![remote(1, "127.0.0.1", 8080)]);
    let s = cfg.server_config().expect("server config");
    assert_eq!(s.name, "test_cluster 1");
    assert_eq!(s.bind_point, "127.0.0.1:8080");
    assert_eq!(s.sever_workers_number, 4);
    assert_eq!(s.shutdown_timeout_secs, 60);
}

#[test]
fn server_config_without_this_node_fails() {
    let cfg = NodeConfig::new("test_cluster", 3, vec![remote(1, "127.0.0.1", 8080)]);
    match cfg.server_config() {
        Err(e) => {
            assert_eq!(e, ConfigError::NodeConfigIsNotFound { id: 3 });
            assert_eq!(e.to_string(), "Config for node 3 is not found");
        }
        Ok(_) => panic!("expected an error"),
    }
}

#[test]
fn server_config_new_binds_host_and_port() {
    let s = ServerConfig::new("n", 2, &remote(1, "0.0.0.0", 81));
    assert_eq!(s.bind_point, "0.0.0.0:81");
    assert_eq!(s.name, "n");
    assert_eq!(s.sever_workers_number, 2);
}

#[test]
fn nodes_config_lists_addresses() {
    let cfg = NodeConfig::new("c", 1, vec![remote(1, "a", 1), remote(5, "b", 22)]);
    let nodes = cfg.nodes_config();
    assert_eq!(nodes.this_node_id, 1);
    assert_eq!(nodes.nodes.len(), 2);
    assert_eq!(nodes.nodes[1].id, 5);
    assert_eq!(nodes.nodes[1].addr, "http://b:22");
}

#[test]
fn index_reply_names_the_server() {
    assert_eq!(index_reply("c 1"), "Cluster Node. c 1!");
}

fn cluster() -> ClusterConfig {
    ClusterConfig {
        cluster_name: "demo".to_string(),
        nodes: vec![
            ClusterNodeConfig { id: 1, host: "127.0.0.1".to_string(), port: 8080 },
            ClusterNodeConfig { id: 2, host: "127.0.0.1".to_string(), port: 8081 },
        ],
    }
}

#[test]
fn node_config_from_arguments() {
    let args = NodeArgConfig { node_id: 2, config_file: "cluster.json".to_string() };
    let cfg = args.node_config(&cluster()).expect("node config");
    assert_eq!(cfg.cluster_name, "demo");
    assert_eq!(cfg.this_node_id, 2);
    assert_eq!(cfg.nodes.len(), 2);
    assert_eq!(cfg.nodes[0].addr(), "http://127.0.0.1:8080");
    assert_eq!(cfg.nodes[1].port, 8081);
}

#[test]
fn node_config_for_unknown_node_fails() {
    let args = NodeArgConfig { node_id: 7, config_file: "cluster.json".to_string() };
    match args.node_config(&cluster()) {
        Err(e) => {
            assert_eq!(e, NodeArgConfigError::NodeIsNotFound { id: 7 });
            assert_eq!(e.to_string(), "Node 7 is not found");
        }
        Ok(_) => panic!("expected an error"),
    }
}
