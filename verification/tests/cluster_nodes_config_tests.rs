use cluster_node::cluster_nodes_config::{node_from_entry, ClusterNodesConfig};
use cluster_node::node_item::NodeItem;

#[test]
fn config_all_node_ids() {
    // arrange
    let nodes = vec![NodeItem::new(1, "http://127.0.0.1"), NodeItem::new(2, "http://127.0.0.1")];
    let config = ClusterNodesConfig::new(1, &nodes);
    let factory = config.factory();
    let handle = factory.create();

    // act
    let all_node_ids = handle.all_node_ids();

    // assert
    assert_eq!(2, all_node_ids.len());
    assert_eq!(true, all_node_ids.contains(&1));
    assert_eq!(true, all_node_ids.contains(&2));
}

#[test]
fn config_add_node() {
    // arrange
    let nodes = vec![NodeItem::new(1, "http://127.0.0.1"), NodeItem::new(2, "http://127.0.0.1")];
    let mut config = ClusterNodesConfig::new(1, &nodes);
    let factory = config.factory();
    let handle = factory.create();

    // act
    config.add_node(NodeItem::new(5, "http://127.0.0.1"));
    let all_node_ids = handle.all_node_ids();

    // assert
    assert_eq!(3, all_node_ids.len());
    assert_eq!(true, all_node_ids.contains(&1));
    assert_eq!(true, all_node_ids.contains(&2));
    assert_eq!(true, all_node_ids.contains(&5));
}

#[test]
fn add_node_replaces_the_node_with_the_same_id() {
    let nodes = vec![NodeItem::new(1, "http://a"), NodeItem::new(2, "http://b")];
    let mut config = ClusterNodesConfig::new(1, &nodes);
    let handle = config.factory().create();
    config.add_node(NodeItem::new(2, "http://c"));
    let node = handle.node_by_id(&2).expect("node 2");
    assert_eq!(node.id, 2);
    assert_eq!(node.addr, "http://c");
    assert_eq!(handle.all_node_ids().len(), 2);
}

#[test]
fn node_by_id_finds_configured_nodes_only() {
    let nodes = vec![NodeItem::new(7, "http://x:1")];
    let config = ClusterNodesConfig::new(7, &nodes);
    let handle = config.factory().create();
    assert_eq!(handle.this_node_id(), 7);
    let node = handle.node_by_id(&7).expect("node 7");
    assert_eq!(node.addr, "http://x:1");
    assert!(handle.node_by_id(&8).is_none());
}

#[test]
fn empty_config_has_no_members() {
    let config = ClusterNodesConfig::new(1, &vec![]);
    let handle = config.factory().create();
    assert!(handle.all_node_ids().is_empty());
}

#[test]
fn node_from_entry_builds_the_node() {
    let node = node_from_entry(3, Some("http://h".to_string())).expect("node");
    assert_eq!(node.id, 3);
    assert_eq!(node.addr, "http://h");
    assert!(node_from_entry(3, None).is_none());
}

#[test]
fn node_item_new_and_duplicate() {
    let n = NodeItem::new(4, "addr");
    let d = n.duplicate();
    assert_eq!(d.id, 4);
    assert_eq!(d.addr, "addr");
}
