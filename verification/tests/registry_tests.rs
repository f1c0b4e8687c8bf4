use cluster_node::actor_registry::{
    activation_step, Activation, ActivationStep, ActorRegistry, ActorRegistryError,
};
use cluster_node::cluster_nodes_config::ClusterNodesConfig;
use cluster_node::node_item::NodeItem;
use cluster_node::nodes_registry::{
    build_actor_id, remote_actor, ActorFromNodes, ActorPlacements, NodesRegistryFactory,
    RemoteActorAddr,
};

#[test]
fn actor_key_joins_type_and_id() {
    assert_eq!(build_actor_id("NodeActor", "1"), "NodeActor:1");
}

#[test]
fn register_and_get_actor() {
    let nodes = vec![NodeItem::new(1, "http://127.0.0.1:8080"), NodeItem::new(2, "http://127.0.0.1:8081")];
    let config = ClusterNodesConfig::new(1, &nodes);
    let factory = NodesRegistryFactory::new(&config);
    let registry = factory.create();
    assert_eq!(registry.this_node_id(), 1);
    let mut placements = ActorPlacements::new();

    assert!(matches!(registry.get_actor(&placements, "A", "x"), ActorFromNodes::NotFound));

    registry.register_actor(&mut placements, "A", "x", 1);
    assert!(matches!(registry.get_actor(&placements, "A", "x"), ActorFromNodes::Local));

    registry.register_actor(&mut placements, "A", "y", 2);
    match registry.get_actor(&placements, "A", "y") {
        ActorFromNodes::Remote(a) => {
            assert_eq!(a.id, "y");
            assert_eq!(a.addr, "http://127.0.0.1:8081");
        }
        _ => panic!("expected a remote actor"),
    }

    registry.register_actor(&mut placements, "A", "z", 9);
    assert!(matches!(registry.get_actor(&placements, "A", "z"), ActorFromNodes::NotFound));
    assert_eq!(placements.node_of("A:z"), Some(9));
    assert_eq!(registry.get_members().len(), 2);
}

#[test]
fn remote_actor_needs_a_known_node() {
    assert!(matches!(remote_actor("i", None), ActorFromNodes::NotFound));
    match remote_actor("i", Some(NodeItem::new(3, "http://n"))) {
        ActorFromNodes::Remote(a) => assert_eq!((a.id.as_str(), a.addr.as_str()), ("i", "http://n")),
        _ => panic!("expected a remote actor"),
    }
}

#[test]
fn activation_steps() {
    assert!(matches!(activation_step(ActorFromNodes::Local), ActivationStep::ActivateLocal));
    assert!(matches!(
        activation_step(ActorFromNodes::NotFound),
        ActivationStep::Fail(ActorRegistryError::NodeNotFound)
    ));
    let remote = RemoteActorAddr { id: "a".to_string(), addr: "http://n".to_string() };
    match activation_step(ActorFromNodes::Remote(remote)) {
        ActivationStep::AddRemote(a) => assert_eq!(a.addr, "http://n"),
        _ => panic!("expected a remote step"),
    }
}

#[test]
fn actor_registry_remembers_actors() {
    let mut reg: ActorRegistry<u32> = ActorRegistry::new();
    assert!(reg.extract_node("a").is_none());
    reg.add_node("a".to_string(), 1);
    reg.add_node("b".to_string(), 2);
    reg.add_node("a".to_string(), 3);
    assert_eq!(reg.extract_node("a"), Some(&3));
    assert_eq!(reg.extract_node("b"), Some(&2));
    let mut members = reg.get_members();
    members.sort();
    assert_eq!(members, vec!["a".to_string(), "b".to_string()]);
}

#[test]
fn get_or_activate_node_steps() {
    let nodes = vec![NodeItem::new(1, "http://127.0.0.1:8080"), NodeItem::new(2, "http://127.0.0.1:8081")];
    let config = ClusterNodesConfig::new(1, &nodes);
    assert_eq!(config.this_node_id(), 1);
    assert_eq!(config.factory().this_node_id(), 1);
    let registry = NodesRegistryFactory::new(&config).create();
    let mut placements = ActorPlacements::new();
    let mut actors: ActorRegistry<u32> = ActorRegistry::new();

    assert!(matches!(
        actors.get_or_activate_node(&registry, &placements, "A", "x"),
        Activation::Step(ActivationStep::Fail(ActorRegistryError::NodeNotFound))
    ));
    registry.register_actor(&mut placements, "A", "x", 1);
    assert!(matches!(
        actors.get_or_activate_node(&registry, &placements, "A", "x"),
        Activation::Step(ActivationStep::ActivateLocal)
    ));
    registry.register_actor(&mut placements, "A", "y", 2);
    match actors.get_or_activate_node(&registry, &placements, "A", "y") {
        Activation::Step(ActivationStep::AddRemote(a)) => {
            assert_eq!((a.id.as_str(), a.addr.as_str()), ("y", "http://127.0.0.1:8081"))
        }
        _ => panic!("expected a remote step"),
    }
    registry.register_actor(&mut placements, "A", "z", 7);
    assert!(matches!(
        actors.get_or_activate_node(&registry, &placements, "A", "z"),
        Activation::Step(ActivationStep::Fail(ActorRegistryError::NodeNotFound))
    ));
    actors.add_node("x".to_string(), 42);
    assert!(matches!(actors.get_or_activate_node(&registry, &placements, "A", "x"), Activation::Known(&42)));
}
