use iceoryx2::config::Config;
use iceoryx2::errors::NodeCreationError;
use iceoryx2::node::NodeBuilder;
use iceoryx2::node::NodeId;
use iceoryx2::node::NodeName;
use iceoryx2::node::NodeState;
use iceoryx2::node::classify;
use iceoryx2::node::list_states;
use iceoryx2::registry::Registry;

#[test]
fn entries_of_terminated_processes_are_classified_dead() {
    let mut registry = Registry::new();
    let config = Config::default();

    let alive_node = NodeBuilder::new()
        .name(NodeName::new("survivor".to_string()))
        .create(&mut registry)
        .unwrap();
    let crashed_node = NodeBuilder::new()
        .name(NodeName::new("killed without cleanup".to_string()))
        .create(&mut registry)
        .unwrap();

    // The second process terminates without deregistering: its handle is
    // gone but its registry entry stays behind.
    let crashed_id = crashed_node.id();
    drop(crashed_node);

    let live_ids = vec![alive_node.id().value()];
    let states = list_states(&registry, &config, &live_ids);
    assert_eq!(states.len(), 2);
    match &states[0] {
        NodeState::Alive(entry) => assert_eq!(entry.id(), alive_node.id()),
        NodeState::Dead(_) => panic!("the running node must be classified alive"),
    }
    match &states[1] {
        NodeState::Alive(_) => panic!("the terminated node must be classified dead"),
        NodeState::Dead(entry) => assert_eq!(entry.id(), crashed_id),
    }
}

#[test]
fn classification_follows_the_liveness_probe() {
    let mut registry = Registry::new();
    let node = NodeBuilder::new().create(&mut registry).unwrap();
    let listed = registry.list(&Config::default());

    assert!(matches!(
        classify(listed[0].snapshot(), true),
        NodeState::Alive(_)
    ));
    assert!(matches!(
        classify(listed[0].snapshot(), false),
        NodeState::Dead(_)
    ));
    node.deregister(&mut registry);
}

#[test]
fn creation_fails_with_registration_failed_when_no_id_is_left() {
    let mut registry = Registry::with_first_id(u128::MAX);
    let result = NodeBuilder::new().create(&mut registry);
    assert!(matches!(result, Err(NodeCreationError::RegistrationFailed)));
    assert!(registry.list(&Config::default()).is_empty());
}

#[test]
fn deregistering_an_absent_id_changes_nothing() {
    let mut registry = Registry::new();
    let node = NodeBuilder::new().create(&mut registry).unwrap();

    registry.deregister(NodeId::new(4711));
    let listed = registry.list(&Config::default());
    assert_eq!(listed.len(), 1);
    assert_eq!(listed[0].id(), node.id());
}

#[test]
fn configs_compare_by_content() {
    let config = Config::new("root".to_string(), "ns".to_string(), 8);
    let same = Config::new("root".to_string(), "ns".to_string(), 8);
    let other_root = Config::new("other".to_string(), "ns".to_string(), 8);
    let other_len = Config::new("root".to_string(), "ns".to_string(), 9);

    assert_eq!(config, same);
    assert_ne!(config, other_root);
    assert_ne!(config, other_len);
    assert_eq!(config.root().as_str(), "root");
    assert_eq!(config.namespace().as_str(), "ns");
    assert_eq!(config.max_slice_len_default(), 8);
}

#[test]
fn default_config_supplies_the_global_root() {
    let config = Config::default();
    assert_eq!(config.root().as_str(), "iceoryx2");
    assert_eq!(config.namespace().as_str(), "iox2");
    assert_eq!(config.max_slice_len_default(), 1);
}

#[test]
fn publisher_takes_the_default_slice_length_from_the_config() {
    let config = Config::new("root".to_string(), "ns".to_string(), 32);
    let publisher: iceoryx2::publisher::Publisher<u64> =
        iceoryx2::publisher::Publisher::new_with_config(4, &config, 1);
    assert_eq!(publisher.max_slice_len(), 32);
}

#[test]
fn node_names_compare_by_content() {
    let name = NodeName::new("a name".to_string());
    assert_eq!(name, NodeName::new("a name".to_string()));
    assert_ne!(name, NodeName::new("another name".to_string()));
    assert_eq!(name.as_string().as_str(), "a name");
}
