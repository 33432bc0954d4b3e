use iceoryx2::config::Config;
use iceoryx2::node::Node;
use iceoryx2::node::NodeBuilder;
use iceoryx2::node::NodeName;
use iceoryx2::registry::Registry;
use iceoryx2::registry::RegistryEntry;

fn assert_node_exists_in_list(entries: &Vec<RegistryEntry>, node: &Node) {
    let found = entries.iter().any(|entry| {
        entry.id() == node.id() && entry.name() == node.name() && entry.config() == node.config()
    });
    assert!(found);
}

#[test]
fn node_without_name_can_be_created() {
    let mut registry = Registry::new();
    let sut = NodeBuilder::new().create(&mut registry).unwrap();

    assert_eq!(sut.name(), &NodeName::new(String::new()));
}

#[test]
fn node_with_name_can_be_created() {
    let mut registry = Registry::new();
    let name = NodeName::new("photons taste like chicken".to_string());
    let sut = NodeBuilder::new()
        .name(name.clone())
        .create(&mut registry)
        .unwrap();

    assert_eq!(sut.name(), &name);
}

#[test]
fn multiple_nodes_with_the_same_name_can_be_created() {
    let number_of_nodes: usize = 16;
    let mut registry = Registry::new();
    let name = NodeName::new("but what does an electron taste like?".to_string());

    let mut nodes: Vec<Node> = vec![];
    for _ in 0..number_of_nodes {
        nodes.push(
            NodeBuilder::new()
                .name(name.clone())
                .create(&mut registry)
                .unwrap(),
        );
    }

    for node in &nodes {
        assert_eq!(node.name(), &name);
    }
}

#[test]
fn without_custom_config_global_config_is_used() {
    let mut registry = Registry::new();
    let sut = NodeBuilder::new().create(&mut registry).unwrap();

    assert_eq!(sut.config(), &Config::default());
}

#[test]
fn nodes_can_be_listed() {
    let number_of_nodes: usize = 16;
    let mut registry = Registry::new();
    let config = Config::default();

    let mut nodes: Vec<Node> = vec![];
    for i in 0..number_of_nodes {
        let name = NodeName::new(format!("give me a bit {}", i));
        nodes.push(
            NodeBuilder::new()
                .name(name)
                .config(config.clone())
                .create(&mut registry)
                .unwrap(),
        );
    }

    let listed = registry.list(&config);
    assert_eq!(listed.len(), number_of_nodes);
    for node in &nodes {
        assert_node_exists_in_list(&listed, node);
    }
}

#[test]
fn when_node_goes_out_of_scope_it_cleans_up() {
    let number_of_nodes: usize = 16;
    let mut registry = Registry::new();
    let config = Config::default();
    let name = NodeName::new("gravity should be illegal".to_string());

    let mut nodes: Vec<Node> = vec![];
    for _ in 0..number_of_nodes {
        nodes.push(
            NodeBuilder::new()
                .name(name.clone())
                .config(config.clone())
                .create(&mut registry)
                .unwrap(),
        );
    }

    while let Some(node) = nodes.pop() {
        let listed = registry.list(&config);
        assert_eq!(listed.len(), nodes.len() + 1);
        assert_node_exists_in_list(&listed, &node);
        let id = node.id();
        node.deregister(&mut registry);

        let listed = registry.list(&config);
        assert_eq!(listed.len(), nodes.len());
        assert!(listed.iter().all(|entry| entry.id() != id));
        for remaining in &nodes {
            assert_node_exists_in_list(&listed, remaining);
        }
    }

    assert!(registry.list(&config).is_empty());
}

#[test]
fn id_is_unique() {
    let number_of_nodes: usize = 16;
    let mut registry = Registry::new();
    let name = NodeName::new(
        "its a bird, its a plane, no its the mountain goat jumping through the code".to_string(),
    );

    let mut nodes: Vec<Node> = vec![];
    for _ in 0..number_of_nodes {
        nodes.push(
            NodeBuilder::new()
                .name(name.clone())
                .create(&mut registry)
                .unwrap(),
        );
    }

    for i in 0..nodes.len() {
        for j in 0..nodes.len() {
            if i != j {
                assert_ne!(nodes[i].id(), nodes[j].id());
            }
        }
    }
}

#[test]
fn nodes_with_disjunct_config_are_separated() {
    let number_of_nodes: usize = 16;
    let mut registry = Registry::new();
    let config_1 = Config::default();
    let config_2 = Config::new("node2".to_string(), "iox2".to_string(), 1);
    let name_1 = NodeName::new("gravity should be illegal".to_string());
    let name_2 = NodeName::new("i like to name it name it".to_string());

    let mut nodes_1: Vec<Node> = vec![];
    let mut nodes_2: Vec<Node> = vec![];
    for _ in 0..number_of_nodes {
        nodes_1.push(
            NodeBuilder::new()
                .name(name_1.clone())
                .config(config_1.clone())
                .create(&mut registry)
                .unwrap(),
        );
        nodes_2.push(
            NodeBuilder::new()
                .name(name_2.clone())
                .config(config_2.clone())
                .create(&mut registry)
                .unwrap(),
        );
    }

    let listed_1 = registry.list(&config_1);
    let listed_2 = registry.list(&config_2);
    assert_eq!(listed_1.len(), number_of_nodes);
    assert_eq!(listed_2.len(), number_of_nodes);

    for node in &nodes_1 {
        assert_node_exists_in_list(&listed_1, node);
        assert!(listed_2.iter().all(|entry| entry.id() != node.id()));
    }
    for node in &nodes_2 {
        assert_node_exists_in_list(&listed_2, node);
        assert!(listed_1.iter().all(|entry| entry.id() != node.id()));
    }
}
