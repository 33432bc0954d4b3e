use iceoryx2::config::Config;
use iceoryx2::node::NodeBuilder;
use iceoryx2::node::NodeName;
use iceoryx2::publisher::Publisher;
use iceoryx2::registry::Registry;

#[test]
fn slice_publish_end_to_end() {
    let mut registry = Registry::new();
    let root = Config::new("end to end root".to_string(), "iox2".to_string(), 1);

    let node_a = NodeBuilder::new()
        .name(NodeName::new("node a".to_string()))
        .config(root.clone())
        .create(&mut registry)
        .unwrap();
    let listed = registry.list(&root);
    assert_eq!(listed.len(), 1);

    let mut publisher: Publisher<usize> = Publisher::new(4, 16, node_a.id().value());
    let sub = publisher.connect_subscriber();

    let sample = publisher.loan_slice_uninit(12).unwrap();
    let sample = sample.write_from_fn(|n| n * 1234);
    let delivered = sample.send(&mut publisher).unwrap();
    assert_eq!(delivered, 1);

    let queue = publisher.segment().delivery_queue(sub);
    assert_eq!(queue.len(), 1);
    let offset = queue[0];
    let payload = publisher.segment().in_flight_payload(offset);
    assert_eq!(payload.len(), 12);
    for n in 0..12 {
        assert_eq!(payload[n], n * 1234);
    }

    let id_a = node_a.id();
    node_a.deregister(&mut registry);
    let listed = registry.list(&root);
    assert!(listed.iter().all(|entry| entry.id() != id_a));
    assert!(listed.is_empty());
}
