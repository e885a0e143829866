use kafka_view::config::ClusterConfig;

fn cluster(brokers: &[&str]) -> ClusterConfig {
    ClusterConfig {
        cluster_id: Some("local".to_string()),
        broker_list: brokers.iter().map(|b| b.to_string()).collect(),
        zookeeper: "localhost:2181".to_string(),
        jolokia_port: None,
        graph_url: None,
        enable_tailing: true,
        show_zk_reassignments: true,
    }
}

#[test]
fn bootstrap_servers_joins_with_commas() {
    assert_eq!(cluster(&["a:9092", "b:9092", "c:9092"]).bootstrap_servers(), "a:9092,b:9092,c:9092");
}

#[test]
fn bootstrap_servers_of_one_and_none() {
    assert_eq!(cluster(&["only:9092"]).bootstrap_servers(), "only:9092");
    assert_eq!(cluster(&[]).bootstrap_servers(), "");
}
