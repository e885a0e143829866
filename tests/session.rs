use kafka_view::config::ClusterConfig;
use kafka_view::consumer::absorb_tick;
use kafka_view::consumer::decimal_text;
use kafka_view::consumer::holds_nul;
use kafka_view::record::BrokerTimestamp;
use kafka_view::record::RawRecord;
use rdkafka::error::KafkaError;
use kafka_view::consumer::session_client_config;
use kafka_view::consumer::TailError;
use kafka_view::store::LiveConsumerStore;
use kafka_view::tailer::tailing_enabled;
use kafka_view::tailer::topic_tailer_api;
use std::sync::Arc;
use std::time::Duration;
use std::time::Instant;

fn cluster(enable_tailing: bool) -> ClusterConfig {
    ClusterConfig {
        cluster_id: Some("local".to_string()),
        broker_list: vec!["127.0.0.1:1".to_string()],
        zookeeper: "127.0.0.1:2".to_string(),
        jolokia_port: None,
        graph_url: None,
        enable_tailing,
        show_zk_reassignments: true,
    }
}

#[test]
fn decimal_text_of_numbers() {
    assert_eq!(decimal_text(0), "0");
    assert_eq!(decimal_text(7), "7");
    assert_eq!(decimal_text(10), "10");
    assert_eq!(decimal_text(1234567890), "1234567890");
    assert_eq!(decimal_text(u64::MAX), u64::MAX.to_string());
}

#[test]
fn session_settings_disable_commits_and_bound_buffers() {
    let c = session_client_config("a:1,b:2", 42);
    assert_eq!(c.get("bootstrap.servers"), Some("a:1,b:2"));
    assert_eq!(c.get("group.id"), Some("kafka_view_live_consumer_42"));
    assert_eq!(c.get("enable.auto.commit"), Some("false"));
    assert_eq!(c.get("enable.partition.eof"), Some("false"));
    assert_eq!(c.get("api.version.request"), Some("true"));
    assert_eq!(c.get("queued.max.messages.kbytes"), Some("100"));
    assert_eq!(c.get("fetch.message.max.bytes"), Some("102400"));
}

#[test]
fn new_store_is_empty() {
    let store = LiveConsumerStore::new();
    assert_eq!(store.consumers().len(), 0);
    assert!(store.get_consumer(1).is_none());
}

#[test]
fn repeated_lookups_share_one_session() {
    let store = LiveConsumerStore::new();
    let cfg = cluster(true);
    let a = store.get_or_create_active(9, &cfg, "events").ok().unwrap();
    let b = store.get_or_create_active(9, &cfg, "events").ok().unwrap();
    assert!(Arc::ptr_eq(&a, &b));
    assert_eq!(store.consumers().len(), 1);
    assert_eq!(a.id(), 9);
    assert_eq!(a.cluster_id(), "local");
    assert_eq!(a.topic(), "events");
    assert!(a.is_active());
    let c = store.get_or_create_active(10, &cfg, "events").ok().unwrap();
    assert!(!Arc::ptr_eq(&a, &c));
    assert_eq!(store.consumers().len(), 2);
}

#[test]
fn failed_activation_leaves_inactive_session_registered() {
    // An empty topic name is refused by the client library at subscription.
    // The session stays registered and inactive: later callers get it as it
    // is and no second subscription is tried.
    let store = LiveConsumerStore::new();
    let cfg = cluster(true);
    let first = store.get_or_create_active(7, &cfg, "");
    assert_eq!(first.err(), Some(TailError::Activation));
    assert_eq!(store.consumers().len(), 1);
    let again = store.get_or_create_active(7, &cfg, "").ok().unwrap();
    assert!(!again.is_active());
    let third = store.get_or_create_active(7, &cfg, "").ok().unwrap();
    assert!(Arc::ptr_eq(&again, &third));
    assert_eq!(store.consumers().len(), 1);
    let r = topic_tailer_api(Some(&cfg), "", 7, &store);
    assert_eq!(r.ok().map(|v| v.len()), Some(0));
}

#[test]
fn poll_on_empty_topic_returns_nothing_within_budget() {
    let store = LiveConsumerStore::new();
    let cfg = cluster(true);
    let s = store.get_or_create_active(11, &cfg, "empty").ok().unwrap();
    let start = Instant::now();
    let records = s.poll(100, 500);
    let took = start.elapsed();
    assert!(records.is_empty());
    assert!(took < Duration::from_millis(500 + 2 * 100 + 200));
}

#[test]
fn poll_refreshes_last_access() {
    let store = LiveConsumerStore::new();
    let cfg = cluster(true);
    let s = store.get_or_create_active(12, &cfg, "empty").ok().unwrap();
    let before = s.last_poll();
    let wait = Instant::now();
    while wait.elapsed() < Duration::from_millis(30) {}
    let _ = s.poll(1, 0);
    assert!(s.last_poll() >= before + 30);
}

#[test]
fn sweep_drops_idle_and_keeps_fresh_sessions() {
    let store = LiveConsumerStore::new();
    let cfg = cluster(true);
    let _ = store.get_or_create_active(1, &cfg, "t").ok().unwrap();
    let _ = store.get_or_create_active(2, &cfg, "t").ok().unwrap();
    store.remove_idle_consumers(u64::MAX);
    assert_eq!(store.consumers().len(), 2);
    store.remove_idle_consumers(0);
    assert_eq!(store.consumers().len(), 0);
    assert!(store.get_consumer(1).is_none());
}

#[test]
fn sweep_on_empty_store_is_harmless() {
    let store = LiveConsumerStore::new();
    store.remove_idle_consumers(20_000);
    store.remove_idle_consumers(0);
    assert_eq!(store.consumers().len(), 0);
}

#[test]
fn disabled_tailing_builds_no_session() {
    let store = LiveConsumerStore::new();
    let cfg = cluster(false);
    let r = topic_tailer_api(Some(&cfg), "events", 5, &store);
    assert_eq!(r.ok().map(|v| v.len()), Some(0));
    assert_eq!(store.consumers().len(), 0);
    assert!(!tailing_enabled(Some(&cfg)));
}

#[test]
fn unknown_cluster_builds_no_session() {
    let store = LiveConsumerStore::new();
    let r = topic_tailer_api(None, "events", 5, &store);
    assert_eq!(r.ok().map(|v| v.len()), Some(0));
    assert_eq!(store.consumers().len(), 0);
    assert!(!tailing_enabled(None));
    assert!(tailing_enabled(Some(&cluster(true))));
}

#[test]
fn tail_endpoint_on_enabled_cluster_registers_session() {
    let store = LiveConsumerStore::new();
    let cfg = cluster(true);
    let r = topic_tailer_api(Some(&cfg), "events", 6, &store);
    if let Ok(v) = r {
        assert!(v.len() <= 100);
    }
    assert_eq!(store.consumers().len(), 1);
    assert!(store.get_consumer(6).is_some());
}

fn raw(offset: i64) -> RawRecord {
    RawRecord {
        partition: 0,
        offset,
        key: None,
        timestamp: BrokerTimestamp::NotAvailable,
        payload: None,
    }
}

#[test]
fn ticks_keep_records_in_order_and_count_empty_ones() {
    let mut out = Vec::new();
    let e = absorb_tick(&mut out, 0, Some(Ok(raw(1))));
    assert_eq!(e, 0);
    let e = absorb_tick(&mut out, e, None);
    assert_eq!(e, 1);
    let e = absorb_tick(&mut out, e, Some(Err(KafkaError::Subscription("x".to_string()))));
    assert_eq!(e, 2);
    let e = absorb_tick(&mut out, e, Some(Ok(raw(2))));
    assert_eq!(e, 2);
    assert_eq!(out.iter().map(|r| r.offset).collect::<Vec<_>>(), vec![1, 2]);
}

#[test]
fn nul_in_text_is_found() {
    assert!(holds_nul("a\0b"));
    assert!(!holds_nul("topic"));
    assert!(!holds_nul(""));
}

#[test]
fn topic_with_nul_fails_activation_without_panicking() {
    let store = LiveConsumerStore::new();
    let cfg = cluster(true);
    let r = store.get_or_create_active(21, &cfg, "bad\0topic");
    assert_eq!(r.err(), Some(TailError::Activation));
    let again = store.get_or_create_active(21, &cfg, "bad\0topic").ok().unwrap();
    assert!(!again.is_active());
    assert_eq!(store.consumers().len(), 1);
}
