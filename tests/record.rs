use kafka_view::record::record_from_text;
use kafka_view::record::timestamp_fields;
use kafka_view::record::to_stream_record;
use kafka_view::record::to_stream_records;
use kafka_view::record::truncate_payload;
use kafka_view::record::BrokerTimestamp;
use kafka_view::record::RawRecord;

#[test]
fn long_payload_is_cut_to_limit_with_marker() {
    let p = "x".repeat(2000);
    let r = truncate_payload(&p);
    assert_eq!(r.chars().count(), 1027);
    assert!(r.ends_with("..."));
    assert_eq!(&r[..1024], &p[..1024]);
}

#[test]
fn short_payload_is_unchanged() {
    let p = "y".repeat(1000);
    assert_eq!(truncate_payload(&p), p);
}

#[test]
fn payload_at_limit_is_unchanged() {
    let p = "z".repeat(1024);
    assert_eq!(truncate_payload(&p), p);
    let q = "z".repeat(1025);
    assert_eq!(truncate_payload(&q), format!("{}...", "z".repeat(1024)));
}

#[test]
fn limit_counts_characters_not_bytes() {
    let p = "é".repeat(1000);
    assert_eq!(truncate_payload(&p), p);
    let q = "é".repeat(1500);
    let r = truncate_payload(&q);
    assert_eq!(r, format!("{}...", "é".repeat(1024)));
}

#[test]
fn empty_payload_stays_empty() {
    assert_eq!(truncate_payload(""), "");
}

#[test]
fn timestamps_split_by_kind() {
    assert_eq!(timestamp_fields(BrokerTimestamp::CreateTime(17)), (Some(17), None));
    assert_eq!(timestamp_fields(BrokerTimestamp::LogAppendTime(23)), (None, Some(23)));
    assert_eq!(timestamp_fields(BrokerTimestamp::NotAvailable), (None, None));
}

#[test]
fn record_from_text_keeps_fields() {
    let r = record_from_text(3, 99, Some("k".to_string()), BrokerTimestamp::CreateTime(5), "hello");
    assert_eq!(r.partition, 3);
    assert_eq!(r.offset, 99);
    assert_eq!(r.key, Some("k".to_string()));
    assert_eq!(r.created_at, Some(5));
    assert_eq!(r.appended_at, None);
    assert_eq!(r.payload, "hello");
}

#[test]
fn raw_record_is_decoded_as_text() {
    let raw = RawRecord {
        partition: 1,
        offset: 42,
        key: Some(vec![0x6b, 0xff]),
        timestamp: BrokerTimestamp::LogAppendTime(1000),
        payload: Some(b"payload".to_vec()),
    };
    let r = to_stream_record(&raw);
    assert_eq!(r.key, Some("k\u{FFFD}".to_string()));
    assert_eq!(r.payload, "payload");
    assert_eq!(r.created_at, None);
    assert_eq!(r.appended_at, Some(1000));
}

#[test]
fn missing_payload_and_key() {
    let raw = RawRecord {
        partition: 0,
        offset: 0,
        key: None,
        timestamp: BrokerTimestamp::NotAvailable,
        payload: None,
    };
    let r = to_stream_record(&raw);
    assert_eq!(r.key, None);
    assert_eq!(r.payload, "");
}

#[test]
fn records_keep_order_and_cut_long_payloads() {
    let raws = vec![
        RawRecord {
            partition: 0,
            offset: 1,
            key: None,
            timestamp: BrokerTimestamp::NotAvailable,
            payload: Some(vec![b'a'; 2000]),
        },
        RawRecord {
            partition: 0,
            offset: 2,
            key: None,
            timestamp: BrokerTimestamp::NotAvailable,
            payload: Some(vec![b'b'; 10]),
        },
    ];
    let r = to_stream_records(&raws);
    assert_eq!(r.len(), 2);
    assert_eq!(r[0].offset, 1);
    assert_eq!(r[0].payload, format!("{}...", "a".repeat(1024)));
    assert_eq!(r[1].offset, 2);
    assert_eq!(r[1].payload, "bbbbbbbbbb");
}
