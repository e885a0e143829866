use kafka_view::zk::pending_document;
use kafka_view::zk::status_from_read;
use kafka_view::zk::NodeRead;
use kafka_view::zk::ReassignmentStatus;
use kafka_view::zk::reassignment_path;
use kafka_view::zk::status_of_node;

#[test]
fn missing_node_means_no_reassignment() {
    let s = status_from_read(&NodeRead::Missing, None);
    assert!(matches!(s, ReassignmentStatus::NonePending));
    assert!(pending_document(s).is_none());
}

#[test]
fn failed_read_degrades_to_none() {
    let s = status_from_read(&NodeRead::Failed, None);
    assert!(matches!(s, ReassignmentStatus::Unavailable));
    assert!(pending_document(s).is_none());
}

#[test]
fn unparsable_data_degrades_to_none() {
    let s = status_from_read(&NodeRead::Data(b"not json".to_vec()), None);
    assert!(matches!(s, ReassignmentStatus::Unavailable));
    assert!(pending_document(s).is_none());
}

#[test]
fn parsed_document_is_pending() {
    let doc: serde_json::Value = serde_json::from_str("{\"version\":1,\"partitions\":[]}").unwrap();
    let s = status_from_read(&NodeRead::Data(b"{}".to_vec()), Some(doc.clone()));
    assert!(matches!(s, ReassignmentStatus::Pending(_)));
    assert_eq!(pending_document(s), Some(doc));
}

#[test]
fn reassignment_node_path() {
    assert_eq!(reassignment_path(), "/admin/reassign_partitions");
}

#[test]
fn node_data_is_parsed_as_json() {
    let s = status_of_node(NodeRead::Data(b"{\"version\":1}".to_vec()));
    let doc = pending_document(s).unwrap();
    assert_eq!(doc["version"], 1);
    let bad = status_of_node(NodeRead::Data(b"{oops".to_vec()));
    assert!(matches!(bad, ReassignmentStatus::Unavailable));
    let empty = status_of_node(NodeRead::Data(Vec::new()));
    assert!(matches!(empty, ReassignmentStatus::Unavailable));
    assert!(matches!(status_of_node(NodeRead::Missing), ReassignmentStatus::NonePending));
    assert!(matches!(status_of_node(NodeRead::Failed), ReassignmentStatus::Unavailable));
}
