use serde_json::Value;
use vstd::prelude::*;

verus! {

#[verifier::external_type_specification]
#[verifier::external_body]
pub struct ExValue(Value);

/// How long a coordination-service session may go without contact, in milliseconds.
pub const SESSION_TIMEOUT_MS: u64 = 15000;

/// The node where the broker cluster records a pending partition reassignment.
pub fn reassignment_path() -> (r: &'static str)
    ensures
        r@ == "/admin/reassign_partitions"@,
{
    "/admin/reassign_partitions"
}

/// Whether some bytes hold one JSON document, as `serde_json` reads them.
pub uninterp spec fn holds_json_document(b: Seq<u8>) -> bool;

/// What one read of a coordination-service node gave.
pub enum NodeRead {
    /// The node exists and holds these bytes.
    Data(Vec<u8>),
    /// The node does not exist.
    Missing,
    /// The read failed for another reason.
    Failed,
}

/// What is known of a pending partition reassignment.
pub enum ReassignmentStatus {
    /// A reassignment is pending; its node holds this document.
    Pending(Value),
    /// No reassignment is pending.
    NonePending,
    /// The node could not be read, or did not hold a JSON document.
    Unavailable,
}

/// Relies on `serde_json::from_slice`: the JSON document that the bytes hold,
/// if they hold one; whether they do depends on the bytes alone, and no bytes
/// hold none.
#[verifier::external_body]
fn parse_document(b: &Vec<u8>) -> (r: Option<Value>)
    ensures
        r is Some <==> holds_json_document(b@),
        b@.len() == 0 ==> r is None,
{
    serde_json::from_slice::<Value>(b.as_slice()).ok()
}

/// The status of a reassignment from a read of its node and, where the node
/// held data, the document parsed from it: a missing node means none is
/// pending; a failed read or data that is no document leaves it unknown.
pub fn status_from_read(read: &NodeRead, document: Option<Value>) -> (r: ReassignmentStatus)
    ensures
        read is Missing ==> r is NonePending,
        read is Failed ==> r is Unavailable,
        read is Data ==> (document is None <==> r is Unavailable),
        read is Data ==> (r matches ReassignmentStatus::Pending(v) ==> document == Some(v)),
        read is Data ==> (document is Some ==> r is Pending),
{
    match read {
        NodeRead::Missing => ReassignmentStatus::NonePending,
        NodeRead::Failed => ReassignmentStatus::Unavailable,
        NodeRead::Data(_) => match document {
            Some(v) => ReassignmentStatus::Pending(v),
            None => ReassignmentStatus::Unavailable,
        },
    }
}

/// What a caller that only wants the document makes of a status: the
/// document if one is pending, nothing otherwise.
pub fn pending_document(status: ReassignmentStatus) -> (r: Option<Value>)
    ensures
        status matches ReassignmentStatus::Pending(v) ==> r == Some(v),
        !(status is Pending) ==> r is None,
{
    match status {
        ReassignmentStatus::Pending(v) => Some(v),
        _ => None,
    }
}

/// The status of a reassignment from one read of its node: the data of an
/// existing node is parsed as a JSON document.
pub fn status_of_node(read: NodeRead) -> (r: ReassignmentStatus)
    ensures
        read is Missing ==> r is NonePending,
        read is Failed ==> r is Unavailable,
        read matches NodeRead::Data(d) ==> (r is Pending <==> holds_json_document(d@)),
        read matches NodeRead::Data(d) ==> (!holds_json_document(d@) <==> r is Unavailable),
{
    let document = match &read {
        NodeRead::Data(bytes) => parse_document(bytes),
        _ => None,
    };
    status_from_read(&read, document)
}

} // verus!
