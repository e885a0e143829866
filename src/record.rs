use vstd::prelude::*;
use vstd::string::StrSliceExecFns;
use vstd::string::StringExecFns;

verus! {

/// Largest number of characters of a payload that a tail view shows.
pub const PAYLOAD_LIMIT: usize = 1024;

/// The marker appended to a payload that was cut.
pub open spec fn marker_chars() -> Seq<char> {
    seq!['.', '.', '.']
}

/// The payload as a tail view shows it: at most `PAYLOAD_LIMIT` characters of
/// the original, followed by the marker when anything was cut.
pub open spec fn shown_payload(p: Seq<char>) -> Seq<char> {
    if p.len() > PAYLOAD_LIMIT {
        p.subrange(0, PAYLOAD_LIMIT as int) + marker_chars()
    } else {
        p
    }
}

/// The text that `String::from_utf8_lossy` makes of some bytes.
pub uninterp spec fn lossy_text(b: Seq<u8>) -> Seq<char>;

/// Time information that the broker attaches to a record.
#[derive(Clone, Copy, Debug, PartialEq, Eq, Structural)]
pub enum BrokerTimestamp {
    NotAvailable,
    CreateTime(i64),
    LogAppendTime(i64),
}

/// A record as read from the broker, before it is shaped for a tail view.
#[derive(Clone, Debug)]
pub struct RawRecord {
    pub partition: i32,
    pub offset: i64,
    pub key: Option<Vec<u8>>,
    pub timestamp: BrokerTimestamp,
    pub payload: Option<Vec<u8>>,
}

/// A record as handed to a tail view.
#[derive(Clone, Debug)]
pub struct StreamRecord {
    pub partition: i32,
    pub offset: i64,
    pub key: Option<String>,
    pub created_at: Option<i64>,
    pub appended_at: Option<i64>,
    pub payload: String,
}

pub struct StreamRecordView {
    pub partition: i32,
    pub offset: i64,
    pub key: Option<Seq<char>>,
    pub created_at: Option<i64>,
    pub appended_at: Option<i64>,
    pub payload: Seq<char>,
}

impl View for StreamRecord {
    type V = StreamRecordView;

    open spec fn view(&self) -> StreamRecordView {
        StreamRecordView {
            partition: self.partition,
            offset: self.offset,
            key: match self.key {
                Some(k) => Some(k@),
                None => None,
            },
            created_at: self.created_at,
            appended_at: self.appended_at,
            payload: self.payload@,
        }
    }
}

/// The creation time that a timestamp carries, if it is one.
pub open spec fn created_of(t: BrokerTimestamp) -> Option<i64> {
    match t {
        BrokerTimestamp::CreateTime(ms) => Some(ms),
        _ => None,
    }
}

/// The append time that a timestamp carries, if it is one.
pub open spec fn appended_of(t: BrokerTimestamp) -> Option<i64> {
    match t {
        BrokerTimestamp::LogAppendTime(ms) => Some(ms),
        _ => None,
    }
}

/// The tail view of a record whose key and payload were already decoded to text.
pub open spec fn record_view(
    partition: i32,
    offset: i64,
    key: Option<Seq<char>>,
    timestamp: BrokerTimestamp,
    payload: Seq<char>,
) -> StreamRecordView {
    StreamRecordView {
        partition,
        offset,
        key,
        created_at: created_of(timestamp),
        appended_at: appended_of(timestamp),
        payload: shown_payload(payload),
    }
}

/// The tail view of a raw record.
pub open spec fn raw_record_view(r: RawRecord) -> StreamRecordView {
    record_view(
        r.partition,
        r.offset,
        match r.key {
            Some(k) => Some(lossy_text(k@)),
            None => None,
        },
        r.timestamp,
        match r.payload {
            Some(p) => lossy_text(p@),
            None => Seq::<char>::empty(),
        },
    )
}

/// Relies on `String::from_utf8_lossy`: the text depends on the bytes alone,
/// and no bytes give no text.
#[verifier::external_body]
pub(crate) fn decode_text(b: &Vec<u8>) -> (r: String)
    ensures
        r@ == lossy_text(b@),
        b@.len() == 0 ==> r@.len() == 0,
{
    String::from_utf8_lossy(b.as_slice()).into_owned()
}

/// Cuts a payload to `PAYLOAD_LIMIT` characters and marks the cut.
pub fn truncate_payload(p: &str) -> (r: String)
    ensures
        r@ == shown_payload(p@),
{
    let n = p.unicode_len();
    if n > PAYLOAD_LIMIT {
        let mut r = String::from_str(p.substring_char(0, PAYLOAD_LIMIT));
        r.append("...");
        proof {
            reveal_strlit("...");
        }
        r
    } else {
        String::from_str(p)
    }
}

/// Splits a broker timestamp into the creation and append times, at most one
/// of which is present.
pub fn timestamp_fields(t: BrokerTimestamp) -> (r: (Option<i64>, Option<i64>))
    ensures
        r.0 == created_of(t),
        r.1 == appended_of(t),
        r.0.is_none() || r.1.is_none(),
{
    match t {
        BrokerTimestamp::CreateTime(ms) => (Some(ms), None),
        BrokerTimestamp::LogAppendTime(ms) => (None, Some(ms)),
        BrokerTimestamp::NotAvailable => (None, None),
    }
}

/// Shapes a record whose key and payload are already text.
pub fn record_from_text(
    partition: i32,
    offset: i64,
    key: Option<String>,
    timestamp: BrokerTimestamp,
    payload: &str,
) -> (r: StreamRecord)
    ensures
        r@ == record_view(
            partition,
            offset,
            match key {
                Some(k) => Some(k@),
                None => None,
            },
            timestamp,
            payload@,
        ),
{
    let (created_at, appended_at) = timestamp_fields(timestamp);
    StreamRecord {
        partition,
        offset,
        key,
        created_at,
        appended_at,
        payload: truncate_payload(payload),
    }
}

/// Shapes a raw record for a tail view: key and payload decoded as text, a
/// missing payload shown as empty text, the payload cut to its limit.
pub fn to_stream_record(raw: &RawRecord) -> (r: StreamRecord)
    ensures
        r@ == raw_record_view(*raw),
{
    let key = match &raw.key {
        Some(k) => Some(decode_text(k)),
        None => None,
    };
    let payload = match &raw.payload {
        Some(p) => decode_text(p),
        None => String::new(),
    };
    record_from_text(raw.partition, raw.offset, key, raw.timestamp, payload.as_str())
}

/// Shapes every raw record, in order.
pub fn to_stream_records(raws: &Vec<RawRecord>) -> (r: Vec<StreamRecord>)
    ensures
        r@.len() == raws@.len(),
        forall|i: int| 0 <= i < raws@.len() ==> r@[i]@ == raw_record_view(#[trigger] raws@[i]),
{
    let mut out: Vec<StreamRecord> = Vec::new();
    let mut i: usize = 0;
    while i < raws.len()
        invariant
            i <= raws@.len(),
            out@.len() == i,
            forall|j: int| 0 <= j < i ==> out@[j]@ == raw_record_view(#[trigger] raws@[j]),
        decreases raws@.len() - i,
    {
        out.push(to_stream_record(&raws[i]));
        i += 1;
    }
    out
}

} // verus!
