use crate::budget::POLL_MAX_RECORDS;
use crate::budget::POLL_TIMEOUT_MS;
use crate::config::ClusterConfig;
use crate::consumer::TailError;
use crate::record::raw_record_view;
use crate::record::to_stream_records;
use crate::record::RawRecord;
use crate::record::StreamRecord;
use crate::store::LiveConsumerStore;
use vstd::prelude::*;

verus! {

/// Whether a tail request for this cluster gets no records without touching
/// the store: the cluster is unknown, or tailing is off there.
pub open spec fn tailing_off(cluster_config: Option<&ClusterConfig>) -> bool {
    match cluster_config {
        None => true,
        Some(c) => !c.enable_tailing,
    }
}

/// Decides whether a tail request for this cluster goes on to the store.
pub fn tailing_enabled(cluster_config: Option<&ClusterConfig>) -> (r: bool)
    ensures
        r == !tailing_off(cluster_config),
{
    match cluster_config {
        None => false,
        Some(c) => c.enable_tailing,
    }
}

/// One poll of the tail endpoint for session `id` on `topic`: the records read
/// within the poll budget, shaped for the view. No records when the cluster is
/// unknown or tailing is off there (the store is not touched then), or when
/// the session is not active yet. An error when the session could not be built
/// or activated by this call.
pub fn topic_tailer_api(
    cluster_config: Option<&ClusterConfig>,
    topic: &str,
    id: u64,
    store: &LiveConsumerStore,
) -> (r: Result<Vec<StreamRecord>, TailError>)
    ensures
        tailing_off(cluster_config) ==> (r matches Ok(v) && v@.len() == 0),
        r matches Ok(v) ==> {
            &&& v@.len() <= POLL_MAX_RECORDS
            &&& forall|i: int|
                0 <= i < v@.len() ==> exists|raw: RawRecord| #[trigger] v@[i]@ == raw_record_view(raw)
        },
{
    if !tailing_enabled(cluster_config) {
        return Ok(Vec::new());
    }
    let cfg = match cluster_config {
        Some(c) => c,
        None => {
            return Ok(Vec::new());
        },
    };
    let consumer = match store.get_or_create_active(id, cfg, topic) {
        Ok(c) => c,
        Err(e) => {
            return Err(e);
        },
    };
    if !consumer.is_active() {
        return Ok(Vec::new());
    }
    let raws = consumer.poll(POLL_MAX_RECORDS, POLL_TIMEOUT_MS);
    let out = to_stream_records(&raws);
    assert forall|i: int| 0 <= i < out@.len() implies exists|raw: RawRecord| #[trigger] out@[i]@
        == raw_record_view(raw) by {
        assert(out@[i]@ == raw_record_view(raws@[i]));
    }
    Ok(out)
}

} // verus!
