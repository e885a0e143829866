use crate::config::ClusterConfig;
use crate::connection::clock_now;
use crate::connection::millis_since;
use crate::consumer::LiveConsumer;
use crate::consumer::TailError;
use crate::table::unique_ids;
use crate::table::Claim;
use crate::table::ConsumerTable;
use std::sync::Arc;
use std::time::Instant;
use vstd::prelude::*;
use vstd::rwlock::RwLock;
use vstd::rwlock::RwLockPredicate;

verus! {

/// Lock predicate of the store's table: ids stay unique.
pub struct TablePred;

impl RwLockPredicate<ConsumerTable> for TablePred {
    open spec fn inv(self, t: ConsumerTable) -> bool {
        t.wf()
    }
}

/// The second half of get-or-create, run outside the table lock: a session
/// that was found is handed back as it is, active or not, with no second
/// subscription; a session this caller built is activated once, and a failed
/// activation comes back as the error while the session stays registered; a
/// failed build comes back as its error.
pub fn settle_claim(claim: Claim) -> (r: Result<Arc<LiveConsumer>, TailError>)
    ensures
        claim matches Claim::Found(c) ==> r == Ok::<Arc<LiveConsumer>, TailError>(c),
        claim matches Claim::Built(c) ==> (r matches Ok(x) ==> x == c),
        claim matches Claim::Built(c) ==> (r matches Err(e) ==> e == TailError::Activation),
        claim matches Claim::Built(c) ==> (c.spec_topic().contains('\0') ==> r is Err),
        claim matches Claim::Failed(e) ==> r == Err::<Arc<LiveConsumer>, TailError>(e),
{
    match claim {
        Claim::Found(c) => Ok(c),
        Claim::Built(c) => match c.activate() {
            Ok(()) => Ok(c),
            Err(e) => Err(e),
        },
        Claim::Failed(e) => Err(e),
    }
}

/// The registry of live sessions, shared by the request handlers and the idle
/// sweep. Lookups, registration and the sweep take the table lock briefly; a
/// poll runs on a session handle outside it.
pub struct LiveConsumerStore {
    table: RwLock<ConsumerTable, TablePred>,
    clock: Instant,
}

impl LiveConsumerStore {
    /// An empty store whose access times count from now.
    pub fn new() -> (r: LiveConsumerStore) {
        let table = RwLock::new(ConsumerTable::new(), Ghost(TablePred));
        LiveConsumerStore { table, clock: clock_now() }
    }

    /// The session registered under `id`, if any.
    pub fn get_consumer(&self, id: u64) -> (r: Option<Arc<LiveConsumer>>)
        ensures
            r matches Some(c) ==> c.spec_id() == id,
    {
        let handle = self.table.acquire_read();
        let found = handle.borrow().find(id);
        handle.release_read();
        found
    }

    /// The session registered under `id`; when there is none, a new one for
    /// (`cluster_config`, `topic`) is built and registered under the table
    /// lock (`ConsumerTable::get_or_register`), so that concurrent first
    /// callers build one session between them, and this caller then activates
    /// it outside the lock (`settle_claim`). A failure to build or to activate
    /// comes back to this caller only; a session whose activation failed stays
    /// registered, inactive, and later callers get it as it is.
    pub fn get_or_create_active(&self, id: u64, cluster_config: &ClusterConfig, topic: &str) -> (r:
        Result<Arc<LiveConsumer>, TailError>)
        ensures
            r matches Ok(c) ==> c.spec_id() == id,
    {
        if let Some(c) = self.get_consumer(id) {
            return Ok(c);
        }
        let (mut table, handle) = self.table.acquire_write();
        let claim = table.get_or_register(id, cluster_config, topic, self.clock);
        handle.release_write(table);
        settle_claim(claim)
    }

    /// Drops every session whose last access is `threshold_ms` or more in the
    /// past. A poll refreshes its session's access time when it starts, so a
    /// threshold above the longest poll never drops a session mid-poll.
    pub fn remove_idle_consumers(&self, threshold_ms: u64) {
        let (mut table, handle) = self.table.acquire_write();
        let now = millis_since(&self.clock);
        let entries = table.snapshot();
        let mut last: Vec<u64> = Vec::new();
        let mut i: usize = 0;
        while i < entries.len()
            invariant
                i <= entries@.len(),
                last@.len() == i,
            decreases entries@.len() - i,
        {
            last.push(entries[i].last_poll());
            i += 1;
        }
        table.retain_recent(&last, now, threshold_ms);
        handle.release_write(table);
    }

    /// Every registered session, one per id.
    pub fn consumers(&self) -> (r: Vec<Arc<LiveConsumer>>)
        ensures
            unique_ids(r@),
    {
        let handle = self.table.acquire_read();
        let all = handle.borrow().snapshot();
        handle.release_read();
        all
    }
}

} // verus!
