use crate::budget::poll_continues;
use crate::budget::TICK_MS;
use crate::config::ClusterConfig;
use crate::connection::clock_now;
use crate::connection::config_entries;
use crate::connection::create_consumer;
use crate::connection::millis_since;
use crate::connection::new_client_config;
use crate::connection::poll_record;
use crate::connection::set_client_config;
use crate::connection::subscribe_topic;
use crate::connection::Connection;
use crate::record::RawRecord;
use rdkafka::config::ClientConfig;
use rdkafka::error::KafkaError;
use std::time::Instant;
use vstd::prelude::*;
use vstd::rwlock::RwLock;
use vstd::rwlock::RwLockPredicate;
use vstd::string::StrSliceExecFns;
use vstd::string::StringExecFns;

verus! {

/// Why a session could not be opened or made ready.
#[derive(Clone, Copy, Debug, PartialEq, Eq, Structural)]
pub enum TailError {
    /// The broker client refused its configuration or could not be built.
    Connection,
    /// Subscribing to the topic failed; the session stays registered but inactive.
    Activation,
}

/// The decimal digits, in order.
pub open spec fn digit_chars() -> Seq<char> {
    seq!['0', '1', '2', '3', '4', '5', '6', '7', '8', '9']
}

/// The decimal text of a number, without leading zeros.
pub open spec fn decimal(n: nat) -> Seq<char>
    decreases n,
{
    if n < 10 {
        seq![digit_chars()[n as int]]
    } else {
        decimal(n / 10).push(digit_chars()[(n % 10) as int])
    }
}

fn digit_text(d: u64) -> (r: &'static str)
    requires
        d < 10,
    ensures
        r@ == seq![digit_chars()[d as int]],
{
    proof {
        reveal_strlit("0");
        reveal_strlit("1");
        reveal_strlit("2");
        reveal_strlit("3");
        reveal_strlit("4");
        reveal_strlit("5");
        reveal_strlit("6");
        reveal_strlit("7");
        reveal_strlit("8");
        reveal_strlit("9");
    }
    let r = match d {
        0 => "0",
        1 => "1",
        2 => "2",
        3 => "3",
        4 => "4",
        5 => "5",
        6 => "6",
        7 => "7",
        8 => "8",
        _ => "9",
    };
    assert(r@ =~= seq![digit_chars()[d as int]]);
    r
}

/// The decimal text of `n`.
pub fn decimal_text(n: u64) -> (r: String)
    ensures
        r@ == decimal(n as nat),
    decreases n,
{
    if n < 10 {
        String::from_str(digit_text(n))
    } else {
        let mut r = decimal_text(n / 10);
        r.append(digit_text(n % 10));
        proof {
            assert(r@ =~= decimal(n as nat));
        }
        r
    }
}

/// The consumer group of the session with id `id`.
pub open spec fn group_of(id: u64) -> Seq<char> {
    "kafka_view_live_consumer_"@ + decimal(id as nat)
}

/// The client settings of a session: its own consumer group, no automatic
/// offset commits (a dashboard read leaves no trace on the broker), and small
/// fetch and queue buffers, as many sessions may be open at once.
pub open spec fn session_settings(bootstrap: Seq<char>, id: u64) -> Map<Seq<char>, Seq<char>> {
    Map::empty().insert("bootstrap.servers"@, bootstrap).insert("group.id"@, group_of(id)).insert(
        "enable.partition.eof"@,
        "false"@,
    ).insert("api.version.request"@, "true"@).insert("enable.auto.commit"@, "false"@).insert(
        "queued.max.messages.kbytes"@,
        "100"@,
    ).insert("fetch.message.max.bytes"@, "102400"@)
}

/// Builds the client configuration of the session with id `id`.
pub fn session_client_config(bootstrap: &str, id: u64) -> (r: ClientConfig)
    ensures
        config_entries(r) == session_settings(bootstrap@, id),
{
    let mut group = String::from_str("kafka_view_live_consumer_");
    let digits = decimal_text(id);
    group.append(digits.as_str());
    let mut c = new_client_config();
    set_client_config(&mut c, "bootstrap.servers", bootstrap);
    set_client_config(&mut c, "group.id", group.as_str());
    set_client_config(&mut c, "enable.partition.eof", "false");
    set_client_config(&mut c, "api.version.request", "true");
    set_client_config(&mut c, "enable.auto.commit", "false");
    set_client_config(&mut c, "queued.max.messages.kbytes", "100");
    set_client_config(&mut c, "fetch.message.max.bytes", "102400");
    proof {
        assert(config_entries(c) =~= session_settings(bootstrap@, id));
    }
    c
}

/// Whether a text holds a NUL character, which no broker topic name can hold.
pub fn holds_nul(s: &str) -> (r: bool)
    ensures
        r == s@.contains('\0'),
{
    let n = s.unicode_len();
    let mut i: usize = 0;
    while i < n
        invariant
            n == s@.len(),
            i <= n,
            forall|j: int| 0 <= j < i ==> s@[j] != '\0',
        decreases n - i,
    {
        if s.get_char(i) == '\0' {
            return true;
        }
        i += 1;
    }
    false
}

/// Takes in what one tick of a poll read: a record joins the result, in
/// delivery order; an empty tick or a failed read adds none and counts as an
/// empty tick (a failed read is transient and never surfaces).
pub fn absorb_tick(out: &mut Vec<RawRecord>, empty: u64, tick: Option<Result<RawRecord, KafkaError>>) -> (r: u64)
    requires
        empty < u64::MAX,
    ensures
        tick matches Some(Ok(x)) ==> final(out)@ == old(out)@.push(x) && r == empty,
        !(tick matches Some(Ok(_))) ==> final(out)@ == old(out)@ && r == empty + 1,
{
    match tick {
        Some(Ok(record)) => {
            out.push(record);
            empty
        },
        _ => empty + 1,
    }
}

/// The access stamp after an access at `now`: the later of the two, so the
/// stamp never goes back.
pub fn fresher(last: u64, now: u64) -> (r: u64)
    ensures
        r == if now > last {
            now
        } else {
            last
        },
        r >= last,
{
    if now > last {
        now
    } else {
        last
    }
}

/// The mutable part of a session, behind its own lock.
pub struct SessionState {
    pub active: bool,
    pub last_poll: u64,
}

/// Lock predicate of a session's state: every state is allowed.
pub struct SessionStatePred;

impl RwLockPredicate<SessionState> for SessionStatePred {
    open spec fn inv(self, v: SessionState) -> bool {
        true
    }
}

/// One reader bound to one (cluster, topic), shared by the callers that poll
/// with its id. Its id, cluster and topic never change; its connection is its
/// own.
pub struct LiveConsumer {
    id: u64,
    cluster_id: String,
    topic: String,
    clock: Instant,
    connection: Connection,
    state: RwLock<SessionState, SessionStatePred>,
}

impl LiveConsumer {
    pub closed spec fn spec_id(&self) -> u64 {
        self.id
    }

    pub closed spec fn spec_cluster_id(&self) -> Seq<char> {
        self.cluster_id@
    }

    pub closed spec fn spec_topic(&self) -> Seq<char> {
        self.topic@
    }

    /// Opens a connection for a new, inactive session, stamped as accessed now.
    /// `clock` is the moment that access times count from. A cluster without
    /// an id gives the session an empty one.
    pub fn new(id: u64, cluster_config: &ClusterConfig, topic: &str, clock: Instant) -> (r: Result<
        LiveConsumer,
        TailError,
    >)
        ensures
            r matches Ok(c) ==> {
                &&& c.spec_id() == id
                &&& c.spec_cluster_id() == match cluster_config.cluster_id {
                    Some(k) => k@,
                    None => Seq::<char>::empty(),
                }
                &&& c.spec_topic() == topic@
            },
            r matches Err(e) ==> e == TailError::Connection,
    {
        let servers = cluster_config.bootstrap_servers();
        let settings = session_client_config(servers.as_str(), id);
        let connection = match create_consumer(&settings) {
            Ok(c) => c,
            Err(_) => {
                return Err(TailError::Connection);
            },
        };
        let cluster_id = match &cluster_config.cluster_id {
            Some(c) => c.clone(),
            None => String::new(),
        };
        let now = millis_since(&clock);
        let state = RwLock::new(SessionState { active: false, last_poll: now }, Ghost(SessionStatePred));
        Ok(LiveConsumer { id, cluster_id, topic: String::from_str(topic), clock, connection, state })
    }

    /// Subscribes the connection to the topic and marks the session active.
    /// Called once, by the caller that registered the session. A topic that
    /// holds a NUL character cannot be subscribed to and fails activation.
    pub fn activate(&self) -> (r: Result<(), TailError>)
        ensures
            r matches Err(e) ==> e == TailError::Activation,
            self.spec_topic().contains('\0') ==> r == Err::<(), TailError>(TailError::Activation),
    {
        if holds_nul(self.topic.as_str()) {
            return Err(TailError::Activation);
        }
        match subscribe_topic(&self.connection, self.topic.as_str()) {
            Ok(()) => {
                let (mut s, handle) = self.state.acquire_write();
                s.active = true;
                handle.release_write(s);
                Ok(())
            },
            Err(_) => Err(TailError::Activation),
        }
    }

    /// Whether the session was activated.
    pub fn is_active(&self) -> bool {
        let handle = self.state.acquire_read();
        let active = handle.borrow().active;
        handle.release_read();
        active
    }

    /// When the session was last polled, or created, in milliseconds since its clock.
    pub fn last_poll(&self) -> u64 {
        let handle = self.state.acquire_read();
        let last = handle.borrow().last_poll;
        handle.release_read();
        last
    }

    pub fn id(&self) -> (r: u64)
        ensures
            r == self.spec_id(),
    {
        self.id
    }

    pub fn cluster_id(&self) -> (r: &str)
        ensures
            r@ == self.spec_cluster_id(),
    {
        self.cluster_id.as_str()
    }

    pub fn topic(&self) -> (r: &str)
        ensures
            r@ == self.spec_topic(),
    {
        self.topic.as_str()
    }

    /// Stamps the session as accessed now; the stamp never goes back.
    fn touch(&self) {
        let now = millis_since(&self.clock);
        let (mut s, handle) = self.state.acquire_write();
        s.last_poll = fresher(s.last_poll, now);
        handle.release_write(s);
    }

    /// Reads records for at most `timeout_ms` and at most `max_records` of
    /// them, in the order the broker delivers them. The access stamp is
    /// refreshed first. Each tick waits at most `TICK_MS` and is taken in by
    /// `absorb_tick`: the result is the records read, in delivery order, and
    /// failed reads are skipped. The loop stops as `poll_goes_on` says: at the
    /// timeout or at `max_records`. No records is a valid result; with no
    /// time or no room the broker is not polled at all.
    pub fn poll(&self, max_records: usize, timeout_ms: u64) -> (r: Vec<RawRecord>)
        ensures
            r@.len() <= max_records,
            timeout_ms == 0 ==> r@.len() == 0,
    {
        let start = clock_now();
        self.touch();
        let mut out: Vec<RawRecord> = Vec::new();
        let mut empty_ticks: u64 = 0;
        loop
            invariant
                out@.len() <= max_records,
                timeout_ms == 0 ==> out@.len() == 0,
            decreases (max_records - out@.len()) + (u64::MAX - empty_ticks),
        {
            let elapsed = millis_since(&start);
            if !poll_continues(elapsed, timeout_ms, out.len(), max_records, empty_ticks) {
                break;
            }
            let tick = poll_record(&self.connection, TICK_MS);
            empty_ticks = absorb_tick(&mut out, empty_ticks, tick);
        }
        out
    }
}

} // verus!
