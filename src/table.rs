use crate::budget::idle;
use crate::budget::is_idle;
use crate::config::ClusterConfig;
use crate::consumer::LiveConsumer;
use crate::consumer::TailError;
use std::sync::Arc;
use std::time::Instant;
use vstd::prelude::*;

verus! {

/// No two entries share an id.
pub open spec fn unique_ids(s: Seq<Arc<LiveConsumer>>) -> bool {
    forall|i: int, j: int|
        0 <= i < s.len() && 0 <= j < s.len() && i != j ==> #[trigger] s[i].spec_id()
            != #[trigger] s[j].spec_id()
}

/// Whether some entry has id `id`.
pub open spec fn has_id(s: Seq<Arc<LiveConsumer>>, id: u64) -> bool {
    exists|i: int| 0 <= i < s.len() && #[trigger] s[i].spec_id() == id
}

/// The entry with id `id`, if there is one.
pub open spec fn lookup(s: Seq<Arc<LiveConsumer>>, id: u64) -> Option<Arc<LiveConsumer>> {
    if has_id(s, id) {
        Some(s[choose|i: int| 0 <= i < s.len() && #[trigger] s[i].spec_id() == id])
    } else {
        None
    }
}

/// The entries that a sweep at `now` keeps, in order: those whose observed
/// last access `last[i]` is not idle.
pub open spec fn kept(s: Seq<Arc<LiveConsumer>>, last: Seq<u64>, now: u64, threshold: u64) -> Seq<
    Arc<LiveConsumer>,
>
    decreases s.len(),
{
    if s.len() == 0 || last.len() != s.len() {
        Seq::empty()
    } else {
        let rest = kept(s.drop_last(), last.drop_last(), now, threshold);
        if idle(last.last() as int, now as int, threshold as int) {
            rest
        } else {
            rest.push(s.last())
        }
    }
}

/// Every entry that a sweep keeps was there before.
pub proof fn lemma_kept_from(s: Seq<Arc<LiveConsumer>>, last: Seq<u64>, now: u64, threshold: u64)
    requires
        last.len() == s.len(),
    ensures
        forall|j: int|
            0 <= j < kept(s, last, now, threshold).len() ==> exists|i: int|
                0 <= i < s.len() && #[trigger] kept(s, last, now, threshold)[j] == s[i],
    decreases s.len(),
{
    if s.len() > 0 {
        lemma_kept_from(s.drop_last(), last.drop_last(), now, threshold);
        let rest = kept(s.drop_last(), last.drop_last(), now, threshold);
        assert forall|j: int| 0 <= j < kept(s, last, now, threshold).len() implies exists|i: int|
            0 <= i < s.len() && #[trigger] kept(s, last, now, threshold)[j] == s[i] by {
            if j < rest.len() {
                let i = choose|i: int| 0 <= i < s.drop_last().len() && rest[j] == s.drop_last()[i];
                assert(kept(s, last, now, threshold)[j] == s[i]);
            } else {
                assert(kept(s, last, now, threshold)[j] == s[s.len() - 1]);
            }
        }
    }
}

/// A sweep keeps ids unique.
pub proof fn lemma_kept_unique(s: Seq<Arc<LiveConsumer>>, last: Seq<u64>, now: u64, threshold: u64)
    requires
        last.len() == s.len(),
        unique_ids(s),
    ensures
        unique_ids(kept(s, last, now, threshold)),
    decreases s.len(),
{
    if s.len() > 0 {
        let init = s.drop_last();
        assert(unique_ids(init));
        lemma_kept_unique(init, last.drop_last(), now, threshold);
        lemma_kept_from(init, last.drop_last(), now, threshold);
        let rest = kept(init, last.drop_last(), now, threshold);
        if !idle(last.last() as int, now as int, threshold as int) {
            let k = rest.push(s.last());
            assert forall|a: int, b: int|
                0 <= a < k.len() && 0 <= b < k.len() && a != b implies #[trigger] k[a].spec_id()
                != #[trigger] k[b].spec_id() by {
                if a < rest.len() && b < rest.len() {
                } else if a < rest.len() {
                    let i = choose|i: int| 0 <= i < init.len() && rest[a] == init[i];
                    assert(s[i] == init[i]);
                    assert(s[i].spec_id() != s[s.len() - 1].spec_id());
                } else {
                    let i = choose|i: int| 0 <= i < init.len() && rest[b] == init[i];
                    assert(s[i] == init[i]);
                    assert(s[i].spec_id() != s[s.len() - 1].spec_id());
                }
            }
        }
    }
}

/// The sweep law: after a sweep at `now`, an entry is still registered if
/// and only if its observed last access is not idle.
pub proof fn lemma_sweep_keeps_exactly_fresh(
    s: Seq<Arc<LiveConsumer>>,
    last: Seq<u64>,
    now: u64,
    threshold: u64,
    i: int,
)
    requires
        last.len() == s.len(),
        unique_ids(s),
        0 <= i < s.len(),
    ensures
        has_id(kept(s, last, now, threshold), s[i].spec_id()) <==> !idle(
            last[i] as int,
            now as int,
            threshold as int,
        ),
    decreases s.len(),
{
    let init = s.drop_last();
    let rest = kept(init, last.drop_last(), now, threshold);
    let id = s[i].spec_id();
    lemma_kept_from(init, last.drop_last(), now, threshold);
    assert(unique_ids(init));
    if i < s.len() - 1 {
        lemma_sweep_keeps_exactly_fresh(init, last.drop_last(), now, threshold, i);
        assert(init[i] == s[i]);
        if !idle(last.last() as int, now as int, threshold as int) {
            let k = rest.push(s.last());
            if has_id(k, id) {
                let j = choose|j: int| 0 <= j < k.len() && #[trigger] k[j].spec_id() == id;
                if j == rest.len() {
                    assert(s[s.len() - 1].spec_id() == s[i].spec_id());
                    assert(false);
                } else {
                    assert(rest[j].spec_id() == id);
                }
            }
            if has_id(rest, id) {
                let j = choose|j: int| 0 <= j < rest.len() && #[trigger] rest[j].spec_id() == id;
                assert(k[j].spec_id() == id);
            }
        }
    } else {
        if idle(last.last() as int, now as int, threshold as int) {
            if has_id(rest, id) {
                let j = choose|j: int| 0 <= j < rest.len() && #[trigger] rest[j].spec_id() == id;
                let m = choose|m: int| 0 <= m < init.len() && rest[j] == init[m];
                assert(s[m] == init[m]);
                assert(s[m].spec_id() == s[i].spec_id());
            }
        } else {
            let k = rest.push(s.last());
            assert(k[rest.len() as int].spec_id() == id);
        }
    }
}

/// The registration law: once a session is registered under a fresh id, every
/// lookup of that id finds that very session, active or not, so no caller
/// builds a second one for it.
pub proof fn lemma_registered_session_is_found(s: Seq<Arc<LiveConsumer>>, c: Arc<LiveConsumer>)
    requires
        unique_ids(s),
        !has_id(s, c.spec_id()),
    ensures
        unique_ids(s.push(c)),
        lookup(s.push(c), c.spec_id()) == Some(c),
{
    let t = s.push(c);
    assert(t[s.len() as int].spec_id() == c.spec_id());
    let k = choose|k: int| 0 <= k < t.len() && #[trigger] t[k].spec_id() == c.spec_id();
    if k < s.len() {
        assert(s[k].spec_id() == c.spec_id());
    }
    assert forall|a: int, b: int|
        0 <= a < t.len() && 0 <= b < t.len() && a != b implies #[trigger] t[a].spec_id()
        != #[trigger] t[b].spec_id() by {
        if a < s.len() && b < s.len() {
            assert(t[a] == s[a] && t[b] == s[b]);
        } else if a < s.len() {
            assert(t[a] == s[a]);
        } else {
            assert(t[b] == s[b]);
        }
    }
}

/// What registering a session under an id gave.
pub enum Claim {
    /// A session was already registered under the id; nothing was built.
    Found(Arc<LiveConsumer>),
    /// A new session was built and registered; it is not yet activated.
    Built(Arc<LiveConsumer>),
    /// No session was registered and none could be built.
    Failed(TailError),
}

/// The sessions registered in a store, one per id. The entries sit in a
/// vector with unique ids as its invariant: the sweep and the listing walk
/// every entry, and their contracts say exactly which entries remain and in
/// which order, which a hash map, walked in an unspecified order, could not
/// state. A store holds few sessions (one per open tail view).
pub struct ConsumerTable {
    entries: Vec<Arc<LiveConsumer>>,
}

impl View for ConsumerTable {
    type V = Seq<Arc<LiveConsumer>>;

    closed spec fn view(&self) -> Seq<Arc<LiveConsumer>> {
        self.entries@
    }
}

impl ConsumerTable {
    pub open spec fn wf(&self) -> bool {
        unique_ids(self@)
    }

    pub fn new() -> (r: ConsumerTable)
        ensures
            r.wf(),
            r@ == Seq::<Arc<LiveConsumer>>::empty(),
    {
        ConsumerTable { entries: Vec::new() }
    }

    pub fn len(&self) -> (r: usize)
        ensures
            r == self@.len(),
    {
        self.entries.len()
    }

    /// The session registered under `id`, if any.
    pub fn find(&self, id: u64) -> (r: Option<Arc<LiveConsumer>>)
        requires
            self.wf(),
        ensures
            r == lookup(self@, id),
    {
        let mut i: usize = 0;
        while i < self.entries.len()
            invariant
                self.wf(),
                i <= self@.len(),
                forall|j: int| 0 <= j < i ==> #[trigger] self@[j].spec_id() != id,
            decreases self@.len() - i,
        {
            if self.entries[i].id() == id {
                let c = self.entries[i].clone();
                proof {
                    assert(self@[i as int].spec_id() == id);
                    assert(has_id(self@, id));
                    let k = choose|k: int| 0 <= k < self@.len() && #[trigger] self@[k].spec_id() == id;
                    assert(k == i);
                    assert(c == self@[i as int]);
                }
                return Some(c);
            }
            i += 1;
        }
        None
    }

    /// Registers a session under its id, which no entry holds yet.
    pub fn insert(&mut self, c: Arc<LiveConsumer>)
        requires
            old(self).wf(),
            !has_id(old(self)@, c.spec_id()),
        ensures
            final(self).wf(),
            final(self)@ == old(self)@.push(c),
            lookup(final(self)@, c.spec_id()) == Some(c),
    {
        proof {
            lemma_registered_session_is_found(self@, c);
        }
        self.entries.push(c);
    }

    /// The get-or-register step, run under the store's write lock: the
    /// session registered under `id` if there is one; otherwise a new session
    /// for (`cluster_config`, `topic`) is built and registered before anyone
    /// activates it, so that the id is claimed once. A failed build leaves
    /// the table as it was.
    pub fn get_or_register(
        &mut self,
        id: u64,
        cluster_config: &ClusterConfig,
        topic: &str,
        clock: Instant,
    ) -> (r: Claim)
        requires
            old(self).wf(),
        ensures
            final(self).wf(),
            has_id(old(self)@, id) ==> r == Claim::Found(lookup(old(self)@, id)->Some_0)
                && final(self)@ == old(self)@,
            !has_id(old(self)@, id) ==> match r {
                Claim::Built(c) => {
                    &&& c.spec_id() == id
                    &&& c.spec_topic() == topic@
                    &&& c.spec_cluster_id() == match cluster_config.cluster_id {
                        Some(k) => k@,
                        None => Seq::<char>::empty(),
                    }
                    &&& final(self)@ == old(self)@.push(c)
                    &&& lookup(final(self)@, id) == Some(c)
                },
                Claim::Failed(e) => e == TailError::Connection && final(self)@ == old(self)@,
                Claim::Found(_) => false,
            },
    {
        if let Some(c) = self.find(id) {
            return Claim::Found(c);
        }
        match LiveConsumer::new(id, cluster_config, topic, clock) {
            Err(e) => Claim::Failed(e),
            Ok(consumer) => {
                let c = Arc::new(consumer);
                self.insert(c.clone());
                Claim::Built(c)
            },
        }
    }

    /// Drops the entries whose observed last access `last[i]` is idle at `now`.
    pub fn retain_recent(&mut self, last: &Vec<u64>, now: u64, threshold: u64)
        requires
            old(self).wf(),
            last@.len() == old(self)@.len(),
        ensures
            final(self).wf(),
            final(self)@ == kept(old(self)@, last@, now, threshold),
    {
        let ghost s = self@;
        let mut out: Vec<Arc<LiveConsumer>> = Vec::new();
        let mut i: usize = 0;
        while i < self.entries.len()
            invariant
                self@ == s,
                last@.len() == s.len(),
                i <= s.len(),
                out@ == kept(s.subrange(0, i as int), last@.subrange(0, i as int), now, threshold),
            decreases s.len() - i,
        {
            proof {
                let si = s.subrange(0, i as int + 1);
                let li = last@.subrange(0, i as int + 1);
                assert(si.drop_last() =~= s.subrange(0, i as int));
                assert(li.drop_last() =~= last@.subrange(0, i as int));
            }
            if !is_idle(last[i], now, threshold) {
                out.push(self.entries[i].clone());
            }
            i += 1;
        }
        proof {
            assert(s.subrange(0, i as int) =~= s);
            assert(last@.subrange(0, i as int) =~= last@);
            lemma_kept_unique(s, last@, now, threshold);
        }
        self.entries = out;
    }

    /// Every registered session, in order.
    pub fn snapshot(&self) -> (r: Vec<Arc<LiveConsumer>>)
        ensures
            r@ == self@,
    {
        let mut out: Vec<Arc<LiveConsumer>> = Vec::new();
        let mut i: usize = 0;
        while i < self.entries.len()
            invariant
                i <= self@.len(),
                out@ == self@.subrange(0, i as int),
            decreases self@.len() - i,
        {
            out.push(self.entries[i].clone());
            proof {
                assert(out@ =~= self@.subrange(0, i as int + 1));
            }
            i += 1;
        }
        proof {
            assert(self@.subrange(0, i as int) =~= self@);
        }
        out
    }
}

} // verus!
