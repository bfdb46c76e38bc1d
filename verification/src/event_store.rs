//! The event store and repository facade: appending events under
//! optimistic concurrency control, co-writing snapshots, and replaying
//! aggregates.
//!
//! The store keeps, for every aggregate, its ordered event log, its latest
//! snapshot, and its version counter. The version is the sole
//! serialization mechanism: an append is committed exactly when the
//! caller's expected version equals the stored one, and every committed
//! append moves the stored version up by one, so of two racing writers
//! exactly one can win.

use vstd::prelude::*;
use vstd::string::StringExecFns;

use crate::errors::ReadError;
use crate::errors::WriteError;
use crate::replay::replay_core;
use crate::replay::spec_replay;
use crate::user_aggregate::with_version;
use crate::user_aggregate::UserAggregate;
use crate::user_event::UserEvent;
use crate::user_id::UserId;

verus! {

/// Names of the store's physical resources and its retention settings:
/// pure configuration, opaque to the protocol logic.
#[derive(Debug, Clone)]
pub struct EventStoreConfig {
    /// Journal table name.
    pub journal_table_name: String,
    /// Journal aggregate-id index name.
    pub journal_aid_index_name: String,
    /// Snapshot table name.
    pub snapshot_table_name: String,
    /// Snapshot aggregate-id index name.
    pub snapshot_aid_index_name: String,
    /// Shard count of the journal.
    pub shard_count: u64,
    /// How many past snapshots to keep, if bounded.
    pub keep_snapshot_count: Option<usize>,
}

impl Default for EventStoreConfig {
    /// The conventional table and index names, 64 shards, and the last two
    /// snapshots kept.
    fn default() -> (r: Self)
        ensures
            r.journal_table_name@ == "journal"@,
            r.journal_aid_index_name@ == "journal-aid-index"@,
            r.snapshot_table_name@ == "snapshot"@,
            r.snapshot_aid_index_name@ == "snapshot-aid-index"@,
            r.shard_count == 64,
            r.keep_snapshot_count == Some(2usize),
    {
        EventStoreConfig {
            journal_table_name: String::from_str("journal"),
            journal_aid_index_name: String::from_str("journal-aid-index"),
            snapshot_table_name: String::from_str("snapshot"),
            snapshot_aid_index_name: String::from_str("snapshot-aid-index"),
            shard_count: 64,
            keep_snapshot_count: Some(2),
        }
    }
}

/// Everything the store holds for one aggregate instance.
struct AggregateRecord {
    /// The aggregate this record belongs to.
    aggregate_id: UserId,
    /// The stored version: the number of committed writes.
    version: usize,
    /// The ordered event log, in append order.
    events: Vec<UserEvent>,
    /// The latest co-written snapshot, if any.
    snapshot: Option<UserAggregate>,
}

/// The record of the first aggregate in the sequence that carries the
/// given identity, if any.
spec fn find_record(s: Seq<AggregateRecord>, id: UserId) -> Option<AggregateRecord>
    decreases s.len(),
{
    if s.len() == 0 {
        None
    } else if s[0].aggregate_id == id {
        Some(s[0])
    } else {
        find_record(s.drop_first(), id)
    }
}

/// A record that stands at a position before which its identity does not
/// occur is the one the search finds.
proof fn lemma_find_found(s: Seq<AggregateRecord>, id: UserId, i: int)
    requires
        0 <= i < s.len(),
        s[i].aggregate_id == id,
        forall|j: int| 0 <= j < i ==> (#[trigger] s[j]).aggregate_id != id,
    ensures
        find_record(s, id) == Some(s[i]),
    decreases i,
{
    if i > 0 {
        lemma_find_found(s.drop_first(), id, i - 1);
    }
}

/// An identity that occurs nowhere is not found.
proof fn lemma_find_none(s: Seq<AggregateRecord>, id: UserId)
    requires
        forall|j: int| 0 <= j < s.len() ==> (#[trigger] s[j]).aggregate_id != id,
    ensures
        find_record(s, id) is None,
    decreases s.len(),
{
    if s.len() > 0 {
        lemma_find_none(s.drop_first(), id);
    }
}

/// Replacing the first record of an identity changes what the search
/// finds for that identity and for no other.
proof fn lemma_find_update(s: Seq<AggregateRecord>, i: int, r: AggregateRecord)
    requires
        0 <= i < s.len(),
        r.aggregate_id == s[i].aggregate_id,
        forall|j: int| 0 <= j < i ==> (#[trigger] s[j]).aggregate_id != s[i].aggregate_id,
    ensures
        forall|id2: UserId|
            #[trigger] find_record(s.update(i, r), id2) == if id2 == r.aggregate_id {
                Some(r)
            } else {
                find_record(s, id2)
            },
    decreases i,
{
    let t = s.update(i, r);
    if i == 0 {
        assert(t.drop_first() =~= s.drop_first());
        assert forall|id2: UserId|
            #[trigger] find_record(t, id2) == (if id2 == r.aggregate_id {
                Some(r)
            } else {
                find_record(s, id2)
            }) by {
            assert(t[0] == r);
            if id2 != r.aggregate_id {
                assert(find_record(t, id2) == find_record(t.drop_first(), id2));
                assert(find_record(s, id2) == find_record(s.drop_first(), id2));
            }
        }
    } else {
        lemma_find_update(s.drop_first(), i - 1, r);
        assert(t.drop_first() =~= s.drop_first().update(i - 1, r));
        assert(t[0] == s[0]);
        assert(s[0].aggregate_id != r.aggregate_id);
        assert forall|id2: UserId|
            #[trigger] find_record(t, id2) == (if id2 == r.aggregate_id {
                Some(r)
            } else {
                find_record(s, id2)
            }) by {
            if id2 == s[0].aggregate_id {
                assert(find_record(t, id2) == Some(s[0]));
                assert(find_record(s, id2) == Some(s[0]));
            } else {
                assert(find_record(t, id2) == find_record(t.drop_first(), id2));
                assert(find_record(s, id2) == find_record(s.drop_first(), id2));
                assert(find_record(s.drop_first().update(i - 1, r), id2) == (if id2
                    == r.aggregate_id {
                    Some(r)
                } else {
                    find_record(s.drop_first(), id2)
                }));
            }
        }
    }
}

/// Appending a record of a fresh identity changes what the search finds
/// for that identity and for no other.
proof fn lemma_find_push(s: Seq<AggregateRecord>, r: AggregateRecord)
    requires
        forall|j: int| 0 <= j < s.len() ==> (#[trigger] s[j]).aggregate_id != r.aggregate_id,
    ensures
        forall|id2: UserId|
            #[trigger] find_record(s.push(r), id2) == if id2 == r.aggregate_id {
                Some(r)
            } else {
                find_record(s, id2)
            },
    decreases s.len(),
{
    let t = s.push(r);
    if s.len() == 0 {
        assert forall|id2: UserId|
            #[trigger] find_record(t, id2) == (if id2 == r.aggregate_id {
                Some(r)
            } else {
                find_record(s, id2)
            }) by {
            assert(t[0] == r);
            if id2 != r.aggregate_id {
                assert(t.drop_first() =~= Seq::<AggregateRecord>::empty());
                assert(find_record(t, id2) == find_record(t.drop_first(), id2));
            }
        }
    } else {
        lemma_find_push(s.drop_first(), r);
        assert(t.drop_first() =~= s.drop_first().push(r));
        assert(t[0] == s[0]);
        assert forall|id2: UserId|
            #[trigger] find_record(t, id2) == (if id2 == r.aggregate_id {
                Some(r)
            } else {
                find_record(s, id2)
            }) by {
            if id2 == s[0].aggregate_id {
                assert(find_record(t, id2) == Some(s[0]));
                assert(find_record(s, id2) == Some(s[0]));
            } else {
                assert(find_record(t, id2) == find_record(t.drop_first(), id2));
                assert(find_record(s, id2) == find_record(s.drop_first(), id2));
                assert(find_record(s.drop_first().push(r), id2) == (if id2 == r.aggregate_id {
                    Some(r)
                } else {
                    find_record(s.drop_first(), id2)
                }));
            }
        }
    }
}

/// The stored events with a sequence number strictly above `n`, in stored
/// order; called with 0, the full stored history, whatever sequence
/// numbers it carries. The special case matters for corrupt histories: a
/// persisted event with sequence number 0 must still be seen by a replay
/// (and condemned there), never silently dropped.
pub open spec fn events_after(es: Seq<UserEvent>, n: usize) -> Seq<UserEvent>
    decreases es.len(),
{
    if es.len() == 0 {
        Seq::empty()
    } else {
        let rest = events_after(es.drop_last(), n);
        if n == 0 || es.last().spec_seq_nr() > n {
            rest.push(es.last())
        } else {
            rest
        }
    }
}

/// An in-memory event store holding, per aggregate, the ordered event
/// log, the latest snapshot, and the version counter. It implements the
/// same four-operation contract a durable store must offer, so it serves
/// as the verified reference model of the persistence protocol and as a
/// drop-in store for tests.
pub struct MemoryEventStore {
    records: Vec<AggregateRecord>,
}

impl MemoryEventStore {
    /// The stored version of the aggregate: the number of committed
    /// writes, 0 while nothing was ever committed for it.
    pub closed spec fn version_of(self, id: UserId) -> usize {
        match find_record(self.records@, id) {
            Some(r) => r.version,
            None => 0,
        }
    }

    /// The aggregate's full event log, in append order.
    pub closed spec fn events_of(self, id: UserId) -> Seq<UserEvent> {
        match find_record(self.records@, id) {
            Some(r) => r.events@,
            None => Seq::empty(),
        }
    }

    /// The aggregate's latest snapshot, if one was ever co-written.
    pub closed spec fn snapshot_of(self, id: UserId) -> Option<UserAggregate> {
        match find_record(self.records@, id) {
            Some(r) => r.snapshot,
            None => None,
        }
    }

    /// An empty store: no aggregate has any history.
    pub fn new() -> (r: Self)
        ensures
            forall|id: UserId| #[trigger] r.version_of(id) == 0,
            forall|id: UserId| #[trigger] r.events_of(id) == Seq::<UserEvent>::empty(),
            forall|id: UserId| #[trigger] r.snapshot_of(id) is None,
    {
        let r = MemoryEventStore { records: Vec::new() };
        proof {
            assert forall|id: UserId| #[trigger] find_record(r.records@, id) is None by {
                lemma_find_none(r.records@, id);
            }
        }
        r
    }

    /// Index of the aggregate's record, with the ghost fact that it is the
    /// first (and so the found) one.
    fn find_index(&self, id: UserId) -> (r: Option<usize>)
        ensures
            r matches Some(i) ==> i < self.records@.len() && self.records@[i as int].aggregate_id
                == id && (forall|j: int| 0 <= j < i ==> (#[trigger] self.records@[j]).aggregate_id != id)
                && find_record(self.records@, id) == Some(self.records@[i as int]),
            r is None ==> find_record(self.records@, id) is None && (forall|j: int|
                0 <= j < self.records@.len() ==> (#[trigger] self.records@[j]).aggregate_id != id),
    {
        let mut i: usize = 0;
        while i < self.records.len()
            invariant
                i <= self.records.len(),
                forall|j: int| 0 <= j < i ==> (#[trigger] self.records@[j]).aggregate_id != id,
            decreases self.records.len() - i,
        {
            if self.records[i].aggregate_id == id {
                proof {
                    lemma_find_found(self.records@, id, i as int);
                }
                return Some(i);
            }
            i += 1;
        }
        proof {
            lemma_find_none(self.records@, id);
        }
        None
    }

    /// The stored version of the aggregate, 0 while nothing was committed.
    fn stored_version(&self, id: UserId) -> (v: usize)
        ensures
            v == self.version_of(id),
    {
        match self.find_index(id) {
            Some(i) => self.records[i].version,
            None => 0,
        }
    }

    /// Appends one event for the event's aggregate, committed exactly when
    /// the expected `version` equals the stored one; a commit moves the
    /// stored version up by one and touches nothing else. A mismatch means
    /// another writer committed first: the append is refused as a
    /// `Conflict` and the store is left exactly as it was.
    pub fn persist_event(&mut self, event: &UserEvent, version: usize) -> (r: Result<
        (),
        WriteError,
    >)
        requires
            version < usize::MAX,
        ensures
            r is Ok <==> version == old(self).version_of(event.spec_aggregate_id()),
            r is Err ==> r == Err::<(), WriteError>(WriteError::Conflict) && *final(self) == *old(
                self,
            ),
            r is Ok ==> final(self).version_of(event.spec_aggregate_id()) == version + 1,
            r is Ok ==> final(self).events_of(event.spec_aggregate_id()) == old(self).events_of(
                event.spec_aggregate_id(),
            ).push(*event),
            r is Ok ==> final(self).snapshot_of(event.spec_aggregate_id()) == old(
                self,
            ).snapshot_of(event.spec_aggregate_id()),
            forall|other: UserId|
                other != event.spec_aggregate_id() ==> #[trigger] final(self).version_of(other)
                    == old(self).version_of(other),
            forall|other: UserId|
                other != event.spec_aggregate_id() ==> #[trigger] final(self).events_of(other)
                    == old(self).events_of(other),
            forall|other: UserId|
                other != event.spec_aggregate_id() ==> #[trigger] final(self).snapshot_of(other)
                    == old(self).snapshot_of(other),
    {
        self.append(event, version, None)
    }

    /// Appends one event and co-writes the given aggregate state as the
    /// new latest snapshot, in one logical transaction: both are committed
    /// exactly when the aggregate's own version equals the stored one, and
    /// nothing is committed otherwise. The aggregate is expected to carry
    /// the state after the event; the store records it as handed in.
    pub fn persist_event_and_snapshot(&mut self, event: &UserEvent, aggregate: &UserAggregate) -> (r:
        Result<(), WriteError>)
        requires
            aggregate.version < usize::MAX,
        ensures
            r is Ok <==> aggregate.version == old(self).version_of(event.spec_aggregate_id()),
            r is Err ==> r == Err::<(), WriteError>(WriteError::Conflict) && *final(self) == *old(
                self,
            ),
            r is Ok ==> final(self).version_of(event.spec_aggregate_id()) == aggregate.version + 1,
            r is Ok ==> final(self).events_of(event.spec_aggregate_id()) == old(self).events_of(
                event.spec_aggregate_id(),
            ).push(*event),
            r is Ok ==> final(self).snapshot_of(event.spec_aggregate_id()) == Some(*aggregate),
            forall|other: UserId|
                other != event.spec_aggregate_id() ==> #[trigger] final(self).version_of(other)
                    == old(self).version_of(other),
            forall|other: UserId|
                other != event.spec_aggregate_id() ==> #[trigger] final(self).events_of(other)
                    == old(self).events_of(other),
            forall|other: UserId|
                other != event.spec_aggregate_id() ==> #[trigger] final(self).snapshot_of(other)
                    == old(self).snapshot_of(other),
    {
        self.append(event, aggregate.version(), Some(aggregate.clone()))
    }

    /// The one write path: appends the event under the version check and,
    /// when a snapshot is handed in, records it as the latest one.
    fn append(&mut self, event: &UserEvent, version: usize, snapshot: Option<UserAggregate>) -> (r:
        Result<(), WriteError>)
        requires
            version < usize::MAX,
        ensures
            r is Ok <==> version == old(self).version_of(event.spec_aggregate_id()),
            r is Err ==> r == Err::<(), WriteError>(WriteError::Conflict) && *final(self) == *old(
                self,
            ),
            r is Ok ==> final(self).version_of(event.spec_aggregate_id()) == version + 1,
            r is Ok ==> final(self).events_of(event.spec_aggregate_id()) == old(self).events_of(
                event.spec_aggregate_id(),
            ).push(*event),
            r is Ok ==> final(self).snapshot_of(event.spec_aggregate_id()) == (match snapshot {
                Some(a) => Some(a),
                None => old(self).snapshot_of(event.spec_aggregate_id()),
            }),
            forall|other: UserId|
                other != event.spec_aggregate_id() ==> #[trigger] final(self).version_of(other)
                    == old(self).version_of(other),
            forall|other: UserId|
                other != event.spec_aggregate_id() ==> #[trigger] final(self).events_of(other)
                    == old(self).events_of(other),
            forall|other: UserId|
                other != event.spec_aggregate_id() ==> #[trigger] final(self).snapshot_of(other)
                    == old(self).snapshot_of(other),
    {
        let id = event.aggregate_id();
        match self.find_index(id) {
            Some(i) => {
                if self.records[i].version != version {
                    return Err(WriteError::Conflict);
                }
                let mut rec = self.records.remove(i);
                rec.events.push(event.clone());
                rec.version = version + 1;
                match snapshot {
                    Some(a) => {
                        rec.snapshot = Some(a);
                    },
                    None => {},
                }
                let ghost newrec = rec;
                self.records.insert(i, rec);
                proof {
                    assert(self.records@ =~= old(self).records@.update(i as int, newrec));
                    lemma_find_update(old(self).records@, i as int, newrec);
                }
                Ok(())
            },
            None => {
                if version != 0 {
                    return Err(WriteError::Conflict);
                }
                let mut events: Vec<UserEvent> = Vec::new();
                events.push(event.clone());
                let rec = AggregateRecord { aggregate_id: id, version: 1, events, snapshot };
                let ghost newrec = rec;
                self.records.push(rec);
                proof {
                    lemma_find_push(old(self).records@, newrec);
                    assert(newrec.events@ =~= Seq::<UserEvent>::empty().push(*event));
                }
                Ok(())
            },
        }
    }

    /// The most recent snapshot for the aggregate, or none while none was
    /// ever co-written. Never an error in this store.
    pub fn get_latest_snapshot_by_id(&self, id: &UserId) -> (r: Result<
        Option<UserAggregate>,
        ReadError,
    >)
        ensures
            r matches Ok(s) && s == self.snapshot_of(*id),
    {
        match self.find_index(*id) {
            Some(i) => match &self.records[i].snapshot {
                Some(a) => Ok(Some(a.clone())),
                None => Ok(None),
            },
            None => Ok(None),
        }
    }

    /// All stored events of the aggregate with a sequence number strictly
    /// above `seq_nr`, in stored order; with 0, the full history, whatever
    /// sequence numbers it carries. An empty sequence, never an error,
    /// when none exist.
    pub fn get_events_by_id_since_seq_nr(&self, id: &UserId, seq_nr: usize) -> (r: Result<
        Vec<UserEvent>,
        ReadError,
    >)
        ensures
            r matches Ok(v) && v@ == events_after(self.events_of(*id), seq_nr),
    {
        match self.find_index(*id) {
            Some(i) => {
                let events = &self.records[i].events;
                let mut out: Vec<UserEvent> = Vec::new();
                let mut j: usize = 0;
                while j < events.len()
                    invariant
                        j <= events.len(),
                        out@ == events_after(events@.take(j as int), seq_nr),
                    decreases events.len() - j,
                {
                    let e = &events[j];
                    if seq_nr == 0 || e.seq_nr() > seq_nr {
                        out.push(e.clone());
                    }
                    proof {
                        assert(events@.take(j + 1).drop_last() =~= events@.take(j as int));
                        assert(events@.take(j + 1).last() == events@[j as int]);
                    }
                    j += 1;
                }
                proof {
                    assert(events@.take(events.len() as int) =~= events@);
                }
                Ok(out)
            },
            None => {
                proof {
                    assert(events_after(Seq::<UserEvent>::empty(), seq_nr) =~= Seq::<
                        UserEvent,
                    >::empty());
                }
                Ok(Vec::new())
            },
        }
    }

    /// What a replay of the aggregate must yield, given the store's
    /// contents: the replay engine's verdict on the latest snapshot plus
    /// the events after it, with a reconstructed state carrying the
    /// store's current version.
    pub open spec fn spec_replay_result(self, id: UserId) -> Result<
        Option<UserAggregate>,
        ReadError,
    > {
        let snap = self.snapshot_of(id);
        let base: usize = match snap {
            Some(a) => a.seq_nr,
            None => 0,
        };
        match spec_replay(snap, events_after(self.events_of(id), base)) {
            Ok(Some(a)) => Ok(Some(with_version(a, self.version_of(id)))),
            other => other,
        }
    }

    /// Reconstructs the aggregate's current state: fetches the latest
    /// snapshot, fetches the events recorded after it, folds them in
    /// order, and stamps the store's current version on the result. Yields
    /// no state for an aggregate that was never written, and refuses a
    /// corrupt history rather than returning a partial state.
    pub fn replay(&self, id: &UserId) -> (r: Result<Option<UserAggregate>, ReadError>)
        ensures
            r == self.spec_replay_result(*id),
    {
        let snapshot = match self.get_latest_snapshot_by_id(id) {
            Ok(s) => s,
            Err(e) => {
                return Err(e);
            },
        };
        let base = match &snapshot {
            Some(a) => a.seq_nr(),
            None => 0,
        };
        let events = match self.get_events_by_id_since_seq_nr(id, base) {
            Ok(v) => v,
            Err(e) => {
                return Err(e);
            },
        };
        match replay_core(snapshot, &events) {
            Ok(Some(mut a)) => {
                let v = self.stored_version(*id);
                a.set_version(v);
                Ok(Some(a))
            },
            Ok(None) => Ok(None),
            Err(e) => Err(e),
        }
    }
}

/// Version monotonicity: along a chain of store states in which the
/// `i`-th step is one committed append of `events[i]` for a fresh
/// aggregate (each commit, by `persist_event`'s contract, moves the
/// version up by one and pushes its event), the stored version after `m`
/// steps is exactly `m` — it never repeats and never goes back — and the
/// stored history is exactly the appended events, in issue order.
pub proof fn lemma_version_monotonicity(
    chain: Seq<MemoryEventStore>,
    events: Seq<UserEvent>,
    id: UserId,
)
    requires
        chain.len() == events.len() + 1,
        chain[0].version_of(id) == 0,
        chain[0].events_of(id) == Seq::<UserEvent>::empty(),
        forall|i: int|
            0 <= i < events.len() ==> (#[trigger] chain[i + 1].version_of(id)) == chain[
                i
            ].version_of(id) + 1 && chain[i + 1].events_of(id) == chain[i].events_of(id).push(
                events[i],
            ),
    ensures
        forall|i: int| 0 <= i < chain.len() ==> (#[trigger] chain[i].version_of(id)) == i,
        forall|i: int|
            0 <= i < chain.len() ==> (#[trigger] chain[i].events_of(id)) == events.take(i),
        chain[events.len() as int].version_of(id) == events.len(),
        chain[events.len() as int].events_of(id) == events,
{
    assert forall|i: int| 0 <= i < chain.len() implies (#[trigger] chain[i].version_of(id)) == i
        && chain[i].events_of(id) == events.take(i) by {
        lemma_append_chain_at(chain, events, id, i);
    }
    assert forall|i: int| 0 <= i < chain.len() implies (#[trigger] chain[i].events_of(id))
        == events.take(i) by {
        lemma_append_chain_at(chain, events, id, i);
    }
    assert(events.take(events.len() as int) =~= events);
}

/// After `i` committed appends from a fresh state, the version is `i` and
/// the history is the first `i` appended events.
proof fn lemma_append_chain_at(
    chain: Seq<MemoryEventStore>,
    events: Seq<UserEvent>,
    id: UserId,
    i: int,
)
    requires
        chain.len() == events.len() + 1,
        0 <= i < chain.len(),
        chain[0].version_of(id) == 0,
        chain[0].events_of(id) == Seq::<UserEvent>::empty(),
        forall|j: int|
            0 <= j < events.len() ==> (#[trigger] chain[j + 1].version_of(id)) == chain[
                j
            ].version_of(id) + 1 && chain[j + 1].events_of(id) == chain[j].events_of(id).push(
                events[j],
            ),
    ensures
        chain[i].version_of(id) == i,
        chain[i].events_of(id) == events.take(i),
    decreases i,
{
    if i == 0 {
        assert(events.take(0) =~= Seq::<UserEvent>::empty());
    } else {
        lemma_append_chain_at(chain, events, id, i - 1);
        assert(chain[(i - 1) + 1].version_of(id) == chain[i - 1].version_of(id) + 1);
        assert(chain[(i - 1) + 1].events_of(id) == chain[i - 1].events_of(id).push(
            events[i - 1],
        ));
        assert(events.take(i) =~= events.take(i - 1).push(events[i - 1]));
    }
}

/// Conflict detection: an append is committed exactly when its expected
/// version equals the stored one, so of two writers racing with the same
/// expectation, the winner moves the stored version on and the loser's
/// check must then fail: one success, one conflict.
pub proof fn lemma_conflict_detection(
    before: MemoryEventStore,
    after: MemoryEventStore,
    id: UserId,
    expected: usize,
)
    requires
        before.version_of(id) == expected,
        after.version_of(id) == before.version_of(id) + 1,
    ensures
        after.version_of(id) != expected,
{
}

} // verus!
