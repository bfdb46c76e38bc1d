//! The replay engine: reconstructing an aggregate's current state from an
//! optional snapshot plus the events recorded after it.

use vstd::prelude::*;

use crate::errors::ReadError;
use crate::user_aggregate::spec_apply;
use crate::user_aggregate::spec_fold;
use crate::user_aggregate::UserAggregate;
use crate::user_event::UserEvent;

verus! {

/// The events carry exactly the sequence numbers `base + 1`, `base + 2`,
/// ... in order: no gap, no duplicate, no reordering.
pub open spec fn contiguous_from(es: Seq<UserEvent>, base: int) -> bool {
    forall|i: int| 0 <= i < es.len() ==> (#[trigger] es[i]).spec_seq_nr() == base + 1 + i
}

/// The zero state an aggregate is born into, as determined by its creation
/// event: the event's fields, its sequence number and timestamp, and a
/// version of 0 (the store has not stamped a version on it yet).
pub open spec fn spec_from_creation(e: UserEvent) -> UserAggregate
    recommends
        e is Created,
{
    UserAggregate {
        id: e->Created_aggregate_id,
        name: e->Created_name,
        email: e->Created_email,
        seq_nr: e->Created_seq_nr,
        version: 0,
        last_updated_at: e->Created_occurred_at,
    }
}

/// What a replay yields from a snapshot (if any) and the events recorded
/// after it.
///
/// With a snapshot at sequence number `N`, the events must carry exactly
/// `N+1, N+2, ...`; they are folded into the snapshot state. With no
/// snapshot, an empty history means the aggregate does not exist; a
/// non-empty history must open with a creation event and carry sequence
/// numbers `1, 2, ...`, and is folded from the zero state that creation
/// event determines. A history that breaks either rule is corrupt and
/// yields `InvariantViolation`, never a partial state.
pub open spec fn spec_replay(snapshot: Option<UserAggregate>, es: Seq<UserEvent>) -> Result<
    Option<UserAggregate>,
    ReadError,
> {
    match snapshot {
        Some(a) => {
            if contiguous_from(es, a.seq_nr as int) {
                Ok(Some(spec_fold(a, es)))
            } else {
                Err(ReadError::InvariantViolation)
            }
        },
        None => {
            if es.len() == 0 {
                Ok(None)
            } else if es[0] is Created && contiguous_from(es, 0) {
                Ok(Some(spec_fold(spec_from_creation(es[0]), es.drop_first())))
            } else {
                Err(ReadError::InvariantViolation)
            }
        },
    }
}

/// Peeling the first event off a fold: folding a whole sequence equals
/// applying the first event and folding the rest.
proof fn lemma_fold_unfold_front(a: UserAggregate, es: Seq<UserEvent>)
    requires
        es.len() > 0,
    ensures
        spec_fold(a, es) == spec_fold(spec_apply(a, es[0]), es.drop_first()),
    decreases es.len(),
{
    if es.len() == 1 {
        assert(es.drop_last() =~= Seq::<UserEvent>::empty());
        assert(es.drop_first() =~= Seq::<UserEvent>::empty());
        assert(spec_fold(a, es.drop_last()) == a);
        assert(spec_fold(spec_apply(a, es[0]), es.drop_first()) == spec_apply(a, es[0]));
        assert(es.last() == es[0]);
    } else {
        lemma_fold_unfold_front(a, es.drop_last());
        assert(es.drop_last()[0] == es[0]);
        assert(es.drop_last().drop_first() =~= es.drop_first().drop_last());
        assert(es.drop_first().last() == es.last());
        assert(spec_fold(a, es) == spec_apply(spec_fold(a, es.drop_last()), es.last()));
        assert(spec_fold(spec_apply(a, es[0]), es.drop_first()) == spec_apply(
            spec_fold(spec_apply(a, es[0]), es.drop_first().drop_last()),
            es.drop_first().last(),
        ));
    }
}

/// Fold determinism: folding a creation-first history reads nothing of the
/// zero state but its identity and version, so any two zero states that
/// agree on those are folded to the very same final state, however often
/// the fold is run. A run of `apply_event` calls is `fold_events`, whose
/// contract pins its result to this very fold, so the statement carries
/// over to the executable chain.
pub proof fn lemma_fold_deterministic(a1: UserAggregate, a2: UserAggregate, es: Seq<UserEvent>)
    requires
        es.len() > 0,
        es[0] is Created,
        a1.id == a2.id,
        a1.version == a2.version,
    ensures
        spec_fold(a1, es) == spec_fold(a2, es),
    decreases es.len(),
{
    if es.len() == 1 {
        assert(es.drop_last() =~= Seq::<UserEvent>::empty());
        assert(spec_fold(a1, es.drop_last()) == a1);
        assert(spec_fold(a2, es.drop_last()) == a2);
        assert(es.last() == es[0]);
    } else {
        assert(es.drop_last()[0] == es[0]);
        lemma_fold_deterministic(a1, a2, es.drop_last());
        assert(spec_fold(a1, es) == spec_apply(spec_fold(a1, es.drop_last()), es.last()));
        assert(spec_fold(a2, es) == spec_apply(spec_fold(a2, es.drop_last()), es.last()));
    }
}

/// Splitting a fold: folding a concatenation equals folding the first part
/// and then folding the second part into the result.
pub proof fn lemma_fold_concat(a: UserAggregate, es1: Seq<UserEvent>, es2: Seq<UserEvent>)
    ensures
        spec_fold(a, es1 + es2) == spec_fold(spec_fold(a, es1), es2),
    decreases es2.len(),
{
    if es2.len() == 0 {
        assert(es1 + es2 =~= es1);
    } else {
        lemma_fold_concat(a, es1, es2.drop_last());
        assert((es1 + es2).drop_last() =~= es1 + es2.drop_last());
        assert((es1 + es2).last() == es2.last());
    }
}

/// Snapshot equivalence: for any split point `k`, folding the whole
/// history from a state equals taking the state after the first `k` events
/// (the snapshot) and folding the remaining events into it.
pub proof fn lemma_snapshot_equivalence(a: UserAggregate, es: Seq<UserEvent>, k: int)
    requires
        0 <= k <= es.len(),
    ensures
        spec_fold(a, es) == spec_fold(spec_fold(a, es.take(k)), es.skip(k)),
{
    lemma_fold_concat(a, es.take(k), es.skip(k));
    assert(es.take(k) + es.skip(k) =~= es);
}

/// Checks that the events carry exactly the sequence numbers `base + 1`,
/// `base + 2`, ... in order.
fn events_contiguous(events: &Vec<UserEvent>, base: usize) -> (r: bool)
    ensures
        r == contiguous_from(events@, base as int),
{
    let mut i: usize = 0;
    while i < events.len()
        invariant
            i <= events.len(),
            forall|j: int| 0 <= j < i ==> (#[trigger] events@[j]).spec_seq_nr() == base + 1 + j,
        decreases events.len() - i,
    {
        let sn = events[i].seq_nr();
        if !(sn > base && sn - base == i + 1) {
            assert((events@[i as int]).spec_seq_nr() != base + 1 + i);
            return false;
        }
        i += 1;
    }
    true
}

/// Folds every event of the sequence, in order, into the given state.
pub fn fold_events(agg: UserAggregate, events: &Vec<UserEvent>) -> (r: UserAggregate)
    ensures
        r == spec_fold(agg, events@),
{
    let ghost a0 = agg;
    let mut acc = agg;
    let mut i: usize = 0;
    while i < events.len()
        invariant
            i <= events.len(),
            acc == spec_fold(a0, events@.take(i as int)),
        decreases events.len() - i,
    {
        acc.apply_event(&events[i]);
        proof {
            assert(events@.take(i + 1).drop_last() =~= events@.take(i as int));
            assert(events@.take(i + 1).last() == events@[i as int]);
        }
        i += 1;
    }
    proof {
        assert(events@.take(events.len() as int) =~= events@);
    }
    acc
}

/// Replays an aggregate from its full history, with no snapshot: the
/// cold-start branch of the replay engine.
///
/// An empty history means the aggregate does not exist. Otherwise the
/// history must open with a creation event and be gapless from sequence
/// number 1; anything else is corrupt and is reported, never folded.
pub fn replay_from_events(events: &Vec<UserEvent>) -> (r: Result<
    Option<UserAggregate>,
    ReadError,
>)
    ensures
        r == spec_replay(None, events@),
{
    if events.len() == 0 {
        return Ok(None);
    }
    if !events_contiguous(events, 0) {
        return Err(ReadError::InvariantViolation);
    }
    match &events[0] {
        UserEvent::Created { aggregate_id, name, email, .. } => {
            let agg = UserAggregate::new(*aggregate_id, name.clone(), email.clone());
            let ghost a0 = agg;
            let folded = fold_events(agg, events);
            proof {
                lemma_fold_unfold_front(a0, events@);
                assert(spec_apply(a0, events@[0]) == spec_from_creation(events@[0]));
            }
            Ok(Some(folded))
        },
        _ => Err(ReadError::InvariantViolation),
    }
}

/// Replays an aggregate from an optional snapshot plus the events recorded
/// after it: the whole replay engine, as a pure step on already-fetched
/// data.
pub fn replay_core(snapshot: Option<UserAggregate>, events: &Vec<UserEvent>) -> (r: Result<
    Option<UserAggregate>,
    ReadError,
>)
    ensures
        r == spec_replay(snapshot, events@),
{
    match snapshot {
        Some(agg) => {
            if !events_contiguous(events, agg.seq_nr) {
                return Err(ReadError::InvariantViolation);
            }
            Ok(Some(fold_events(agg, events)))
        },
        None => replay_from_events(events),
    }
}

} // verus!
