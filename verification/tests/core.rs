//! End-to-end tests of the persistence core: folding, replay, the
//! versioned write path, and conflict detection.

use user_event_store::EventStoreConfig;
use user_event_store::MemoryEventStore;
use user_event_store::ReadError;
use user_event_store::UserAggregate;
use user_event_store::UserError;
use user_event_store::UserEvent;
use user_event_store::UserEventId;
use user_event_store::UserId;
use user_event_store::WriteError;
use user_event_store::replay_from_events;

fn created(aid: UserId, seq: usize, name: &str, email: &str) -> UserEvent {
    UserEvent::Created {
        id: UserEventId::new(),
        aggregate_id: aid,
        seq_nr: seq,
        name: name.to_string(),
        email: email.to_string(),
        occurred_at: 1_000 + seq as i64,
    }
}

fn name_updated(aid: UserId, seq: usize, name: &str) -> UserEvent {
    UserEvent::NameUpdated {
        id: UserEventId::new(),
        aggregate_id: aid,
        seq_nr: seq,
        name: name.to_string(),
        occurred_at: 1_000 + seq as i64,
    }
}

fn email_updated(aid: UserId, seq: usize, email: &str) -> UserEvent {
    UserEvent::EmailUpdated {
        id: UserEventId::new(),
        aggregate_id: aid,
        seq_nr: seq,
        email: email.to_string(),
        occurred_at: 1_000 + seq as i64,
    }
}

/// The example scenario, replayed through the snapshot at seq_nr 2.
#[test]
fn test_replay_with_snapshot() {
    let aid = UserId::new();
    let mut store = MemoryEventStore::new();
    let e1 = created(aid, 1, "alice", "a@x.com");
    assert_eq!(store.persist_event(&e1, 0), Ok(()));

    let e2 = name_updated(aid, 2, "alicia");
    let mut agg = UserAggregate::new(aid, String::new(), String::new());
    agg.apply_event(&e1);
    agg.apply_event(&e2);
    agg.set_version(1);
    assert_eq!(store.persist_event_and_snapshot(&e2, &agg), Ok(()));

    let e3 = email_updated(aid, 3, "alicia@x.com");
    assert_eq!(store.persist_event(&e3, 2), Ok(()));

    let replayed = store.replay(&aid).unwrap().unwrap();
    assert_eq!(replayed.name(), "alicia");
    assert_eq!(replayed.email(), "alicia@x.com");
    assert_eq!(replayed.seq_nr(), 3);
    assert_eq!(replayed.version(), 3);
    assert_eq!(replayed.id().0, aid.0);
    assert_eq!(replayed.last_updated_at(), 1_003);
}

/// The example scenario, replayed from the full history with no snapshot:
/// the result must be identical to the snapshot path.
#[test]
fn test_snapshot_equivalence() {
    let aid = UserId::new();
    let e1 = created(aid, 1, "alice", "a@x.com");
    let e2 = name_updated(aid, 2, "alicia");
    let e3 = email_updated(aid, 3, "alicia@x.com");

    let mut with_snapshot = MemoryEventStore::new();
    assert_eq!(with_snapshot.persist_event(&e1, 0), Ok(()));
    let mut agg = UserAggregate::new(aid, String::new(), String::new());
    agg.apply_event(&e1);
    agg.apply_event(&e2);
    agg.set_version(1);
    assert_eq!(with_snapshot.persist_event_and_snapshot(&e2, &agg), Ok(()));
    assert_eq!(with_snapshot.persist_event(&e3, 2), Ok(()));

    let mut without_snapshot = MemoryEventStore::new();
    assert_eq!(without_snapshot.persist_event(&e1, 0), Ok(()));
    assert_eq!(without_snapshot.persist_event(&e2, 1), Ok(()));
    assert_eq!(without_snapshot.persist_event(&e3, 2), Ok(()));

    let a = with_snapshot.replay(&aid).unwrap().unwrap();
    let b = without_snapshot.replay(&aid).unwrap().unwrap();
    assert_eq!(a.id().0, b.id().0);
    assert_eq!(a.name(), b.name());
    assert_eq!(a.email(), b.email());
    assert_eq!(a.seq_nr(), b.seq_nr());
    assert_eq!(a.version(), b.version());
    assert_eq!(a.last_updated_at(), b.last_updated_at());
}

/// Folding the same well-formed history twice yields the same state.
#[test]
fn test_fold_determinism() {
    let aid = UserId::new();
    let events = vec![
        created(aid, 1, "alice", "a@x.com"),
        name_updated(aid, 2, "alicia"),
        email_updated(aid, 3, "alicia@x.com"),
    ];
    let a = replay_from_events(&events).unwrap().unwrap();
    let b = replay_from_events(&events).unwrap().unwrap();
    assert_eq!(a.id().0, b.id().0);
    assert_eq!(a.name(), "alicia");
    assert_eq!(b.name(), "alicia");
    assert_eq!(a.email(), b.email());
    assert_eq!(a.seq_nr(), b.seq_nr());
    assert_eq!(a.version(), b.version());
    assert_eq!(a.last_updated_at(), b.last_updated_at());
}

/// After M committed appends to a fresh aggregate, the stored version is
/// exactly M.
#[test]
fn test_version_monotonicity() {
    let aid = UserId::new();
    let mut store = MemoryEventStore::new();
    assert_eq!(store.persist_event(&created(aid, 1, "alice", "a@x.com"), 0), Ok(()));
    for m in 2..=5usize {
        let event = name_updated(aid, m, "alice");
        assert_eq!(store.persist_event(&event, m - 1), Ok(()));
    }
    let replayed = store.replay(&aid).unwrap().unwrap();
    assert_eq!(replayed.version(), 5);
    assert_eq!(replayed.seq_nr(), 5);
}

/// Two writers racing with the same expected version: exactly one wins,
/// the other is refused with a conflict and changes nothing.
#[test]
fn test_conflict_detection() {
    let aid = UserId::new();
    let mut store = MemoryEventStore::new();
    assert_eq!(store.persist_event(&created(aid, 1, "alice", "a@x.com"), 0), Ok(()));

    let winner = name_updated(aid, 2, "alicia");
    let loser = email_updated(aid, 2, "b@x.com");
    assert_eq!(store.persist_event(&winner, 1), Ok(()));
    assert_eq!(store.persist_event(&loser, 1), Err(WriteError::Conflict));

    let replayed = store.replay(&aid).unwrap().unwrap();
    assert_eq!(replayed.name(), "alicia");
    assert_eq!(replayed.email(), "a@x.com");
    assert_eq!(replayed.version(), 2);
}

/// A history whose first event is not a creation event is corrupt: replay
/// reports it and returns no partial state.
#[test]
fn test_creation_first_invariant() {
    let aid = UserId::new();
    let mut store = MemoryEventStore::new();
    assert_eq!(store.persist_event(&name_updated(aid, 1, "alice"), 0), Ok(()));
    assert!(matches!(store.replay(&aid), Err(ReadError::InvariantViolation)));

    let direct = replay_from_events(&vec![name_updated(aid, 1, "alice")]);
    assert!(matches!(direct, Err(ReadError::InvariantViolation)));
}

/// A history with a sequence-number gap is corrupt: replay reports it.
#[test]
fn test_gap_detected() {
    let aid = UserId::new();
    let mut store = MemoryEventStore::new();
    assert_eq!(store.persist_event(&created(aid, 1, "alice", "a@x.com"), 0), Ok(()));
    assert_eq!(store.persist_event(&name_updated(aid, 5, "alicia"), 1), Ok(()));
    assert!(matches!(store.replay(&aid), Err(ReadError::InvariantViolation)));
}

/// A gap between a snapshot and the first event after it is detected too.
#[test]
fn test_gap_after_snapshot_detected() {
    let aid = UserId::new();
    let mut store = MemoryEventStore::new();
    let e1 = created(aid, 1, "alice", "a@x.com");
    assert_eq!(store.persist_event(&e1, 0), Ok(()));
    let mut agg = UserAggregate::new(aid, String::new(), String::new());
    agg.apply_event(&e1);
    agg.set_version(1);
    assert_eq!(store.persist_event_and_snapshot(&name_updated(aid, 2, "alicia"), &agg), Ok(()));
    assert_eq!(store.persist_event(&name_updated(aid, 4, "alina"), 2), Ok(()));
    // The snapshot reflects seq_nr 1, so replay expects 2, 3, ... after it
    // and finds 2 and 4.
    assert!(matches!(store.replay(&aid), Err(ReadError::InvariantViolation)));
}

/// Replaying twice with no intervening writes yields equal states.
#[test]
fn test_idempotent_replay() {
    let aid = UserId::new();
    let mut store = MemoryEventStore::new();
    assert_eq!(store.persist_event(&created(aid, 1, "alice", "a@x.com"), 0), Ok(()));
    assert_eq!(store.persist_event(&name_updated(aid, 2, "alicia"), 1), Ok(()));
    let a = store.replay(&aid).unwrap().unwrap();
    let b = store.replay(&aid).unwrap().unwrap();
    assert_eq!(a.id().0, b.id().0);
    assert_eq!(a.name(), b.name());
    assert_eq!(a.email(), b.email());
    assert_eq!(a.seq_nr(), b.seq_nr());
    assert_eq!(a.version(), b.version());
    assert_eq!(a.last_updated_at(), b.last_updated_at());
}

/// An aggregate that was never written does not exist.
#[test]
fn test_replay_unknown_aggregate() {
    let store = MemoryEventStore::new();
    let outcome = store.replay(&UserId::new());
    assert!(matches!(outcome, Ok(None)));
}

/// An empty history replays to no aggregate, directly too.
#[test]
fn test_replay_empty_history() {
    let outcome = replay_from_events(&Vec::new());
    assert!(matches!(outcome, Ok(None)));
}

/// The events-since query returns exactly the events with a strictly
/// greater sequence number, in order.
#[test]
fn test_events_since() {
    let aid = UserId::new();
    let mut store = MemoryEventStore::new();
    assert_eq!(store.persist_event(&created(aid, 1, "alice", "a@x.com"), 0), Ok(()));
    assert_eq!(store.persist_event(&name_updated(aid, 2, "alicia"), 1), Ok(()));
    assert_eq!(store.persist_event(&email_updated(aid, 3, "alicia@x.com"), 2), Ok(()));

    let all = store.get_events_by_id_since_seq_nr(&aid, 0).unwrap();
    assert_eq!(all.len(), 3);
    let tail = store.get_events_by_id_since_seq_nr(&aid, 1).unwrap();
    assert_eq!(tail.len(), 2);
    assert_eq!(tail[0].seq_nr(), 2);
    assert_eq!(tail[1].seq_nr(), 3);
    let none = store.get_events_by_id_since_seq_nr(&aid, 3).unwrap();
    assert_eq!(none.len(), 0);
}

/// The latest-snapshot query returns the co-written state as stored.
#[test]
fn test_latest_snapshot() {
    let aid = UserId::new();
    let mut store = MemoryEventStore::new();
    assert!(store.get_latest_snapshot_by_id(&aid).unwrap().is_none());

    let e1 = created(aid, 1, "alice", "a@x.com");
    assert_eq!(store.persist_event(&e1, 0), Ok(()));
    assert!(store.get_latest_snapshot_by_id(&aid).unwrap().is_none());

    let mut agg = UserAggregate::new(aid, String::new(), String::new());
    agg.apply_event(&e1);
    agg.apply_event(&name_updated(aid, 2, "alicia"));
    agg.set_version(1);
    assert_eq!(store.persist_event_and_snapshot(&name_updated(aid, 2, "alicia"), &agg), Ok(()));
    let snap = store.get_latest_snapshot_by_id(&aid).unwrap().unwrap();
    assert_eq!(snap.name(), "alicia");
    assert_eq!(snap.seq_nr(), 2);
}

/// Writes to one aggregate leave every other aggregate untouched.
#[test]
fn test_aggregates_are_isolated() {
    let a = UserId::new();
    let b = UserId::new();
    let mut store = MemoryEventStore::new();
    assert_eq!(store.persist_event(&created(a, 1, "alice", "a@x.com"), 0), Ok(()));
    assert_eq!(store.persist_event(&created(b, 1, "bob", "b@x.com"), 0), Ok(()));
    assert_eq!(store.persist_event(&name_updated(a, 2, "alicia"), 1), Ok(()));

    let ra = store.replay(&a).unwrap().unwrap();
    let rb = store.replay(&b).unwrap().unwrap();
    assert_eq!(ra.name(), "alicia");
    assert_eq!(ra.version(), 2);
    assert_eq!(rb.name(), "bob");
    assert_eq!(rb.email(), "b@x.com");
    assert_eq!(rb.version(), 1);
}

/// Folding one event of each kind changes exactly the fields it carries.
#[test]
fn test_apply_event() {
    let aid = UserId::new();
    let mut agg = UserAggregate::new(aid, "alice".to_string(), "a@x.com".to_string());
    assert_eq!(agg.name(), "alice");
    assert_eq!(agg.email(), "a@x.com");
    assert_eq!(agg.seq_nr(), 0);
    assert_eq!(agg.version(), 0);

    agg.apply_event(&created(aid, 1, "alice", "a@x.com"));
    assert_eq!(agg.seq_nr(), 1);
    assert_eq!(agg.last_updated_at(), 1_001);

    agg.apply_event(&name_updated(aid, 2, "alicia"));
    assert_eq!(agg.name(), "alicia");
    assert_eq!(agg.email(), "a@x.com");
    assert_eq!(agg.seq_nr(), 2);

    agg.apply_event(&email_updated(aid, 3, "alicia@x.com"));
    assert_eq!(agg.name(), "alicia");
    assert_eq!(agg.email(), "alicia@x.com");
    assert_eq!(agg.seq_nr(), 3);
    assert_eq!(agg.version(), 0);
    assert_eq!(agg.last_updated_at(), 1_003);
}

/// The event accessors hand out exactly the stored fields.
#[test]
fn test_event_accessors() {
    let aid = UserId(42);
    let eid = UserEventId(7);
    let event = UserEvent::Created {
        id: eid,
        aggregate_id: aid,
        seq_nr: 1,
        name: "alice".to_string(),
        email: "a@x.com".to_string(),
        occurred_at: 99,
    };
    assert_eq!(event.id(), eid);
    assert_eq!(event.aggregate_id(), aid);
    assert_eq!(event.seq_nr(), 1);
    assert_eq!(event.occurred_at(), 99);
    assert!(event.is_created());
    assert!(!name_updated(aid, 2, "alicia").is_created());
    assert!(!email_updated(aid, 3, "b@x.com").is_created());
}

/// Freshly generated identifiers are distinct random UUID values.
#[test]
fn test_fresh_identifiers() {
    assert_ne!(UserId::new().0, UserId::new().0);
    assert_ne!(UserEventId::new().0, UserEventId::new().0);
    assert_eq!(UserId(7).value_bits(), 7);
}

/// The error kinds are distinguishable, as the taxonomy asks.
#[test]
fn test_error_kinds() {
    assert_ne!(WriteError::Conflict, WriteError::Storage);
    assert_ne!(ReadError::InvariantViolation, ReadError::Storage);
    assert!(matches!(UserError::Unimplemented, UserError::Unimplemented));
}

/// The default store configuration carries the conventional names.
#[test]
fn test_config_default() {
    let config = EventStoreConfig::default();
    assert_eq!(config.journal_table_name, "journal");
    assert_eq!(config.journal_aid_index_name, "journal-aid-index");
    assert_eq!(config.snapshot_table_name, "snapshot");
    assert_eq!(config.snapshot_aid_index_name, "snapshot-aid-index");
    assert_eq!(config.shard_count, 64);
    assert_eq!(config.keep_snapshot_count, Some(2));
}

/// A persisted event with sequence number 0 is still seen by replay and
/// condemned: a malformed head is never silently skipped.
#[test]
fn test_zero_seq_nr_head_detected() {
    let aid = UserId::new();
    let mut store = MemoryEventStore::new();
    assert_eq!(store.persist_event(&name_updated(aid, 0, "ghost"), 0), Ok(()));
    assert_eq!(store.persist_event(&created(aid, 1, "alice", "a@x.com"), 1), Ok(()));
    assert!(matches!(store.replay(&aid), Err(ReadError::InvariantViolation)));
}

/// An aggregate with a persisted history never replays to no state, even
/// when that history is corrupt.
#[test]
fn test_zero_seq_nr_alone_detected() {
    let aid = UserId::new();
    let mut store = MemoryEventStore::new();
    assert_eq!(store.persist_event(&created(aid, 0, "alice", "a@x.com"), 0), Ok(()));
    assert!(matches!(store.replay(&aid), Err(ReadError::InvariantViolation)));
}

/// Called with 0, the events-since query returns the full stored history,
/// whatever sequence numbers it carries.
#[test]
fn test_events_since_zero_full_history() {
    let aid = UserId::new();
    let mut store = MemoryEventStore::new();
    assert_eq!(store.persist_event(&name_updated(aid, 0, "ghost"), 0), Ok(()));
    assert_eq!(store.persist_event(&created(aid, 1, "alice", "a@x.com"), 1), Ok(()));
    let all = store.get_events_by_id_since_seq_nr(&aid, 0).unwrap();
    assert_eq!(all.len(), 2);
    assert_eq!(all[0].seq_nr(), 0);
    assert_eq!(all[1].seq_nr(), 1);
}
