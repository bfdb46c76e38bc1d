//! The user aggregate: the mutable projection that folds events into state.

use vstd::prelude::*;

use crate::user_event::UserEvent;
use crate::user_id::UserId;

verus! {

/// Relies on `chrono::Utc::now` and `chrono::DateTime::timestamp_millis`:
/// the current wall-clock time in milliseconds since the epoch. The value
/// depends on the clock, so nothing is promised about it.
#[verifier::external_body]
pub(crate) fn now_millis() -> i64 {
    chrono::Utc::now().timestamp_millis()
}

/// The state of one user aggregate instance.
///
/// The domain fields (`name`, `email`) are derived, never set directly:
/// they change only by folding events. `seq_nr` is the sequence number of
/// the last folded event, 0 for a not-yet-created instance. `version` is
/// the optimistic-concurrency counter maintained by the event store,
/// independent of `seq_nr`; it plays no part in folding.
#[derive(Debug)]
pub struct UserAggregate {
    /// Identity of the instance, stable for its lifetime.
    pub id: UserId,
    /// The user's name.
    pub name: String,
    /// The user's email address.
    pub email: String,
    /// Sequence number of the last folded event.
    pub seq_nr: usize,
    /// Write-conflict-detection counter, maintained by the store.
    pub version: usize,
    /// Timestamp of the last folded event, in milliseconds.
    pub last_updated_at: i64,
}

/// What folding one event into a state yields: the fields the event
/// carries replace the corresponding state fields, and the state takes
/// the event's sequence number and timestamp. Identity and version are
/// untouched. Folding is pure and total: it has no failure mode.
pub open spec fn spec_apply(a: UserAggregate, e: UserEvent) -> UserAggregate {
    match e {
        UserEvent::Created { name, email, seq_nr, occurred_at, .. } => UserAggregate {
            id: a.id,
            name: name,
            email: email,
            seq_nr: seq_nr,
            version: a.version,
            last_updated_at: occurred_at,
        },
        UserEvent::NameUpdated { name, seq_nr, occurred_at, .. } => UserAggregate {
            id: a.id,
            name: name,
            email: a.email,
            seq_nr: seq_nr,
            version: a.version,
            last_updated_at: occurred_at,
        },
        UserEvent::EmailUpdated { email, seq_nr, occurred_at, .. } => UserAggregate {
            id: a.id,
            name: a.name,
            email: email,
            seq_nr: seq_nr,
            version: a.version,
            last_updated_at: occurred_at,
        },
    }
}

/// Folding an ordered event sequence into a state, first event first.
pub open spec fn spec_fold(a: UserAggregate, es: Seq<UserEvent>) -> UserAggregate
    decreases es.len(),
{
    if es.len() == 0 {
        a
    } else {
        spec_apply(spec_fold(a, es.drop_last()), es.last())
    }
}

/// The same state with the version counter replaced; used by the store to
/// hand out its current version on a replayed state.
pub open spec fn with_version(a: UserAggregate, v: usize) -> UserAggregate {
    UserAggregate {
        id: a.id,
        name: a.name,
        email: a.email,
        seq_nr: a.seq_nr,
        version: v,
        last_updated_at: a.last_updated_at,
    }
}

impl UserAggregate {
    /// A zero state for an instance: sequence number and version start at
    /// 0. The timestamp is taken from the clock and is overwritten by the
    /// first folded event, so nothing is promised about it.
    pub fn new(id: UserId, name: String, email: String) -> (r: Self)
        ensures
            r.id == id,
            r.name == name,
            r.email == email,
            r.seq_nr == 0,
            r.version == 0,
    {
        UserAggregate { id, name, email, seq_nr: 0, version: 0, last_updated_at: now_millis() }
    }

    /// Folds one event into the state.
    pub fn apply_event(&mut self, event: &UserEvent)
        ensures
            *final(self) == spec_apply(*old(self), *event),
    {
        match event {
            UserEvent::Created { name, email, seq_nr, occurred_at, .. } => {
                self.name = name.clone();
                self.email = email.clone();
                self.seq_nr = *seq_nr;
                self.last_updated_at = *occurred_at;
            }
            UserEvent::NameUpdated { name, seq_nr, occurred_at, .. } => {
                self.name = name.clone();
                self.seq_nr = *seq_nr;
                self.last_updated_at = *occurred_at;
            }
            UserEvent::EmailUpdated { email, seq_nr, occurred_at, .. } => {
                self.email = email.clone();
                self.seq_nr = *seq_nr;
                self.last_updated_at = *occurred_at;
            }
        }
    }

    /// The user's name.
    pub fn name(&self) -> (r: &str)
        ensures
            r@ == self.name@,
    {
        self.name.as_str()
    }

    /// The user's email address.
    pub fn email(&self) -> (r: &str)
        ensures
            r@ == self.email@,
    {
        self.email.as_str()
    }

    /// Identity of the instance.
    pub fn id(&self) -> (r: UserId)
        ensures
            r == self.id,
    {
        self.id
    }

    /// Sequence number of the last folded event.
    pub fn seq_nr(&self) -> (r: usize)
        ensures
            r == self.seq_nr,
    {
        self.seq_nr
    }

    /// The optimistic-concurrency counter.
    pub fn version(&self) -> (r: usize)
        ensures
            r == self.version,
    {
        self.version
    }

    /// Replaces the version counter; called by the store, never by folding.
    pub fn set_version(&mut self, version: usize)
        ensures
            *final(self) == with_version(*old(self), version),
    {
        self.version = version;
    }

    /// Timestamp of the last folded event, in milliseconds.
    pub fn last_updated_at(&self) -> (r: i64)
        ensures
            r == self.last_updated_at,
    {
        self.last_updated_at
    }
}

impl Clone for UserAggregate {
    /// A clone carries exactly the same state.
    fn clone(&self) -> (r: Self)
        ensures
            r == *self,
    {
        UserAggregate {
            id: self.id,
            name: self.name.clone(),
            email: self.email.clone(),
            seq_nr: self.seq_nr,
            version: self.version,
            last_updated_at: self.last_updated_at,
        }
    }
}

} // verus!
