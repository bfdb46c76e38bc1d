//! Domain events of the user aggregate: immutable, strictly ordered facts.

use vstd::prelude::*;

use crate::user_id::fresh_uuid_value;
use crate::user_id::UserId;

verus! {

/// Identifier of one domain event: globally unique, assigned at creation,
/// never reused. Carries the 128 bits of a UUID.
#[derive(Debug, Clone, Copy, PartialEq, Eq, Hash, Structural)]
pub struct UserEventId(pub u128);

impl UserEventId {
    /// Generates a fresh random identifier.
    pub fn new() -> Self {
        UserEventId(fresh_uuid_value())
    }
}

/// An immutable fact about one user aggregate instance, discriminated by
/// kind and carrying only the fields that kind changes.
///
/// `seq_nr` is the per-aggregate, 1-based position of the event in the
/// aggregate's history and is the ordering authority; `occurred_at` is a
/// timestamp in milliseconds, kept for observability only.
#[derive(Debug)]
pub enum UserEvent {
    /// The aggregate came into being; the first event of a history.
    Created {
        id: UserEventId,
        aggregate_id: UserId,
        seq_nr: usize,
        name: String,
        email: String,
        occurred_at: i64,
    },
    /// The user's name changed.
    NameUpdated {
        id: UserEventId,
        aggregate_id: UserId,
        seq_nr: usize,
        name: String,
        occurred_at: i64,
    },
    /// The user's email address changed.
    EmailUpdated {
        id: UserEventId,
        aggregate_id: UserId,
        seq_nr: usize,
        email: String,
        occurred_at: i64,
    },
}

impl UserEvent {
    /// The event's own identifier.
    pub open spec fn spec_id(self) -> UserEventId {
        match self {
            UserEvent::Created { id, .. } => id,
            UserEvent::NameUpdated { id, .. } => id,
            UserEvent::EmailUpdated { id, .. } => id,
        }
    }

    /// The aggregate instance this event belongs to.
    pub open spec fn spec_aggregate_id(self) -> UserId {
        match self {
            UserEvent::Created { aggregate_id, .. } => aggregate_id,
            UserEvent::NameUpdated { aggregate_id, .. } => aggregate_id,
            UserEvent::EmailUpdated { aggregate_id, .. } => aggregate_id,
        }
    }

    /// The event's position in the aggregate's history.
    pub open spec fn spec_seq_nr(self) -> usize {
        match self {
            UserEvent::Created { seq_nr, .. } => seq_nr,
            UserEvent::NameUpdated { seq_nr, .. } => seq_nr,
            UserEvent::EmailUpdated { seq_nr, .. } => seq_nr,
        }
    }

    /// When the fact was produced, in milliseconds.
    pub open spec fn spec_occurred_at(self) -> i64 {
        match self {
            UserEvent::Created { occurred_at, .. } => occurred_at,
            UserEvent::NameUpdated { occurred_at, .. } => occurred_at,
            UserEvent::EmailUpdated { occurred_at, .. } => occurred_at,
        }
    }

    /// The event's own identifier.
    pub fn id(&self) -> (r: UserEventId)
        ensures
            r == self.spec_id(),
    {
        match self {
            UserEvent::Created { id, .. } => *id,
            UserEvent::NameUpdated { id, .. } => *id,
            UserEvent::EmailUpdated { id, .. } => *id,
        }
    }

    /// The aggregate instance this event belongs to.
    pub fn aggregate_id(&self) -> (r: UserId)
        ensures
            r == self.spec_aggregate_id(),
    {
        match self {
            UserEvent::Created { aggregate_id, .. } => *aggregate_id,
            UserEvent::NameUpdated { aggregate_id, .. } => *aggregate_id,
            UserEvent::EmailUpdated { aggregate_id, .. } => *aggregate_id,
        }
    }

    /// The event's position in the aggregate's history.
    pub fn seq_nr(&self) -> (r: usize)
        ensures
            r == self.spec_seq_nr(),
    {
        match self {
            UserEvent::Created { seq_nr, .. } => *seq_nr,
            UserEvent::NameUpdated { seq_nr, .. } => *seq_nr,
            UserEvent::EmailUpdated { seq_nr, .. } => *seq_nr,
        }
    }

    /// When the fact was produced, in milliseconds.
    pub fn occurred_at(&self) -> (r: i64)
        ensures
            r == self.spec_occurred_at(),
    {
        match self {
            UserEvent::Created { occurred_at, .. } => *occurred_at,
            UserEvent::NameUpdated { occurred_at, .. } => *occurred_at,
            UserEvent::EmailUpdated { occurred_at, .. } => *occurred_at,
        }
    }

    /// Whether this is the designated creation kind, the only kind allowed
    /// to open an aggregate's history.
    pub fn is_created(&self) -> (r: bool)
        ensures
            r == (self is Created),
    {
        matches!(self, UserEvent::Created { .. })
    }
}

impl Clone for UserEvent {
    /// A clone carries exactly the same fact.
    fn clone(&self) -> (r: Self)
        ensures
            r == *self,
    {
        match self {
            UserEvent::Created { id, aggregate_id, seq_nr, name, email, occurred_at } => {
                UserEvent::Created {
                    id: *id,
                    aggregate_id: *aggregate_id,
                    seq_nr: *seq_nr,
                    name: name.clone(),
                    email: email.clone(),
                    occurred_at: *occurred_at,
                }
            }
            UserEvent::NameUpdated { id, aggregate_id, seq_nr, name, occurred_at } => {
                UserEvent::NameUpdated {
                    id: *id,
                    aggregate_id: *aggregate_id,
                    seq_nr: *seq_nr,
                    name: name.clone(),
                    occurred_at: *occurred_at,
                }
            }
            UserEvent::EmailUpdated { id, aggregate_id, seq_nr, email, occurred_at } => {
                UserEvent::EmailUpdated {
                    id: *id,
                    aggregate_id: *aggregate_id,
                    seq_nr: *seq_nr,
                    email: email.clone(),
                    occurred_at: *occurred_at,
                }
            }
        }
    }
}

} // verus!
