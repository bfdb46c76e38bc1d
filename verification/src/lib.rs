//! Persistence core of an event-sourced user aggregate: replaying an
//! aggregate's state from an immutable event log plus snapshots, and
//! persisting new events under optimistic concurrency control.

pub mod errors;
pub mod event_store;
pub mod replay;
pub mod user_aggregate;
pub mod user_event;
pub mod user_id;
pub mod value_objects;

pub use errors::ReadError;
pub use errors::UserError;
pub use errors::WriteError;
pub use event_store::EventStoreConfig;
pub use event_store::MemoryEventStore;
pub use replay::fold_events;
pub use replay::replay_core;
pub use replay::replay_from_events;
pub use user_aggregate::UserAggregate;
pub use user_event::UserEvent;
pub use user_event::UserEventId;
pub use user_id::UserId;
