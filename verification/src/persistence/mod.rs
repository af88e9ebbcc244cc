//! The consistency rules of the event store: which recorded facts a new request may repeat,
//! which it may change, and which it must leave alone. The store itself keeps them in SQLite.
pub mod error;
pub mod policy_audit;
pub mod execution;
pub mod connector_outbox;
pub mod connector_reconciliation;
pub mod supervision;
pub mod ticket_effect;
pub mod recovery;
pub mod refinement;
pub mod schema;
pub mod board_library;
pub mod board;
pub mod plan;

pub use error::{event_sequence, EventStoreError};
