//! The transaction framework: flow-control states and the superseding runner.

pub mod laws;
pub mod queued_async;
pub mod state;

pub use state::{retry_if_possible, State, StateError, StateResult};
