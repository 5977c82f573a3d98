//! The in-flight batch of authorization requests of one transaction, and the
//! registry that links each input record's commitment to its state path.

pub mod authorization;
pub mod error;
pub mod laws;
pub mod lock;
pub mod queue;
pub mod registry;
pub mod values;
