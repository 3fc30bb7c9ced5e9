//! Wrappers that measure how much time is spent in a component.

pub mod corpus;
pub mod executor;
pub mod scheduler;
