//! The forkserver executor and its wrapper for targets that keep protocol
//! state between inputs.

pub mod forkserver;
pub mod stateful;
