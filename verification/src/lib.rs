//! A stateful coverage-guided fuzzer for servers that speak a
//! request/response protocol: the decisions of the forkserver executor, the
//! container of the per-state fuzzing contexts, and the policies that pick
//! the next state.

pub mod cli;
pub mod error;
pub mod event_manager;
pub mod executor;
pub mod fuzzer;
pub mod http_mutator;
pub mod mutator;
pub mod perf;
pub mod replay;
pub mod rtsp_mutator;
pub mod state;
pub mod state_scheduler;
pub mod trusted;
