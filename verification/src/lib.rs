//! Supervision core for a long-running worker process.
//!
//! The crate holds the decisions of a desktop shell that starts, watches and
//! stops one background worker and calls the same executable for one-shot
//! queries: the status state machine, the classification of process events,
//! the numbering of log records and the outcome of each query. Spawning,
//! signalling, reading streams and publishing records are left to the caller,
//! which performs what a step names and reports back what happened.

pub mod clock;
pub mod invoker;
pub mod laws;
pub mod log;
pub mod process;
pub mod request;
pub mod status;
pub mod supervisor;
pub mod text;
