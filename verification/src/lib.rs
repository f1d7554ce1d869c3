//! Orchestration core of a hardware diagnostics tool.
//!
//! The library holds the decisions of the tool as verified state machines
//! and pure functions: which command does what, how a flaky external stress
//! tool is retried, when the supervised process shuts down, and how the
//! embedded key-value store is written through. Everything that waits,
//! spawns, or touches the terminal is left to the program around it, which
//! feeds events in and performs the actions that come back.

pub mod command;
pub mod ports;
pub mod retry;
pub mod runner;
pub mod store;
pub mod supervisor;
pub mod text;
pub mod transcript;
