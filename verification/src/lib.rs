//! Remote deployment library for the `rss_r` application.
//!
//! The library holds the decision logic of a small deployment tool: it
//! validates a settings record, builds the exact shell commands and file
//! transfers that a deployment run issues against a remote host, and models
//! the remote command runner (buffered or streamed output, cooperative
//! cancellation) and the fail-fast sequencing of the two deployment
//! workflows. All network and file I/O lives outside the library; callers
//! hand in plain values (what was read, which step succeeded) and receive
//! plain values back (which command to run next, how a run ended).

pub mod commands;
pub mod config;
pub mod errors;
pub mod runner;
pub mod text;
pub mod transfer;
pub mod workflow;
