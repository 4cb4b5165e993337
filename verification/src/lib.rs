//! Synchronization engine for configuration files kept in one local mirror
//! and on a fleet of remote hosts.
//!
//! The library holds the logic of the tool: path resolution for the two
//! storage backends, the shell-command and output handling of the remote
//! backend, the per-file transfer decision rule, the planner that turns a
//! configuration and the backends' file listings into an ordered task list,
//! the bounded-concurrency schedule, and the report states shown for every
//! task.  All I/O (the local filesystem and the remote shell and file
//! transfer) stays outside, in the binary built around this crate.

pub mod strutil;
pub mod errors;
pub mod config;
pub mod paths;
pub mod local;
pub mod remote;
pub mod elevation;
pub mod sync;
pub mod sched;
pub mod report;
pub mod plan;
pub mod cli;
