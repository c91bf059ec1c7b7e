//! Command-line client library for a content-extraction service.
//!
//! The core of the crate is a recursive command-dispatch mechanism: a tree of
//! nested subcommands is walked uniformly with a three-phase lifecycle
//! (pre-run / run / post-run) applied at every node, and the walk aborts on
//! the first failure.  The dispatch ordering, the resolution of each node's
//! successor, and the request-building and response-shaping logic of the
//! individual commands are verified; the process boundary (argument parsing,
//! HTTP transport, terminal output) lives outside this crate.

pub mod api;
pub mod cli;
pub mod client;
pub mod command;
pub mod dispatch;
pub mod errors;
pub mod file;
pub mod gen;
pub mod output;
pub mod telemetry;
pub mod text;
