//! Sandboxed command execution: isolation backends, a lifecycle manager for a
//! shared isolation context, command planning and outcome classification, and
//! the buffering half of the I/O relay.
//!
//! The host program performs the actual process spawning, stream pumping and
//! signal handling; every decision it takes (whether a command runs, which
//! invocation is built, when readiness polling gives up, what text a caller
//! sees) is made by the verified functions in this crate.
//!
//! Beside the command subsystem, the crate carries the term co-occurrence
//! graph (`graph`) that text handed back from commands and pages is ranked
//! with, and the plain-text helpers (`text`) both share.

pub mod backend;
pub mod graph;
pub mod lifecycle;
pub mod outcome;
pub mod relay;
pub mod root;
pub mod runner;
pub mod text;
