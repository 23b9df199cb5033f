//! Device-flow login against GitHub, as a set of pure decision procedures.
//!
//! Nothing in this crate performs I/O. Every exchange with the identity
//! provider, the operator or the operating system is described as a value
//! (a request to send, a prompt to show, a command to run) and its result is
//! handed back as a value. The caller owns the network, the conversation with
//! the host and the process table; this crate owns every decision.

pub mod args;
pub mod auth;
pub mod github;
pub mod guarantees;
pub mod http;
pub mod json;
pub mod logging;
pub mod prompt;
pub mod text;
pub mod user;
