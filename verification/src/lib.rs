//! A minimal line-based chat library: a bounded fan-out distribution
//! channel with a lag policy, a last-write-wins cancellation signal, the
//! server-side connection-session state machine, and the client-side
//! duplex state machine with its termination reasons.
//!
//! All I/O (sockets, terminal, task scheduling) lives outside this crate;
//! the library holds the decisions those loops make, each with a contract.

pub mod channel;
pub mod cli;
pub mod client;
pub mod server;
pub mod session;
pub mod signal;
pub mod text;
