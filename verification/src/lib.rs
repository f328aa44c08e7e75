//! Verified core of a wrapper that supervises a long-running child process
//! speaking a line-oriented protocol over its standard streams: the bridge
//! that drains the child's output into an ordered delivery channel, frames
//! the commands written to it, matches the few response shapes the protocol
//! has, and tracks the child's lifecycle.
//!
//! The unverified shell around this library spawns the child, pumps its
//! stdout into the channel, writes out the command lines prepared here, and
//! serves the HTTP control surface.

pub mod backup;
pub mod bridge;
pub mod config;
pub mod errors;
pub mod handoff;
pub mod protocol;
pub mod text;
