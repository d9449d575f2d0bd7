//! The process-wide context: its configuration, the state that every part
//! of the system shares, and the order in which it is brought up.

pub mod config;
pub mod continuations;
pub mod rpc;
pub mod init;
