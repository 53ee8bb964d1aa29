//! The reincarnation server: heartbeats and the tally of who answers them.
pub mod monitor;
pub mod server;
