//! The user-space scheduler.
pub mod policy;
pub mod server;
