//! The data store: the system's directory of names and endpoints.
pub mod registry;
pub mod server;
