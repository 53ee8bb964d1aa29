//! The virtual memory server: which addresses a process may touch.
pub mod laws;
pub mod region;
pub mod server;
pub mod space_laws;
