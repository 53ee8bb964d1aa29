//! The process manager: identity, parentage, and the life of a process.
pub mod fork;
pub mod granttest;
pub mod laws;
pub mod life_laws;
pub mod mproc;
pub mod path;
pub mod server;
