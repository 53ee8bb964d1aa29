//! The file server: descriptors, the requests on them, and the exercises it runs
//! before serving anyone.
pub mod demo;
pub mod denials;
pub mod dev;
pub mod fd;
pub mod fs;
pub mod laws;
pub mod open;
pub mod rw;
pub mod server;
pub mod stage;
