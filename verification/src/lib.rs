//! Servers, tools and user programs of a small message-passing operating system.
pub mod abi;
pub mod bytes;
pub mod ds;
pub mod headers;
pub mod mfs;
pub mod mkfs;
pub mod pm;
pub mod rs;
pub mod rt;
pub mod sched;
pub mod table;
pub mod text;
pub mod user;
pub mod vfs;
pub mod vm;
