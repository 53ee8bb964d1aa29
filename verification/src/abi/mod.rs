//! The ABI every process shares: messages, endpoints, call numbers and errors.
pub mod callnr;
pub mod com;
pub mod endpoint;
pub mod errno;
pub mod execstack;
pub mod grant;
pub mod ipc;
pub mod message;
pub mod rootfs;
pub mod uspace;
