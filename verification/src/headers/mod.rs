//! The C headers that describe the ABI, generated from the constants themselves.
pub mod artifacts;
pub mod builder;
pub mod callnr_h;
pub mod callnr_laws;
pub mod callnr_names;
pub mod callnr_rows;
pub mod com_h;
pub mod com_laws;
pub mod errno_h;
pub mod errno_laws;
pub mod ipc_h;
pub mod ipc_laws;
pub mod layout_laws;
pub mod macros;
pub mod rows;
pub mod selftest;
pub mod tables;
