//! The server runtime: payload accessors, request codecs, grant pools, and the
//! startup and receive protocol every server follows.
pub mod cdev;
pub mod classify;
pub mod diag;
pub mod ds;
pub mod grant;
pub mod kcall;
pub mod payload;
pub mod probe;
pub mod sef;
