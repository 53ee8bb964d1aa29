//! The IPC primitive numbers.
use vstd::prelude::*;

verus! {

pub const SEND: i32 = 1;

pub const RECEIVE: i32 = 2;

pub const SENDREC: i32 = 3;

pub const NOTIFY: i32 = 4;

pub const SENDNB: i32 = 5;

pub const MINIX_KERNINFO: i32 = 6;

pub const SENDA: i32 = 16;

/// The `m_type` of a kernel notification. Every request band lies below it.
pub const NOTIFY_MESSAGE: i32 = 0x1000;

} // verus!
