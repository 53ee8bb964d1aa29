//! The requests a user program makes. It holds no grants: buffers and paths
//! travel as addresses in its own memory, and the servers take the owner from the
//! message's source.
use vstd::prelude::*;
use vstd::slice::slice_subrange;
use crate::abi::callnr::{
    PM_EXEC, PM_EXEC_PATH_MAX, PM_EXEC_PATH_OFF, PM_EXIT, VFS_EXEC_PATH_OFF, VFS_EXEC_STAGE,
    VFS_OPEN, VFS_PATH_LEN_OFF, VFS_PATH_OFF,
};
use crate::abi::message::Message;
use crate::rt::payload;
use crate::rt::payload::{wr_bytes, wr_i32, wr_u64};
use crate::vfs::open;
use crate::vfs::rw;

verus! {

/// Standard output.
pub const STDOUT: i32 = 1;

/// Standard error.
pub const STDERR: i32 = 2;

/// Build a request without a payload.
pub fn pm_msg(m_type: i32) -> (m: Message)
    ensures
        m.carries(m_type, payload::zero_payload()),
{
    Message::request(m_type)
}

/// Build a read, write or close, or a request that is none of them.
pub fn vfs_request(m_type: i32, fd: i32, buf: u64, len: i32) -> (m: Message)
    ensures
        m.carries(m_type, rw::request_payload((rw::Request { fd, len, buf }))),
{
    rw::build(m_type, rw::Request { fd, len, buf })
}

/// Build an open of the path at `path`.
pub fn open_request(path: u64, len: i32) -> (m: Message)
    ensures
        m.carries(VFS_OPEN, open::request_payload((open::OpenRequest { path, len }))),
{
    let mut m = Message::request(VFS_OPEN);
    wr_u64(&mut m, VFS_PATH_OFF, path);
    wr_i32(&mut m, VFS_PATH_LEN_OFF, len);
    m
}

/// The target an exec carries, cut to its field.
pub open spec fn exec_target(target: Seq<u8>) -> Seq<u8> {
    if target.len() <= PM_EXEC_PATH_MAX {
        target
    } else {
        target.take(PM_EXEC_PATH_MAX as int)
    }
}

/// The payload of an exec of `target`.
pub open spec fn exec_payload(target: Seq<u8>) -> Seq<u8> {
    payload::with_bytes(payload::zero_payload(), PM_EXEC_PATH_OFF as int, exec_target(target))
}

/// Build an exec of `target`, written into the field as it stands.
pub fn exec_request(target: &[u8]) -> (m: Message)
    ensures
        m.carries(PM_EXEC, exec_payload(target@)),
{
    let mut m = Message::request(PM_EXEC);
    let n: usize = if target.len() < PM_EXEC_PATH_MAX {
        target.len()
    } else {
        PM_EXEC_PATH_MAX
    };
    let part = slice_subrange(target, 0, n);
    assert(part@ =~= exec_target(target@));
    wr_bytes(&mut m, PM_EXEC_PATH_OFF, part);
    m
}

/// The payload of a request to stage `path`.
pub open spec fn stage_payload(path: Seq<u8>) -> Seq<u8> {
    payload::with_bytes(payload::zero_payload(), VFS_EXEC_PATH_OFF as int, path)
}

/// Build a request to stage an executable.
pub fn stage_request(path: &[u8]) -> (m: Message)
    ensures
        m.carries(VFS_EXEC_STAGE, stage_payload(path@)),
{
    let mut m = Message::request(VFS_EXEC_STAGE);
    wr_bytes(&mut m, VFS_EXEC_PATH_OFF, path);
    m
}

/// The payload of an exit with `status`.
pub open spec fn exit_payload(status: i32) -> Seq<u8> {
    payload::with_i32(payload::zero_payload(), 0, status)
}

/// Build the request to end with `status`.
pub fn exit_request(status: i32) -> (m: Message)
    ensures
        m.carries(PM_EXIT, exit_payload(status)),
{
    let mut m = Message::request(PM_EXIT);
    wr_i32(&mut m, 0, status);
    m
}

} // verus!
