//! Serving open, read, write and close: each request as a machine whose state
//! says what to ask of whom next.
//!
//! The owner of the memory a transfer touches, and the process whose path is
//! read, is always the one the kernel stamped on the request. No payload has a
//! field for it.
use vstd::prelude::*;
use vstd::slice::slice_subrange;
use crate::abi::callnr::{
    BDEV_MINOR_RAMDISK, CDEV_WRITE, FS_LOOKUP, FS_PATH_MAX, FS_READ, FS_READSUPER,
    FS_SUPER_MINOR_OFF, SYS_COPY, VFS_CLOSE, VFS_EXEC_STAGE, VFS_OPEN, VFS_READ, VFS_WRITE,
};
use crate::abi::com;
use crate::abi::com::{boot_endpoint, PM_PROC_NR, SYSTEM};
use crate::abi::endpoint;
use crate::abi::endpoint::{endpoint_proc, Endpoint, SELF};
use crate::abi::errno::{EBADF, EINVAL, ENOSYS, EPERM, EROFS, OK};
use crate::abi::grant::{CPF_MAGIC, CPF_READ, CPF_WRITE};
use crate::abi::message::Message;
use crate::rt::cdev;
use crate::rt::grant::{Book, GrantPool};
use crate::rt::kcall;
use crate::rt::kcall::sys_copy;
use crate::rt::payload;
use crate::vfs::dev;
use crate::vfs::fd;
use crate::vfs::fd::{CharDriver, Fd, FdRow, FdTable};
use crate::vfs::fs;
use crate::vfs::fs::{fs_lookup, fs_read, fs_readsuper, Mount};
use crate::vfs::open;
use crate::vfs::rw;
use crate::vfs::rw::Step;
use crate::vfs::stage;

verus! {

/// Grants the server can have outstanding at once.
pub const GRANT_SLOTS: usize = 8;

/// The servers a request may need.
#[derive(Copy, Clone, Debug, PartialEq, Eq, Structural)]
pub struct Peers {
    pub tty: Endpoint,
    pub memory: Endpoint,
    pub mfs: Endpoint,
}

impl Peers {
    /// The endpoint of a driver.
    pub open spec fn driver_spec(self, d: CharDriver) -> Endpoint {
        match d {
            CharDriver::Tty => self.tty,
            CharDriver::Memory => self.memory,
        }
    }

    /// The endpoint of a driver.
    pub fn driver(&self, d: CharDriver) -> (e: Endpoint)
        ensures
            e == self.driver_spec(d),
    {
        match d {
            CharDriver::Tty => self.tty,
            CharDriver::Memory => self.memory,
        }
    }
}

/// The process number in an endpoint.
pub open spec fn proc_of(e: Endpoint) -> i32 {
    endpoint::proc_spec(e as int) as i32
}

/// Where a write stands.
#[derive(Copy, Clone, Debug, PartialEq, Eq, Structural)]
pub enum Write {
    /// Grant the driver a read of the caller's buffer.
    Grant { to: Endpoint, minor: i32, buf: u64, len: usize },
    /// Ask the driver for the bytes from `off` on.
    Send { to: Endpoint, minor: i32, gid: i32, len: usize, off: usize },
    /// Take the grant back.
    Revoke { gid: i32, rc: i32 },
    /// Answer the caller.
    Reply(i32),
}

impl Write {
    /// A write that is under way has bytes left, and no more than a count can
    /// report.
    pub open spec fn wf(self) -> bool {
        match self {
            Write::Grant { len, .. } => 0 < len <= i32::MAX,
            Write::Send { len, off, .. } => off < len <= i32::MAX,
            _ => true,
        }
    }
}

/// How a write request begins: the descriptor is looked at first, then the
/// length and buffer. An empty write is answered without a grant.
pub open spec fn write_start(rows: Seq<FdRow>, caller: Endpoint, p: Seq<u8>, peers: Peers) -> Write {
    let req = rw::request_of(p);
    match fd::resolved(rows, proc_of(caller), req.fd) {
        Err(e) => Write::Reply(e),
        Ok(Fd::Unused) => Write::Reply(EBADF),
        Ok(Fd::File { .. }) => Write::Reply(EROFS),
        Ok(Fd::CharDev { dev, minor }) => match rw::valid(req.len, req.buf) {
            Err(e) => Write::Reply(e),
            Ok(len) => if len == 0 {
                Write::Reply(0)
            } else {
                Write::Grant { to: peers.driver_spec(dev), minor, buf: req.buf, len }
            },
        },
    }
}

/// Begin a write.
pub fn do_write(t: &FdTable, caller: Endpoint, msg: &Message, peers: &Peers) -> (w: Write)
    ensures
        w == write_start(t.rows@, caller, msg.payload@, *peers),
        w.wf(),
{
    let req = rw::parse(msg);
    let (dev, minor): (CharDriver, i32) = match fd::resolve(t, endpoint_proc(caller), req.fd) {
        Ok(Fd::CharDev { dev, minor }) => (dev, minor),
        Ok(Fd::File { .. }) => {
            return Write::Reply(EROFS);
        },
        Ok(Fd::Unused) => {
            return Write::Reply(EBADF);
        },
        Err(e) => {
            return Write::Reply(e);
        },
    };
    match rw::validate(req.len, req.buf) {
        Ok(len) => {
            if len == 0 {
                return Write::Reply(0);
            }
            Write::Grant { to: peers.driver(dev), minor, buf: req.buf, len }
        },
        Err(e) => Write::Reply(e),
    }
}

/// What granting comes to in a write, and the book after it.
pub open spec fn write_grant<const N: usize>(
    g: GrantPool<N>,
    registered: Result<(), i32>,
    caller: Endpoint,
    w: Write,
) -> (Write, Book) {
    match w {
        Write::Grant { to, minor, buf, len } => {
            let (r, book) = g.issued(
                registered,
                CPF_MAGIC | CPF_READ,
                to,
                caller,
                buf,
                len as u64,
            );
            match r {
                Ok(gid) => (Write::Send { to, minor, gid, len, off: 0 }, book),
                Err(e) => (Write::Reply(e), book),
            }
        },
        _ => (w, g.book()),
    }
}

/// Grant the driver a read of the caller's buffer: the caller owns the memory.
/// A failure is answered verbatim.
pub fn write_granted(
    grants: &mut GrantPool<8>,
    registered: Result<(), i32>,
    caller: Endpoint,
    w: Write,
) -> (next: Write)
    requires
        old(grants).wf(),
        w.wf(),
    ensures
        final(grants).wf(),
        next.wf(),
        final(grants).registered_at == old(grants).registered_at,
        (next, final(grants).book()) == write_grant(*old(grants), registered, caller, w),
{
    match w {
        Write::Grant { to, minor, buf, len } => match grants.grant_magic(
            registered,
            to,
            caller,
            buf,
            len as u64,
            CPF_READ,
        ) {
            Ok(gid) => Write::Send { to, minor, gid, len, off: 0 },
            Err(e) => Write::Reply(e),
        },
        _ => w,
    }
}

/// What a write asks of its driver next, and which driver that is: the rest of the
/// bytes, from where it stands.
pub open spec fn write_asks(w: Write) -> Option<(Endpoint, cdev::Request)> {
    match w {
        Write::Send { to, minor, gid, len, off } => Some(
            (to, cdev::Request { minor, gid, len: (len - off) as i32, offset: off as u64 }),
        ),
        _ => None,
    }
}

/// The request a write sends its driver next.
pub fn write_call(w: &Write) -> (c: Option<(Endpoint, Message)>)
    requires
        w.wf(),
    ensures
        match c {
            Some((to, m)) => write_asks(*w) matches Some((t, r)) && to == t && m.carries(
                CDEV_WRITE,
                cdev::request_payload(r),
            ),
            None => write_asks(*w) is None,
        },
{
    match *w {
        Write::Send { to, minor, gid, len, off } => Some(
            (
                to,
                cdev::build(
                    CDEV_WRITE,
                    cdev::Request { minor, gid, len: (len - off) as i32, offset: off as u64 },
                ),
            ),
        ),
        _ => None,
    }
}

/// How a write goes on once its driver answered `n`.
pub open spec fn write_next(w: Write, n: i32) -> Write {
    match w {
        Write::Send { to, minor, gid, len, off } => match rw::after(off, len, n) {
            Step::More(next) => Write::Send { to, minor, gid, len, off: next },
            Step::Done(rc) => Write::Revoke { gid, rc },
        },
        _ => w,
    }
}

/// Take the driver's answer: a short write goes on from where it stopped.
pub fn write_all(w: Write, n: i32) -> (next: Write)
    requires
        w.wf(),
    ensures
        next.wf(),
        next == write_next(w, n),
{
    match w {
        Write::Send { to, minor, gid, len, off } => {
            proof {
                rw::law_write_stays_in_its_buffer(off, len, n);
            }
            match rw::advance(off, len, n) {
                Step::More(next) => Write::Send { to, minor, gid, len, off: next },
                Step::Done(rc) => Write::Revoke { gid, rc },
            }
        },
        _ => w,
    }
}

/// Take the grant back, whatever comes of it, and answer.
pub fn write_revoked(
    grants: &mut GrantPool<8>,
    registered: Result<(), i32>,
    w: Write,
) -> (next: Write)
    requires
        old(grants).wf(),
    ensures
        final(grants).wf(),
        final(grants).registered_at == old(grants).registered_at,
        match w {
            Write::Revoke { gid, rc } => next == Write::Reply(rc) && final(grants).book() == old(
                grants,
            ).revoked(registered, gid).1,
            _ => next == w && final(grants).book() == old(grants).book(),
        },
{
    match w {
        Write::Revoke { gid, rc } => {
            let _ = grants.revoke(registered, gid);
            Write::Reply(rc)
        },
        _ => w,
    }
}

/// Where a write stands after its driver's answers.
pub open spec fn written(w: Write, answers: Seq<i32>) -> Write
    decreases answers.len(),
{
    if answers.len() == 0 {
        w
    } else {
        write_next(written(w, answers.drop_last()), answers.last())
    }
}

/// A write of a working driver reports exactly the length asked for, however
/// little the driver takes at a time: it ends after no more answers than it has
/// bytes, and until then each answer brings it nearer to its end.
pub proof fn law_short_writes_are_absorbed(w: Write, answers: Seq<i32>)
    requires
        w is Send,
        w.wf(),
        forall|i: int| 0 <= i < answers.len() ==> #[trigger] answers[i] > 0,
    ensures
        match written(w, answers) {
            Write::Send { to, minor, gid, len, off } => {
                &&& to == w->Send_to
                &&& minor == w->Send_minor
                &&& gid == w->Send_gid
                &&& len == w->Send_len
                &&& w->Send_off + answers.len() <= off < len
            },
            Write::Revoke { gid, rc } => gid == w->Send_gid && rc == w->Send_len,
            _ => false,
        },
        answers.len() >= w->Send_len - w->Send_off ==> written(w, answers) is Revoke,
    decreases answers.len(),
{
    if answers.len() > 0 {
        let rest = answers.drop_last();
        assert forall|i: int| 0 <= i < rest.len() implies #[trigger] rest[i] > 0 by {
            assert(rest[i] == answers[i]);
        }
        law_short_writes_are_absorbed(w, rest);
        assert(answers.last() == answers[answers.len() - 1]);
        if let Write::Send { len, off, .. } = written(w, rest) {
            rw::law_write_stays_in_its_buffer(off, len, answers.last());
        }
    }
}

/// Where a read stands.
#[derive(Copy, Clone, Debug, PartialEq, Eq, Structural)]
pub enum Read {
    /// Grant the filesystem a write of the caller's buffer.
    Grant { fd: i32, ino: u32, pos: u64, buf: u64, len: usize },
    /// Ask the filesystem, once: a short read is a read.
    Send { fd: i32, ino: u32, pos: u64, gid: i32, len: usize },
    /// Take the grant back.
    Revoke { fd: i32, gid: i32, n: i32 },
    /// Answer the caller.
    Reply(i32),
}

impl Read {
    /// A read that is under way asks for some bytes, and no more than a count can
    /// report.
    pub open spec fn wf(self) -> bool {
        match self {
            Read::Grant { len, .. } => 0 < len <= i32::MAX,
            Read::Send { len, .. } => 0 < len <= i32::MAX,
            _ => true,
        }
    }
}

/// How a read request begins. A device has nothing to read from yet.
pub open spec fn read_start(rows: Seq<FdRow>, caller: Endpoint, p: Seq<u8>) -> Read {
    let req = rw::request_of(p);
    match fd::resolved(rows, proc_of(caller), req.fd) {
        Err(e) => Read::Reply(e),
        Ok(Fd::Unused) => Read::Reply(EBADF),
        Ok(Fd::CharDev { .. }) => Read::Reply(ENOSYS),
        Ok(Fd::File { ino, pos }) => match rw::valid(req.len, req.buf) {
            Err(e) => Read::Reply(e),
            Ok(len) => if len == 0 {
                Read::Reply(0)
            } else {
                Read::Grant { fd: req.fd, ino, pos, buf: req.buf, len }
            },
        },
    }
}

/// Begin a read.
pub fn do_read(t: &FdTable, caller: Endpoint, msg: &Message) -> (r: Read)
    ensures
        r == read_start(t.rows@, caller, msg.payload@),
        r.wf(),
{
    let req = rw::parse(msg);
    let (ino, pos): (u32, u64) = match fd::resolve(t, endpoint_proc(caller), req.fd) {
        Ok(Fd::File { ino, pos }) => (ino, pos),
        Ok(Fd::CharDev { .. }) => {
            return Read::Reply(ENOSYS);
        },
        Ok(Fd::Unused) => {
            return Read::Reply(EBADF);
        },
        Err(e) => {
            return Read::Reply(e);
        },
    };
    match rw::validate(req.len, req.buf) {
        Ok(len) => {
            if len == 0 {
                return Read::Reply(0);
            }
            Read::Grant { fd: req.fd, ino, pos, buf: req.buf, len }
        },
        Err(e) => Read::Reply(e),
    }
}

/// What granting comes to in a read, and the book after it.
pub open spec fn read_grant<const N: usize>(
    g: GrantPool<N>,
    registered: Result<(), i32>,
    caller: Endpoint,
    mfs: Endpoint,
    r: Read,
) -> (Read, Book) {
    match r {
        Read::Grant { fd, ino, pos, buf, len } => {
            let (res, book) = g.issued(
                registered,
                CPF_MAGIC | CPF_WRITE,
                mfs,
                caller,
                buf,
                len as u64,
            );
            match res {
                Ok(gid) => (Read::Send { fd, ino, pos, gid, len }, book),
                Err(e) => (Read::Reply(e), book),
            }
        },
        _ => (r, g.book()),
    }
}

/// Grant the filesystem a write of the caller's buffer, of exactly the bytes of
/// this read.
pub fn read_granted(
    grants: &mut GrantPool<8>,
    registered: Result<(), i32>,
    caller: Endpoint,
    mfs: Endpoint,
    r: Read,
) -> (next: Read)
    requires
        old(grants).wf(),
        r.wf(),
    ensures
        final(grants).wf(),
        next.wf(),
        final(grants).registered_at == old(grants).registered_at,
        (next, final(grants).book()) == read_grant(*old(grants), registered, caller, mfs, r),
{
    match r {
        Read::Grant { fd, ino, pos, buf, len } => match grants.grant_magic(
            registered,
            mfs,
            caller,
            buf,
            len as u64,
            CPF_WRITE,
        ) {
            Ok(gid) => Read::Send { fd, ino, pos, gid, len },
            Err(e) => Read::Reply(e),
        },
        _ => r,
    }
}

/// What a read asks of the filesystem: which inode, through which grant, how many
/// bytes, and from where.
pub open spec fn read_asks(r: Read) -> Option<(i32, i32, i32, u64)> {
    match r {
        Read::Send { fd: _, ino, pos, gid, len } => Some((ino as i32, gid, len as i32, pos)),
        _ => None,
    }
}

/// The request a read makes: it goes to the filesystem `mfs`.
pub fn read_call(r: &Read, mfs: Endpoint) -> (c: Option<(Endpoint, Message)>)
    ensures
        match c {
            Some((to, m)) => read_asks(*r) matches Some((ino, gid, len, pos)) && to == mfs
                && m.carries(FS_READ, fs::read_payload(ino, gid, len, pos)),
            None => read_asks(*r) is None,
        },
{
    match *r {
        Read::Send { fd: _, ino, pos, gid, len } => Some(
            (mfs, fs_read(ino as i32, gid, len as i32, pos)),
        ),
        _ => None,
    }
}

/// How a read goes on once the filesystem answered `n`.
pub open spec fn read_next(r: Read, n: i32) -> Read {
    match r {
        Read::Send { fd, ino: _, pos: _, gid, len: _ } => Read::Revoke { fd, gid, n },
        _ => r,
    }
}

/// Take the filesystem's answer.
pub fn read_answered(r: Read, n: i32) -> (next: Read)
    ensures
        next == read_next(r, n),
{
    match r {
        Read::Send { fd, ino: _, pos: _, gid, len: _ } => Read::Revoke { fd, gid, n },
        _ => r,
    }
}

/// `after` is `before` with descriptor `fd` of process `nr` moved on by the `n` bytes
/// that were read, where `n` counts bytes at all and the descriptor is still a file.
pub open spec fn settled(before: Seq<FdRow>, after: Seq<FdRow>, nr: i32, fd: i32, n: i32) -> bool {
    match fd::resolved(before, nr, fd) {
        Ok(Fd::File { ino, pos }) => if n > 0 {
            fd::changed(
                before,
                after,
                nr,
                fd as int,
                Fd::File { ino, pos: fd::moved(pos, n as u64) },
            )
        } else {
            after == before
        },
        _ => after == before,
    }
}

/// Take the grant back, move the descriptor on by what was read, and answer. An
/// error or the end of the file moves nothing.
pub fn read_revoked(
    t: &mut FdTable,
    grants: &mut GrantPool<8>,
    registered: Result<(), i32>,
    caller: Endpoint,
    r: Read,
) -> (next: Read)
    requires
        old(grants).wf(),
    ensures
        final(grants).wf(),
        final(grants).registered_at == old(grants).registered_at,
        match r {
            Read::Revoke { fd, gid, n } => {
                &&& next == Read::Reply(n)
                &&& final(grants).book() == old(grants).revoked(registered, gid).1
                &&& settled(old(t).rows@, final(t).rows@, proc_of(caller), fd, n)
            },
            _ => {
                &&& next == r
                &&& final(grants).book() == old(grants).book()
                &&& final(t).rows@ == old(t).rows@
            },
        },
{
    match r {
        Read::Revoke { fd, gid, n } => {
            let _ = grants.revoke(registered, gid);
            if n > 0 {
                fd::advance(t, endpoint_proc(caller), fd, n as u64);
            }
            Read::Reply(n)
        },
        _ => r,
    }
}

/// Where an open stands.
#[derive(Copy, Clone, Debug, PartialEq, Eq)]
pub enum Open {
    /// Copy the path out of the caller's memory.
    Fetch { at: u64, len: usize },
    /// Mount the filesystem first. `copied` is what the copy of the path came to:
    /// when it failed, the mount is still tried, and the failure answered after it.
    Mount { path: [u8; 64], len: usize, copied: i32 },
    /// Look the path up.
    Lookup { path: [u8; 64], len: usize },
    /// Answer the caller.
    Reply(i32),
}

impl Open {
    /// The path of an open that is under way fits its field.
    pub open spec fn wf(self) -> bool {
        match self {
            Open::Fetch { len, .. } => 0 < len < FS_PATH_MAX,
            Open::Mount { len, .. } => 0 < len < FS_PATH_MAX,
            Open::Lookup { len, .. } => 0 < len < FS_PATH_MAX,
            Open::Reply(_) => true,
        }
    }
}

/// How an open request begins.
pub open spec fn open_start(p: Seq<u8>) -> Open {
    let req = open::request_of(p);
    match open::valid(req.len, req.path) {
        Ok(len) => Open::Fetch { at: req.path, len },
        Err(e) => Open::Reply(e),
    }
}

/// Begin an open: the request is looked at before anything is copied.
pub fn do_open(msg: &Message) -> (o: Open)
    ensures
        o.wf(),
        o == open_start(msg.payload@),
{
    let req = open::parse(msg);
    match open::validate(req.len, req.path) {
        Ok(len) => Open::Fetch { at: req.path, len },
        Err(e) => Open::Reply(e),
    }
}

/// The answer that installing `entry` gives: the descriptor, or why not.
pub open spec fn opened(rows: Seq<FdRow>, nr: i32) -> i32 {
    match fd::alloc_result(rows, nr) {
        Ok(fd) => fd,
        Err(e) => e,
    }
}

/// `after` is `before` with `entry` installed for process `nr`, if that could be.
pub open spec fn installed(before: Seq<FdRow>, after: Seq<FdRow>, nr: i32, entry: Fd) -> bool {
    match fd::alloc_result(before, nr) {
        Ok(fd) => fd::changed(before, after, nr, fd as int, entry),
        Err(_) => after == before,
    }
}

fn install(t: &mut FdTable, nr: i32, entry: Fd) -> (rc: i32)
    ensures
        rc == opened(old(t).rows@, nr),
        installed(old(t).rows@, final(t).rows@, nr, entry),
{
    match fd::alloc_fd(t, nr, entry) {
        Ok(fd) => fd,
        Err(e) => e,
    }
}

/// How an open goes on from `o` to `next` once the copy of its path came to `rc`, for
/// process `nr`: what the descriptors become, and what is asked for next.
pub open spec fn fetched(
    before: Seq<FdRow>,
    after: Seq<FdRow>,
    nr: i32,
    mounted: bool,
    o: Open,
    rc: i32,
    path: [u8; 64],
    next: Open,
) -> bool {
    match o {
        Open::Fetch { at: _, len } => if rc != OK {
            &&& after == before
            &&& next == (if mounted {
                Open::Reply(rc)
            } else {
                Open::Mount { path, len, copied: rc }
            })
        } else {
            match dev::node(path@.take(len as int)) {
                Some(entry) => {
                    &&& next == Open::Reply(opened(before, nr))
                    &&& installed(before, after, nr, entry)
                },
                None => {
                    &&& after == before
                    &&& next == (if mounted {
                        Open::Lookup { path, len }
                    } else {
                        Open::Mount { path, len, copied: OK }
                    })
                },
            }
        },
        _ => next == o && after == before,
    }
}

/// Take the copied path. A device path is answered here, ahead of any filesystem;
/// anything else waits until something is mounted. Then a path is looked up, and a
/// failed copy is answered verbatim.
pub fn open_fetched(
    t: &mut FdTable,
    caller: Endpoint,
    mount: &Option<Mount>,
    o: Open,
    rc: i32,
    path: [u8; 64],
) -> (next: Open)
    requires
        o.wf(),
    ensures
        next.wf(),
        fetched(
            old(t).rows@,
            final(t).rows@,
            proc_of(caller),
            *mount is Some,
            o,
            rc,
            path,
            next,
        ),
{
    match o {
        Open::Fetch { at: _, len } => {
            if rc != OK {
                return if mount.is_some() {
                    Open::Reply(rc)
                } else {
                    Open::Mount { path, len, copied: rc }
                };
            }
            let part = slice_subrange(path.as_slice(), 0, len);
            assert(part@ =~= path@.take(len as int));
            match dev::lookup(part) {
                Some(entry) => Open::Reply(install(t, endpoint_proc(caller), entry)),
                None => {
                    if mount.is_some() {
                        Open::Lookup { path, len }
                    } else {
                        Open::Mount { path, len, copied: OK }
                    }
                },
            }
        },
        _ => o,
    }
}

/// How an open goes on once the mount came to `r`, and what is mounted then.
pub open spec fn mount_next(mount: Option<Mount>, o: Open, r: Result<Mount, i32>) -> (
    Open,
    Option<Mount>,
) {
    match o {
        Open::Mount { path, len, copied } => match r {
            Ok(m) => (
                if copied != OK {
                    Open::Reply(copied)
                } else {
                    Open::Lookup { path, len }
                },
                Some(m),
            ),
            Err(e) => (Open::Reply(e), mount),
        },
        _ => (o, mount),
    }
}

/// Take the answer to the mount. A failure is answered and not remembered: the next
/// open tries again. After a success the open goes on as its copy left it.
pub fn open_mounted(mount: &mut Option<Mount>, o: Open, trap_rc: i32, reply: &Message) -> (next:
    Open)
    requires
        o.wf(),
    ensures
        next.wf(),
        (next, *final(mount)) == mount_next(
            *old(mount),
            o,
            fs::mounted(trap_rc, reply.m_type, reply.payload@),
        ),
{
    match o {
        Open::Mount { path, len, copied } => match fs::readsuper_result(trap_rc, reply) {
            Ok(m) => {
                *mount = Some(m);
                if copied != OK {
                    Open::Reply(copied)
                } else {
                    Open::Lookup { path, len }
                }
            },
            Err(e) => Open::Reply(e),
        },
        _ => o,
    }
}

/// The answer to an open whose lookup came back.
pub open spec fn lookup_class(trap_rc: i32, m_type: i32, p: Seq<u8>) -> Result<Fd, i32> {
    match fs::found(trap_rc, m_type, p) {
        Ok((ino, mode)) => match open::class_of(mode) {
            Ok(_) => Ok(Fd::File { ino, pos: 0 }),
            Err(e) => Err(e),
        },
        Err(e) => Err(e),
    }
}

/// How an open goes on from `o` to `next` once its lookup came to `r`, for process `nr`.
pub open spec fn found_next(
    before: Seq<FdRow>,
    after: Seq<FdRow>,
    nr: i32,
    o: Open,
    r: Result<Fd, i32>,
    next: Open,
) -> bool {
    match o {
        Open::Lookup { .. } => match r {
            Ok(entry) => {
                &&& next == Open::Reply(opened(before, nr))
                &&& installed(before, after, nr, entry)
            },
            Err(e) => next == Open::Reply(e) && after == before,
        },
        _ => next == o && after == before,
    }
}

/// Take the answer to the lookup: a regular file gets the caller's lowest free
/// descriptor.
pub fn open_found(
    t: &mut FdTable,
    caller: Endpoint,
    o: Open,
    trap_rc: i32,
    reply: &Message,
) -> (next: Open)
    ensures
        found_next(
            old(t).rows@,
            final(t).rows@,
            proc_of(caller),
            o,
            lookup_class(trap_rc, reply.m_type, reply.payload@),
            next,
        ),
{
    match o {
        Open::Lookup { path: _, len: _ } => {
            let (ino, mode): (u32, i32) = match fs::lookup_result(trap_rc, reply) {
                Ok(found) => found,
                Err(e) => {
                    return Open::Reply(e);
                },
            };
            match open::classify(mode) {
                Ok(Fd::File { .. }) => Open::Reply(
                    install(t, endpoint_proc(caller), Fd::File { ino, pos: 0 }),
                ),
                Ok(_) => Open::Reply(EINVAL),
                Err(e) => Open::Reply(e),
            }
        },
        _ => o,
    }
}

/// What an open asks for next, and of whom: the kernel for the path, the filesystem `mfs`
/// for the rest.
pub open spec fn open_asks(o: Open, caller: Endpoint, mfs: Endpoint, addr: u64) -> Option<
    (int, i32, Seq<u8>),
> {
    match o {
        Open::Fetch { at, len } => Some(
            (
                com::boot_spec(SYSTEM as int),
                SYS_COPY,
                kcall::copy_payload(caller, at, SELF, addr, len as u64),
            ),
        ),
        Open::Mount { .. } => Some(
            (
                mfs as int,
                FS_READSUPER,
                payload::with_i32(
                    payload::zero_payload(),
                    FS_SUPER_MINOR_OFF as int,
                    BDEV_MINOR_RAMDISK,
                ),
            ),
        ),
        Open::Lookup { path, len } => Some(
            (mfs as int, FS_LOOKUP, fs::lookup_payload(path@.take(len as int))),
        ),
        Open::Reply(_) => None,
    }
}

/// What an open asks for next: the copy of the path to `addr` in this process, from
/// the caller's own memory, or a request to the filesystem.
pub fn open_call(o: &Open, caller: Endpoint, mfs: Endpoint, addr: u64) -> (c: Option<
    (Endpoint, Message),
>)
    requires
        o.wf(),
    ensures
        match c {
            Some((to, m)) => open_asks(*o, caller, mfs, addr) matches Some((e, t, p)) && to == e
                && m.carries(t, p),
            None => *o is Reply,
        },
{
    match *o {
        Open::Fetch { at, len } => Some(
            (boot_endpoint(SYSTEM), sys_copy(caller, at, SELF, addr, len as u64)),
        ),
        Open::Mount { path: _, len: _, copied: _ } => Some((mfs, fs_readsuper(BDEV_MINOR_RAMDISK))),
        Open::Lookup { path, len } => {
            let part = slice_subrange(path.as_slice(), 0, len);
            assert(part@ =~= path@.take(len as int));
            match fs_lookup(part) {
                Ok(m) => Some((mfs, m)),
                Err(_) => None,
            }
        },
        Open::Reply(_) => None,
    }
}

/// Closing descriptor `fd` of process `nr` comes to `rc`.
pub open spec fn closed(before: Seq<FdRow>, after: Seq<FdRow>, nr: i32, fd: i32, rc: i32) -> bool {
    if fd::resolved(before, nr, fd) is Ok {
        rc == OK && fd::changed(before, after, nr, fd as int, Fd::Unused)
    } else {
        rc == EBADF && after == before
    }
}

/// Serve a close. Nothing is sent to the filesystem, which keeps no state per
/// open.
pub fn do_close(t: &mut FdTable, caller: Endpoint, msg: &Message) -> (rc: i32)
    ensures
        closed(
            old(t).rows@,
            final(t).rows@,
            proc_of(caller),
            rw::request_of(msg.payload@).fd,
            rc,
        ),
{
    let req = rw::parse(msg);
    match fd::close(t, endpoint_proc(caller), req.fd) {
        Ok(_) => OK,
        Err(e) => e,
    }
}

/// The answer to a request to stage an executable.
pub open spec fn stage_answer(caller: Endpoint, p: Seq<u8>) -> i32 {
    if caller != com::boot_spec(PM_PROC_NR as int) {
        EPERM
    } else {
        match stage::path_of(p) {
            Ok(_) => ENOSYS,
            Err(e) => e,
        }
    }
}

/// Answer a request to stage an executable. Only the process manager may ask, by
/// the sender the kernel stamped; it hears what is wrong with its path. The file
/// itself is not handed over: a good path is answered with `ENOSYS`.
pub fn do_stage(caller: Endpoint, msg: &Message) -> (rc: i32)
    ensures
        rc == stage_answer(caller, msg.payload@),
{
    if caller != boot_endpoint(PM_PROC_NR) {
        return EPERM;
    }
    match stage::parse_path(msg) {
        Ok(_) => ENOSYS,
        Err(e) => e,
    }
}

/// Which handler a request goes to.
#[derive(Copy, Clone, Debug, PartialEq, Eq, Structural)]
pub enum Request {
    Write,
    Open,
    Read,
    Close,
    Stage,
    /// Answered with `ENOSYS`: every client waits for an answer.
    Unknown,
}

/// The request a message type names.
pub open spec fn request_of(m_type: i32) -> Request {
    if m_type == VFS_WRITE {
        Request::Write
    } else if m_type == VFS_OPEN {
        Request::Open
    } else if m_type == VFS_READ {
        Request::Read
    } else if m_type == VFS_CLOSE {
        Request::Close
    } else if m_type == VFS_EXEC_STAGE {
        Request::Stage
    } else {
        Request::Unknown
    }
}

/// Tell the requests apart.
pub fn request(m_type: i32) -> (r: Request)
    ensures
        r == request_of(m_type),
{
    if m_type == VFS_WRITE {
        Request::Write
    } else if m_type == VFS_OPEN {
        Request::Open
    } else if m_type == VFS_READ {
        Request::Read
    } else if m_type == VFS_CLOSE {
        Request::Close
    } else if m_type == VFS_EXEC_STAGE {
        Request::Stage
    } else {
        Request::Unknown
    }
}

/// Turn the request into its answer.
pub fn reply(msg: &mut Message, rc: i32)
    ensures
        final(msg).carries(rc, old(msg).payload@),
{
    msg.m_type = rc;
    msg.m_source = 0;
}

/// Nobody but the process manager can have an executable staged, whatever the
/// request holds.
pub proof fn law_only_the_process_manager_stages(caller: Endpoint, p: Seq<u8>)
    requires
        caller != com::boot_spec(PM_PROC_NR as int),
    ensures
        stage_answer(caller, p) == EPERM,
{
}

/// What opens a file can be read from its start: the descriptor an open answers
/// with resolves, for the caller alone, to the inode found, at position 0.
pub proof fn law_open_then_resolve(
    before: Seq<FdRow>,
    after: Seq<FdRow>,
    caller: Endpoint,
    ino: u32,
)
    requires
        installed(before, after, proc_of(caller), Fd::File { ino, pos: 0 }),
        fd::alloc_result(before, proc_of(caller)) is Ok,
    ensures
        fd::resolved(after, proc_of(caller), opened(before, proc_of(caller))) == Ok::<Fd, i32>(
            Fd::File { ino, pos: 0 },
        ),
        forall|p: i32, k: i32|
            p != proc_of(caller) ==> #[trigger] fd::resolved(after, p, k) == fd::resolved(
                before,
                p,
                k,
            ),
{
    fd::law_open_takes_the_lowest(
        before,
        after,
        proc_of(caller),
        opened(before, proc_of(caller)),
        Fd::File { ino, pos: 0 },
    );
}

} // verus!
