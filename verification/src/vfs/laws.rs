//! What the file server promises of a whole request: a write moves its buffer piece by
//! piece without a gap, reads follow one another through a file, and an open answers
//! with a descriptor that leads where the path did.
use vstd::prelude::*;
use vstd::string::*;
use crate::abi::callnr::{
    CDEV_MINOR_CONSOLE, CDEV_MINOR_NULL, CDEV_MINOR_ZERO, FS_LOOKUP, FS_READSUPER, SYS_COPY,
    VFS_CLOSE, VFS_EXEC_PATH_OFF, VFS_EXEC_STAGE, VFS_OPEN, VFS_READ, VFS_WRITE,
};
use crate::abi::com;
use crate::abi::com::{PM_PROC_NR, SYSTEM};
use crate::abi::endpoint::{Endpoint, SELF};
use crate::abi::errno::{
    EBADF, EFAULT, EINVAL, EISDIR, EMFILE, ENAMETOOLONG, ENOEXEC, ENOMEM, ENOSYS, EPERM, EROFS, OK,
};
use crate::abi::grant::{CPF_MAGIC, CPF_READ, CPF_WRITE, GRANT_MAX_IDX};
use crate::rt::grant;
use crate::rt::grant::GrantPool;
use crate::rt::kcall;
use crate::rt::payload;
use crate::vfs::dev;
use crate::vfs::fd;
use crate::vfs::fd::{CharDriver, Fd, FdRow};
use crate::vfs::fs;
use crate::vfs::fs::Mount;
use crate::vfs::rw;
use crate::vfs::server;
use crate::vfs::server::{Open, Peers, Read, Request, Write};
use crate::vfs::stage;

verus! {

/// The bytes that a driver's answers add up to.
pub open spec fn total(answers: Seq<i32>) -> int
    decreases answers.len(),
{
    if answers.len() == 0 {
        0
    } else {
        total(answers.drop_last()) + answers.last()
    }
}

/// While a write is under way it stands where the answers so far add up to.
proof fn lemma_write_stands(w: Write, answers: Seq<i32>)
    requires
        w is Send,
        w.wf(),
        server::written(w, answers) is Send,
    ensures
        ({
            let now = server::written(w, answers);
            &&& now.wf()
            &&& now->Send_to == w->Send_to
            &&& now->Send_minor == w->Send_minor
            &&& now->Send_gid == w->Send_gid
            &&& now->Send_len == w->Send_len
            &&& now->Send_off == w->Send_off + total(answers)
        }),
    decreases answers.len(),
{
    if answers.len() > 0 {
        let rest = answers.drop_last();
        let before = server::written(w, rest);
        assert(before is Send);
        lemma_write_stands(w, rest);
        let n = answers.last();
        if n > 0 {
            rw::law_write_goes_on_from_where_it_stopped(before->Send_off, before->Send_len, n);
        } else {
            rw::law_no_progress_ends_the_write(before->Send_off, before->Send_len, n);
        }
    }
}

/// What a write reports is what its driver took. While it is under way, its offset is
/// the sum of the answers. The answer that ends it either completes the length, which is
/// then the result (so the answers add up to at least the length), or moved nothing, and
/// then the result is the sum so far; the driver's error is reported only when that is
/// nothing.
pub proof fn law_write_reports_what_went_out(w: Write, answers: Seq<i32>)
    requires
        w is Send,
        w.wf(),
        w->Send_off == 0,
        answers.len() > 0,
        server::written(w, answers.drop_last()) is Send,
    ensures
        ({
            let len = w->Send_len as int;
            let before = total(answers.drop_last());
            let n = answers.last();
            &&& 0 <= before < len
            &&& n > 0 && total(answers) < len ==> (server::written(w, answers) matches Write::Send {
                off,
                ..
            } && off == total(answers))
            &&& n > 0 && total(answers) >= len ==> server::written(w, answers) == (Write::Revoke {
                gid: w->Send_gid,
                rc: len as i32,
            })
            &&& n <= 0 && before > 0 ==> server::written(w, answers) == (Write::Revoke {
                gid: w->Send_gid,
                rc: before as i32,
            })
            &&& n <= 0 && before == 0 ==> server::written(w, answers) == (Write::Revoke {
                gid: w->Send_gid,
                rc: n,
            })
        }),
{
    let rest = answers.drop_last();
    let now = server::written(w, rest);
    lemma_write_stands(w, rest);
    let n = answers.last();
    if n > 0 {
        rw::law_write_goes_on_from_where_it_stopped(now->Send_off, now->Send_len, n);
    } else {
        rw::law_no_progress_ends_the_write(now->Send_off, now->Send_len, n);
    }
}

/// A write that reports its full length has had answers that add up to at least that
/// length, however many there were.
pub proof fn law_full_length_means_every_byte(w: Write, answers: Seq<i32>)
    requires
        w is Send,
        w.wf(),
        w->Send_off == 0,
        answers.len() > 0,
        server::written(w, answers.drop_last()) is Send,
        server::written(w, answers) == (Write::Revoke {
            gid: w->Send_gid,
            rc: w->Send_len as i32,
        }),
    ensures
        total(answers) >= w->Send_len,
{
    law_write_reports_what_went_out(w, answers);
}

/// Each request of a write asks its driver for all the bytes that are left, from where
/// it stands, through the one grant.
pub proof fn law_write_asks_for_the_rest(w: Write)
    requires
        w.wf(),
    ensures
        server::write_asks(w) is Some <==> w is Send,
        w matches Write::Send { to, minor, gid, len, off } ==> (server::write_asks(w) matches Some(
            (t, r),
        ) && t == to && r.minor == minor && r.gid == gid && r.offset == off && r.len > 0
            && r.offset + r.len == len),
{
}

/// The requests of a write tile its buffer: the next one starts exactly where the
/// driver stopped, ends where the last one was to end, and goes to the same device
/// through the same grant. There is a next one only after some bytes went out.
pub proof fn law_pieces_follow_each_other(w: Write, n: i32)
    requires
        w.wf(),
        w is Send,
        server::write_next(w, n) is Send,
    ensures
        ({
            let (t, r) = server::write_asks(w)->0;
            let (u, s) = server::write_asks(server::write_next(w, n))->0;
            &&& n > 0
            &&& u == t
            &&& s.minor == r.minor
            &&& s.gid == r.gid
            &&& s.offset == r.offset + n
            &&& s.offset + s.len == r.offset + r.len
        }),
{
    if n > 0 {
        rw::law_write_goes_on_from_where_it_stopped(w->Send_off, w->Send_len, n);
    } else {
        rw::law_no_progress_ends_the_write(w->Send_off, w->Send_len, n);
    }
}

/// How a write begins, field by field. A descriptor that is not open is `EBADF` and one
/// of a file `EROFS`, before the length is looked at. On a device a negative length is
/// `EINVAL`, none at all is answered at once, and a bad buffer is `EFAULT`; what is left
/// goes, whole, to the driver of the device.
pub proof fn law_write_begins(rows: Seq<FdRow>, caller: Endpoint, p: Seq<u8>, peers: Peers)
    ensures
        ({
            let at = fd::resolved(rows, server::proc_of(caller), payload::i32_field(p, 0));
            let len = payload::i32_field(p, 4);
            let buf = payload::u64_field(p, 8);
            let w = server::write_start(rows, caller, p, peers);
            &&& at is Err ==> w == Write::Reply(EBADF)
            &&& at matches Ok(Fd::File { .. }) ==> w == Write::Reply(EROFS)
            &&& at matches Ok(Fd::CharDev { dev, minor }) ==> {
                &&& len < 0 ==> w == Write::Reply(EINVAL)
                &&& len == 0 ==> w == Write::Reply(0)
                &&& len > 0 && (buf == 0 || buf + len > 0x8000_0000_0000) ==> w == Write::Reply(
                    EFAULT,
                )
                &&& len > 0 && buf != 0 && buf + len <= 0x8000_0000_0000 ==> (w matches Write::Grant {
                    to,
                    minor: m,
                    buf: b,
                    len: l,
                } && to == (if dev == CharDriver::Tty {
                    peers.tty
                } else {
                    peers.memory
                }) && m == minor && b == buf && l == len)
            }
        }),
{
}

/// The driver may read the caller's own buffer, all of it and nothing else, and may not
/// write: that is what the grant of a write says. The first request starts at its
/// beginning.
pub proof fn law_write_lends_its_buffer<const N: usize>(
    g: GrantPool<N>,
    registered: Result<(), i32>,
    caller: Endpoint,
    w: Write,
)
    requires
        g.wf(),
        g.entries@.len() <= GRANT_MAX_IDX + 1,
        w is Grant,
        server::write_grant(g, registered, caller, w).0 is Send,
    ensures
        ({
            let (next, book) = server::write_grant(g, registered, caller, w);
            let gid = next->Send_gid;
            let e = book.entries[(gid as int) % 0x10_0000];
            &&& grant::live(book.entries, gid)
            &&& e.who_to == w->Grant_to
            &&& e.who_from == caller
            &&& e.addr == w->Grant_buf
            &&& e.len == w->Grant_len
            &&& e.flags == 0x800u32 | 0x1u32 | 0x100u32 | 0x1000u32
            &&& next->Send_to == w->Grant_to
            &&& next->Send_minor == w->Grant_minor
            &&& next->Send_len == w->Grant_len
            &&& next->Send_off == 0
        }),
{
    let b = g.book();
    let (to, buf, len) = (w->Grant_to, w->Grant_buf, w->Grant_len);
    grant::law_grant_holds_what_was_asked(b, CPF_MAGIC | CPF_READ, to, caller, buf, len as u64);
    grant::law_issue_makes_live(b, CPF_MAGIC | CPF_READ, to, caller, buf, len as u64);
}

/// The filesystem may write the caller's own buffer, as much of it as was asked for,
/// and may not read: that is what the grant of a read says. What is asked for goes on
/// unchanged.
pub proof fn law_read_lends_its_buffer<const N: usize>(
    g: GrantPool<N>,
    registered: Result<(), i32>,
    caller: Endpoint,
    mfs: Endpoint,
    r: Read,
)
    requires
        g.wf(),
        g.entries@.len() <= GRANT_MAX_IDX + 1,
        r is Grant,
        server::read_grant(g, registered, caller, mfs, r).0 is Send,
    ensures
        ({
            let (next, book) = server::read_grant(g, registered, caller, mfs, r);
            let gid = next->Send_gid;
            let e = book.entries[(gid as int) % 0x10_0000];
            &&& grant::live(book.entries, gid)
            &&& e.who_to == mfs
            &&& e.who_from == caller
            &&& e.addr == r->Grant_buf
            &&& e.len == r->Grant_len
            &&& e.flags == 0x800u32 | 0x2u32 | 0x100u32 | 0x1000u32
            &&& next->Send_fd == r->Grant_fd
            &&& next->Send_ino == r->Grant_ino
            &&& next->Send_pos == r->Grant_pos
            &&& next->Send_len == r->Grant_len
        }),
{
    let b = g.book();
    let (buf, len) = (r->Grant_buf, r->Grant_len);
    grant::law_grant_holds_what_was_asked(b, CPF_MAGIC | CPF_WRITE, mfs, caller, buf, len as u64);
    grant::law_issue_makes_live(b, CPF_MAGIC | CPF_WRITE, mfs, caller, buf, len as u64);
}

/// How a read begins, field by field: from the position of the descriptor. A device has
/// nothing to read, and the rest is refused as a write would be.
pub proof fn law_read_begins(rows: Seq<FdRow>, caller: Endpoint, p: Seq<u8>)
    ensures
        ({
            let n = payload::i32_field(p, 0);
            let at = fd::resolved(rows, server::proc_of(caller), n);
            let len = payload::i32_field(p, 4);
            let buf = payload::u64_field(p, 8);
            let r = server::read_start(rows, caller, p);
            &&& at is Err ==> r == Read::Reply(EBADF)
            &&& at matches Ok(Fd::CharDev { .. }) ==> r == Read::Reply(ENOSYS)
            &&& at matches Ok(Fd::File { ino, pos }) ==> {
                &&& len < 0 ==> r == Read::Reply(EINVAL)
                &&& len == 0 ==> r == Read::Reply(0)
                &&& len > 0 && (buf == 0 || buf + len > 0x8000_0000_0000) ==> r == Read::Reply(
                    EFAULT,
                )
                &&& len > 0 && buf != 0 && buf + len <= 0x8000_0000_0000 ==> (r matches Read::Grant {
                    fd,
                    ino: i,
                    pos: q,
                    buf: b,
                    len: l,
                } && fd == n && i == ino && q == pos && b == buf && l == len)
            }
        }),
{
}

/// A read asks for its bytes once, from the position it was begun at, and its answer is
/// what settles the descriptor it was begun on.
pub proof fn law_read_asks_at_its_position(r: Read, n: i32)
    requires
        r is Send,
        r.wf(),
        r->Send_ino <= i32::MAX,
    ensures
        server::read_asks(r) matches Some((ino, gid, len, pos)) && ino == r->Send_ino && gid
            == r->Send_gid && len == r->Send_len && pos == r->Send_pos,
        server::read_next(r, n) == (Read::Revoke { fd: r->Send_fd, gid: r->Send_gid, n }),
{
}

/// What a read asks of the filesystem reads back out of its request.
pub proof fn law_read_request_reads_back(ino: i32, gid: i32, len: i32, pos: u64)
    ensures
        payload::i32_field(fs::read_payload(ino, gid, len, pos), 0) == ino,
        payload::i32_field(fs::read_payload(ino, gid, len, pos), 4) == gid,
        payload::i32_field(fs::read_payload(ino, gid, len, pos), 8) == len,
        payload::u64_field(fs::read_payload(ino, gid, len, pos), 16) == pos,
{
    let p0 = payload::zero_payload();
    let p1 = payload::with_i32(p0, 0, ino);
    let p2 = payload::with_i32(p1, 4, gid);
    let p3 = payload::with_i32(p2, 8, len);
    payload::law_i32_round_trip(p0, 0, ino);
    payload::law_i32_round_trip(p1, 4, gid);
    payload::law_i32_round_trip(p2, 8, len);
    payload::law_u64_round_trip(p3, 16, pos);
    payload::law_writes_do_not_disturb(p1, 4, gid, 0, 0);
    payload::law_writes_do_not_disturb(p2, 8, len, 0, 0);
    payload::law_writes_do_not_disturb(p2, 8, len, 0, 4);
    payload::law_writes_do_not_disturb(p3, 16, 0, pos, 0);
    payload::law_writes_do_not_disturb(p3, 16, 0, pos, 4);
    payload::law_writes_do_not_disturb(p3, 16, 0, pos, 8);
}

/// Reads follow each other through a file: after one that brought `a` bytes and one
/// that brought `b`, the descriptor stands `a + b` bytes further on (at the largest
/// position if that does not fit), and the next read begins there. A read that brought
/// nothing, or failed, moves nothing.
pub proof fn law_reads_follow_each_other(
    t: Seq<FdRow>,
    u: Seq<FdRow>,
    v: Seq<FdRow>,
    caller: Endpoint,
    n: i32,
    ino: u32,
    pos: u64,
    a: i32,
    b: i32,
    p: Seq<u8>,
)
    requires
        fd::resolved(t, server::proc_of(caller), n) == Ok::<Fd, i32>(Fd::File { ino, pos }),
        server::settled(t, u, server::proc_of(caller), n, a),
        server::settled(u, v, server::proc_of(caller), n, b),
        payload::i32_field(p, 0) == n,
    ensures
        ({
            let moved = pos + (if a > 0 {
                a as int
            } else {
                0
            }) + (if b > 0 {
                b as int
            } else {
                0
            });
            let at = fd::resolved(v, server::proc_of(caller), n);
            &&& moved <= u64::MAX ==> at == Ok::<Fd, i32>(Fd::File { ino, pos: moved as u64 })
            &&& moved > u64::MAX ==> at == Ok::<Fd, i32>(Fd::File { ino, pos: u64::MAX })
            &&& server::read_start(v, caller, p) matches Read::Grant { ino: i, pos: q, .. } ==> i
                == ino && (moved <= u64::MAX ==> q == moved)
        }),
{
    let nr = server::proc_of(caller);
    let pa = if a > 0 {
        fd::moved(pos, a as u64)
    } else {
        pos
    };
    if a > 0 {
        fd::law_read_moves_one_descriptor(t, u, nr, n, ino, pos, a as u64);
    }
    assert(fd::resolved(u, nr, n) == Ok::<Fd, i32>(Fd::File { ino, pos: pa }));
    if b > 0 {
        fd::law_read_moves_one_descriptor(u, v, nr, n, ino, pa, b as u64);
    }
    fd::law_position_adds_up(
        pos,
        if a > 0 {
            a as u64
        } else {
            0
        },
        if b > 0 {
            b as u64
        } else {
            0
        },
    );
}

/// How an open begins: a path of 1 to 63 bytes that lies in the user half is fetched,
/// exactly that many bytes from exactly there; an empty or negative length is `EINVAL`,
/// a longer one `ENAMETOOLONG`, a bad address `EFAULT`, in that order.
pub proof fn law_open_begins(p: Seq<u8>)
    ensures
        ({
            let len = payload::i32_field(p, 0);
            let at = payload::u64_field(p, 8);
            let o = server::open_start(p);
            &&& len <= 0 ==> o == Open::Reply(EINVAL)
            &&& len >= 64 ==> o == Open::Reply(ENAMETOOLONG)
            &&& 0 < len < 64 && (at == 0 || at + len > 0x8000_0000_0000) ==> o == Open::Reply(EFAULT)
            &&& 0 < len < 64 && at != 0 && at + len <= 0x8000_0000_0000 ==> (o matches Open::Fetch {
                at: a,
                len: l,
            } && a == at && l == len)
        }),
{
}

/// Each device path is one device: the console is the terminal's, and the bottomless and
/// the empty file the memory driver's, each under its own minor.
pub proof fn law_devices_by_path()
    ensures
        dev::node("/dev/console".spec_bytes()) == Some(
            (Fd::CharDev { dev: CharDriver::Tty, minor: CDEV_MINOR_CONSOLE }),
        ),
        dev::node("/dev/null".spec_bytes()) == Some(
            (Fd::CharDev { dev: CharDriver::Memory, minor: CDEV_MINOR_NULL }),
        ),
        dev::node("/dev/zero".spec_bytes()) == Some(
            (Fd::CharDev { dev: CharDriver::Memory, minor: CDEV_MINOR_ZERO }),
        ),
{
    dev::law_every_node_is_found(0);
    dev::law_every_node_is_found(1);
    dev::law_every_node_is_found(2);
}

/// No other path is a device.
pub proof fn law_other_paths_are_no_device(path: Seq<u8>)
    ensures
        dev::node(path) is Some <==> path == "/dev/console".spec_bytes() || path
            == "/dev/null".spec_bytes() || path == "/dev/zero".spec_bytes(),
{
}

/// A device path is opened without a filesystem: the answer is a descriptor that leads
/// to the device, or why there is none.
pub proof fn law_device_is_opened_at_once(
    before: Seq<FdRow>,
    after: Seq<FdRow>,
    nr: i32,
    mounted: bool,
    at: u64,
    len: usize,
    path: [u8; 64],
    next: Open,
)
    requires
        server::fetched(before, after, nr, mounted, Open::Fetch { at, len }, OK, path, next),
        dev::node(path@.take(len as int)) is Some,
    ensures
        next is Reply,
        next->Reply_0 >= 0 ==> fd::resolved(after, nr, next->Reply_0) == Ok::<Fd, i32>(
            dev::node(path@.take(len as int))->0,
        ),
        next->Reply_0 < 0 ==> after == before && (next->Reply_0 == EBADF || next->Reply_0 == EMFILE),
{
    if fd::alloc_result(before, nr) is Ok {
        fd::law_open_takes_the_lowest(
            before,
            after,
            nr,
            next->Reply_0,
            dev::node(path@.take(len as int))->0,
        );
    }
}

/// A path that names no device waits for the filesystem: it is looked up as it was
/// copied, once something is mounted. A copy that failed is answered with its error in
/// the end, and no descriptor changes on the way.
pub proof fn law_other_paths_wait_for_the_mount(
    before: Seq<FdRow>,
    after: Seq<FdRow>,
    nr: i32,
    at: u64,
    len: usize,
    rc: i32,
    path: [u8; 64],
    next: Open,
    m: Mount,
    e: i32,
)
    requires
        server::fetched(before, after, nr, false, Open::Fetch { at, len }, rc, path, next),
        rc != OK || dev::node(path@.take(len as int)) is None,
    ensures
        after == before,
        next is Mount,
        server::mount_next(None, next, Ok(m)) == (
            if rc != OK {
                Open::Reply(rc)
            } else {
                Open::Lookup { path, len }
            },
            Some(m),
        ),
        server::mount_next(None, next, Err(e)) == (Open::Reply(e), None::<Mount>),
{
}

/// What a lookup comes to: a regular file is opened at its beginning under the inode
/// that was found, a directory is `EISDIR`, and any other kind `EINVAL`. An inode below
/// zero is none; the error of the exchange or of the server is passed on.
pub proof fn law_lookup_decides_the_descriptor(trap_rc: i32, m_type: i32, p: Seq<u8>)
    ensures
        ({
            let ino = payload::i32_field(p, 0);
            let kind = payload::i32_field(p, 12) as int % 0x1_0000 / 0x1000;
            let r = server::lookup_class(trap_rc, m_type, p);
            &&& trap_rc != OK ==> r == Err::<Fd, i32>(trap_rc)
            &&& trap_rc == OK && m_type != OK ==> r == Err::<Fd, i32>(m_type)
            &&& trap_rc == OK && m_type == OK && ino < 0 ==> r == Err::<Fd, i32>(EINVAL)
            &&& trap_rc == OK && m_type == OK && ino >= 0 ==> {
                &&& kind == 8 ==> r == Ok::<Fd, i32>(Fd::File { ino: ino as u32, pos: 0 })
                &&& kind == 4 ==> r == Err::<Fd, i32>(EISDIR)
                &&& kind != 8 && kind != 4 ==> r == Err::<Fd, i32>(EINVAL)
            }
        }),
{
}

/// An open that found a file answers with a descriptor that was closed and now leads to
/// it, from its beginning; one that did not leaves every descriptor as it was.
pub proof fn law_found_file_is_opened(
    before: Seq<FdRow>,
    after: Seq<FdRow>,
    nr: i32,
    path: [u8; 64],
    len: usize,
    r: Result<Fd, i32>,
    next: Open,
)
    requires
        server::found_next(before, after, nr, Open::Lookup { path, len }, r, next),
        r matches Ok(f) ==> f is File,
    ensures
        next is Reply,
        r matches Err(e) ==> next == Open::Reply(e) && after == before,
        r is Ok && next->Reply_0 >= 0 ==> {
            &&& fd::resolved(before, nr, next->Reply_0) is Err
            &&& fd::resolved(after, nr, next->Reply_0) == r
        },
        r is Ok && next->Reply_0 < 0 ==> after == before,
{
    if r is Ok && fd::alloc_result(before, nr) is Ok {
        fd::law_open_takes_the_lowest(before, after, nr, next->Reply_0, r->Ok_0);
    }
}

/// A close closes exactly the descriptor it names, once: it resolves no more, and every
/// other descriptor of every process is as it was. One that is not open is `EBADF`.
pub proof fn law_close_closes_one(
    before: Seq<FdRow>,
    after: Seq<FdRow>,
    nr: i32,
    n: i32,
    rc: i32,
)
    requires
        server::closed(before, after, nr, n, rc),
    ensures
        rc == OK <==> fd::resolved(before, nr, n) is Ok,
        rc == OK || rc == EBADF,
        fd::resolved(after, nr, n) == Err::<Fd, i32>(EBADF),
        forall|p: i32, k: i32|
            p != nr || k != n ==> #[trigger] fd::resolved(after, p, k) == fd::resolved(before, p, k),
{
    assert forall|p: i32, k: i32| p != nr || k != n implies #[trigger] fd::resolved(after, p, k)
        == fd::resolved(before, p, k) by {
        if rc == OK && 0 <= p < before.len() && p != nr {
            assert(after[p as int] == before[p as int]);
        }
    }
}

/// Each request number means one thing, and no other number means anything.
pub proof fn law_requests_are_told_apart(m_type: i32)
    ensures
        server::request_of(m_type) == Request::Write <==> m_type == VFS_WRITE,
        server::request_of(m_type) == Request::Open <==> m_type == VFS_OPEN,
        server::request_of(m_type) == Request::Read <==> m_type == VFS_READ,
        server::request_of(m_type) == Request::Close <==> m_type == VFS_CLOSE,
        server::request_of(m_type) == Request::Stage <==> m_type == VFS_EXEC_STAGE,
{
}

/// A file is staged whole or not at all: what is let through is its very size, which is
/// not empty and fits the buffer.
pub proof fn law_files_are_staged_whole(size: i32, limit: int)
    requires
        limit == crate::abi::callnr::VFS_EXEC_MAX,
    ensures
        stage::staged(size) is Ok <==> 0 < size <= limit,
        stage::staged(size) matches Ok(n) ==> n == size,
        size < 0 ==> stage::staged(size) == Err::<usize, i32>(EINVAL),
        size == 0 ==> stage::staged(size) == Err::<usize, i32>(ENOEXEC),
        size > limit ==> stage::staged(size) == Err::<usize, i32>(ENOMEM),
{
}

/// The geometry a mount reports is that of the reply, word for word, and only when both
/// the exchange and the server succeeded.
pub proof fn law_mount_reads_the_reply(trap_rc: i32, m_type: i32, p: Seq<u8>)
    ensures
        fs::mounted(trap_rc, m_type, p) is Ok <==> trap_rc == OK && m_type == OK,
        fs::mounted(trap_rc, m_type, p) matches Ok(m) ==> m.block_size == payload::i32_field(p, 4)
            && m.blocks == payload::i32_field(p, 8) && m.root == payload::i32_field(p, 12),
        trap_rc != OK ==> fs::mounted(trap_rc, m_type, p) == Err::<Mount, i32>(trap_rc),
        trap_rc == OK && m_type != OK ==> fs::mounted(trap_rc, m_type, p) == Err::<Mount, i32>(
            m_type,
        ),
{
}

/// A path that is looked up lies in its field as it is, followed by NULs.
pub proof fn law_lookup_carries_the_path(path: Seq<u8>)
    requires
        0 < path.len() < 64,
    ensures
        fs::lookup_payload(path).subrange(24, 24int + path.len()) == path,
        forall|i: int| 24 + path.len() <= i < 88 ==> #[trigger] fs::lookup_payload(path)[i] == 0,
{
    payload::law_bytes_are_placed_whole(payload::zero_payload(), 24, path);
}

/// What an open asks for, field by field: first exactly the bytes of the path, from the
/// caller's own memory, of the kernel; then the mount, and then the path it fetched, of
/// the filesystem.
pub proof fn law_open_asks_in_turn(o: Open, caller: Endpoint, mfs: Endpoint, addr: u64)
    requires
        o.wf(),
    ensures
        server::open_asks(o, caller, mfs, addr) is None <==> o is Reply,
        o matches Open::Fetch { at, len } ==> {
            let (to, t, p) = server::open_asks(o, caller, mfs, addr)->0;
            &&& to == com::boot_spec(SYSTEM as int) && t == SYS_COPY
            &&& payload::i32_field(p, 0) == caller
            &&& payload::u64_field(p, 16) == at
            &&& payload::i32_field(p, 4) == SELF
            &&& payload::u64_field(p, 24) == addr
            &&& payload::u64_field(p, 32) == len
        },
        o is Mount ==> (server::open_asks(o, caller, mfs, addr)->0).0 == mfs && (
        server::open_asks(o, caller, mfs, addr)->0).1 == FS_READSUPER,
        o matches Open::Lookup { path, len } ==> {
            let (to, t, p) = server::open_asks(o, caller, mfs, addr)->0;
            &&& to == mfs && t == FS_LOOKUP
            &&& p.subrange(24, 24int + len) == path@.take(len as int)
            &&& p[24int + len] == 0
        },
{
    if let Open::Fetch { at, len } = o {
        kcall::law_copy_reads_back(caller, at, SELF, addr, len as u64);
    }
    if let Open::Lookup { path, len } = o {
        law_lookup_carries_the_path(path@.take(len as int));
    }
}

/// Each driver is asked at its own endpoint.
pub proof fn law_drivers_by_endpoint(peers: Peers)
    ensures
        peers.driver_spec(CharDriver::Tty) == peers.tty,
        peers.driver_spec(CharDriver::Memory) == peers.memory,
{
}

/// What a request to stage a file is answered: anyone but the process manager hears that
/// it may not ask; the process manager hears what is wrong with its path, and else that
/// files are not handed over. Nobody hears of success.
pub proof fn law_staging_is_answered(caller: Endpoint, p: Seq<u8>)
    requires
        p.len() == 96,
    ensures
        ({
            let o = VFS_EXEC_PATH_OFF as int;
            let endless = forall|i: int| o <= i < o + 64 ==> #[trigger] p[i] != 0;
            let pm = caller == com::boot_spec(PM_PROC_NR as int);
            let rc = server::stage_answer(caller, p);
            &&& !pm ==> rc == EPERM
            &&& pm && endless ==> rc == ENAMETOOLONG
            &&& pm && !endless && p[o] != 0x2f ==> rc == EINVAL
            &&& pm && !endless && stage::path_of(p) is Ok ==> rc == ENOSYS
            &&& rc != OK
        }),
{
    stage::law_path_is_taken_whole(p);
}

} // verus!
