use minixrs::abi::callnr::{
    BDEV_MINOR_RAMDISK, CDEV_MAX_IO, CDEV_WRITE, FS_GRANT_OFF, FS_INO_OFF, FS_LEN_OFF, FS_LOOKUP,
    FS_MODE_OFF, FS_PATH_OFF, FS_POS_OFF, FS_READ, FS_READSUPER, FS_SUPER_BLOCKS_OFF,
    FS_SUPER_BLOCK_SIZE_OFF, FS_SUPER_MINOR_OFF, FS_SUPER_ROOT_OFF, SYS_COPY, VFS_CLOSE,
    VFS_EXEC_PATH_OFF, VFS_EXEC_STAGE, VFS_OPEN, VFS_READ, VFS_WRITE,
};
use minixrs::abi::com::{boot_endpoint, INIT_PROC_NR, PM_PROC_NR, SYSTEM};
use minixrs::abi::endpoint::SELF;
use minixrs::abi::errno::{
    EBADF, EFAULT, EINVAL, EISDIR, EMFILE, ENAMETOOLONG, ENOENT, ENOMEM, ENOSYS, EPERM, EROFS, OK,
};
use minixrs::abi::grant::{grant_idx, CPF_MAGIC, CPF_READ, CPF_USED, CPF_VALID, CPF_WRITE};
use minixrs::abi::message::Message;
use minixrs::rt::cdev;
use minixrs::rt::grant::GrantPool;
use minixrs::rt::payload::{rd_i32, rd_u64, wr_i32};
use minixrs::user::request::{open_request, stage_request, vfs_request};
use minixrs::vfs::fd::{alloc_fd, resolve, CharDriver, Fd, FdTable};
use minixrs::vfs::fs::Mount;
use minixrs::vfs::server::{
    do_close, do_open, do_read, do_stage, do_write, open_call, open_fetched, open_found, open_mounted,
    read_answered, read_call, read_granted, read_revoked, reply, request, write_all, write_call,
    write_granted, write_revoked, Open, Peers, Read, Request, Write,
};

const PEERS: Peers = Peers { tty: 4, memory: 3, mfs: 6 };
const CALLER: i32 = 10;
const BUF: u64 = 0x0010_0000;

fn registered() -> GrantPool<8> {
    let mut g = GrantPool::new();
    g.ensure_registered(0x4000, OK).unwrap();
    g
}

/// Run a write against a driver that takes at most `most` bytes at a time.
fn write(t: &FdTable, g: &mut GrantPool<8>, m: &Message, most: i32) -> (i32, Vec<cdev::Request>) {
    let mut w = do_write(t, CALLER, m, &PEERS);
    let mut seen = Vec::new();
    loop {
        w = match w {
            Write::Grant { .. } => write_granted(g, Ok(()), CALLER, w),
            Write::Send { .. } => {
                let (_, call) = write_call(&w).unwrap();
                assert_eq!(call.m_type, CDEV_WRITE);
                let r = cdev::parse(&call);
                seen.push(r);
                write_all(w, if most < 0 { most } else { r.len.min(most) })
            }
            Write::Revoke { .. } => write_revoked(g, Ok(()), w),
            Write::Reply(rc) => return (rc, seen),
        }
    }
}

#[test]
fn a_long_write_reaches_the_driver_in_pieces_and_reports_its_whole_length() {
    let t = FdTable::new();
    let mut g = registered();
    let len = CDEV_MAX_IO as i32 * 2 + 5;
    let (rc, seen) = write(&t, &mut g, &vfs_request(VFS_WRITE, 1, BUF, len), CDEV_MAX_IO as i32);
    assert_eq!(rc, len);
    let offsets: Vec<u64> = seen.iter().map(|r| r.offset).collect();
    assert_eq!(offsets, [0, 256, 512]);
    assert_eq!(seen[2].len, 5);
    assert_eq!(g.used(), 0, "the grant goes back");
}

#[test]
fn a_write_grants_the_driver_the_callers_memory() {
    let t = FdTable::new();
    let mut g = registered();
    let w = do_write(&t, CALLER, &vfs_request(VFS_WRITE, 2, BUF, 8), &PEERS);
    assert_eq!(w, Write::Grant { to: 4, minor: 0, buf: BUF, len: 8 });
    let w = write_granted(&mut g, Ok(()), CALLER, w);
    let (to, call) = write_call(&w).unwrap();
    let e = g.entries[grant_idx(cdev::parse(&call).gid) as usize];
    assert_eq!((to, e.who_to, e.who_from, e.addr, e.len), (4, 4, CALLER, BUF, 8));
    assert_eq!(e.flags, CPF_MAGIC | CPF_READ | CPF_USED | CPF_VALID);
}

#[test]
fn a_write_goes_to_the_driver_its_descriptor_names() {
    let mut t = FdTable::new();
    alloc_fd(&mut t, CALLER, Fd::CharDev { dev: CharDriver::Memory, minor: 2 }).unwrap();
    let w = do_write(&t, CALLER, &vfs_request(VFS_WRITE, 3, BUF, 8), &PEERS);
    assert_eq!(w, Write::Grant { to: 3, minor: 2, buf: BUF, len: 8 });
}

#[test]
fn a_write_that_cannot_be_is_answered_without_a_grant() {
    let mut t = FdTable::new();
    let mut g = registered();
    alloc_fd(&mut t, CALLER, Fd::File { ino: 5, pos: 0 }).unwrap();
    for (m, want) in [
        (vfs_request(VFS_WRITE, 7, BUF, 8), EBADF),
        (vfs_request(VFS_WRITE, 3, BUF, 8), EROFS),
        (vfs_request(VFS_WRITE, 1, 0, 8), EFAULT),
        (vfs_request(VFS_WRITE, 1, BUF, -1), EINVAL),
        (vfs_request(VFS_WRITE, 1, 0, 0), 0),
    ] {
        let (rc, seen) = write(&t, &mut g, &m, 100);
        assert_eq!(rc, want);
        assert!(seen.is_empty());
    }
    let w = do_write(&t, CALLER, &vfs_request(VFS_WRITE, 1, BUF, 8), &PEERS);
    assert_eq!(write_granted(&mut g, Err(ENOMEM), CALLER, w), Write::Reply(ENOMEM));
    let (rc, _) = write(&t, &mut g, &vfs_request(VFS_WRITE, 1, BUF, 8), EFAULT);
    assert_eq!(rc, EFAULT);
    assert_eq!(g.used(), 0);
}

/// Open the `len` bytes of `path`, answering the mount and the lookup.
fn open(t: &mut FdTable, mount: &mut Option<Mount>, path: &str, mode: i32, found: i32) -> i32 {
    let mut field = [0u8; 64];
    field[..path.len()].copy_from_slice(path.as_bytes());
    let mut o = do_open(&open_request(BUF, path.len() as i32));
    loop {
        let addr = 0x7000;
        let call = open_call(&o, CALLER, PEERS.mfs, addr);
        o = match o {
            Open::Fetch { .. } => {
                let (to, m) = call.unwrap();
                assert_eq!((to, m.m_type), (boot_endpoint(SYSTEM), SYS_COPY));
                assert_eq!((rd_i32(&m, 0), rd_i32(&m, 4)), (CALLER, SELF));
                assert_eq!((rd_u64(&m, 16), rd_u64(&m, 24)), (BUF, addr));
                assert_eq!(rd_u64(&m, 32), path.len() as u64);
                open_fetched(t, CALLER, mount, o, OK, field)
            }
            Open::Mount { .. } => {
                let (to, m) = call.unwrap();
                assert_eq!((to, m.m_type), (6, FS_READSUPER));
                assert_eq!(rd_i32(&m, FS_SUPER_MINOR_OFF), BDEV_MINOR_RAMDISK);
                let mut r = Message::request(OK);
                wr_i32(&mut r, FS_SUPER_ROOT_OFF, 1);
                wr_i32(&mut r, FS_SUPER_BLOCK_SIZE_OFF, 4096);
                wr_i32(&mut r, FS_SUPER_BLOCKS_OFF, 256);
                open_mounted(mount, o, OK, &r)
            }
            Open::Lookup { .. } => {
                let (to, m) = call.unwrap();
                assert_eq!((to, m.m_type), (6, FS_LOOKUP));
                assert_eq!(&m.payload[FS_PATH_OFF..FS_PATH_OFF + path.len()], path.as_bytes());
                let mut r = Message::request(found);
                wr_i32(&mut r, FS_INO_OFF, 9);
                wr_i32(&mut r, FS_MODE_OFF, mode);
                open_found(t, CALLER, o, OK, &r)
            }
            Open::Reply(rc) => {
                assert!(call.is_none());
                return rc;
            }
        }
    }
}

#[test]
fn the_first_open_mounts_and_the_next_does_not() {
    let mut t = FdTable::new();
    let mut mount = None;
    assert_eq!(open(&mut t, &mut mount, "/etc/motd", 0o100644, OK), 3);
    assert_eq!(mount, Some(Mount { root: 1, block_size: 4096, blocks: 256 }));
    assert_eq!(resolve(&t, CALLER, 3), Ok(Fd::File { ino: 9, pos: 0 }));
    assert_eq!(open(&mut t, &mut mount, "/etc/motd", 0o100644, OK), 4);
    assert_eq!(resolve(&t, 11, 3), Err(EBADF));
}

#[test]
fn a_device_is_opened_ahead_of_any_filesystem() {
    let mut t = FdTable::new();
    let mut mount = None;
    assert_eq!(open(&mut t, &mut mount, "/dev/null", 0, EINVAL), 3);
    assert_eq!(mount, None);
    match resolve(&t, CALLER, 3) {
        Ok(Fd::CharDev { dev, .. }) => assert_eq!(dev, CharDriver::Memory),
        other => panic!("not a device: {other:?}"),
    }
}

#[test]
fn an_open_that_finds_no_file_says_why() {
    let mut t = FdTable::new();
    let mut mount = Some(Mount { root: 1, block_size: 4096, blocks: 256 });
    assert_eq!(open(&mut t, &mut mount, "/etc", 0o040755, OK), EISDIR);
    assert_eq!(open(&mut t, &mut mount, "/no-such", 0, ENOENT), ENOENT);
    for fd in 3..8 {
        assert_eq!(open(&mut t, &mut mount, "/etc/motd", 0o100644, OK), fd);
    }
    assert_eq!(open(&mut t, &mut mount, "/etc/motd", 0o100644, OK), EMFILE);
    assert_eq!(do_open(&open_request(0, 9)), Open::Reply(EFAULT));
    let o = do_open(&open_request(BUF, 9));
    assert_eq!(open_fetched(&mut t, CALLER, &mount, o, EFAULT, [0; 64]), Open::Reply(EFAULT));
    let mut none = None;
    let o = Open::Mount { path: [97; 64], len: 1, copied: OK };
    assert_eq!(open_mounted(&mut none, o, OK, &Message::request(ENOENT)), Open::Reply(ENOENT));
    assert_eq!(none, None);
}

#[test]
fn a_failed_copy_still_mounts_and_is_answered_after_it() {
    let mut t = FdTable::new();
    let mut mount = None;
    let o = do_open(&open_request(BUF, 9));
    let o = open_fetched(&mut t, CALLER, &mount, o, EFAULT, [0; 64]);
    assert_eq!(o, Open::Mount { path: [0; 64], len: 9, copied: EFAULT });
    let (to, m) = open_call(&o, CALLER, PEERS.mfs, 0x7000).unwrap();
    assert_eq!((to, m.m_type), (6, FS_READSUPER));
    let refused = open_mounted(&mut mount, o, OK, &Message::request(ENOENT));
    assert_eq!((refused, mount), (Open::Reply(ENOENT), None));
    let mut r = Message::request(OK);
    wr_i32(&mut r, FS_SUPER_ROOT_OFF, 1);
    wr_i32(&mut r, FS_SUPER_BLOCK_SIZE_OFF, 4096);
    wr_i32(&mut r, FS_SUPER_BLOCKS_OFF, 256);
    assert_eq!(open_mounted(&mut mount, o, OK, &r), Open::Reply(EFAULT));
    assert_eq!(mount, Some(Mount { root: 1, block_size: 4096, blocks: 256 }));
}

#[test]
fn only_the_process_manager_may_have_a_program_staged() {
    let m = stage_request(b"/bin/hello");
    let pm = boot_endpoint(PM_PROC_NR);
    assert_eq!(do_stage(boot_endpoint(INIT_PROC_NR), &m), EPERM);
    assert_eq!(do_stage(CALLER, &stage_request(b"relative")), EPERM);
    assert_eq!(do_stage(pm, &stage_request(b"relative")), EINVAL);
    assert_eq!(do_stage(pm, &stage_request(b"")), EINVAL);
    let mut long = m;
    long.payload[VFS_EXEC_PATH_OFF..VFS_EXEC_PATH_OFF + 64].fill(b'a');
    assert_eq!(do_stage(pm, &long), ENAMETOOLONG);
    assert_eq!(do_stage(pm, &m), ENOSYS);
}

#[test]
fn a_read_moves_the_descriptor_by_what_was_read() {
    let mut t = FdTable::new();
    let mut g = registered();
    alloc_fd(&mut t, CALLER, Fd::File { ino: 9, pos: 31 }).unwrap();
    let r = do_read(&t, CALLER, &vfs_request(VFS_READ, 3, BUF, 64));
    let r = read_granted(&mut g, Ok(()), CALLER, PEERS.mfs, r);
    let (to, m) = read_call(&r, PEERS.mfs).unwrap();
    assert_eq!(to, 6);
    assert_eq!((m.m_type, rd_i32(&m, FS_INO_OFF), rd_i32(&m, FS_LEN_OFF)), (FS_READ, 9, 64));
    assert_eq!(rd_u64(&m, FS_POS_OFF), 31);
    let e = g.entries[grant_idx(rd_i32(&m, FS_GRANT_OFF)) as usize];
    assert_eq!((e.who_to, e.who_from, e.addr, e.len), (6, CALLER, BUF, 64));
    assert_eq!(e.flags & (CPF_READ | CPF_WRITE), CPF_WRITE);
    let r = read_answered(r, 10);
    assert_eq!(read_revoked(&mut t, &mut g, Ok(()), CALLER, r), Read::Reply(10));
    assert_eq!(resolve(&t, CALLER, 3), Ok(Fd::File { ino: 9, pos: 41 }));
    assert_eq!(g.used(), 0);
    let r = Read::Revoke { fd: 3, gid: 0, n: EINVAL };
    assert_eq!(read_revoked(&mut t, &mut g, Ok(()), CALLER, r), Read::Reply(EINVAL));
    assert_eq!(resolve(&t, CALLER, 3), Ok(Fd::File { ino: 9, pos: 41 }));
}

#[test]
fn a_read_that_cannot_be_is_answered_at_once() {
    let mut t = FdTable::new();
    alloc_fd(&mut t, CALLER, Fd::File { ino: 9, pos: 0 }).unwrap();
    for (m, want) in [
        (vfs_request(VFS_READ, 1, BUF, 8), ENOSYS),
        (vfs_request(VFS_READ, 7, BUF, 8), EBADF),
        (vfs_request(VFS_READ, 3, 0, 8), EFAULT),
        (vfs_request(VFS_READ, 3, BUF, -1), EINVAL),
        (vfs_request(VFS_READ, 3, 0, 0), 0),
    ] {
        assert_eq!(do_read(&t, CALLER, &m), Read::Reply(want));
    }
}

#[test]
fn a_close_frees_the_descriptor_once() {
    let mut t = FdTable::new();
    alloc_fd(&mut t, CALLER, Fd::File { ino: 9, pos: 0 }).unwrap();
    let m = vfs_request(VFS_CLOSE, 3, 0, 0);
    assert_eq!(do_close(&mut t, CALLER, &m), OK);
    assert_eq!(do_close(&mut t, CALLER, &m), EBADF);
}

#[test]
fn file_requests_are_told_apart_and_all_are_answered() {
    assert_eq!(request(VFS_WRITE), Request::Write);
    assert_eq!(request(VFS_OPEN), Request::Open);
    assert_eq!(request(VFS_READ), Request::Read);
    assert_eq!(request(VFS_CLOSE), Request::Close);
    assert_eq!(request(VFS_EXEC_STAGE), Request::Stage);
    assert_eq!(request(1), Request::Unknown);
    let mut m = vfs_request(VFS_CLOSE, 3, 0, 0);
    m.m_source = CALLER;
    reply(&mut m, ENOSYS);
    assert_eq!((m.m_type, m.m_source), (ENOSYS, 0));
}
