use minixrs::abi::callnr::{
    CDEV_MAX_IO, FS_PATH_MAX, PM_EXEC, PM_EXEC_PATH_MAX, PM_EXEC_PATH_OFF, PM_EXIT, PM_FORK,
    VFS_CLOSE, VFS_EXEC_PATH_OFF, VFS_EXEC_STAGE, VFS_OPEN, VFS_READ,
};
use minixrs::abi::errno::{
    EBADF, EFAULT, EINVAL, EISDIR, ENAMETOOLONG, ENOENT, ENOEXEC, ENOSYS, EPERM, OK,
};
use minixrs::abi::execstack::EXEC_STACK_PROBE_PASS;
use minixrs::abi::message::Message;
use minixrs::abi::com::{boot_endpoint, PM_PROC_NR, VFS_PROC_NR};
use minixrs::abi::rootfs::{
    rootfs_scratch_byte, ROOTFS_HELLO_PATH, ROOTFS_MOTD_PATH, ROOTFS_SCRATCH_LEN,
    ROOTFS_SCRATCH_PATH,
};
use minixrs::pm::server::encode_status;
use minixrs::rt::payload::rd_i32;
use minixrs::user::bigprog;
use minixrs::user::cycle::{Cycle, Forked};
use minixrs::user::denials::{
    deny_call, deny_probes, deny_step, exec_call, exec_step, open_call, open_path, open_step, ExecStage,
    OpenStage, Verdict, UNKNOWN_REQUEST, UNMAPPED_VA,
};
use minixrs::user::line::{append, named_line};
use minixrs::user::read_demo;
use minixrs::user::report::{
    fd_verdict, long_verdict, loop_line_pattern, read_verdict, report_exec_stack, report_line,
    scratch_chunk, LOOP_LINE_LEN, SCRATCH_CHUNK,
};
use minixrs::user::request::{exec_request, exit_request, pm_msg, STDERR, STDOUT};
use minixrs::user::write_demo::{Act, Demo, Progress, Window, SCRATCH_WINDOWS_AT, WRITE_OK};
use minixrs::vfs::{open, rw};

#[test]
fn a_line_drops_what_does_not_fit() {
    let mut line = [0u8; 8];
    let n = append(&mut line, 0, b"abcde");
    assert_eq!(append(&mut line, n, b"fghij"), 8);
    assert_eq!(&line, b"abcdefgh");
    assert_eq!(append(&mut line, 12, b"x"), 12);
    assert_eq!(named_line("head ", "name"), b"head name\n");
    assert_eq!(named_line(&"h".repeat(60), "name"), [b"h".repeat(60).as_slice(), b"name"].concat());
    assert_eq!(report_line("fixed"), b"fixed\n");
}

#[test]
fn the_long_lines_tail_needs_a_second_transfer() {
    let b = loop_line_pattern();
    assert_eq!(b.len(), LOOP_LINE_LEN);
    assert!(b.starts_with(b"minix.rs init: vfs long write ----"));
    assert!(b.ends_with(b"---vfs-loop-end\n"));
    assert!(LOOP_LINE_LEN - b"vfs-loop-end\n".len() >= CDEV_MAX_IO);
    assert_eq!(long_verdict(LOOP_LINE_LEN as i32), "minix.rs init: vfs.long ok match=1\n");
    assert_eq!(long_verdict(OK), "minix.rs init: vfs.long FAIL\n");
}

#[test]
fn reads_and_descriptors_are_judged() {
    assert_eq!(read_verdict(31, 0), "minix.rs init: fs.read ok match=1\n");
    assert_eq!(read_verdict(31, 31), "minix.rs init: fs.read FAIL\n");
    assert_eq!(read_verdict(0, 0), "minix.rs init: fs.read FAIL\n");
    assert_eq!(fd_verdict(3, 4, OK, OK, 3), "minix.rs init: fs.fd ok match=1\n");
    assert_eq!(fd_verdict(3, 4, OK, EBADF, 3), "minix.rs init: fs.fd FAIL\n");
    assert_eq!(fd_verdict(7, 6, OK, OK, 7), "minix.rs init: fs.fd FAIL\n");
}

/// Run the read exercise on descriptors that `open` hands out; returns what it
/// said, what it closed, and where it ended.
fn read_files(opened: &[i32], reads: [i32; 2]) -> (Vec<&'static str>, Vec<i32>, read_demo::Demo) {
    let (mut said, mut closed) = (Vec::new(), Vec::new());
    let (mut opened, mut reads) = (opened.iter(), reads.iter());
    let mut d = read_demo::Demo::Open;
    loop {
        let rc = match d.act() {
            read_demo::Act::Open(path) => {
                assert_eq!(path, ROOTFS_MOTD_PATH);
                *opened.next().unwrap()
            }
            read_demo::Act::Read(_) => *reads.next().unwrap(),
            read_demo::Act::Echo(fd, n) => {
                assert_eq!(fd, STDOUT);
                n
            }
            read_demo::Act::Say(fd, text) => {
                assert_eq!(fd, STDOUT);
                said.push(text);
                OK
            }
            read_demo::Act::Report(fd, text) => {
                assert_eq!(fd, STDERR);
                said.push(text);
                OK
            }
            read_demo::Act::Close(fd) => {
                closed.push(fd);
                OK
            }
            read_demo::Act::Nothing => return (said, closed, d),
        };
        d = d.step(rc);
    }
}

#[test]
fn a_file_is_read_to_its_end_and_descriptors_are_reused() {
    let (said, closed, end) = read_files(&[3, 3, 4, 3], [31, 0]);
    assert_eq!(
        said,
        ["minix.rs init: fs.read ok match=1\n", "minix.rs init: fs.fd ok match=1\n"]
    );
    assert_eq!((closed, end), (vec![3, 3, 4, 3], read_demo::Demo::Denials));
    let (said, closed, _) = read_files(&[3, 4, 5, 4], [0, 0]);
    assert_eq!(said, ["minix.rs init: fs.read FAIL\n", "minix.rs init: fs.fd FAIL\n"]);
    assert_eq!(closed, [3, 4, 5, 4]);
    let (said, closed, end) = read_files(&[ENOENT], [0, 0]);
    assert_eq!(said, ["minix.rs init: fs.read FAIL open"]);
    assert_eq!((closed, end), (vec![], read_demo::Demo::Stop));
}

#[test]
fn every_piece_of_the_scratch_pattern_is_the_same() {
    let b = scratch_chunk();
    for k in [0usize, 1, 7] {
        for i in [0usize, 1, 250, 251, 4015] {
            assert_eq!(b[i], rootfs_scratch_byte(k * SCRATCH_CHUNK + i));
        }
    }
}

#[test]
fn a_stack_verdict_survives_the_wait_status() {
    assert_eq!(
        report_exec_stack(encode_status(EXEC_STACK_PROBE_PASS)),
        (STDOUT, "minix.rs init: exec stack ok\n".to_string())
    );
    assert_eq!(
        report_exec_stack(0),
        (STDERR, "minix.rs init: exec stack FAIL no-verdict\n".to_string())
    );
    assert_eq!(
        report_exec_stack(encode_status(7)),
        (STDERR, "minix.rs init: exec stack FAIL code=7\n".to_string())
    );
    assert_eq!(report_exec_stack(0xff00).1, "minix.rs init: exec stack FAIL code=255\n");
}

#[test]
fn the_first_childs_verdict_is_reported_once() {
    let mut c = Cycle::new();
    assert_eq!(c.target(), "worker");
    assert_eq!(c.forked(-11), Forked::Retry);
    assert_eq!(c.forked(0), Forked::Child);
    assert_eq!(c.forked(15), Forked::Parent);
    assert_eq!(c.target(), ROOTFS_HELLO_PATH);
    assert!(!c.reaped(OK, 14), "somebody else's child");
    assert!(!c.reaped(EINVAL, 15));
    assert_eq!(c.forked(16), Forked::Parent);
    assert_eq!(c.target(), "worker");
    assert!(c.reaped(OK, 15));
    assert!(!c.reaped(OK, 15));
    c.cycle = usize::MAX;
    c.forked(17);
    assert_eq!(c.cycle, 0);
}

#[test]
fn the_requests_carry_what_they_are_given() {
    assert_eq!(pm_msg(PM_FORK), Message::request(PM_FORK));
    let m = exit_request(90);
    assert_eq!((m.m_type, rd_i32(&m, 0)), (PM_EXIT, 90));
    let m = exec_request(&[b'a'; 80]);
    assert_eq!(m.m_type, PM_EXEC);
    let end = PM_EXEC_PATH_OFF + PM_EXEC_PATH_MAX;
    assert_eq!(&m.payload[PM_EXEC_PATH_OFF..end], &[b'a'; 64]);
    assert!(m.payload[end..].iter().all(|&b| b == 0));
}

#[test]
fn the_write_battery_refuses_one_field_each() {
    let p = deny_probes(0x1000, 35);
    assert_eq!((p[0].fd, p[0].want), (3, EBADF));
    assert_eq!((p[1].m_type, p[1].want), (UNKNOWN_REQUEST, ENOSYS));
    assert_eq!((p[2].buf, p[2].want), (UNMAPPED_VA, EFAULT));
    assert_eq!((p[3].len, p[3].want), (-1, EINVAL));
    for q in &p {
        let (to, m) = deny_call(q);
        let r = rw::parse(&m);
        assert_eq!((to, m.m_type), (boot_endpoint(VFS_PROC_NR), q.m_type));
        assert_eq!((r.fd, r.len, r.buf), (q.fd, q.len, q.buf));
    }
    for i in 0..3 {
        assert!(matches!(deny_step(i, &p[i], p[i].want), Verdict::Next));
    }
    match deny_step(3, &p[3], EINVAL) {
        Verdict::Pass(fd, line) => {
            assert_eq!((fd, line), (STDERR, "minix.rs init: vfs.deny ok n=4\n"))
        }
        _ => panic!("the last probe passes the battery"),
    }
    match deny_step(0, &p[0], OK) {
        Verdict::Fail(fd, line) => {
            assert_eq!(fd, STDERR);
            assert_eq!(line, b"minix.rs init: vfs.deny FAIL bad-fd\n");
        }
        _ => panic!("a write that went through fails the battery"),
    }
}

#[test]
fn the_open_battery_runs_through_when_all_is_refused() {
    let answers = [ENOENT, EISDIR, ENAMETOOLONG, EINVAL, EFAULT, ENOSYS, 3, OK, EBADF];
    let mut s = OpenStage::NoSuch;
    for (k, rc) in answers.into_iter().enumerate() {
        let path = open_path(s);
        let (to, m) = open_call(s, 0x1000, path.len() as i32, 0x2000).expect("a request");
        assert_eq!(to, boot_endpoint(VFS_PROC_NR));
        match s {
            OpenStage::ReadConsole => {
                let r = rw::parse(&m);
                assert_eq!((m.m_type, r.fd, r.len, r.buf), (VFS_READ, 1, 8, 0x2000));
            }
            OpenStage::Close(fd) | OpenStage::CloseAgain(fd) => {
                assert_eq!((m.m_type, rw::parse(&m).fd, fd), (VFS_CLOSE, 3, 3));
            }
            _ => {
                let r = open::parse(&m);
                assert_eq!(m.m_type, VFS_OPEN);
                match s {
                    OpenStage::TooLong => assert_eq!(r.len, FS_PATH_MAX as i32),
                    OpenStage::BadLen => assert_eq!(r.len, -1),
                    OpenStage::BadBuf => assert_eq!((r.path, r.len), (UNMAPPED_VA, 9)),
                    _ => assert_eq!((r.path, r.len), (0x1000, path.len() as i32)),
                }
            }
        }
        let (next, v) = open_step(s, rc);
        s = next;
        match v {
            Verdict::Next => assert!(k < 8),
            Verdict::Pass(fd, line) => {
                assert_eq!((k, fd, line), (8, STDERR, "minix.rs init: open.deny ok n=7\n"))
            }
            Verdict::Fail(..) => panic!("stage {k}"),
        }
    }
    assert_eq!(s, OpenStage::Done);
    assert!(open_call(s, 0, 0, 0).is_none());
}

#[test]
fn the_open_battery_names_the_first_that_is_not_refused() {
    for (s, rc, name) in [
        (OpenStage::NoSuch, 3, "no-such"),
        (OpenStage::IsDir, 3, "is-dir"),
        (OpenStage::TooLong, ENOENT, "too-long"),
        (OpenStage::BadLen, EFAULT, "bad-len"),
        (OpenStage::BadBuf, ENOENT, "bad-buf"),
        (OpenStage::ReadConsole, EBADF, "read-console"),
        (OpenStage::Setup, ENOENT, "setup"),
        (OpenStage::Close(3), EBADF, "close-twice"),
        (OpenStage::CloseAgain(3), OK, "close-twice"),
    ] {
        match open_step(s, rc) {
            (OpenStage::Done, Verdict::Fail(fd, line)) => {
                assert_eq!(fd, STDERR);
                assert_eq!(line, format!("minix.rs init: open.deny FAIL {name}\n").into_bytes())
            }
            _ => panic!("{name} passed"),
        }
    }
}

#[test]
fn the_exec_battery_runs_through_when_all_is_refused() {
    let answers = [ENOENT, EISDIR, ENOENT, ENOENT, ENOEXEC, ENAMETOOLONG, EINVAL, EPERM];
    let fields: [&[u8]; 8] = [
        b"/no-such-file\0",
        b"/etc\0",
        b"etc/motd\0",
        b"nosuchmod\0",
        b"/etc/motd\0",
        &[b'a'; 64],
        &[0; 64],
        b"/bin/hello\0",
    ];
    let mut s = ExecStage::NoSuch;
    for (k, rc) in answers.into_iter().enumerate() {
        let (to, m) = exec_call(s).expect("a request");
        let (whom, m_type, off) = if k < 7 {
            (PM_PROC_NR, PM_EXEC, PM_EXEC_PATH_OFF)
        } else {
            (VFS_PROC_NR, VFS_EXEC_STAGE, VFS_EXEC_PATH_OFF)
        };
        assert_eq!((to, m.m_type), (boot_endpoint(whom), m_type));
        assert_eq!(&m.payload[off..off + fields[k].len()], fields[k]);
        let (next, v) = exec_step(s, OK, &Message::request(rc));
        s = next;
        match v {
            Verdict::Next => assert!(k < 7),
            Verdict::Pass(fd, line) => {
                assert_eq!((k, fd, line), (7, STDOUT, "minix.rs init: exec.deny ok n=8\n"))
            }
            Verdict::Fail(..) => panic!("stage {k}"),
        }
    }
    assert_eq!(s, ExecStage::Done);
    assert!(exec_call(s).is_none());
}

#[test]
fn the_exec_battery_names_the_first_that_is_not_refused() {
    let (s, v) = exec_step(ExecStage::NotElf, OK, &Message::request(OK));
    assert_eq!(s, ExecStage::Done);
    match v {
        Verdict::Fail(fd, line) => {
            assert_eq!(fd, STDERR);
            assert_eq!(line, b"minix.rs init: exec.deny FAIL not-elf\n");
        }
        _ => panic!("it ran"),
    }
    match exec_step(ExecStage::StageNotPm, EPERM, &Message::request(EPERM)).1 {
        Verdict::Fail(_, line) => {
            assert_eq!(line, b"minix.rs init: exec.deny FAIL stage-not-pm\n")
        }
        _ => panic!("an exchange that failed is no refusal"),
    }
}

/// What a filesystem that keeps what it is given answers, at most `most` bytes at
/// a time.
fn drive(most: usize, wrong_at: Option<usize>) -> (bool, &'static str, usize) {
    let mut d = Demo::Open;
    let mut pos = 0usize;
    let mut written = 0usize;
    loop {
        let mut data = [0u8; 512];
        let rc = match d.act() {
            Act::Open(path) => {
                assert_eq!(path, ROOTFS_SCRATCH_PATH);
                pos = 0;
                3
            }
            Act::Write(fd, piece) => {
                assert_eq!(fd, 3);
                for (i, b) in piece.iter().enumerate() {
                    assert_eq!(*b, rootfs_scratch_byte(written + i));
                }
                written += piece.len();
                piece.len() as i32
            }
            Act::Close(fd) => {
                assert_eq!(fd, 3);
                OK
            }
            Act::Read(fd, want) => {
                assert_eq!(fd, 3);
                let n = want.min(most);
                for i in 0..n {
                    data[i] = rootfs_scratch_byte(pos + i);
                    if Some(pos + i) == wrong_at {
                        data[i] ^= 1;
                    }
                }
                pos += n;
                n as i32
            }
            Act::Say(fd, line) => {
                let Demo::Report { ok, text } = d else { panic!("it said {line:?}") };
                assert_eq!(fd, if ok { STDOUT } else { STDERR });
                assert_eq!(line, format!("{text}\n").into_bytes());
                return (ok, text, written);
            }
        };
        d = d.step(rc, &data);
    }
}

#[test]
fn a_file_that_reads_back_is_reported_ok() {
    for most in [512, 511, 100, 7] {
        assert_eq!(drive(most, None), (true, WRITE_OK, ROOTFS_SCRATCH_LEN));
    }
}

#[test]
fn a_wrong_byte_in_a_window_is_found_and_one_outside_is_not_looked_at() {
    for at in SCRATCH_WINDOWS_AT {
        for wrong in [at, at + 255, at + 511] {
            let (ok, text, _) = drive(100, Some(wrong));
            assert_eq!((ok, text), (false, "minix.rs init: fs.write FAIL verify"));
        }
    }
    assert!(drive(512, Some(20000)).0);
}

#[test]
fn the_write_exercise_says_where_it_failed() {
    let fails = |d: Demo, rc: i32| match d.step(rc, &[0; 512]) {
        Demo::Report { ok, text } | Demo::Quit { ok, text, .. } => (ok, text),
        _ => panic!("it went on"),
    };
    assert_eq!(fails(Demo::Open, ENOENT), (false, "minix.rs init: fs.write FAIL open"));
    let w = Demo::Write { fd: 3, off: 0 };
    assert_eq!(fails(w, 4015), (false, "minix.rs init: fs.write FAIL short"));
    assert_eq!(fails(Demo::Close { fd: 3 }, EBADF), (false, "minix.rs init: fs.write FAIL close"));
    assert_eq!(fails(Demo::Reopen, ENOENT), (false, "minix.rs init: fs.write FAIL reopen"));
    let v = Demo::Verify { fd: 3, k: 0, w: Window::new(0, 0) };
    assert_eq!(fails(v, 0), (false, "minix.rs init: fs.write FAIL verify"));
    let mut w = Window::new(SCRATCH_WINDOWS_AT[1], 512);
    assert_eq!(w.want(), 512);
    assert_eq!(w.take(513, &[0; 512]), Progress::Failed);
    assert_eq!(w.take(512, &[0; 512]), Progress::More);
    assert_eq!((w.pos, w.got), (1024, 0));
}

#[test]
fn a_big_program_looks_at_both_ends_of_its_memory() {
    assert_eq!(bigprog::verdict(0, 0), "bigprog ok: bss pages mapped\n");
    assert_eq!(bigprog::verdict(0, 1), "bigprog FAIL: bss not zeroed\n");
    assert_eq!(bigprog::verdict(1, 0), "bigprog FAIL: bss not zeroed\n");
}

#[test]
fn every_program_of_the_cycle_fits_an_exec_request() {
    let mut c = Cycle::new();
    for pid in 20..24 {
        let name = c.target();
        assert!(!name.is_empty() && name.len() < PM_EXEC_PATH_MAX);
        assert_eq!(c.forked(pid), Forked::Parent);
        assert_ne!(c.target(), name, "the programs take turns");
    }
}
