use minixrs::abi::callnr::{
    CDEV_MAX_IO, CDEV_MINOR_CONSOLE, FS_INO_OFF, FS_PATH_MAX, FS_PATH_OFF, PM_GRANT_TEST,
};
use minixrs::abi::com::PM_PROC_NR;
use minixrs::abi::errno::{
    EFAULT, EINVAL, EISDIR, ENAMETOOLONG, ENOENT, ENOMEM, ENOSYS, ENOTDIR, ENXIO, EPERM, ESRCH, OK,
};
use minixrs::abi::grant::{grant_idx, CPF_READ, CPF_WRITE};
use minixrs::abi::message::Message;
use minixrs::rt::cdev;
use minixrs::rt::grant::GrantPool;
use minixrs::rt::payload::{rd_i32, rd_u64, wr_i32};
use minixrs::vfs::demo::{
    cdev_denials, cdev_write, grant_test, grant_test_pattern, mount_line, peer_endpoint,
    tty_answered, tty_call, tty_rule_pattern, tty_table, Driver, Part, RULE_TAIL, TTY_BANNER,
};
use minixrs::vfs::denials::{FsDenials, Stage};
use minixrs::vfs::fs::{fs_lookup, lookup_result, readsuper_result, Mount};

fn registered() -> GrantPool<8> {
    let mut g = GrantPool::new();
    g.ensure_registered(0x4000, OK).unwrap();
    g
}

#[test]
fn a_peer_is_where_the_directory_says_or_where_it_booted() {
    assert_eq!(peer_endpoint("tty", Ok(0x8004), 4), (0x8004, "tty ok ep=32772".to_string()));
    let (ep, line) = peer_endpoint("tty", Err(ESRCH), 4);
    assert_eq!((ep, line), (4, format!("tty FAIL rc={ESRCH} fallback=4")));
}

#[test]
fn a_mount_is_reported_with_its_geometry() {
    let m = Mount { root: 1, block_size: 4096, blocks: 256 };
    assert_eq!(mount_line(Ok(m)), "fs.mount ok root=1 bs=4096 blocks=256");
    assert_eq!(mount_line(Err(EINVAL)), "fs.mount FAIL rc=-22");
}

#[test]
fn the_grant_exercise_names_both_grants_and_the_address() {
    let mut g = registered();
    let (to, m) = grant_test(&mut g, [Ok(()); 2], 0x2000).unwrap();
    assert_eq!(to, PM_PROC_NR);
    assert_eq!((m.m_type, rd_i32(&m, 4), rd_u64(&m, 16)), (PM_GRANT_TEST, 64, 0x2000));
    let ro = g.entries[grant_idx(rd_i32(&m, 0)) as usize];
    let rw = g.entries[grant_idx(rd_i32(&m, 8)) as usize];
    assert_eq!((ro.who_to, ro.flags & CPF_WRITE), (PM_PROC_NR, 0));
    assert_eq!(rw.flags & (CPF_READ | CPF_WRITE), CPF_READ | CPF_WRITE);
    assert!(grant_test(&mut g, [Err(ENOMEM); 2], 0x2000).is_none());
    let p = grant_test_pattern();
    assert_eq!((p[0], p[1], p[63]), (11, 48, ((63 * 37 + 11) % 256) as u8));
}

#[test]
fn the_rule_ends_its_line_where_one_transfer_does() {
    let b = tty_rule_pattern();
    assert!(b.starts_with(b"minix.rs vfs: short-write rule ---"));
    assert_eq!(b[CDEV_MAX_IO - 1], b'\n');
    assert_eq!(&b[CDEV_MAX_IO..], RULE_TAIL.as_bytes());
    assert_eq!(b.iter().filter(|&&c| c == b'\n').count(), 1);
}

#[test]
fn the_driver_exercise_is_judged_by_its_counts() {
    let line = |p: Part, rc: i32| tty_answered(Driver::Send(p, 5), rc).1.unwrap();
    assert_eq!(line(Part::Banner, 35), "cdev.write ok match=1");
    assert_eq!(line(Part::Banner, EFAULT), "cdev.write FAIL rc=-14");
    assert_eq!(line(Part::Rule, CDEV_MAX_IO as i32), "cdev.short ok n=256");
    assert_eq!(line(Part::Rule, 264), "cdev.short FAIL rc=264");
    let r = cdev::parse(&cdev_write(1, 2, 3, 4));
    assert_eq!((r.minor, r.gid, r.len, r.offset), (1, 2, 3, 4));
    assert_eq!(Part::Banner.len(), TTY_BANNER.len() as u64);
    assert_eq!(Part::Rule.len(), tty_rule_pattern().len() as u64);
}

#[test]
fn the_driver_exercise_grants_sends_and_takes_back() {
    let mut g = registered();
    let mut d = Driver::Grant(Part::Banner);
    let mut sent = Vec::new();
    while d != Driver::Denials {
        if let Some((to, call)) = tty_call(d, 4) {
            assert_eq!(to, 4);
            let r = cdev::parse(&call);
            assert_eq!((g.used(), r.minor, r.offset), (1, CDEV_MINOR_CONSOLE, 0));
            assert_eq!(g.entries[grant_idx(r.gid) as usize].len, r.len as u64);
            sent.push(r.len);
            d = tty_answered(d, r.len).0;
        } else {
            let (next, line) = tty_table(&mut g, Ok(()), 4, 0x2000, d);
            assert_eq!(line, None);
            d = next;
        }
    }
    assert_eq!((sent, g.used()), (vec![35, 264], 0));
    for (p, line) in [(Part::Banner, "cdev.write FAIL grant"), (Part::Rule, "cdev.short FAIL grant")] {
        let refused = tty_table(&mut g, Err(ENOMEM), 4, 0x2000, Driver::Grant(p));
        assert_eq!(refused, (Driver::Stop, Some(line)));
    }
}

#[test]
fn the_driver_refusals_break_one_rule_each() {
    let mut g = registered();
    let mut d = cdev_denials(&mut g, [Ok(()); 2], 4, 0x2000, 35).ok().unwrap();
    let (a, b) = (d.run.probes[0], d.run.probes[1]);
    let (ra, rb) = (cdev::parse(&a.call), cdev::parse(&b.call));
    assert_eq!((a.name, a.want, ra.minor, ra.gid), ("bad-minor", ENXIO, 7, d.good));
    assert_eq!((b.name, b.want, rb.minor), ("not-mine", EPERM, CDEV_MINOR_CONSOLE));
    assert_eq!(rb.gid, d.not_mine);
    assert_eq!(g.entries[grant_idx(d.good) as usize].who_to, 4);
    assert_eq!(g.entries[grant_idx(d.not_mine) as usize].who_to, PM_PROC_NR);
    assert_eq!(d.run.step(ENXIO), None);
    assert_eq!(d.run.step(EPERM).as_deref(), Some("cdev.deny ok n=2"));
    assert!(d.run.call().is_none());
    assert_eq!((a.to, b.to), (4, 4));
    d.finish(&mut g, [Err(ENOMEM), Ok(())]);
    assert_eq!(g.used(), 1);
    d.finish(&mut g, [Ok(()); 2]);
    assert_eq!(g.used(), 0);
    let refused = cdev_denials(&mut g, [Err(ENOMEM); 2], 4, 0x2000, 35).err();
    assert_eq!((refused, g.used()), (Some("cdev.deny FAIL setup"), 0));
    let refused = cdev_denials(&mut g, [Err(ENOMEM), Ok(())], 4, 0x2000, 35).err();
    assert_eq!((refused, g.used()), (Some("cdev.deny FAIL setup"), 1));
}

#[test]
fn a_lookup_reply_is_an_inode_or_an_error() {
    let mut r = Message::request(OK);
    wr_i32(&mut r, FS_INO_OFF, 9);
    assert_eq!(lookup_result(OK, &r).map(|f| f.0), Ok(9));
    wr_i32(&mut r, FS_INO_OFF, -1);
    assert_eq!(lookup_result(OK, &r), Err(EINVAL));
    assert_eq!(lookup_result(EFAULT, &r), Err(EFAULT));
    assert_eq!(lookup_result(OK, &Message::request(ENOENT)), Err(ENOENT));
    assert_eq!(readsuper_result(EFAULT, &r), Err(EFAULT));
    assert_eq!(readsuper_result(OK, &Message::request(ENXIO)), Err(ENXIO));
    assert!(fs_lookup(&[b'a'; FS_PATH_MAX - 1]).is_ok());
    assert_eq!(fs_lookup(&[b'a'; FS_PATH_MAX]).err(), Some(ENAMETOOLONG));
    assert_eq!(fs_lookup(b"").err(), Some(ENAMETOOLONG));
}

#[test]
fn the_filesystem_battery_runs_through_when_all_is_refused() {
    let mut g = registered();
    let mount = Mount { root: 1, block_size: 4096, blocks: 256 };
    let mut b = FsDenials::new(Some(mount)).unwrap();
    let answers = [
        ENOENT, ENOTDIR, EINVAL, ENAMETOOLONG, OK, EINVAL, EISDIR, EPERM, EPERM, ENXIO, ENOSYS,
    ];
    let mut k = 0;
    while b.stage != Stage::Done {
        if b.stage == Stage::Grants {
            assert_eq!(b.grant(&mut g, [Ok(()); 3], 6, 0x2000), None);
            assert_eq!(g.used(), 3);
            continue;
        }
        let (to, m) = b.call(6).expect("a request");
        assert_eq!(to, 6);
        if b.stage == Stage::TooLong {
            assert_eq!(&m.payload[FS_PATH_OFF..FS_PATH_OFF + 64], &[b'a'; 64]);
        }
        let mut r = Message::request(answers[k]);
        wr_i32(&mut r, FS_INO_OFF, 5);
        assert_eq!(b.step(OK, &r), None);
        k += 1;
    }
    assert_eq!(k, answers.len());
    assert_eq!(b.finish(&mut g, [Ok(()); 3]).as_deref(), Some("fs.deny ok n=10"));
    assert_eq!(g.used(), 0);
}

#[test]
fn the_filesystem_battery_names_what_was_not_refused() {
    assert_eq!(FsDenials::new(None).err(), Some("fs.deny FAIL setup mount"));
    let mount = Mount { root: 1, block_size: 4096, blocks: 256 };
    let mut b = FsDenials::new(Some(mount)).unwrap();
    let line = b.step(OK, &Message::request(OK));
    assert_eq!(line.as_deref(), Some("fs.deny FAIL no-such rc=0"));
    assert_eq!(b.stage, Stage::NotDir);
    b.stage = Stage::Motd;
    let line = b.step(OK, &Message::request(ENOENT));
    assert_eq!(line.as_deref(), Some("fs.deny FAIL setup lookup"));
    assert_eq!(b.stage, Stage::Stopped);
    assert!(b.call(6).is_none());
    b.stage = Stage::Grants;
    let mut g = registered();
    assert_eq!(b.grant(&mut g, [Err(ENOMEM); 3], 6, 0x2000), Some("fs.deny FAIL setup grant"));
    assert_eq!((b.stage, g.used()), (Stage::Stopped, 0));
    b.stage = Stage::Grants;
    let once = [Ok(()), Err(ENOMEM), Ok(())];
    assert_eq!(b.grant(&mut g, once, 6, 0x2000), Some("fs.deny FAIL setup grant"));
    assert_eq!((b.stage, g.used()), (Stage::Stopped, 2));
    assert!(b.call(6).is_none());
    b.stage = Stage::BadMinor;
    let line = b.step(OK, &Message::request(OK));
    assert_eq!(line.as_deref(), Some("fs.deny FAIL bad-minor"));
    b.stage = Stage::Done;
    assert_eq!(b.finish(&mut g, [Ok(()); 3]), None);
}
