use minixrs::abi::callnr::{SAFECOPY_FROM, SAFECOPY_TO, SYS_COPY, SYS_SAFECOPY};
use minixrs::abi::com::{boot_endpoint, INIT_PROC_NR, PM_PROC_NR, SYSTEM, VFS_PROC_NR};
use minixrs::abi::endpoint::SELF;
use minixrs::abi::errno::{EFAULT, ENOMEM, EPERM, OK};
use minixrs::abi::grant::grant_idx;
use minixrs::pm::granttest::{
    checksum, grant_denials, grant_denials_over, handle_grant_test, magic_copy, magic_grant, table,
    Aims, GrantTest, Stage, MAGIC_PROBE_VA,
};
use minixrs::rt::grant::GrantPool;
use minixrs::rt::payload::{buf_addr, rd_i32, rd_u64};
use minixrs::vfs::demo::{grant_test, grant_test_pattern};

const AIMS: Aims = Aims { vfs: 1, gid: 77, rw_gid: 78, len: 64 };

fn registered() -> GrantPool<8> {
    let mut g = GrantPool::new();
    g.ensure_registered(0x4000, OK).unwrap();
    g
}

#[test]
fn the_file_servers_request_is_taken_up_and_no_one_elses() {
    let mut g = registered();
    let (to, mut m) = grant_test(&mut g, [Ok(()); 2], 0x2000).expect("two grants");
    assert_eq!(to, boot_endpoint(PM_PROC_NR));
    m.m_source = VFS_PROC_NR;
    let t = handle_grant_test(&m).expect("from the file server");
    assert_eq!((t.granter, t.raw_addr, t.len), (VFS_PROC_NR, 0x2000, 64));
    assert_ne!(t.gid, t.rw_gid);
    m.m_source = INIT_PROC_NR;
    assert!(handle_grant_test(&m).is_none());
}

#[test]
fn the_three_copies_are_reported_in_turn() {
    let t = GrantTest { granter: VFS_PROC_NR, gid: 3, rw_gid: 4, raw_addr: 0x2000, len: 64 };
    let data = grant_test_pattern();
    assert_eq!(data[..3], [11, 48, 85]);
    let sum = checksum(&data);
    let (s, line) = t.step(Stage::Granted, OK, &data);
    assert_eq!(s, Stage::Raw(sum));
    assert_eq!(line, format!("grant.test ok sum={sum} len=64"));
    assert_eq!(t.step(s, OK, &data), (Stage::Grant, "copy ok match=1".to_string()));
    assert_eq!(t.step(s, OK, &[0; 64]), (Stage::Grant, "copy ok match=0".to_string()));
    assert_eq!(t.step(s, EPERM, &data), (Stage::Grant, "copy FAIL rc=-1".to_string()));
    let magic = Stage::Magic(9);
    assert_eq!(t.step(magic, OK, &data), (Stage::Revoke(9), "magic ok len=8".to_string()));
    assert_eq!(t.step(magic, EPERM, &data), (Stage::Revoke(9), "magic FAIL rc=-1".to_string()));
    assert_eq!(
        t.step(Stage::Granted, EPERM, &data),
        (Stage::Stop, "grant.test FAIL rc=-1".to_string())
    );
}

#[test]
fn the_third_partys_grant_is_issued_and_taken_back() {
    let mut g = registered();
    let (s, line) = table(&mut g, Ok(()), 0, Stage::Grant);
    let Stage::Magic(gid) = s else { panic!("{s:?}") };
    assert_eq!((line, g.used()), (None, 1));
    assert_eq!(table(&mut g, Ok(()), 0, Stage::Revoke(gid)), (Stage::Denials, None));
    assert_eq!(g.used(), 0);
    assert_eq!(
        table(&mut g, Err(ENOMEM), 0, Stage::Grant),
        (Stage::Denials, Some(format!("magic FAIL grant={ENOMEM}")))
    );
    assert_eq!(table(&mut g, Ok(()), 0, Stage::Raw(3)), (Stage::Raw(3), None));
}

#[test]
fn the_checksum_is_the_sum_of_the_bytes() {
    assert_eq!(checksum(&[]), 0);
    assert_eq!(checksum(&[1, 2]), 3);
    assert_eq!(checksum(&[2, 1]), 3);
    assert_eq!(checksum(&[1, 2, 3]), 6);
    assert_eq!(checksum(&[255; 64]), 16320);
    assert_eq!(checksum(&grant_test_pattern()), 8224);
}

#[test]
fn the_copies_name_whom_they_read_from() {
    let t = GrantTest { granter: 1, gid: 3, rw_gid: 4, raw_addr: 0x2000, len: 16 };
    let addr = 0x5000;
    let m = t.grant_copy(addr);
    assert_eq!(m.m_type, SYS_SAFECOPY);
    assert_eq!((rd_i32(&m, 0), rd_i32(&m, 4), rd_i32(&m, 8)), (SAFECOPY_FROM, 1, 3));
    assert_eq!((rd_u64(&m, 16), rd_u64(&m, 24), rd_u64(&m, 32)), (0, addr, 16));
    let m = t.raw_copy(addr);
    assert_eq!(m.m_type, SYS_COPY);
    assert_eq!((rd_i32(&m, 0), rd_i32(&m, 4)), (1, SELF));
    assert_eq!((rd_u64(&m, 16), rd_u64(&m, 24), rd_u64(&m, 32)), (0x2000, addr, 16));
}

#[test]
fn each_stage_makes_its_own_copy_and_the_others_make_none() {
    let t = GrantTest { granter: 1, gid: 3, rw_gid: 4, raw_addr: 0x2000, len: 16 };
    let (buf, probe) = (0x5000, 0x6000);
    let call = |s: Stage| t.call(s, 0, buf, probe);
    let system = boot_endpoint(SYSTEM);
    assert_eq!(call(Stage::Granted), Some((system, t.grant_copy(buf))));
    assert_eq!(call(Stage::Raw(7)), Some((system, t.raw_copy(buf))));
    assert_eq!(call(Stage::Magic(9)), Some((system, magic_copy(0, 9, probe))));
    assert_eq!(rd_u64(&call(Stage::Magic(9)).unwrap().1, 24), probe);
    for s in [Stage::Grant, Stage::Revoke(9), Stage::Denials, Stage::Stop] {
        assert_eq!(call(s), None);
    }
}

#[test]
fn a_refused_registration_costs_one_grant_and_the_next_tries_again() {
    let mut g = registered();
    let once = [Err(ENOMEM), Ok(()), Ok(())];
    assert_eq!(
        grant_denials(&mut g, once, 0, AIMS, 0x9000).err(),
        Some("grant.deny FAIL setup")
    );
    assert_eq!(g.used(), 2);
    let mut g = registered();
    assert!(grant_test(&mut g, [Err(ENOMEM), Ok(())], 0x2000).is_none());
    assert_eq!(g.used(), 1);
}

#[test]
fn a_third_partys_memory_is_read_through_a_magic_grant() {
    let mut g = registered();
    let gid = magic_grant(&mut g, Ok(()), 0).unwrap();
    let e = g.entries[grant_idx(gid) as usize];
    assert_eq!((e.who_to, e.who_from, e.addr, e.len), (0, INIT_PROC_NR, MAGIC_PROBE_VA, 8));
    let addr = 0x5000;
    let m = magic_copy(0, gid, addr);
    assert_eq!((rd_i32(&m, 4), rd_i32(&m, 8)), (0, gid));
    assert_eq!((rd_u64(&m, 16), rd_u64(&m, 24), rd_u64(&m, 32)), (0, addr, 8));
}

#[test]
fn every_copy_of_the_battery_breaks_one_rule() {
    let mut g = registered();
    let run = grant_denials(&mut g, [Ok(()); 3], 0, AIMS, 0x9000).expect("five grants");
    assert_eq!((run.battery, run.at), ("grant.deny", 0));
    assert!(run.probes.iter().all(|p| p.to == boot_endpoint(SYSTEM)));
    let v = run.probes;
    let names: Vec<&str> = v.iter().map(|p| p.name).collect();
    assert_eq!(names, ["grantee", "access", "seq", "idx", "range", "rodata", "unmapped"]);
    let want: Vec<i32> = v.iter().map(|p| p.want).collect();
    assert_eq!(want, [EPERM, EPERM, EPERM, EPERM, EPERM, EFAULT, EFAULT]);
    assert_eq!(rd_i32(&v[1].call, 0), SAFECOPY_TO);
    assert_eq!(rd_u64(&v[4].call, 16), 64);
    assert_eq!(g.used(), 4);
    let stale = rd_i32(&v[2].call, 8);
    assert_ne!(g.entries[grant_idx(stale) as usize].seq, (stale >> 20) as u32);
}

#[test]
fn the_battery_names_the_buffer_it_is_given() {
    let mut scratch = [7u8; 8];
    let addr = buf_addr(&mut scratch);
    let run = grant_denials_over(&mut registered(), [Ok(()); 3], 0, AIMS, &mut scratch).unwrap();
    assert_eq!(scratch, [7u8; 8]);
    let same = grant_denials(&mut registered(), [Ok(()); 3], 0, AIMS, addr).unwrap();
    for (a, b) in run.probes.iter().zip(&same.probes) {
        assert_eq!((a.name, a.want), (b.name, b.want));
        assert_eq!((rd_u64(&a.call, 24), a.call), (addr, b.call));
    }
    assert_eq!(run.probes.len(), same.probes.len());
}

#[test]
fn a_battery_closes_only_when_all_its_requests_are_refused() {
    let mut g = registered();
    let mut run = grant_denials(&mut g, [Ok(()); 3], 0, AIMS, 0x9000).unwrap();
    let mut lines = Vec::new();
    while run.call().is_some() {
        let rc = run.probes[run.at].want;
        lines.extend(run.step(rc));
    }
    assert_eq!(lines, ["grant.deny ok n=7"]);
    for g in 0..8 {
        let mut pool = registered();
        let mut run = grant_denials(&mut pool, [Ok(()); 3], 0, AIMS, 0x9000).unwrap();
        let mut lines = Vec::new();
        while run.call().is_some() {
            let (name, want) = (run.probes[run.at].name, run.probes[run.at].want);
            let rc = if run.at == g { OK } else { want };
            if let Some(line) = run.step(rc) {
                assert!(g == 7 || line == format!("grant.deny FAIL {name} rc=0"));
                lines.push(line);
            }
        }
        assert_eq!(lines.len(), 1);
    }
}

#[test]
fn a_battery_without_grants_says_where_it_stopped() {
    let mut g = registered();
    assert_eq!(
        grant_denials(&mut g, [Err(ENOMEM); 3], 0, AIMS, 0x9000).err(),
        Some("grant.deny FAIL setup")
    );
    for _ in 0..5 {
        g.grant_direct(Ok(()), 1, 0x1000, 8, 1).unwrap();
    }
    assert_eq!(
        grant_denials(&mut g, [Ok(()); 3], 0, AIMS, 0x9000).err(),
        Some("grant.deny FAIL setup")
    );
    let mut unregistered: GrantPool<8> = GrantPool::new();
    assert_eq!(
        grant_denials(&mut unregistered, [Ok(()); 3], 0, AIMS, 0x9000).err(),
        Some("grant.deny FAIL reissue")
    );
}
