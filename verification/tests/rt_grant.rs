use minixrs::abi::callnr::SYS_SETGRANT;
use minixrs::abi::endpoint::{Endpoint, NONE};
use minixrs::abi::errno::{EINVAL, ENOMEM, OK};
use minixrs::abi::grant::{
    grant_id, grant_idx, grant_seq, grant_valid, GrantEntry, CPF_DIRECT, CPF_MAGIC, CPF_READ,
    CPF_USED, CPF_VALID, CPF_WRITE, GRANT_MAX_SEQ,
};
use minixrs::rt::grant::{alloc_grant_in, revoke_in, used_in, GrantPool};
use minixrs::rt::payload::{rd_i32, rd_u64};

const CAP: usize = 4;

fn table() -> [GrantEntry; CAP] {
    [GrantEntry::empty(); CAP]
}

fn direct(
    t: &mut [GrantEntry; CAP],
    seq: &mut u32,
    who_to: Endpoint,
    addr: u64,
    len: u64,
) -> Result<i32, i32> {
    alloc_grant_in(t, seq, CPF_DIRECT | CPF_READ, who_to, NONE, addr, len)
}

#[test]
fn a_fresh_table_is_entirely_free() {
    let t = table();
    assert_eq!(used_in(&t), 0);
}

#[test]
fn allocation_fills_the_entry_the_kernel_will_read() {
    let mut t = table();
    let mut seq = 0;
    let gid = direct(&mut t, &mut seq, 7, 0x1000, 64).expect("slot available");
    let e = t[grant_idx(gid) as usize];
    assert_eq!(e.flags & CPF_USED, CPF_USED);
    assert_eq!(e.flags & CPF_VALID, CPF_VALID);
    assert_eq!(e.flags & CPF_DIRECT, CPF_DIRECT);
    assert_eq!(e.flags & CPF_READ, CPF_READ);
    assert_eq!(e.who_to, 7);
    assert_eq!(e.who_from, NONE);
    assert_eq!(e.addr, 0x1000);
    assert_eq!(e.len, 64);
    assert_eq!(e.seq, grant_seq(gid));
}

#[test]
fn magic_grants_record_the_third_party() {
    let mut t = table();
    let mut seq = 0;
    let gid = alloc_grant_in(&mut t, &mut seq, CPF_MAGIC | CPF_READ, 7, 10, 0x10_0000, 8)
        .expect("slot available");
    let e = t[grant_idx(gid) as usize];
    assert_eq!(e.flags & CPF_MAGIC, CPF_MAGIC);
    assert_eq!(e.flags & CPF_DIRECT, 0);
    assert_eq!(e.who_from, 10);
}

#[test]
fn access_bits_are_recorded_exactly_as_requested() {
    let mut t = table();
    let mut seq = 0;
    let ro = direct(&mut t, &mut seq, 1, 0x1000, 8).unwrap();
    assert_eq!(t[grant_idx(ro) as usize].flags & CPF_WRITE, 0);

    let rw = alloc_grant_in(
        &mut t,
        &mut seq,
        CPF_DIRECT | CPF_READ | CPF_WRITE,
        1,
        NONE,
        0x2000,
        8,
    )
    .unwrap();
    let flags = t[grant_idx(rw) as usize].flags;
    assert_eq!(flags & CPF_READ, CPF_READ);
    assert_eq!(flags & CPF_WRITE, CPF_WRITE);
}

#[test]
fn successive_grants_take_distinct_slots_and_sequences() {
    let mut t = table();
    let mut seq = 0;
    let a = direct(&mut t, &mut seq, 1, 0x1000, 8).unwrap();
    let b = direct(&mut t, &mut seq, 2, 0x2000, 8).unwrap();
    assert_ne!(grant_idx(a), grant_idx(b));
    assert_ne!(grant_seq(a), grant_seq(b));
    assert_eq!(used_in(&t), 2);
}

#[test]
fn malformed_requests_are_rejected_before_a_slot_is_taken() {
    let mut t = table();
    let mut seq = 0;
    assert_eq!(direct(&mut t, &mut seq, 1, 0, 8), Err(EINVAL));
    assert_eq!(direct(&mut t, &mut seq, 1, 0x1000, 0), Err(EINVAL));
    assert_eq!(direct(&mut t, &mut seq, 1, u64::MAX, 2), Err(EINVAL));
    assert_eq!(
        alloc_grant_in(&mut t, &mut seq, CPF_DIRECT, 1, NONE, 0x1000, 8),
        Err(EINVAL)
    );
    assert_eq!(used_in(&t), 0);
}

#[test]
fn a_full_table_is_enomem() {
    let mut t = table();
    let mut seq = 0;
    for i in 0..CAP {
        assert!(direct(&mut t, &mut seq, 1, 0x1000 + i as u64 * 0x1000, 8).is_ok());
    }
    assert_eq!(direct(&mut t, &mut seq, 1, 0x9000, 8), Err(ENOMEM));
    assert_eq!(used_in(&t), CAP);
}

#[test]
fn revoke_frees_the_slot() {
    let mut t = table();
    let mut seq = 0;
    let gid = direct(&mut t, &mut seq, 1, 0x1000, 8).unwrap();
    assert_eq!(revoke_in(&mut t, gid), Ok(()));
    assert_eq!(used_in(&t), 0);
    assert_eq!(t[grant_idx(gid) as usize].flags & CPF_USED, 0);
}

#[test]
fn revoking_twice_fails_the_second_time() {
    let mut t = table();
    let mut seq = 0;
    let gid = direct(&mut t, &mut seq, 1, 0x1000, 8).unwrap();
    assert_eq!(revoke_in(&mut t, gid), Ok(()));
    assert_eq!(revoke_in(&mut t, gid), Err(EINVAL));
}

#[test]
fn a_revoked_id_does_not_name_the_slots_next_occupant() {
    let mut t = table();
    let mut seq = 0;
    let old = direct(&mut t, &mut seq, 1, 0x1000, 8).unwrap();
    revoke_in(&mut t, old).unwrap();
    let new = direct(&mut t, &mut seq, 2, 0x2000, 8).unwrap();
    assert_eq!(grant_idx(old), grant_idx(new), "same slot reused");
    assert_ne!(old, new);
    assert_ne!(t[grant_idx(new) as usize].seq, grant_seq(old));
    assert_eq!(revoke_in(&mut t, old), Err(EINVAL));
    assert_eq!(used_in(&t), 1);
}

#[test]
fn out_of_range_and_negative_ids_are_rejected() {
    let mut t = table();
    assert_eq!(revoke_in(&mut t, -1), Err(EINVAL));
    assert_eq!(revoke_in(&mut t, grant_id(CAP as u32, 0)), Err(EINVAL));
}

#[test]
fn sequences_wrap_without_escaping_the_field() {
    let mut t = table();
    let mut seq = GRANT_MAX_SEQ;
    let gid = direct(&mut t, &mut seq, 1, 0x1000, 8).unwrap();
    assert_eq!(grant_seq(gid), GRANT_MAX_SEQ);
    assert!(grant_valid(gid));
    assert_eq!(seq, 0, "the sequence must wrap, not overflow the field");
}

#[test]
fn a_new_pool_is_unregistered_and_empty() {
    let pool: GrantPool<CAP> = GrantPool::new();
    assert_eq!(pool.used(), 0);
    assert_eq!(
        pool.registered_at, 0,
        "no kernel call before the first grant"
    );
}

#[test]
fn a_pool_is_registered_where_it_lies_and_again_when_it_moves() {
    let mut pool: GrantPool<CAP> = GrantPool::new();
    let m = pool.registration(0x4000).expect("never registered");
    assert_eq!(m.m_type, SYS_SETGRANT);
    let seen = (0..=88).step_by(4).any(|off| rd_u64(&m, off) == 0x4000);
    assert!(seen, "the call names the table's address");
    assert!((0..=92).step_by(4).any(|off| rd_i32(&m, off) == CAP as i32));
    assert_eq!(pool.ensure_registered(0x4000, EINVAL), Err(EINVAL));
    assert_eq!(pool.registered_at, 0);
    assert_eq!(pool.ensure_registered(0x4000, OK), Ok(()));
    assert!(pool.registration(0x4000).is_none());
    assert!(pool.registration(0x5000).is_some());
}

#[test]
fn a_pool_that_could_not_register_issues_nothing() {
    let mut pool: GrantPool<CAP> = GrantPool::new();
    assert_eq!(pool.grant_direct(Err(ENOMEM), 7, 0x1000, 8, CPF_READ), Err(ENOMEM));
    assert_eq!(pool.used(), 0);
}

#[test]
fn a_pool_issues_and_revokes() {
    let mut pool: GrantPool<CAP> = GrantPool::new();
    assert_eq!(pool.revoke(Ok(()), 0), Err(EINVAL));
    assert_eq!(pool.ensure_registered(0x4000, OK), Ok(()));
    let d = pool.grant_direct(Ok(()), 7, 0x1000, 8, CPF_READ).unwrap();
    let m = pool.grant_magic(Ok(()), 7, 10, 0x2000, 16, CPF_WRITE).unwrap();
    assert_eq!(pool.used(), 2);
    let e = pool.entries[grant_idx(m) as usize];
    assert_eq!((e.who_to, e.who_from, e.addr, e.len), (7, 10, 0x2000, 16));
    assert_eq!(e.flags, CPF_MAGIC | CPF_WRITE | CPF_USED | CPF_VALID);
    assert_eq!(pool.revoke(Ok(()), d), Ok(()));
    assert_eq!(pool.revoke(Ok(()), d), Err(EINVAL));
    assert_eq!(pool.used(), 1);
}

#[test]
fn a_grant_id_packs_its_slot_below_its_sequence() {
    assert_eq!(grant_id(5, 3), 0x0030_0005);
    assert_eq!((grant_idx(0x0030_0005), grant_seq(0x0030_0005)), (5, 3));
    assert!(!grant_valid(-1));
}

#[test]
fn a_stale_id_stays_dead_until_the_sequences_come_round() {
    let mut t = table();
    let mut seq = 0;
    let old = direct(&mut t, &mut seq, 1, 0x1000, 8).unwrap();
    revoke_in(&mut t, old).unwrap();
    for _ in 0..GRANT_MAX_SEQ {
        let gid = direct(&mut t, &mut seq, 2, 0x2000, 8).unwrap();
        assert_eq!(revoke_in(&mut t, old), Err(EINVAL));
        revoke_in(&mut t, gid).unwrap();
    }
    assert_eq!(direct(&mut t, &mut seq, 2, 0x2000, 8), Ok(old));
}

#[test]
fn a_default_pool_is_a_new_one() {
    let pool: GrantPool<CAP> = GrantPool::default();
    assert_eq!((pool.used(), pool.registered_at, pool.next_seq), (0, 0, 0));
}
