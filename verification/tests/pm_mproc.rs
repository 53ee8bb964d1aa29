use minixrs::abi::com::{
    boot_endpoint, INIT_PROC_NR, NR_BOOT_PROCS, NR_STUB_PROCS, PM_PROC_NR, RS_PROC_NR,
    SCHED_PROC_NR, STUB_A_PROC_NR, STUB_D_PROC_NR, VFS_PROC_NR, VM_PROC_NR,
};
use minixrs::pm::mproc::{
    alloc_pid_in, alloc_slot, alloc_slot_in, cleanup, cleanup_in, endpoint_of, endpoint_of_in, find_zombie_child,
    find_zombie_child_in, getpid, getpid_in, handle_kill, handle_kill_in, has_live_child,
    has_live_child_in, in_use, in_use_in, is_waiting, is_waiting_in, parent_of, parent_of_in, seed,
    seed_in, set_child, set_child_in, set_waiting, set_waiting_in, set_zombie, set_zombie_in,
    KillAction, MProc, Procs, FORK_POOL_BASE, MF_DEAD, MF_IN_USE, MF_PRIV_PROC, NR_MPROCS,
};

fn seeded() -> [MProc; NR_MPROCS] {
    let mut t = [MProc::empty(); NR_MPROCS];
    seed_in(&mut t);
    t
}

#[test]
fn seed_assigns_boot_pids() {
    let t = seeded();
    assert_eq!(t[PM_PROC_NR as usize].pid, 0);
    assert_eq!(t[INIT_PROC_NR as usize].pid, 1);
    assert_eq!(t[VFS_PROC_NR as usize].pid, 2);
    assert_eq!(t[RS_PROC_NR as usize].pid, 3);
    assert_eq!(t[VM_PROC_NR as usize].pid, 8);
    assert_eq!(t[SCHED_PROC_NR as usize].pid, 10);
    for (slot, e) in t.iter().enumerate().take(NR_BOOT_PROCS) {
        assert_eq!(e.flags, MF_IN_USE | MF_PRIV_PROC, "slot {slot}");
    }
}

#[test]
fn seed_stub_pids_continue() {
    let t = seeded();
    for (i, slot) in (NR_BOOT_PROCS..NR_BOOT_PROCS + NR_STUB_PROCS).enumerate() {
        assert_eq!(t[slot].pid, 11 + i as i32);
        assert_eq!(t[slot].flags, MF_IN_USE, "stubs are not PRIV_PROC");
        assert_eq!(t[slot].parent_slot, INIT_PROC_NR as usize);
    }
}

#[test]
fn seed_pids_are_unique() {
    let t = seeded();
    let mut seen = [false; 64];
    for e in t.iter().filter(|e| e.flags & MF_IN_USE != 0) {
        let pid = e.pid as usize;
        assert!(!seen[pid], "duplicate pid {pid}");
        seen[pid] = true;
    }
}

#[test]
fn getpid_returns_pid_and_ppid() {
    let t = seeded();
    assert_eq!(getpid_in(&t, PM_PROC_NR as usize), Some((0, 0)));
    assert_eq!(getpid_in(&t, VM_PROC_NR as usize), Some((8, 3)));
    assert_eq!(getpid_in(&t, STUB_A_PROC_NR as usize), Some((11, 1)));
    assert_eq!(getpid_in(&t, STUB_D_PROC_NR as usize), Some((14, 1)));
}

#[test]
fn getpid_unknown_slot_is_none() {
    let t = seeded();
    assert_eq!(getpid_in(&t, 16), None, "unseeded slot");
    assert_eq!(getpid_in(&t, NR_MPROCS), None, "out of range");
}

#[test]
fn getpid_dead_slot_is_none() {
    let mut t = seeded();
    let d = STUB_D_PROC_NR as usize;
    assert_eq!(handle_kill_in(&mut t, d), KillAction::Terminate);
    assert_eq!(getpid_in(&t, d), None, "terminated proc has no pid");
}

#[test]
fn kill_user_proc_terminates_and_marks_dead() {
    let mut t = seeded();
    let d = STUB_D_PROC_NR as usize;
    assert_eq!(handle_kill_in(&mut t, d), KillAction::Terminate);
    assert_ne!(t[d].flags & MF_DEAD, 0);
}

#[test]
fn kill_priv_proc_is_skipped() {
    let mut t = seeded();
    let vm = VM_PROC_NR as usize;
    assert_eq!(handle_kill_in(&mut t, vm), KillAction::SkipPrivileged);
    assert_eq!(t[vm].flags & MF_DEAD, 0, "server must not be marked dead");
}

#[test]
fn kill_dead_or_unknown_is_notfound() {
    let mut t = seeded();
    let d = STUB_D_PROC_NR as usize;
    assert_eq!(handle_kill_in(&mut t, d), KillAction::Terminate);
    assert_eq!(handle_kill_in(&mut t, d), KillAction::NotFound);
    assert_eq!(handle_kill_in(&mut t, 20), KillAction::NotFound);
    assert_eq!(handle_kill_in(&mut t, NR_MPROCS), KillAction::NotFound);
}

#[test]
fn seed_stores_boot_endpoints() {
    let t = seeded();
    let e = STUB_D_PROC_NR as usize;
    assert_eq!(t[e].endpoint, boot_endpoint(e as i32));
    assert_eq!(endpoint_of_in(&t, e), Some(t[e].endpoint));
}

#[test]
fn alloc_slot_returns_first_free_fork_pool_slot() {
    let mut t = seeded();
    assert_eq!(alloc_slot_in(&t), Some(FORK_POOL_BASE));
    set_child_in(
        &mut t,
        FORK_POOL_BASE,
        STUB_D_PROC_NR as usize,
        0x1234,
    );
    assert_eq!(alloc_slot_in(&t), Some(FORK_POOL_BASE + 1));
}

#[test]
fn alloc_slot_none_when_pool_full() {
    let mut t = seeded();
    for slot in FORK_POOL_BASE..NR_MPROCS {
        set_child_in(&mut t, slot, 0, 0x1000 + slot as i32);
    }
    assert_eq!(alloc_slot_in(&t), None);
}

#[test]
fn the_next_pid_is_one_past_the_highest_that_is_taken() {
    let mut t = [MProc::empty(); NR_MPROCS];
    assert_eq!(alloc_pid_in(&t), 1, "nobody is there");
    t[20].pid = 9;
    assert_eq!(alloc_pid_in(&t), 1, "a slot that is not taken does not count");
    t[3] = MProc { pid: -5, flags: MF_IN_USE, ..MProc::empty() };
    assert_eq!(alloc_pid_in(&t), -4);
    t[4] = MProc { pid: -7, flags: MF_IN_USE | MF_DEAD, ..MProc::empty() };
    assert_eq!(alloc_pid_in(&t), -4);
    assert_eq!(alloc_pid_in(&seeded()), 15);
}

#[test]
fn a_pid_is_found_whatever_the_parents_of_others() {
    let mut t = seeded();
    t[14].parent_slot = usize::MAX;
    assert_eq!(getpid_in(&t, VM_PROC_NR as usize), Some((8, 3)));
}

#[test]
fn set_child_assigns_monotonic_pid_and_records_fields() {
    let mut t = seeded();
    let parent = STUB_D_PROC_NR as usize;
    let slot = alloc_slot_in(&t).unwrap();
    let pid = set_child_in(&mut t, slot, parent, 0xABCD);
    assert_eq!(pid, 15);
    assert!(in_use_in(&t, slot));
    assert_eq!(parent_of_in(&t, slot), Some(parent));
    assert_eq!(endpoint_of_in(&t, slot), Some(0xABCD));
    assert_eq!(getpid_in(&t, slot), Some((15, 14)));
}

#[test]
fn zombie_child_is_found_and_reaped() {
    let mut t = seeded();
    let parent = STUB_D_PROC_NR as usize;
    let slot = alloc_slot_in(&t).unwrap();
    let pid = set_child_in(&mut t, slot, parent, 0xABCD);
    assert!(has_live_child_in(&t, parent));
    assert_eq!(find_zombie_child_in(&t, parent), None);

    set_zombie_in(&mut t, slot, 0x0500);
    assert!(!has_live_child_in(&t, parent));
    assert_eq!(find_zombie_child_in(&t, parent), Some((slot, pid, 0x0500)));
    cleanup_in(&mut t, slot);
    assert_eq!(find_zombie_child_in(&t, parent), None);
    assert!(!in_use_in(&t, slot));
    assert_eq!(alloc_slot_in(&t), Some(slot));
}

#[test]
fn waiting_flag_round_trips() {
    let mut t = seeded();
    let parent = STUB_D_PROC_NR as usize;
    assert!(!is_waiting_in(&t, parent));
    set_waiting_in(&mut t, parent, true);
    assert!(is_waiting_in(&t, parent));
    set_waiting_in(&mut t, parent, false);
    assert!(!is_waiting_in(&t, parent));
}

#[test]
fn has_live_child_is_false_without_children() {
    let t = seeded();
    assert!(!has_live_child_in(&t, STUB_A_PROC_NR as usize));
}

#[test]
fn out_of_range_slots_are_inert() {
    let mut t = seeded();
    assert!(!in_use_in(&t, NR_MPROCS));
    assert_eq!(parent_of_in(&t, NR_MPROCS), None);
    assert_eq!(endpoint_of_in(&t, NR_MPROCS), None);
    set_zombie_in(&mut t, NR_MPROCS, 0);
    set_waiting_in(&mut t, NR_MPROCS, true);
    cleanup_in(&mut t, NR_MPROCS);
}

#[test]
fn the_table_and_its_helpers_agree_on_a_childs_life() {
    let mut p = Procs::new();
    seed(&mut p);
    let parent = STUB_D_PROC_NR as usize;
    let slot = alloc_slot(&p).unwrap();
    let pid = set_child(&mut p, slot, parent, 0x8010);
    assert_eq!((slot, pid), (15, 15));
    assert!(in_use(&p, slot));
    assert_eq!(parent_of(&p, slot), Some(parent));
    assert_eq!(endpoint_of(&p, slot), Some(0x8010));
    assert_eq!(getpid(&p, slot), Some((15, 14)));
    assert!(has_live_child(&p, parent));
    set_waiting(&mut p, parent, true);
    assert!(is_waiting(&p, parent));
    set_zombie(&mut p, slot, 0x100);
    assert_eq!(getpid(&p, slot), None);
    assert_eq!(find_zombie_child(&p, parent), Some((slot, pid, 0x100)));
    cleanup(&mut p, slot);
    assert_eq!(alloc_slot(&p), Some(slot));
    assert_eq!(handle_kill(&mut p, VM_PROC_NR as usize), KillAction::SkipPrivileged);
}
