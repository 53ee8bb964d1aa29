use minixrs::abi::callnr::{
    PRIVCTL_SET_USER, SCHEDULING_START, SCHEDULING_STOP, SYS_EXIT, SYS_FORK, SYS_PRIVCTL, VM_FORK,
};
use minixrs::abi::com::{boot_endpoint, INIT_PROC_NR, SCHED_PROC_NR, SYSTEM, VM_PROC_NR};
use minixrs::abi::errno::{EAGAIN, EINVAL, ENOMEM, OK};
use minixrs::abi::message::Message;
use minixrs::pm::fork::{
    caller_slot, fork_call, fork_replies, fork_step, handle_fork, Fork, CHILD_PRIORITY,
    CHILD_QUANTUM,
};
use minixrs::pm::mproc::{in_use, seed, set_child, Procs, FORK_POOL_BASE, NR_MPROCS};
use minixrs::rt::payload::{rd_i32, wr_i32};

const INIT: i32 = INIT_PROC_NR;
const CHILD: i32 = 0x8000 + 15;

fn seeded() -> Procs {
    let mut p = Procs::new();
    seed(&mut p);
    p
}

fn named_child() -> Message {
    let mut m = Message::request(OK);
    wr_i32(&mut m, 0, CHILD);
    m
}

/// Run a fork whose `fails`-th call, counted from zero, returns `ENOMEM`.
fn run(p: &mut Procs, fails: Option<usize>) -> (Fork, Vec<(i32, i32)>) {
    let mut f = handle_fork(p, INIT);
    let mut calls = Vec::new();
    while let Some((to, m)) = fork_call(&f) {
        let rc = if Some(calls.len()) == fails { ENOMEM } else { OK };
        calls.push((to, m.m_type));
        f = fork_step(p, f, rc, &named_child());
    }
    (f, calls)
}

#[test]
fn a_fork_makes_its_calls_in_order_and_answers_the_child_first() {
    let mut p = seeded();
    let system = boot_endpoint(SYSTEM);
    let vm = boot_endpoint(VM_PROC_NR);
    let sched = boot_endpoint(SCHED_PROC_NR);
    let (f, calls) = run(&mut p, None);
    assert_eq!(
        calls,
        [(system, SYS_FORK), (vm, VM_FORK), (sched, SCHEDULING_START), (system, SYS_PRIVCTL)]
    );
    assert_eq!(fork_replies(&f), [(CHILD, 0), (INIT, 15)]);
    assert!(in_use(&p, FORK_POOL_BASE));
}

#[test]
fn a_fork_that_fails_leaves_nothing_behind() {
    let undo_all = [SCHEDULING_STOP, SYS_EXIT];
    for (fails, undo) in [(0, &undo_all[2..]), (1, &undo_all[1..]), (2, &undo_all[1..]), (3, &undo_all[..])] {
        let mut p = seeded();
        let (f, calls) = run(&mut p, Some(fails));
        let after: Vec<i32> = calls[fails + 1..].iter().map(|c| c.1).collect();
        assert_eq!(after, undo, "call {fails}");
        assert_eq!(fork_replies(&f), [(INIT, ENOMEM)]);
        assert!(!in_use(&p, FORK_POOL_BASE));
    }
}

#[test]
fn the_calls_of_a_fork_name_the_parent_and_the_child() {
    let mut p = seeded();
    let f = handle_fork(&p, INIT);
    let (_, m) = fork_call(&f).unwrap();
    assert_eq!((rd_i32(&m, 0), rd_i32(&m, 4)), (INIT, 15));
    let f = fork_step(&mut p, f, OK, &named_child());
    let (_, m) = fork_call(&f).unwrap();
    assert_eq!((rd_i32(&m, 0), rd_i32(&m, 4)), (INIT, CHILD));
    let f = fork_step(&mut p, f, OK, &named_child());
    let (_, m) = fork_call(&f).unwrap();
    assert_eq!(
        (rd_i32(&m, 0), rd_i32(&m, 4), rd_i32(&m, 8)),
        (CHILD, CHILD_PRIORITY, CHILD_QUANTUM)
    );
    let f = fork_step(&mut p, f, OK, &named_child());
    let (_, m) = fork_call(&f).unwrap();
    assert_eq!((rd_i32(&m, 0), rd_i32(&m, 4)), (CHILD, PRIVCTL_SET_USER));
}

#[test]
fn a_fork_is_refused_before_anything_is_done() {
    let mut p = seeded();
    assert_eq!(fork_replies(&handle_fork(&p, 30)), [(30, EINVAL)]);
    let task = boot_endpoint(SYSTEM);
    assert_eq!(caller_slot(task), None);
    assert_eq!(caller_slot(CHILD), Some(15));
    assert_eq!(fork_replies(&handle_fork(&p, task)), [(task, EINVAL)]);
    for slot in FORK_POOL_BASE..NR_MPROCS {
        set_child(&mut p, slot, 0, 0x9000 + slot as i32);
    }
    assert_eq!(fork_replies(&handle_fork(&p, INIT)), [(INIT, EAGAIN)]);
}
