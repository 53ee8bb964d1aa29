use minixrs::abi::callnr::{
    EXEC_SRC_NAME, EXEC_SRC_OFF, PM_EXEC, PM_EXIT, PM_FORK, PM_GETPID, PM_GRANT_TEST, PM_WAIT,
    SCHEDULING_STOP, SYS_ENDKSIG, SYS_EXEC, SYS_EXIT, SYS_GETKSIG,
};
use minixrs::abi::com::{boot_endpoint, INIT_PROC_NR, SCHED_PROC_NR, STUB_D_PROC_NR, SYSTEM, VM_PROC_NR};
use minixrs::abi::endpoint::NONE;
use minixrs::abi::errno::{ECHILD, EINVAL, ENOEXEC, EPERM, ESRCH, OK};
use minixrs::abi::ipc::NOTIFY_MESSAGE;
use minixrs::abi::message::Message;
use minixrs::pm::mproc::{getpid, in_use, is_waiting, seed, set_child, Procs};
use minixrs::pm::server::{
    drain_call, drain_ksigs, encode_status, exec_reply, handle_exec, handle_exit, handle_getpid,
    handle_wait, request, Drain, Request,
};
use minixrs::rt::payload::{rd_i32, wr_bytes, wr_i32};

const STUB: i32 = STUB_D_PROC_NR;
const CHILD: i32 = 0x8000 + 15;

fn seeded() -> Procs {
    let mut p = Procs::new();
    seed(&mut p);
    p
}

fn ask(m_type: i32, source: i32, a: i32) -> Message {
    let mut m = Message::request(m_type);
    m.m_source = source;
    wr_i32(&mut m, 0, a);
    m
}

#[test]
fn a_process_learns_its_pid_and_its_parents() {
    let p = seeded();
    let mut m = ask(PM_GETPID, STUB, 0);
    assert_eq!(handle_getpid(&p, &mut m), STUB);
    assert_eq!((m.m_type, m.m_source, rd_i32(&m, 0)), (14, 0, 1));
    let mut m = ask(PM_GETPID, boot_endpoint(SYSTEM), 7);
    handle_getpid(&p, &mut m);
    assert_eq!((m.m_type, rd_i32(&m, 0)), (ESRCH, 7));
    let mut m = ask(PM_GETPID, 40, 7);
    handle_getpid(&p, &mut m);
    assert_eq!(m.m_type, ESRCH);
}

#[test]
fn an_exit_status_travels_in_the_second_byte() {
    assert_eq!(encode_status(0), 0);
    assert_eq!(encode_status(5), 0x500);
    assert_eq!(encode_status(-1), 0xff00);
    assert_eq!(encode_status(0x1234), 0x3400);
}

#[test]
fn a_wait_after_the_exit_collects_the_zombie() {
    let mut p = seeded();
    let pid = set_child(&mut p, 15, STUB as usize, CHILD);
    let mut m = ask(PM_EXIT, CHILD, 3);
    let x = handle_exit(&mut p, &mut m);
    let ((sched, stop), (system, exit)) = x.calls.expect("the child is torn down");
    assert_eq!((sched, system), (boot_endpoint(SCHED_PROC_NR), boot_endpoint(SYSTEM)));
    assert_eq!((stop.m_type, rd_i32(&stop, 0)), (SCHEDULING_STOP, CHILD));
    assert_eq!((exit.m_type, rd_i32(&exit, 0)), (SYS_EXIT, CHILD));
    assert_eq!(x.wake, None);
    let mut w = ask(PM_WAIT, STUB, 0);
    assert_eq!(handle_wait(&mut p, &mut w), Some(STUB));
    assert_eq!((w.m_type, rd_i32(&w, 0)), (pid, 0x300));
    assert!(!in_use(&p, 15));
}

#[test]
fn an_exit_wakes_a_parent_that_waits() {
    let mut p = seeded();
    let pid = set_child(&mut p, 15, STUB as usize, CHILD);
    let mut w = ask(PM_WAIT, STUB, 0);
    assert_eq!(handle_wait(&mut p, &mut w), None);
    assert!(is_waiting(&p, STUB as usize));
    let mut m = ask(PM_EXIT, CHILD, 3);
    let x = handle_exit(&mut p, &mut m);
    assert_eq!(x.wake, Some(STUB));
    assert_eq!((m.m_type, rd_i32(&m, 0)), (pid, 0x300));
    assert!(!is_waiting(&p, STUB as usize));
    assert!(!in_use(&p, 15));
}

#[test]
fn a_wait_without_children_is_echild_and_a_task_has_none_to_wait_for() {
    let mut p = seeded();
    let mut w = ask(PM_WAIT, STUB, 0);
    assert_eq!(handle_wait(&mut p, &mut w), Some(STUB));
    assert_eq!(w.m_type, ECHILD);
    let mut w = ask(PM_WAIT, boot_endpoint(SYSTEM), 0);
    handle_wait(&mut p, &mut w);
    assert_eq!(w.m_type, EINVAL);
}

#[test]
fn an_exit_of_nobody_does_nothing() {
    let mut p = seeded();
    for nobody in [30, boot_endpoint(SYSTEM)] {
        let mut m = ask(PM_EXIT, nobody, 3);
        let before = m;
        let x = handle_exit(&mut p, &mut m);
        assert!(x.calls.is_none() && x.wake.is_none());
        assert_eq!(m, before);
    }
}

#[test]
fn an_exec_names_a_module_and_is_silent_on_success() {
    let mut m = ask(PM_EXEC, CHILD, 0);
    wr_bytes(&mut m, 0, b"worker");
    let (to, call) = handle_exec(&m).expect("a name");
    assert_eq!(to, boot_endpoint(SYSTEM));
    assert_eq!((call.m_type, rd_i32(&call, 0)), (SYS_EXEC, CHILD));
    assert_eq!(&call.payload[4..11], b"worker\0");
    assert_eq!(rd_i32(&call, EXEC_SRC_OFF), EXEC_SRC_NAME);
    assert_eq!(exec_reply(&mut m, Some(OK)), None);
    assert_eq!(m.m_source, CHILD);
    assert_eq!(exec_reply(&mut m, Some(ENOEXEC)), Some(CHILD));
    assert_eq!((m.m_type, m.m_source), (ENOEXEC, 0));
}

#[test]
fn an_exec_without_a_name_is_einval_unasked() {
    let mut m = ask(PM_EXEC, CHILD, 0);
    assert!(handle_exec(&m).is_none());
    assert_eq!(exec_reply(&mut m, None), Some(CHILD));
    assert_eq!(m.m_type, EINVAL);
}

#[test]
fn a_signalled_process_is_terminated_and_a_server_only_acknowledged() {
    let mut p = seeded();
    let (to, call) = drain_call(Drain::Fetch).unwrap();
    assert_eq!((to, call.m_type), (boot_endpoint(SYSTEM), SYS_GETKSIG));
    let d = drain_ksigs(&mut p, Drain::Fetch, OK, &ask(OK, 0, STUB));
    assert_eq!(d, Drain::Terminate(STUB));
    assert_eq!(getpid(&p, STUB as usize), None);
    let (to, call) = drain_call(d).unwrap();
    assert_eq!(to, boot_endpoint(SYSTEM));
    assert_eq!((call.m_type, rd_i32(&call, 0)), (SYS_EXIT, STUB));
    assert_eq!(drain_ksigs(&mut p, d, OK, &ask(OK, 0, 0)), Drain::Fetch);
    assert_eq!(drain_ksigs(&mut p, d, OK, &ask(EPERM, 0, 0)), Drain::Acknowledge(STUB));

    let d = drain_ksigs(&mut p, Drain::Fetch, OK, &ask(OK, 0, VM_PROC_NR));
    assert_eq!(d, Drain::Acknowledge(VM_PROC_NR));
    let (to, call) = drain_call(d).unwrap();
    assert_eq!(to, boot_endpoint(SYSTEM));
    assert_eq!((call.m_type, rd_i32(&call, 0)), (SYS_ENDKSIG, VM_PROC_NR));
    assert_eq!(drain_ksigs(&mut p, d, EPERM, &ask(OK, 0, 0)), Drain::Fetch);
}

#[test]
fn draining_ends_when_nothing_is_pending_or_the_kernel_refuses() {
    let mut p = seeded();
    assert_eq!(drain_ksigs(&mut p, Drain::Fetch, OK, &ask(OK, 0, NONE)), Drain::Done);
    assert_eq!(drain_ksigs(&mut p, Drain::Fetch, EPERM, &ask(OK, 0, STUB)), Drain::Done);
    assert_eq!(drain_ksigs(&mut p, Drain::Fetch, OK, &ask(EPERM, 0, STUB)), Drain::Done);
    assert!(drain_call(Drain::Done).is_none());
}

#[test]
fn process_requests_are_told_apart() {
    assert_eq!(request(&ask(NOTIFY_MESSAGE, boot_endpoint(SYSTEM), 0)), Request::Signals);
    assert_eq!(request(&ask(NOTIFY_MESSAGE, INIT_PROC_NR, 0)), Request::Unknown);
    for (t, r) in [
        (PM_GETPID, Request::GetPid),
        (PM_FORK, Request::Fork),
        (PM_EXIT, Request::Exit),
        (PM_WAIT, Request::Wait),
        (PM_EXEC, Request::Exec),
        (PM_GRANT_TEST, Request::GrantTest),
        (PM_EXIT + 40, Request::Unknown),
    ] {
        assert_eq!(request(&ask(t, 10, 0)), r);
    }
}

#[test]
fn every_zombie_is_collected_once_in_slot_order() {
    let mut p = seeded();
    let mut pids = Vec::new();
    for slot in 15..18usize {
        pids.push(set_child(&mut p, slot, STUB as usize, 0x8000 + slot as i32));
    }
    for slot in [17, 15, 16] {
        let mut m = ask(PM_EXIT, 0x8000 + slot, slot);
        assert_eq!(handle_exit(&mut p, &mut m).wake, None);
    }
    for (k, pid) in pids.into_iter().enumerate() {
        let mut w = ask(PM_WAIT, STUB, 0);
        assert_eq!(handle_wait(&mut p, &mut w), Some(STUB));
        assert_eq!((w.m_type, rd_i32(&w, 0)), (pid, (15 + k as i32) << 8));
    }
    let mut w = ask(PM_WAIT, STUB, 0);
    assert_eq!(handle_wait(&mut p, &mut w), Some(STUB));
    assert_eq!(w.m_type, ECHILD);
}
