use minixrs::abi::callnr::{
    SCHEDCTL_FLAG_KERNEL, SCHEDULING_NO_QUANTUM, SCHEDULING_SET_NICE, SCHEDULING_START,
    SCHEDULING_STOP, SYS_SCHEDCTL, SYS_SCHEDULE,
};
use minixrs::abi::errno::OK;
use minixrs::abi::message::Message;
use minixrs::rt::payload::{rd_i32, wr_i32};
use minixrs::sched::policy::{schedule_proc, Policy, CAP, QUANTUM, USER_Q};
use minixrs::sched::server::{serve, sys_schedctl, sys_schedule};

fn request(m_type: i32, target: i32, priority: i32, quantum: i32) -> Message {
    let mut m = Message::request(m_type);
    m.m_source = 0x77;
    wr_i32(&mut m, 0, target);
    wr_i32(&mut m, 4, priority);
    wr_i32(&mut m, 8, quantum);
    m
}

#[test]
fn a_start_claims_and_admits_at_the_band_asked_for() {
    let mut p = Policy::new();
    let mut m = request(SCHEDULING_START, 13, 6, 20);
    let out = serve(&mut p, &mut m);
    assert_eq!(out.calls, vec![sys_schedctl(13, 0), sys_schedule(13, 6, 20)]);
    assert_eq!(out.reply_to, Some(0x77));
    assert_eq!((m.m_type, m.m_source), (OK, 0));
    assert_eq!(schedule_proc(&mut p, 13), Some((6, 20)));
}

#[test]
fn a_process_out_of_quantum_goes_on_where_it_was() {
    let mut p = Policy::new();
    serve(&mut p, &mut request(SCHEDULING_START, 13, 6, 20));
    let mut m = Message::request(SCHEDULING_NO_QUANTUM);
    m.m_source = 13;
    let out = serve(&mut p, &mut m);
    assert_eq!(out.calls, vec![sys_schedule(13, 6, 20)]);
    assert_eq!(out.reply_to, None);
    m.m_source = 14;
    assert_eq!(serve(&mut p, &mut m).calls, vec![sys_schedule(14, USER_Q, QUANTUM)]);
}

#[test]
fn a_renice_keeps_the_quantum_it_was_started_with() {
    let mut p = Policy::new();
    serve(&mut p, &mut request(SCHEDULING_START, 13, 6, 20));
    let out = serve(&mut p, &mut request(SCHEDULING_SET_NICE, 13, 4, 99));
    assert_eq!(out.calls, vec![sys_schedule(13, 4, 20)]);
    assert_eq!(schedule_proc(&mut p, 13), Some((4, 20)));
}

#[test]
fn a_stop_hands_the_process_back_to_the_kernel() {
    let mut p = Policy::new();
    serve(&mut p, &mut request(SCHEDULING_START, 13, 6, 20));
    let out = serve(&mut p, &mut request(SCHEDULING_STOP, 13, 0, 0));
    assert_eq!(out.calls, vec![sys_schedctl(13, SCHEDCTL_FLAG_KERNEL)]);
    assert_eq!(schedule_proc(&mut p, 13), Some((USER_Q, QUANTUM)));
}

#[test]
fn a_process_there_is_no_room_for_stays_blocked() {
    let mut p = Policy::new();
    for i in 0..CAP as i32 {
        serve(&mut p, &mut request(SCHEDULING_START, i, 6, 20));
    }
    let mut m = Message::request(SCHEDULING_NO_QUANTUM);
    m.m_source = 100;
    assert!(serve(&mut p, &mut m).calls.is_empty());
}

#[test]
fn an_unknown_scheduling_request_is_dropped() {
    let mut p = Policy::new();
    let mut m = request(SCHEDULING_START + 50, 1, 1, 1);
    let before = m;
    let out = serve(&mut p, &mut m);
    assert!(out.calls.is_empty());
    assert_eq!(out.reply_to, None);
    assert_eq!(m, before);
}

#[test]
fn the_scheduling_calls_carry_their_fields_in_order() {
    let m = sys_schedule(13, 6, 20);
    assert_eq!(m.m_type, SYS_SCHEDULE);
    assert_eq!((rd_i32(&m, 0), rd_i32(&m, 4), rd_i32(&m, 8)), (13, 6, 20));
    let m = sys_schedctl(13, 1);
    assert_eq!(m.m_type, SYS_SCHEDCTL);
    assert_eq!((rd_i32(&m, 0), rd_i32(&m, 4)), (1, 13));
}
