use minixrs::abi::callnr::{
    GET_WHOAMI, SAFECOPY_TO, SEF_INIT, SEF_SIGNAL, SYS_COPY, SYS_GETINFO, SYS_SAFECOPY,
};
use minixrs::abi::com::{boot_endpoint, PM_PROC_NR, RS_PROC_NR};
use minixrs::abi::errno::{EINVAL, EPERM, OK};
use minixrs::abi::ipc::NOTIFY_MESSAGE;
use minixrs::abi::message::Message;
use minixrs::rt::kcall::{call_result, sys_copy, sys_safecopy};
use minixrs::rt::payload::{rd_i32, rd_u64, wr_bytes, wr_i32};
use minixrs::rt::probe::{fail, with_number, Tally};
use minixrs::rt::sef::{sef_startup, whoami_request, Received, Sef, SefConfig, Startup};

const BOTH: SefConfig = SefConfig { init_fresh: true, signal_handler: true };
const NEITHER: SefConfig = SefConfig { init_fresh: false, signal_handler: false };

fn answer() -> Message {
    let mut m = Message::request(OK);
    wr_i32(&mut m, 0, 0x8007);
    wr_bytes(&mut m, 12, b"vm\0\0\0\0\0\0\0\0\0\0\0\0\0\0");
    m
}

fn learned() -> Sef {
    match sef_startup(Startup::Ask, BOTH, OK, &answer()) {
        Startup::Announce(s) => s,
        other => panic!("{other:?}"),
    }
}

#[test]
fn a_server_learns_its_endpoint_and_name() {
    let q = whoami_request();
    assert_eq!((q.m_type, rd_i32(&q, 0)), (SYS_GETINFO, GET_WHOAMI));
    let s = learned();
    assert_eq!(s.endpoint(), 0x8007);
    assert_eq!(&s.name()[..3], b"vm\0");
    assert_eq!(sef_startup(Startup::Ask, BOTH, EPERM, &answer()), Startup::Failed(EPERM));
}

#[test]
fn a_startup_runs_the_callback_it_was_given() {
    let s = learned();
    let m = answer();
    assert_eq!(sef_startup(Startup::Announce(s), BOTH, EINVAL, &m), Startup::Init(s));
    assert_eq!(sef_startup(Startup::Announce(s), NEITHER, OK, &m), Startup::Ready(s));
    assert_eq!(sef_startup(Startup::Init(s), BOTH, OK, &m), Startup::Ready(s));
    assert_eq!(sef_startup(Startup::Init(s), BOTH, EINVAL, &m), Startup::Failed(EINVAL));
    assert_eq!(sef_startup(Startup::Ready(s), BOTH, EINVAL, &m), Startup::Ready(s));
}

#[test]
fn only_application_traffic_reaches_the_server() {
    let s = learned();
    let rs = boot_endpoint(RS_PROC_NR);
    let from = |source: i32, m_type: i32| {
        let mut m = Message::request(m_type);
        m.m_source = source;
        wr_i32(&mut m, 0, 15);
        m
    };
    assert_eq!(s.receive(EPERM, &from(1, 1)), Received::Return(EPERM));
    assert_eq!(s.receive(OK, &from(1, 1)), Received::Return(OK));
    assert_eq!(s.receive(OK, &from(rs, NOTIFY_MESSAGE)), Received::Acknowledge(rs));
    assert_eq!(s.receive(OK, &from(rs, SEF_INIT)), Received::Again);
    let signal = from(boot_endpoint(PM_PROC_NR), SEF_SIGNAL);
    assert_eq!(s.receive(OK, &signal), Received::Handle(15));
    let deaf = Sef { signal_handler: false, ..s };
    assert_eq!(deaf.receive(OK, &signal), Received::Again);
    assert_eq!(s.receive(OK, &from(5, SEF_SIGNAL)), Received::Return(OK));
}

#[test]
fn kernel_calls_put_each_field_in_its_place() {
    let m = sys_safecopy(SAFECOPY_TO, 1, 2, 3, 4, 5);
    assert_eq!(m.m_type, SYS_SAFECOPY);
    assert_eq!((rd_i32(&m, 0), rd_i32(&m, 4), rd_i32(&m, 8)), (SAFECOPY_TO, 1, 2));
    assert_eq!((rd_u64(&m, 16), rd_u64(&m, 24), rd_u64(&m, 32)), (3, 4, 5));
    let m = sys_copy(1, 2, 3, 4, 5);
    assert_eq!(m.m_type, SYS_COPY);
    assert_eq!((rd_i32(&m, 0), rd_i32(&m, 4)), (1, 3));
    assert_eq!((rd_u64(&m, 16), rd_u64(&m, 24), rd_u64(&m, 32)), (2, 4, 5));
    assert_eq!(call_result(EPERM, &Message::request(EINVAL)), EPERM);
    assert_eq!(call_result(OK, &Message::request(EINVAL)), EINVAL);
}

#[test]
fn a_battery_passes_only_when_every_request_was_refused() {
    let mut t = Tally::new();
    assert_eq!(t.check("x.deny", "first", EPERM, EPERM), None);
    assert_eq!(t.check("x.deny", "second", OK, EPERM).as_deref(), Some("x.deny FAIL second rc=0"));
    assert_eq!(t.summary("x.deny", 2), None);
    assert_eq!(t.summary("x.deny", 1).as_deref(), Some("x.deny ok n=1"));
    assert_eq!(fail("x.deny", "third", EINVAL), "x.deny FAIL third rc=-22");
    assert_eq!(with_number("n=", i64::MIN), format!("n={}", i64::MIN));
}
