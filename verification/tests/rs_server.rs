use minixrs::abi::callnr::SYS_SETALARM;
use minixrs::abi::com::{boot_endpoint, CLOCK, DS_PROC_NR, PM_PROC_NR};
use minixrs::abi::ipc::NOTIFY_MESSAGE;
use minixrs::abi::message::Message;
use minixrs::rs::monitor::{Monitor, Server, CAP, DEAD_THRESHOLD};
use minixrs::rs::server::{peers, serve, start, ALARM_PERIOD};
use minixrs::rt::payload::rd_u64;

fn notify(source: i32) -> Message {
    let mut m = Message::request(NOTIFY_MESSAGE);
    m.m_source = source;
    m
}

fn fresh() -> Monitor {
    Monitor { peers: [Server::empty(); CAP] }
}

#[test]
fn monitoring_begins_with_a_round_of_pings_and_an_alarm() {
    let mut m = fresh();
    let b = start(&mut m);
    assert_eq!(b.ping, peers());
    assert_eq!(b.ping[0], boot_endpoint(DS_PROC_NR));
    assert_eq!(b.alarm.m_type, SYS_SETALARM);
    assert_eq!(rd_u64(&b.alarm, 0), ALARM_PERIOD);
    assert_eq!(b.dead, 0);
}

#[test]
fn a_peer_that_stays_silent_is_counted_dead() {
    let mut m = fresh();
    start(&mut m);
    for round in 1..=DEAD_THRESHOLD {
        for p in peers() {
            if p != boot_endpoint(PM_PROC_NR) {
                assert!(serve(&mut m, &notify(p)).is_none());
            }
        }
        let b = serve(&mut m, &notify(boot_endpoint(CLOCK))).expect("an alarm starts a round");
        assert_eq!(b.dead, if round == DEAD_THRESHOLD { 1 } else { 0 });
        assert_eq!(b.ping, peers());
    }
}

#[test]
fn traffic_that_is_no_notification_changes_nothing() {
    let mut m = fresh();
    start(&mut m);
    let mut msg = notify(boot_endpoint(CLOCK));
    msg.m_type = NOTIFY_MESSAGE + 1;
    assert!(serve(&mut m, &msg).is_none());
    for _ in 0..DEAD_THRESHOLD - 1 {
        assert_eq!(serve(&mut m, &notify(boot_endpoint(CLOCK))).unwrap().dead, 0);
    }
    assert_eq!(serve(&mut m, &notify(boot_endpoint(CLOCK))).unwrap().dead, 5);
}
