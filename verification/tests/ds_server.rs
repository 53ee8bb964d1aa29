use minixrs::abi::callnr::{DS_CHECK, DS_PUBLISH, DS_RETRIEVE};
use minixrs::abi::errno::{EINVAL, ENOMEM, ESRCH, OK};
use minixrs::abi::message::Message;
use minixrs::ds::registry::{retrieve, Registry, CAP};
use minixrs::ds::server::{ds_init, rd_key, serve};
use minixrs::rt::ds::{retrieve_result, sef_publish_to_ds, sef_retrieve_from_ds, DS_VALUE_OFF};
use minixrs::rt::payload::rd_i32;

fn name(s: &str) -> [u8; 16] {
    let mut k = [0u8; 16];
    k[..s.len()].copy_from_slice(s.as_bytes());
    k
}

fn from(source: i32, mut m: Message) -> Message {
    m.m_source = source;
    m
}

#[test]
fn a_server_that_publishes_itself_is_found_by_its_name() {
    let mut r = Registry::new();
    let mut m = from(7, sef_publish_to_ds(&name("vm")));
    assert_eq!(m.m_type, DS_PUBLISH);
    assert_eq!(rd_key(&m), name("vm"));
    assert_eq!(serve(&mut r, &mut m), Some(7));
    assert_eq!((m.m_type, m.m_source), (OK, 0));

    let mut q = from(1, sef_retrieve_from_ds(&name("vm")));
    assert_eq!(serve(&mut r, &mut q), Some(1));
    assert_eq!(retrieve_result(OK, &q), Ok(7));
    assert_eq!(retrieve_result(EINVAL, &q), Err(EINVAL));
}

#[test]
fn a_name_nobody_published_is_esrch_and_no_error_to_check() {
    let mut r = Registry::new();
    let mut q = from(1, sef_retrieve_from_ds(&name("tty")));
    assert_eq!(serve(&mut r, &mut q), Some(1));
    assert_eq!(q.m_type, ESRCH);
    assert_eq!(retrieve_result(OK, &q), Err(ESRCH));

    let mut c = from(1, sef_retrieve_from_ds(&name("tty")));
    c.m_type = DS_CHECK;
    assert_eq!(serve(&mut r, &mut c), Some(1));
    assert_eq!((c.m_type, rd_i32(&c, DS_VALUE_OFF)), (OK, 0));
}

#[test]
fn the_directory_publishes_itself_without_a_message() {
    let mut r = Registry::new();
    assert_eq!(ds_init(&mut r, 5, &name("ds")), OK);
    assert_eq!(retrieve(&r, &name("ds")), Some(5));
    let mut c = from(3, sef_retrieve_from_ds(&name("ds")));
    c.m_type = DS_CHECK;
    serve(&mut r, &mut c);
    assert_eq!(rd_i32(&c, DS_VALUE_OFF), 1);
    assert_eq!(ds_init(&mut r, 5, &[0u8; 16]), EINVAL);
}

#[test]
fn a_full_directory_answers_enomem() {
    let mut r = Registry::new();
    for i in 0..CAP {
        let mut m = from(i as i32 + 1, sef_publish_to_ds(&name(&format!("server{i}"))));
        serve(&mut r, &mut m);
        assert_eq!(m.m_type, OK);
    }
    let mut m = from(99, sef_publish_to_ds(&name("late")));
    assert_eq!(serve(&mut r, &mut m), Some(99));
    assert_eq!(m.m_type, ENOMEM);
}

#[test]
fn a_request_that_is_not_the_directorys_is_dropped() {
    let mut r = Registry::new();
    let mut m = from(4, Message::request(DS_RETRIEVE + 100));
    let before = m;
    assert_eq!(serve(&mut r, &mut m), None);
    assert_eq!(m, before);
}
