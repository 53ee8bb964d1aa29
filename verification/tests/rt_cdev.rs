use minixrs::abi::callnr::{CDEV_GRANT_OFF, CDEV_LEN_OFF, CDEV_MINOR_OFF, CDEV_OFFSET_OFF, CDEV_WRITE};
use minixrs::abi::message::Message;
use minixrs::rt::cdev::{build, parse, Request};
use minixrs::rt::payload::{wr_i32, wr_u64};
fn request(minor: i32, gid: i32, len: i32, offset: u64) -> Message {
    let mut m = Message {
        m_source: 0,
        m_type: 0,
        payload: [0u8; 96],
    };
    wr_i32(&mut m, CDEV_MINOR_OFF, minor);
    wr_i32(&mut m, CDEV_GRANT_OFF, gid);
    wr_i32(&mut m, CDEV_LEN_OFF, len);
    wr_u64(&mut m, CDEV_OFFSET_OFF, offset);
    m
}

#[test]
fn cdev_parse_reads_every_field_from_its_own_offset() {
    let m = request(5, 0x0030_0001, 64, 4096);
    assert_eq!(
        parse(&m),
        Request {
            minor: 5,
            gid: 0x0030_0001,
            len: 64,
            offset: 4096,
        }
    );
}

#[test]
fn parse_of_a_zeroed_payload_is_all_zeroes_and_does_not_panic() {
    let m = Message {
        m_source: 0,
        m_type: 0,
        payload: [0u8; 96],
    };
    assert_eq!(
        parse(&m),
        Request {
            minor: 0,
            gid: 0,
            len: 0,
            offset: 0,
        }
    );
}

#[test]
fn the_offset_is_passed_through_unvalidated() {
    for offset in [0u64, 1, 256, u64::MAX] {
        assert_eq!(parse(&request(0, 1, 16, offset)).offset, offset);
    }
}

#[test]
fn a_built_cdev_request_parses_back() {
    let r = Request { minor: -7, gid: 0x7fff_ffff, len: 13, offset: u64::MAX };
    let m = build(CDEV_WRITE, r);
    assert_eq!((m.m_source, m.m_type), (0, CDEV_WRITE));
    assert_eq!(parse(&m), r);
}
