use minixrs::abi::callnr::{CDEV_MAX_IO, VFS_BUF_OFF, VFS_FD_OFF, VFS_LEN_OFF, VFS_READ};
use minixrs::abi::errno::{EFAULT, EINVAL};
use minixrs::abi::message::{Message, USER_VA_TOP};
use minixrs::rt::payload::{wr_i32, wr_u64};
use minixrs::vfs::rw::{advance, build, parse, validate, Request, Step};
const BUF: u64 = 0x0010_0000;

fn request(fd: i32, len: i32, buf: u64) -> Message {
    let mut m = Message {
        m_source: 0,
        m_type: 0,
        payload: [0u8; 96],
    };
    wr_i32(&mut m, VFS_FD_OFF, fd);
    wr_i32(&mut m, VFS_LEN_OFF, len);
    wr_u64(&mut m, VFS_BUF_OFF, buf);
    m
}

#[test]
fn rw_parse_reads_every_field_from_its_own_offset() {
    let m = request(1, 64, BUF);
    assert_eq!(
        parse(&m),
        Request {
            fd: 1,
            len: 64,
            buf: BUF,
        }
    );
}

#[test]
fn rw_parse_of_a_zeroed_payload_yields_a_rejectable_request() {
    let m = Message {
        m_source: 0,
        m_type: 0,
        payload: [0u8; 96],
    };
    let req = parse(&m);
    assert_eq!(req.len, 0);
    assert_eq!(validate(req.len, req.buf), Ok(0));
}

#[test]
fn a_normal_length_passes_through() {
    for len in [1i32, 12, CDEV_MAX_IO as i32, CDEV_MAX_IO as i32 * 4, 4096] {
        assert_eq!(validate(len, BUF), Ok(len as usize), "len {len}");
    }
}

#[test]
fn a_negative_length_is_einval() {
    for len in [-1i32, -256, i32::MIN] {
        assert_eq!(validate(len, BUF), Err(EINVAL), "len {len}");
    }
}

#[test]
fn a_zero_length_write_is_ok_not_an_error() {
    assert_eq!(validate(0, BUF), Ok(0));
}

#[test]
fn a_zero_length_write_does_not_require_a_valid_buffer() {
    assert_eq!(validate(0, 0), Ok(0));
    assert_eq!(validate(0, u64::MAX), Ok(0));
}

#[test]
fn a_buffer_outside_the_user_range_is_efault() {
    assert_eq!(validate(8, 0), Err(EFAULT));
    assert_eq!(validate(8, u64::MAX), Err(EFAULT));
    assert_eq!(validate(8, USER_VA_TOP), {
        Err(EFAULT)
    });
}

#[test]
fn the_length_check_precedes_the_buffer_check() {
    assert_eq!(validate(-1, 0), Err(EINVAL));
}

#[test]
fn a_full_write_in_one_go_is_done() {
    assert_eq!(advance(0, 100, 100), Step::Done(100));
}

#[test]
fn a_short_write_asks_for_another_round() {
    assert_eq!(advance(0, 288, 256), Step::More(256));
    assert_eq!(advance(256, 288, 32), Step::Done(288));
}

#[test]
fn a_multi_round_write_reaches_exactly_len() {
    let len = CDEV_MAX_IO * 3 + 7;
    let mut off = 0usize;
    let mut rounds = 0;
    let total = loop {
        rounds += 1;
        assert!(rounds <= 8, "loop failed to converge");
        let asked = len - off;
        let served = asked.min(CDEV_MAX_IO) as i32;
        match advance(off, len, served) {
            Step::More(next) => {
                assert!(next > off, "no forward progress");
                off = next;
            }
            Step::Done(rc) => break rc,
        }
    };
    assert_eq!(total, len as i32);
    assert_eq!(rounds, 4);
}

#[test]
fn an_error_before_any_progress_is_reported_as_the_error() {
    assert_eq!(advance(0, 100, EFAULT), Step::Done(EFAULT));
    assert_eq!(advance(0, 100, EINVAL), Step::Done(EINVAL));
}

#[test]
fn an_error_after_partial_progress_reports_the_progress() {
    assert_eq!(advance(64, 100, EFAULT), Step::Done(64));
}

#[test]
fn the_same_parse_and_validate_serve_a_read() {
    let m = request(3, 4096, BUF);
    let req = parse(&m);
    assert_eq!(
        req,
        Request {
            fd: 3,
            len: 4096,
            buf: BUF
        }
    );
    assert_eq!(validate(req.len, req.buf), Ok(4096));
    assert_eq!(validate(-1, BUF), Err(EINVAL));
    assert_eq!(validate(8, 0), Err(EFAULT));
}

#[test]
fn advance_is_direction_agnostic_and_zero_means_eof() {
    assert_eq!(advance(0, 100, 0), Step::Done(0));
    assert_eq!(advance(40, 100, 0), Step::Done(40));
}

#[test]
fn a_driver_reporting_zero_ends_the_write_rather_than_spinning() {
    assert_eq!(advance(0, 100, 0), Step::Done(0));
    assert_eq!(advance(40, 100, 0), Step::Done(40));
}

#[test]
fn a_driver_reporting_more_than_asked_cannot_over_report_the_write() {
    assert_eq!(advance(0, 100, 100_000), Step::Done(100));
    assert_eq!(advance(90, 100, i32::MAX), Step::Done(100));
}

#[test]
fn the_offset_never_exceeds_len_on_any_reply() {
    let len = 64usize;
    for off in 0..=len {
        for n in [-1i32, 0, 1, 7, 63, 64, 65, 4096, i32::MAX] {
            let rc = match advance(off, len, n) {
                Step::More(next) => {
                    assert!(next < len, "More past the end: off={off} n={n}");
                    assert!(next > off, "More without progress: off={off} n={n}");
                    continue;
                }
                Step::Done(rc) => rc,
            };
            if rc >= 0 {
                assert!(rc as usize <= len, "over-reported: off={off} n={n} rc={rc}");
            }
        }
    }
}

#[test]
fn a_built_transfer_request_parses_back() {
    let r = Request { fd: -3, len: 4096, buf: u64::MAX };
    let m = build(VFS_READ, r);
    assert_eq!((m.m_source, m.m_type), (0, VFS_READ));
    assert_eq!(parse(&m), r);
}
