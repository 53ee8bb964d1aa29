use minixrs::abi::callnr::{FS_PATH_MAX, VFS_PATH_LEN_OFF, VFS_PATH_OFF};
use minixrs::abi::errno::{EFAULT, EINVAL, EISDIR, ENAMETOOLONG};
use minixrs::abi::message::{Message, USER_VA_TOP};
use minixrs::rt::payload::{wr_i32, wr_u64};
use minixrs::vfs::fd::Fd;
use minixrs::vfs::open::{classify, parse, validate, OpenRequest};
const BUF: u64 = 0x0010_0000;

fn request(path: u64, len: i32) -> Message {
    let mut m = Message {
        m_source: 0,
        m_type: 0,
        payload: [0u8; 96],
    };
    wr_u64(&mut m, VFS_PATH_OFF, path);
    wr_i32(&mut m, VFS_PATH_LEN_OFF, len);
    m
}

#[test]
fn parse_reads_both_fields_from_their_own_offsets() {
    assert_eq!(parse(&request(BUF, 9)), OpenRequest { path: BUF, len: 9 });
}

#[test]
fn open_parse_of_a_zeroed_payload_yields_a_rejectable_request() {
    let req = parse(&Message {
        m_source: 0,
        m_type: 0,
        payload: [0u8; 96],
    });
    assert_eq!(req.len, 0);
    assert_eq!(validate(req.len, req.path), Err(EINVAL));
}

#[test]
fn a_normal_path_length_passes_through() {
    for len in [1i32, 9, 12, FS_PATH_MAX as i32 - 1] {
        assert_eq!(validate(len, BUF), Ok(len as usize), "len {len}");
    }
}

#[test]
fn an_empty_path_is_einval_not_a_legal_no_op() {
    assert_eq!(validate(0, BUF), Err(EINVAL));
    assert_eq!(validate(0, 0), Err(EINVAL));
}

#[test]
fn a_negative_path_length_is_einval() {
    for len in [-1i32, -64, i32::MIN] {
        assert_eq!(validate(len, BUF), Err(EINVAL), "len {len}");
    }
}

#[test]
fn a_path_past_the_wire_field_is_enametoolong_before_the_wire() {
    assert_eq!(validate(FS_PATH_MAX as i32, BUF), Err(ENAMETOOLONG));
    assert_eq!(validate(FS_PATH_MAX as i32 + 1, BUF), Err(ENAMETOOLONG));
    assert_eq!(validate(i32::MAX, BUF), Err(ENAMETOOLONG));
    assert_eq!(
        validate(FS_PATH_MAX as i32 - 1, BUF),
        Ok(FS_PATH_MAX - 1),
        "the longest path that leaves room for the NUL"
    );
}

#[test]
fn a_path_buffer_outside_the_user_range_is_efault() {
    assert_eq!(validate(9, 0), Err(EFAULT));
    assert_eq!(validate(9, u64::MAX), Err(EFAULT));
    assert_eq!(validate(9, USER_VA_TOP), Err(EFAULT));
}

#[test]
fn the_length_checks_precede_the_buffer_check() {
    assert_eq!(validate(-1, 0), Err(EINVAL));
    assert_eq!(validate(i32::MAX, 0), Err(ENAMETOOLONG));
}

#[test]
fn a_regular_file_becomes_a_descriptor_at_position_zero() {
    assert_eq!(classify(0o100644), Ok(Fd::File { ino: 0, pos: 0 }));
    assert_eq!(classify(0o100755), Ok(Fd::File { ino: 0, pos: 0 }));
}

#[test]
fn a_directory_is_eisdir() {
    assert_eq!(classify(0o040755), Err(EISDIR));
    assert_eq!(classify(0o040000), Err(EISDIR));
}

#[test]
fn an_unrecognized_mode_is_einval_rather_than_a_file() {
    for mode in [
        0o020000,
        0o060000,
        0o010000,
        0o120000,
        0o140000,
        0,
    ] {
        assert_eq!(classify(mode), Err(EINVAL), "mode {mode:o}");
    }
}

#[test]
fn only_the_type_bits_decide() {
    for perm in [0, 0o444, 0o777] {
        assert_eq!(
            classify(0o100000 | perm),
            Ok(Fd::File { ino: 0, pos: 0 }),
            "perm {perm:o}"
        );
        assert_eq!(classify(0o040000 | perm), Err(EISDIR), "perm {perm:o}");
    }
    assert_eq!(
        classify(0x7fff_0000u32 as i32 | 0o100644),
        Ok(Fd::File { ino: 0, pos: 0 })
    );
}
