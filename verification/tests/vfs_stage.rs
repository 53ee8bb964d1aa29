use minixrs::abi::callnr::{FS_PATH_MAX, VFS_EXEC_MAX, VFS_EXEC_PATH_OFF};
use minixrs::abi::errno::{EINVAL, ENAMETOOLONG, ENOEXEC, ENOMEM};
use minixrs::abi::message::Message;
use minixrs::vfs::stage::{parse_path, stage_len};

fn request(path: &[u8]) -> Message {
    let mut m = Message {
        m_source: 0,
        m_type: 0,
        payload: [0u8; 96],
    };
    m.payload[VFS_EXEC_PATH_OFF..VFS_EXEC_PATH_OFF + path.len()].copy_from_slice(path);
    m
}

#[test]
fn an_absolute_path_reads_back_verbatim() {
    assert_eq!(parse_path(&request(b"/bin/hello")), Ok("/bin/hello"));
    assert_eq!(parse_path(&request(b"/x")), Ok("/x"));
}

#[test]
fn the_longest_path_that_fits_is_accepted() {
    let mut p = [b'a'; FS_PATH_MAX - 1];
    p[0] = b'/';
    let m = request(&p);
    assert_eq!(parse_path(&m).map(str::len), Ok(FS_PATH_MAX - 1));
}

#[test]
fn stage_a_field_with_no_nul_is_enametoolong() {
    assert_eq!(
        parse_path(&request(&[b'/'; FS_PATH_MAX])),
        Err(ENAMETOOLONG)
    );
}

#[test]
fn an_empty_field_is_einval() {
    assert_eq!(parse_path(&request(b"")), Err(EINVAL));
}

#[test]
fn a_relative_path_is_einval() {
    for p in [&b"bin/hello"[..], b"hello", b".", b"./hello"] {
        assert_eq!(parse_path(&request(p)), Err(EINVAL), "path {p:?}");
    }
}

#[test]
fn a_non_utf8_path_is_einval() {
    assert_eq!(parse_path(&request(b"/\xff\xfe")), Err(EINVAL));
}

#[test]
fn an_ordinary_size_stages_whole() {
    for n in [1i32, 31, 4096, 200_152, VFS_EXEC_MAX as i32] {
        assert_eq!(stage_len(n), Ok(n as usize), "size {n}");
    }
}

#[test]
fn an_empty_file_is_not_an_executable() {
    assert_eq!(stage_len(0), Err(ENOEXEC));
}

#[test]
fn a_negative_size_is_einval() {
    for n in [-1i32, -4096, i32::MIN] {
        assert_eq!(stage_len(n), Err(EINVAL), "size {n}");
    }
}

#[test]
fn a_file_past_the_cap_is_enomem() {
    assert_eq!(stage_len(VFS_EXEC_MAX as i32 + 1), Err(ENOMEM));
    assert_eq!(stage_len(i32::MAX), Err(ENOMEM));
}
