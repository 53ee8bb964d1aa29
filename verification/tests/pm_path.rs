use minixrs::abi::callnr::{EXEC_NAME_LEN, PM_EXEC_PATH_MAX};
use minixrs::abi::errno::{EINVAL, ENAMETOOLONG};
use minixrs::pm::path::{basename, parse, Target};
fn field(bytes: &[u8]) -> [u8; PM_EXEC_PATH_MAX] {
    let mut f = [0u8; PM_EXEC_PATH_MAX];
    f[..bytes.len()].copy_from_slice(bytes);
    f
}

#[test]
fn an_absolute_path_is_a_path_with_its_basename() {
    assert_eq!(
        parse(&field(b"/bin/hello")),
        Ok(Target::Path {
            path: "/bin/hello",
            argv0: "hello"
        })
    );
    assert_eq!(
        parse(&field(b"/hello")),
        Ok(Target::Path {
            path: "/hello",
            argv0: "hello"
        })
    );
}

#[test]
fn a_bare_name_is_a_module() {
    assert_eq!(parse(&field(b"worker")), Ok(Target::Module("worker")));
    assert_eq!(parse(&field(b"hello")), Ok(Target::Module("hello")));
}

#[test]
fn the_leading_slash_is_the_only_discriminator() {
    assert_eq!(parse(&field(b"etc/motd")), Ok(Target::Module("etc/motd")));
}

#[test]
fn path_a_field_with_no_nul_is_enametoolong() {
    assert_eq!(parse(&[b'a'; PM_EXEC_PATH_MAX]), Err(ENAMETOOLONG));
    assert_eq!(parse(&[b'/'; PM_EXEC_PATH_MAX]), Err(ENAMETOOLONG));
}

#[test]
fn an_all_nul_field_is_einval() {
    assert_eq!(parse(&field(b"")), Err(EINVAL));
}

#[test]
fn a_non_utf8_target_is_einval() {
    assert_eq!(parse(&field(b"/\xff\xfe")), Err(EINVAL));
}

#[test]
fn a_path_ending_in_a_slash_is_einval() {
    assert_eq!(parse(&field(b"/bin/")), Err(EINVAL));
    assert_eq!(parse(&field(b"/")), Err(EINVAL));
}

#[test]
fn a_module_name_past_the_kernel_field_is_einval() {
    let long = [b'm'; EXEC_NAME_LEN + 1];
    assert_eq!(parse(&field(&long)), Err(EINVAL));
    let fits = [b'm'; EXEC_NAME_LEN];
    let f = field(&fits);
    assert!(matches!(parse(&f), Ok(Target::Module(_))));
}

#[test]
fn a_basename_past_the_kernel_field_is_einval() {
    let mut long = [b'n'; EXEC_NAME_LEN + 6];
    long[..5].copy_from_slice(b"/bin/");
    assert_eq!(parse(&field(&long)), Err(EINVAL));

    let mut deep = [b'n'; 17 + EXEC_NAME_LEN];
    deep[..17].copy_from_slice(b"/a/b/c/d/e/f/g/h/");
    let f = field(&deep);
    assert!(matches!(parse(&f), Ok(Target::Path { .. })));
}

#[test]
fn the_longest_path_that_fits_the_field_is_accepted() {
    let mut p = [b'n'; PM_EXEC_PATH_MAX - 1];
    p[..5].copy_from_slice(b"/bin/");
    let f = field(&p);
    assert!(matches!(parse(&f), Err(EINVAL)), "basename is far too long");

    let mut q = [b'/'; PM_EXEC_PATH_MAX - 1];
    let tail = q.len() - 5;
    q[tail..].copy_from_slice(b"hello");
    let f = field(&q);
    assert_eq!(
        parse(&f),
        Ok(Target::Path {
            path: core::str::from_utf8(&q).unwrap(),
            argv0: "hello"
        })
    );
}

#[test]
fn a_basename_is_what_follows_the_last_slash() {
    assert_eq!(basename("/a/b/c"), Some("c"));
    assert_eq!(basename("/c"), Some("c"));
    assert_eq!(basename("/a/"), None);
}
