use minixrs::mfs::dirent::NAME_MAX;
use minixrs::mkfs::error::MkfsError;
use minixrs::mkfs::manifest::{split_path, Manifest};

#[test]
fn a_two_component_path_splits() {
    assert_eq!(split_path("/bin/hello"), Ok(("bin", "hello")));
    assert_eq!(split_path("/etc/motd"), Ok(("etc", "motd")));
}

#[test]
fn every_other_shape_is_a_bad_path() {
    for p in [
        "",
        "bin/hello",
        "/hello",
        "/a/b/c",
        "/bin/",
        "//hello",
        "/bin/hello/",
        "/./x",
        "/x/..",
    ] {
        assert_eq!(
            split_path(p),
            Err(MkfsError::BadPath(p.to_string())),
            "{p:?}"
        );
    }
}

#[test]
fn a_component_longer_than_the_name_field_is_refused() {
    let long = "x".repeat(NAME_MAX + 1);
    let path = format!("/bin/{long}");
    assert_eq!(split_path(&path), Err(MkfsError::BadPath(path.clone())));
    let ok = "x".repeat(NAME_MAX);
    let path = format!("/bin/{ok}");
    assert_eq!(split_path(&path), Ok(("bin", ok.as_str())));
}

#[test]
fn a_manifest_keeps_insertion_order_and_sums_its_bytes() {
    let mut m = Manifest::new();
    m.add("/bin/hello", vec![1u8; 10])
        .add("/etc/motd", vec![2u8; 5]);
    assert_eq!(
        m.entries
            .iter()
            .map(|e| e.path.as_str())
            .collect::<Vec<_>>(),
        ["/bin/hello", "/etc/motd"]
    );
    assert_eq!(m.total_bytes(), 15);
}
