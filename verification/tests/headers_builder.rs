use minixrs::headers::builder::CFile;
use minixrs::headers::macros::{define_value, defines};

#[test]
fn banner_carries_spdx_and_do_not_edit() {
    let text = CFile::new("Test header.", &["kernel-shared/src/com.rs"]).finish();
    assert!(text.starts_with("/* SPDX-License-Identifier: BSD-3-Clause */\n"));
    assert!(text.contains("GENERATED FILE -- DO NOT EDIT."));
    assert!(text.contains("kernel-shared/src/com.rs"));
}

#[test]
fn negative_decimals_are_parenthesized() {
    let mut f = CFile::new("t", &[]);
    f.define_dec("SYSTEM_PROC_NR", -2);
    f.define_dec("PM_PROC_NR", 0);
    let text = f.finish();
    assert!(text.contains("#define SYSTEM_PROC_NR           (-2)"));
    assert!(text.contains("#define PM_PROC_NR               0"));
}

#[test]
fn hex_defines_are_uppercase_with_an_0x_prefix() {
    let mut f = CFile::new("t", &[]);
    f.define_hex("SYS_EXEC", 0x603);
    assert!(
        f.finish()
            .contains("#define SYS_EXEC                 0x603")
    );
}

#[test]
fn endpoints_are_cast_to_endpoint_t() {
    let mut f = CFile::new("t", &[]);
    f.define_ep("SYSTEM_EP", 32766);
    assert!(f.finish().contains("((endpoint_t) 32766)"));
}

#[test]
fn guards_open_and_close_the_same_name() {
    let mut f = CFile::new("t", &[]);
    f.guard_open("_MINIXRS_IPC_H");
    f.guard_close("_MINIXRS_IPC_H");
    let text = f.finish();
    assert!(text.contains("#ifndef _MINIXRS_IPC_H\n#define _MINIXRS_IPC_H\n"));
    assert!(text.contains("#endif /* _MINIXRS_IPC_H */"));
}

#[test]
fn static_assert_renders_a_quoted_message() {
    let mut f = CFile::new("t", &[]);
    f.static_assert("sizeof(message) == 104", "message size drifted");
    assert!(
        f.finish()
            .contains("_Static_assert(sizeof(message) == 104, \"message size drifted\");")
    );
}

#[test]
fn defines_parses_object_like_macros_and_skips_function_like_ones() {
    let mut f = CFile::new("t", &[]);
    f.define_dec("A", 1);
    f.define_ep("B", 7);
    f.line("#define _ENDPOINT(g, p)  ((g) | (p))");
    let text = f.finish();

    assert_eq!(
        defines(&text),
        vec![
            ("A".to_string(), "1".to_string()),
            ("B".to_string(), "((endpoint_t) 7)".to_string()),
        ]
    );
    assert_eq!(
        define_value(&text, "B").as_deref(),
        Some("((endpoint_t) 7)")
    );
    assert_eq!(define_value(&text, "MISSING"), None);
}

#[test]
fn defines_ignores_the_include_guard_shape() {
    let mut f = CFile::new("t", &[]);
    f.guard_open("_G");
    f.define_dec("A", 1);
    f.guard_close("_G");
    assert_eq!(
        defines(&f.finish()),
        vec![("A".to_string(), "1".to_string())]
    );
}

#[test]
fn a_define_reads_back_and_a_comment_is_no_define() {
    let mut f = CFile::new("t", &["a.rs", "b.rs"]);
    f.section("Numbers");
    f.block_comment(&["#define IN_A_COMMENT 3", "second line"]);
    f.define_raw("GREETING", "\"hello\"");
    f.include_header("x/y.h", "why it is needed");
    f.blank();
    let text = f.finish();
    assert_eq!(define_value(&text, "GREETING").as_deref(), Some("\"hello\""));
    assert!(text.contains("#include <x/y.h>"));
    assert!(text.contains("b.rs"));
    assert_eq!(defines(&text).iter().filter(|d| d.0 == "IN_A_COMMENT").count(), 0);
}

#[test]
fn numbers_read_back_and_are_told_apart() {
    let mut f = CFile::new("t", &[]);
    f.define_dec("MINUS", -1);
    f.define_dec("PLUS", 1);
    f.define_hex("HEX", 0x10);
    f.define_dec("TEN", 10);
    f.define_ep("EP", -5);
    let text = f.finish();
    let read: Vec<Option<String>> =
        ["MINUS", "PLUS", "HEX", "TEN", "EP"].iter().map(|n| define_value(&text, n)).collect();
    assert_eq!(
        read,
        ["(-1)", "1", "0x10", "10", "((endpoint_t) -5)"].map(|v| Some(v.to_string()))
    );
}
