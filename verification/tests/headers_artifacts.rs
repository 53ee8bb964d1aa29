use minixrs::headers::artifacts::artifacts;
use minixrs::headers::{callnr_h, com_h, errno_h, ipc_h, macros, selftest};

#[test]
fn every_artifact_carries_spdx_and_a_do_not_edit_banner() {
    for a in artifacts() {
        assert!(
            a.text
                .starts_with("/* SPDX-License-Identifier: BSD-3-Clause */\n"),
            "{} is missing its SPDX header",
            a.path
        );
        assert!(
            a.text.contains("GENERATED FILE -- DO NOT EDIT."),
            "{} is missing its generated-file banner",
            a.path
        );
        assert!(
            a.text.contains("cargo gen-c-headers"),
            "{} does not say how to regenerate it",
            a.path
        );
    }
}
#[test]
fn every_artifact_is_ascii() {
    for a in artifacts() {
        assert!(a.text.is_ascii(), "{} contains non-ASCII bytes", a.path);
    }
}

#[test]
fn every_artifact_ends_with_exactly_one_newline() {
    for a in artifacts() {
        assert!(a.text.ends_with('\n'), "{} has no trailing newline", a.path);
        assert!(
            !a.text.ends_with("\n\n"),
            "{} has a trailing blank line",
            a.path
        );
    }
}
#[test]
fn no_artifact_has_consecutive_blank_lines() {
    for a in artifacts() {
        assert!(
            !a.text.contains("\n\n\n"),
            "{} has a doubled blank line",
            a.path
        );
    }
}

#[test]
fn artifact_paths_are_relative_distinct_and_contained() {
    let mut seen = Vec::new();
    for a in artifacts() {
        assert!(!a.path.starts_with('/'), "{} is absolute", a.path);
        assert!(!a.path.contains(".."), "{} escapes the output dir", a.path);
        assert!(!seen.contains(&a.path), "{} is emitted twice", a.path);
        seen.push(a.path);
    }
}
#[test]
fn header_guards_are_unique() {
    let guards = [
        ipc_h::GUARD,
        com_h::GUARD,
        callnr_h::GUARD,
        errno_h::GUARD,
        "_MINIX_ABI_CHECK_ERRNO_H",
    ];
    for (i, g) in guards.iter().enumerate() {
        assert!(!guards[i + 1..].contains(g), "duplicate include guard {g}");
    }
}
#[test]
fn no_header_defines_a_name_twice() {
    for a in artifacts() {
        let defs = macros::defines(&a.text);
        for (i, (name, _)) in defs.iter().enumerate() {
            assert!(
                !defs[i + 1..].iter().any(|(n, _)| n == name),
                "{} defines {name} twice",
                a.path
            );
        }
    }
}
#[test]
fn every_define_name_is_a_c_identifier() {
    for a in artifacts() {
        for (name, _) in macros::defines(&a.text) {
            let mut chars = name.chars();
            let first = chars.next().expect("non-empty define name");
            assert!(
                first.is_ascii_alphabetic() || first == '_',
                "{}: {name} does not start with a letter or underscore",
                a.path
            );
            assert!(
                chars.all(|c| c.is_ascii_alphanumeric() || c == '_'),
                "{}: {name} is not a C identifier",
                a.path
            );
        }
    }
}
#[test]
fn rendering_is_deterministic() {
    let a = artifacts();
    let b = artifacts();
    assert_eq!(a.len(), b.len());
    for (x, y) in a.iter().zip(b.iter()) {
        assert_eq!(x.path, y.path);
        assert_eq!(x.text, y.text, "{} is not deterministic", x.path);
    }
}

#[test]
fn the_selftest_includes_exactly_the_generated_headers() {
    let emitted: Vec<String> = artifacts()
        .iter()
        .filter_map(|a| a.path.strip_prefix("include/"))
        .map(str::to_string)
        .collect();
    for header in selftest::HEADERS {
        assert!(
            emitted.iter().any(|e| e == header),
            "the selftest includes {header}, which is not generated"
        );
    }
    assert_eq!(emitted.len(), selftest::HEADERS.len());
}
