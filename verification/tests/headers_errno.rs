use minixrs::abi::errno;
use minixrs::headers::errno_h::{minix_band, posix_block, render, render_standin, CHECK_MACRO};
use minixrs::headers::macros;

#[test]
fn the_two_bands_partition_error_all() {
    assert_eq!(posix_block().len() + minix_band().len(), errno::ALL.len());
    assert_eq!(posix_block().len(), errno::POSIX_ERRNO_MAX as usize);
}

#[test]
fn minix_band_renders_from_error_all() {
    let text = render();
    for (name, magnitude) in minix_band() {
        assert_eq!(
            macros::define_value(&text, name).as_deref(),
            Some(magnitude.to_string().as_str()),
            "{name} did not render from errno::ALL"
        );
    }
}

#[test]
fn minix_band_values_are_positive_magnitudes() {
    for (name, magnitude) in minix_band() {
        assert!(magnitude >= errno::MINIX_ERRNO_BASE, "{name}");
    }
    assert_eq!(
        macros::define_value(&render(), "EDEADSRCDST").as_deref(),
        Some("202")
    );
}
#[test]
fn posix_block_is_asserted_but_never_defined() {
    let text = render();
    for (name, magnitude) in posix_block() {
        assert!(
            macros::define_value(&text, name).is_none(),
            "{name} must not be #defined by minixrs/errno.h"
        );
        assert!(
            text.contains(&format!("_Static_assert({name} == {magnitude},")),
            "{name} is not verified against the C library"
        );
    }
}

#[test]
fn posix_verification_is_behind_the_opt_in_guard() {
    let text = render();
    let ifdef = text.find(&format!("#ifdef {CHECK_MACRO}")).unwrap();
    let endif = text.find(&format!("#endif /* {CHECK_MACRO} */")).unwrap();
    let epermin = text.find("_Static_assert(EPERM ==").unwrap();
    assert!(ifdef < epermin && epermin < endif);
    assert!(ifdef < text.find("#include <errno.h>").unwrap());
}

#[test]
fn standin_covers_exactly_the_posix_block() {
    let text = render_standin();
    let defs = macros::defines(&text);
    assert_eq!(defs.len(), posix_block().len());
    for (name, magnitude) in posix_block() {
        assert_eq!(
            macros::define_value(&text, name).as_deref(),
            Some(magnitude.to_string().as_str())
        );
    }
    assert!(text.contains("NOT A REAL LIBC HEADER."));
}

#[test]
fn standin_defines_no_minix_band_errno() {
    let text = render_standin();
    for (name, _) in minix_band() {
        assert!(
            macros::define_value(&text, name).is_none(),
            "the stand-in must not shadow {name}"
        );
    }
}
