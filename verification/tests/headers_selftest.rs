use minixrs::headers::selftest::{render, HEADERS};

#[test]
fn includes_every_generated_header_twice() {
    let text = render();
    for header in HEADERS {
        let needle = format!("#include <{header}>");
        assert_eq!(
            text.matches(&needle).count(),
            2,
            "{header} is not included twice"
        );
    }
}

#[test]
fn is_not_an_empty_translation_unit() {
    assert!(render().contains("typedef int minixrs_abi_selftest_tu_;"));
}

#[test]
fn asserts_span_more_than_one_header() {
    let text = render();
    for macro_name in [
        "KERNEL_CALL",
        "NOTIFY_MESSAGE",
        "SYSTEM_EP",
        "sizeof(message)",
    ] {
        assert!(text.contains(macro_name), "{macro_name} unreferenced");
    }
}
