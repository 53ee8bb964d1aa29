use minixrs::abi::{endpoint, ipc};
use minixrs::headers::ipc_h::{render, MessageLayout};
#[test]
fn pins_the_live_message_layout() {
    let text = render();
    let l = MessageLayout::measure();

    assert!(text.contains(&format!("sizeof(message) == {}", l.size)));
    assert!(text.contains(&format!("_Alignof(message) == {}", l.align)));
    assert!(text.contains(&format!(
        "_MINIX_OFFSETOF(message, payload) == {}",
        l.payload_off
    )));
    assert!(text.contains(&format!(
        "unsigned char          payload[{}];",
        l.payload_len
    )));
    assert_eq!(l.size, 104);
    assert_eq!(l.align, 8);
    assert_eq!(l.m_source_off, 0);
    assert_eq!(l.m_type_off, 4);
    assert_eq!(l.payload_off, 8);
    assert_eq!(l.payload_len, 96);
}
#[test]
fn needs_no_header_under_a_gnu_flavoured_compiler() {
    let text = render();
    let gnu_arm = text
        .split("#if defined(__GNUC__) || defined(__clang__)")
        .nth(1)
        .and_then(|s| s.split("#else").next())
        .expect("the offsetof fallback block");
    assert!(!gnu_arm.contains("#include"));
    assert!(gnu_arm.contains("__builtin_offsetof"));
    assert!(text.contains("_MINIX_OFFSETOF(message, payload)"));
}

#[test]
fn alignas_rides_the_first_member() {
    let text = render();
    assert!(text.contains("_Alignas(8) endpoint_t m_source;"));
    assert!(!text.contains("_Alignas(8) struct"));
}

#[test]
fn ipc_primitives_render_from_live_constants() {
    let text = render();
    for (name, value) in [
        ("SENDREC", ipc::SENDREC),
        ("NOTIFY", ipc::NOTIFY),
        ("SENDNB", ipc::SENDNB),
    ] {
        assert!(text.contains(&format!("#define {name:<24} {value}")));
    }
    assert!(text.contains(&format!("0x{:X}", ipc::NOTIFY_MESSAGE)));
}

#[test]
fn endpoint_sentinels_render_from_live_constants() {
    let text = render();
    assert!(text.contains(&format!(
        "#define ANY                      ((endpoint_t) {})",
        endpoint::ANY
    )));
    assert!(text.contains(&format!(
        "#define NONE                     ((endpoint_t) {})",
        endpoint::NONE
    )));
    assert!(text.contains(&format!(
        "#define SELF                     ((endpoint_t) {})",
        endpoint::SELF
    )));
}
#[test]
fn makes_no_trap_register_claim() {
    let text = render();
    assert!(!text.contains("x16"));
    assert!(!text.contains("x1 "));
}
