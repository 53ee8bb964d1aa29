use minixrs::abi::callnr::{DIAG_TEXT_MAX, SYS_DIAGCTL};
use minixrs::rt::diag::{chunk_len, diag_print, DiagBuf, DIAG_LINE_MAX};

#[test]
fn chunk_len_passes_short_strings_whole() {
    assert_eq!(chunk_len(0), 0);
    assert_eq!(chunk_len(1), 1);
    assert_eq!(chunk_len(DIAG_TEXT_MAX - 1), DIAG_TEXT_MAX - 1);
}

#[test]
fn chunk_len_caps_at_the_payload_budget() {
    assert_eq!(chunk_len(DIAG_TEXT_MAX), DIAG_TEXT_MAX);
    assert_eq!(chunk_len(DIAG_TEXT_MAX + 1), DIAG_TEXT_MAX);
    assert_eq!(chunk_len(10 * DIAG_TEXT_MAX), DIAG_TEXT_MAX);
}

#[test]
fn chunking_covers_every_byte_exactly_once() {
    for total in [
        0,
        1,
        DIAG_TEXT_MAX - 1,
        DIAG_TEXT_MAX,
        DIAG_TEXT_MAX + 1,
        500,
    ] {
        let mut sent = 0usize;
        let mut steps = 0usize;
        while sent < total {
            let n = chunk_len(total - sent);
            assert!(n > 0, "a zero-length chunk would loop forever");
            assert!(n <= DIAG_TEXT_MAX);
            sent += n;
            steps += 1;
            assert!(steps <= total + 1, "chunking failed to converge");
        }
        assert_eq!(sent, total);
    }
}

#[test]
fn a_long_line_travels_in_whole_pieces() {
    let line = "abcdefghij".repeat(20);
    let msgs = diag_print(&line);
    let mut text: Vec<u8> = Vec::new();
    for m in &msgs {
        assert_eq!(m.m_type, SYS_DIAGCTL);
        let len = i32::from_ne_bytes([m.payload[4], m.payload[5], m.payload[6], m.payload[7]]);
        text.extend_from_slice(&m.payload[8..8 + len as usize]);
    }
    assert_eq!(text, line.as_bytes());
    assert_eq!(msgs.len(), 200usize.div_ceil(DIAG_TEXT_MAX));
    assert!(diag_print("").is_empty());
}

#[test]
fn a_line_buffer_takes_what_fits_and_says_when_it_did_not() {
    let mut b = DiagBuf::new();
    assert_eq!(b.as_str(), "");
    assert!(b.write_str("pid="));
    assert!(b.write_str("42"));
    assert_eq!(b.as_str(), "pid=42");
    let long = "x".repeat(DIAG_LINE_MAX);
    assert!(!b.write_str(&long));
    assert_eq!(b.as_str(), format!("pid=42{}", "x".repeat(DIAG_LINE_MAX - 6)));
}

#[test]
fn a_line_cut_inside_a_character_is_no_text() {
    let mut b = DiagBuf::new();
    assert!(b.write_str(&"y".repeat(DIAG_LINE_MAX - 1)));
    assert_eq!(b.as_str().len(), DIAG_LINE_MAX - 1);
    assert!(!b.write_str("\u{e9}"));
    assert_eq!(b.len, DIAG_LINE_MAX);
    assert_eq!(b.as_str(), "");
}
