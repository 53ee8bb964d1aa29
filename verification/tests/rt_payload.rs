use minixrs::abi::message::Message;
use minixrs::rt::payload::{buf_addr, rd_i32, rd_name, rd_u64, wr_bytes, wr_i32, wr_u64};

fn msg() -> Message {
    Message {
        m_source: 0,
        m_type: 0,
        payload: [0u8; 96],
    }
}

#[test]
fn i32_round_trips_at_every_documented_offset() {
    for off in [0usize, 4, 8, 12, 16] {
        let mut m = msg();
        wr_i32(&mut m, off, -12345);
        assert_eq!(rd_i32(&m, off), -12345, "offset {off}");
    }
}

#[test]
fn u64_round_trips() {
    for off in [0usize, 8, 16, 24, 32, 88] {
        let mut m = msg();
        wr_u64(&mut m, off, 0xDEAD_BEEF_CAFE_F00D);
        assert_eq!(rd_u64(&m, off), 0xDEAD_BEEF_CAFE_F00D, "offset {off}");
    }
}

#[test]
fn writes_do_not_disturb_neighbouring_fields() {
    let mut m = msg();
    wr_i32(&mut m, 0, 1);
    wr_i32(&mut m, 4, 2);
    wr_i32(&mut m, 8, 3);
    wr_u64(&mut m, 16, 4);
    assert_eq!((rd_i32(&m, 0), rd_i32(&m, 4), rd_i32(&m, 8)), (1, 2, 3));
    assert_eq!(rd_u64(&m, 16), 4);
    assert_eq!(rd_i32(&m, 12), 0);
    assert_eq!(rd_u64(&m, 24), 0);
}
#[test]
fn out_of_range_offsets_are_inert_not_panics() {
    let mut m = msg();
    wr_i32(&mut m, 92, 7);
    assert_eq!(rd_i32(&m, 92), 7, "92..96 is the last legal i32 slot");
    wr_u64(&mut m, 88, 9);
    assert_eq!(rd_u64(&m, 88), 9, "88..96 is the last legal u64 slot");

    let before = m.payload;
    wr_i32(&mut m, 93, 1);
    wr_u64(&mut m, 89, 1);
    wr_i32(&mut m, usize::MAX, 1);
    wr_u64(&mut m, usize::MAX, 1);
    assert_eq!(
        m.payload, before,
        "an out-of-range write must change nothing"
    );

    assert_eq!(rd_i32(&m, 93), 0);
    assert_eq!(rd_u64(&m, 89), 0);
    assert_eq!(rd_i32(&m, usize::MAX), 0);
    assert_eq!(rd_u64(&m, usize::MAX), 0);
}
fn put_name(m: &mut Message, off: usize, width: usize, name: &str) {
    m.payload[off..off + width].fill(0);
    m.payload[off..off + name.len()].copy_from_slice(name.as_bytes());
}

#[test]
fn name_round_trips_nul_padded() {
    let mut m = msg();
    put_name(&mut m, 0, 16, "worker");
    assert_eq!(rd_name(&m, 0, 16), Some("worker"));

    put_name(&mut m, 0, 16, "hello");
    assert_eq!(rd_name(&m, 0, 16), Some("hello"));
}
#[test]
fn a_name_filling_the_whole_field_is_well_formed() {
    let mut m = msg();
    let full = "0123456789abcdef";
    assert_eq!(full.len(), 16);
    put_name(&mut m, 0, 16, full);
    assert_eq!(rd_name(&m, 0, 16), Some(full));
}
#[test]
fn empty_out_of_range_and_non_utf8_names_are_rejected() {
    let m = msg();
    assert_eq!(rd_name(&m, 0, 16), None, "an all-NUL field is empty");

    let mut m = msg();
    put_name(&mut m, 0, 16, "worker");
    assert_eq!(rd_name(&m, 88, 16), None, "88..104 overruns the payload");
    assert_eq!(rd_name(&m, usize::MAX, 16), None, "offset overflow");

    let mut m = msg();
    m.payload[0] = 0xFF;
    assert_eq!(rd_name(&m, 0, 16), None, "0xFF is not valid UTF-8");
}
#[test]
fn reading_stops_at_the_first_nul() {
    let mut m = msg();
    put_name(&mut m, 0, 16, "worker");
    m.payload[0..5].copy_from_slice(b"init\0");
    assert_eq!(rd_name(&m, 0, 16), Some("init"));
}

#[test]
fn buf_addr_reports_the_buffers_own_address() {
    let mut buf = [0u8; 16];
    let want = buf.as_mut_ptr() as usize as u64;
    assert_eq!(buf_addr(&mut buf), want);
    assert_ne!(buf_addr(&mut buf), 0);
}

#[test]
fn bytes_are_written_where_they_fit_and_nowhere_else() {
    let mut m = msg();
    wr_bytes(&mut m, 90, b"abcdef");
    assert_eq!(&m.payload[90..], b"abcdef");
    let before = m.payload;
    wr_bytes(&mut m, 91, b"uvwxyz");
    wr_bytes(&mut m, usize::MAX, b"u");
    assert_eq!(m.payload, before);
}

#[test]
fn a_name_of_more_than_one_byte_per_character_reads_back() {
    let mut m = msg();
    put_name(&mut m, 4, 16, "caf\u{e9}");
    assert_eq!(rd_name(&m, 4, 16), Some("caf\u{e9}"));
}
