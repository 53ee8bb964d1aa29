use minixrs::abi::execstack::{
    AT_NULL, AT_PAGESZ, AT_PHDR, AT_PHENT, AT_PHNUM, EXEC_STACK_PROBE_PASS,
};
use minixrs::user::worker::{
    auxv_get, auxv_terminated, exit_status, phdrs_are_readable, str_eq, validate, Memory,
    LOAD_BASE, PT_LOAD,
};

const SP: u64 = 0x6FFF_FF00;

/// The words of a frame in order, then its text.
struct Frame {
    words: Vec<u64>,
    text: &'static [u8],
}

impl Frame {
    fn good() -> Frame {
        let text_at = SP + 14 * 8;
        Frame {
            words: vec![
                1, text_at, 0, 0, AT_PHDR, LOAD_BASE + 64, AT_PHENT, 56, AT_PHNUM, 2, AT_PAGESZ,
                4096, AT_NULL, 0,
            ],
            text: b"worker\0",
        }
    }

    fn bytes(&self) -> Vec<u8> {
        let mut b: Vec<u8> = self.words.iter().flat_map(|w| w.to_le_bytes()).collect();
        b.extend_from_slice(self.text);
        b.resize(256, 0);
        b
    }
}

fn image() -> Vec<u8> {
    let mut b = vec![0u8; 256];
    b[64..68].copy_from_slice(&PT_LOAD.to_le_bytes());
    b[80..88].copy_from_slice(&LOAD_BASE.to_le_bytes());
    b
}

fn check(f: &Frame, img: &[u8], sp: u64) -> i32 {
    let stack = f.bytes();
    validate(&Memory { stack_at: SP, stack: &stack, image_at: LOAD_BASE, image: img }, sp)
}

#[test]
fn a_frame_in_order_passes_every_check() {
    assert_eq!(check(&Frame::good(), &image(), SP), 0);
}

#[test]
fn the_first_check_that_fails_is_the_one_reported() {
    let img = image();
    assert_eq!(check(&Frame::good(), &img, SP + 8), 1);
    let with = |i: usize, w: u64| {
        let mut f = Frame::good();
        f.words[i] = w;
        check(&f, &img, SP)
    };
    assert_eq!(with(0, 2), 2);
    assert_eq!(with(1, SP + 14 * 8 + 1), 3);
    assert_eq!(with(1, 0), 3);
    assert_eq!(with(2, 1), 4);
    assert_eq!(with(3, 1), 5);
    assert_eq!(with(11, 8192), 6);
    assert_eq!(with(10, 99), 6);
    assert_eq!(with(5, LOAD_BASE + 68), 7);
    assert_eq!(with(7, 32), 7);
    assert_eq!(with(9, 0), 7);
    assert_eq!(check(&Frame::good(), &vec![0u8; 256], SP), 7);
    let mut f = Frame::good();
    f.words[12] = 77;
    f.words.extend([77, 0].repeat(8));
    f.words[1] = SP + f.words.len() as u64 * 8;
    let mut b: Vec<u8> = f.words.iter().flat_map(|w| w.to_le_bytes()).collect();
    b.extend_from_slice(b"worker\0");
    b.resize(1024, 1);
    let m = Memory { stack_at: SP, stack: &b, image_at: LOAD_BASE, image: &img };
    assert_eq!(validate(&m, SP), 0, "a zero entry type ends it");
    for i in 0..f.words.len() {
        if i >= 12 && f.words[i] == 0 {
            f.words[i] = 77;
        }
    }
    let mut b: Vec<u8> = f.words.iter().flat_map(|w| w.to_le_bytes()).collect();
    b.extend_from_slice(b"worker\0");
    b.resize(1024, 1);
    let m = Memory { stack_at: SP, stack: &b, image_at: LOAD_BASE, image: &img };
    assert_eq!(validate(&m, SP), 8);
}

#[test]
fn the_auxiliary_vector_is_read_up_to_its_end() {
    let stack = Frame::good().bytes();
    let img = image();
    let m = Memory { stack_at: SP, stack: &stack, image_at: LOAD_BASE, image: &img };
    assert_eq!(auxv_get(&m, SP, 32, AT_PHNUM), Some(2));
    assert_eq!(auxv_get(&m, SP, 32, 1234), None);
    assert!(auxv_terminated(&m, SP, 32));
    assert!(phdrs_are_readable(&m, SP, 32));
    assert_eq!(auxv_get(&m, u64::MAX, 32, AT_PHNUM), None);
}

#[test]
fn a_text_must_end_where_it_is_expected_to() {
    let stack = Frame::good().bytes();
    let m = Memory { stack_at: SP, stack: &stack, image_at: 0, image: &[] };
    let at = SP + 14 * 8;
    assert!(str_eq(&m, at, b"worker"));
    assert!(!str_eq(&m, at, b"work"));
    assert!(!str_eq(&m, at, b"workers"));
    assert!(!str_eq(&m, SP + 250, b"worker"));
}

#[test]
fn success_is_never_exit_code_zero() {
    assert_eq!(exit_status(0), EXEC_STACK_PROBE_PASS);
    for verdict in 1..=8 {
        assert_eq!(exit_status(verdict), verdict);
        assert_ne!(verdict, EXEC_STACK_PROBE_PASS);
    }
}
