//! What the first process says of the paths it exercises.
use vstd::prelude::*;
use vstd::string::*;
use crate::abi::callnr::CDEV_MAX_IO;
use crate::abi::errno::OK;
use crate::abi::execstack::EXEC_STACK_PROBE_PASS;
use crate::abi::rootfs;
use crate::abi::rootfs::{rootfs_scratch_byte, ROOTFS_SCRATCH_PERIOD};
use crate::pm::server;
use crate::text;
use crate::user::line;
use crate::user::line::named_line;
use crate::user::request::{STDERR, STDOUT};

verus! {

/// The first line a user process prints.
pub const HELLO: &'static str = "minix.rs init: hello via VFS write\n";

/// Start of the line that no single transfer can carry.
pub const LOOP_PREFIX: &'static str = "minix.rs init: vfs long write ";

/// Its end, printed only when the server sends again from where it stopped.
pub const LOOP_TAIL: &'static str = "vfs-loop-end\n";

/// Its length.
pub const LOOP_LINE_LEN: usize = CDEV_MAX_IO + 32;

/// A prefix, a rule of dashes, and a tail at the very end.
pub open spec fn loop_line(prefix: Seq<u8>, tail: Seq<u8>) -> Seq<u8> {
    Seq::new(
        288,
        |i: int|
            if i < prefix.len() {
                prefix[i]
            } else if i < 288 - tail.len() {
                45u8
            } else {
                tail[i - (288 - tail.len())]
            },
    )
}

/// The long line.
pub fn loop_line_pattern() -> (b: [u8; 288])
    ensures
        b@ == loop_line(LOOP_PREFIX.spec_bytes(), LOOP_TAIL.spec_bytes()),
{
    let mut b = [45u8;288];
    let prefix = LOOP_PREFIX.as_bytes();
    let tail = LOOP_TAIL.as_bytes();
    proof {
        reveal_strlit("minix.rs init: vfs long write ");
        reveal_strlit("vfs-loop-end\n");
        is_ascii_spec_bytes(LOOP_PREFIX);
        is_ascii_spec_bytes(LOOP_TAIL);
        assert(vstd::utf8::is_ascii_chars(LOOP_PREFIX@));
        assert(vstd::utf8::is_ascii_chars(LOOP_TAIL@));
    }
    let mut i: usize = 0;
    while i < prefix.len()
        invariant
            i <= prefix@.len(),
            prefix@.len() == 30,
            forall|k: int| 0 <= k < i ==> b@[k] == prefix@[k],
            forall|k: int| i <= k < 288 ==> b@[k] == 45u8,
        decreases prefix@.len() - i,
    {
        b[i] = prefix[i];
        i = i + 1;
    }
    let base: usize = LOOP_LINE_LEN - tail.len();
    let mut j: usize = 0;
    while j < tail.len()
        invariant
            j <= tail@.len(),
            tail@.len() == 13,
            base == 275,
            prefix@.len() == 30,
            forall|k: int| 0 <= k < 30 ==> b@[k] == prefix@[k],
            forall|k: int| 30 <= k < 275 ==> b@[k] == 45u8,
            forall|k: int| 0 <= k < j ==> b@[275 + k] == tail@[k],
        decreases tail@.len() - j,
    {
        b[base + j] = tail[j];
        j = j + 1;
    }
    assert(b@ =~= loop_line(prefix@, tail@));
    b
}

/// The tail lies behind what one transfer carries.
pub proof fn law_tail_needs_a_second_transfer(prefix: Seq<u8>, tail: Seq<u8>)
    requires
        tail.len() <= 32,
    ensures
        loop_line(prefix, tail).len() > CDEV_MAX_IO,
        288 - tail.len() >= CDEV_MAX_IO,
{
}

/// What the long write's count says.
pub open spec fn long_text(rc: i32) -> Seq<char> {
    if rc == LOOP_LINE_LEN {
        "minix.rs init: vfs.long ok match=1\n"@
    } else {
        "minix.rs init: vfs.long FAIL\n"@
    }
}

/// Compute [`long_text`].
pub fn long_verdict(rc: i32) -> (s: &'static str)
    ensures
        s@ == long_text(rc),
{
    if rc == LOOP_LINE_LEN as i32 {
        "minix.rs init: vfs.long ok match=1\n"
    } else {
        "minix.rs init: vfs.long FAIL\n"
    }
}

/// What two reads of a short file say: the first moved bytes, and the second was
/// at the end.
pub open spec fn read_text(first: i32, second: i32) -> Seq<char> {
    if first > 0 && second == 0 {
        "minix.rs init: fs.read ok match=1\n"@
    } else {
        "minix.rs init: fs.read FAIL\n"@
    }
}

/// Compute [`read_text`].
pub fn read_verdict(first: i32, second: i32) -> (s: &'static str)
    ensures
        s@ == read_text(first, second),
{
    if first > 0 && second == 0 {
        "minix.rs init: fs.read ok match=1\n"
    } else {
        "minix.rs init: fs.read FAIL\n"
    }
}

/// What two opens, two closes and a third open say: the lowest free descriptor
/// each time.
pub open spec fn fd_text(a: i32, b: i32, closed_a: i32, closed_b: i32, again: i32) -> Seq<char> {
    if a == 3 && b == 4 && closed_a == OK && closed_b == OK && again == 3 {
        "minix.rs init: fs.fd ok match=1\n"@
    } else {
        "minix.rs init: fs.fd FAIL\n"@
    }
}

/// Compute [`fd_text`].
pub fn fd_verdict(a: i32, b: i32, closed_a: i32, closed_b: i32, again: i32) -> (s: &'static str)
    ensures
        s@ == fd_text(a, b, closed_a, closed_b, again),
{
    if a == 3 && b == 4 && closed_a == OK && closed_b == OK && again == 3 {
        "minix.rs init: fs.fd ok match=1\n"
    } else {
        "minix.rs init: fs.fd FAIL\n"
    }
}

/// Bytes written at a time: a whole number of periods of the pattern, and not a
/// whole number of blocks.
pub const SCRATCH_CHUNK: usize = 16 * ROOTFS_SCRATCH_PERIOD;

/// One such piece of the pattern.
pub fn scratch_chunk() -> (b: [u8; 4016])
    ensures
        forall|i: int| 0 <= i < 4016 ==> #[trigger] b@[i] == rootfs::scratch_byte(i),
{
    let mut b = [0u8;4016];
    let mut i: usize = 0;
    while i < SCRATCH_CHUNK
        invariant
            i <= 4016,
            forall|k: int| 0 <= k < i ==> #[trigger] b@[k] == rootfs::scratch_byte(k),
        decreases 4016 - i,
    {
        b[i] = rootfs_scratch_byte(i);
        i = i + 1;
    }
    b
}

/// One piece serves for all: every piece of the pattern that starts at a whole
/// number of pieces is the same.
pub proof fn law_every_chunk_is_the_same(k: int, i: int)
    requires
        0 <= k,
        0 <= i < SCRATCH_CHUNK,
    ensures
        rootfs::scratch_byte(k * SCRATCH_CHUNK + i) == rootfs::scratch_byte(i),
{
    assert((k * 4016 + i) % 251 == i % 251) by {
        assert(k * 4016 + i == 251 * (k * 16) + i) by (nonlinear_arith);
        vstd::arithmetic::div_mod::lemma_mod_multiples_vanish(k * 16, i, 251);
    }
}

/// The exit code in a wait status.
pub open spec fn exit_code(status: i32) -> int {
    (status as int) / 256 % 256
}

/// The line that reports what a program found on its stack, and where it goes:
/// success to the standard output, the rest to the standard error. A program that
/// never told is named apart from one that found something wrong.
pub open spec fn stack_report(status: i32) -> (i32, Seq<char>) {
    let code = exit_code(status);
    if code == EXEC_STACK_PROBE_PASS {
        (STDOUT, "minix.rs init: exec stack ok\n"@)
    } else if code == 0 {
        (STDERR, "minix.rs init: exec stack FAIL "@ + "no-verdict\n"@)
    } else {
        (STDERR, "minix.rs init: exec stack FAIL "@ + ("code="@ + text::decimal(code) + "\n"@))
    }
}

/// Report the exit status of the first program run.
pub fn report_exec_stack(status: i32) -> (r: (i32, String))
    ensures
        (r.0, r.1@) == stack_report(status),
{
    let code: i32 = (status >> 8) & 0xff;
    assert(0 <= code < 256 && code == (status as int) / 256 % 256) by (bit_vector)
        requires
            code == (status >> 8) & 0xff,
    ;
    if code == EXEC_STACK_PROBE_PASS {
        return (STDOUT, "minix.rs init: exec stack ok\n".to_owned());
    }
    if code == 0 {
        return (STDERR, text::concat("minix.rs init: exec stack FAIL ", "no-verdict\n"));
    }
    let digits = text::to_decimal(code as i64);
    let tail = text::concat3("code=", digits.as_str(), "\n");
    (STDERR, text::concat("minix.rs init: exec stack FAIL ", tail.as_str()))
}

/// The code a program exits with is the code that is reported: the manager's
/// encoding keeps its low byte.
pub proof fn law_exit_code_survives(status: i32)
    ensures
        exit_code(server::encoded(status)) == (status as int) % 256,
{
}

/// Report a fixed text on a line of its own.
pub fn report_line(text: &str) -> (v: Vec<u8>)
    ensures
        v@ == line::cut(text.spec_bytes() + seq![10u8]),
{
    proof {
        reveal_strlit("");
        vstd::utf8::is_ascii_chars_encode_utf8(""@);
        assert("".spec_bytes() =~= Seq::<u8>::empty());
        assert(text.spec_bytes() + "".spec_bytes() + seq![10u8] =~= text.spec_bytes() + seq![10u8]);
    }
    named_line(text, "")
}

} // verus!
