//! What the user programs promise: what they ask for is what the servers read, and what
//! they print is what came back.
use vstd::prelude::*;
use vstd::string::*;
use crate::abi::endpoint::Endpoint;
use crate::abi::errno::{EBADF, EINVAL, ENAMETOOLONG, ENOSYS};
use crate::abi::execstack::{AT_NULL, AT_PAGESZ, EXEC_STACK_PROBE_PASS};
use crate::abi::rootfs;
use crate::abi::rootfs::{ROOTFS_HELLO_PATH, ROOTFS_SCRATCH_LEN};
use crate::pm::path;
use crate::pm::server as pm;
use crate::rt::payload;
use crate::text;
use crate::user::bigprog;
use crate::user::cycle::{Cycle, Forked};
use crate::user::denials::UNKNOWN_REQUEST;
use crate::user::line;
use crate::user::read_demo;
use crate::user::report;
use crate::user::request;
use crate::user::request::{STDERR, STDOUT};
use crate::user::worker;
use crate::user::worker::Memory;
use crate::user::write_demo;
use crate::user::write_demo::{Act, Demo};
use crate::vfs::fd;
use crate::vfs::fd::FdRow;
use crate::vfs::open;
use crate::vfs::rw;
use crate::vfs::server as vfs;

verus! {

/// The status a program exits with is the one the process manager reads.
pub proof fn law_exit_status_is_read(status: i32)
    ensures
        payload::i32_field(request::exit_payload(status), 0) == status,
{
    payload::law_i32_round_trip(payload::zero_payload(), 0, status);
}

/// The target of an exec is the one the process manager reads, whole, as long as it has
/// room for its NUL.
pub proof fn law_exec_target_is_read(target: Seq<u8>)
    requires
        0 < target.len() < 64,
        forall|i: int| 0 <= i < target.len() ==> #[trigger] target[i] != 0,
    ensures
        text::until_nul(request::exec_payload(target).subrange(0, 64)) == target,
{
    let q = request::exec_payload(target);
    payload::law_bytes_are_placed_whole(payload::zero_payload(), 0, target);
    let field = q.subrange(0, 64);
    assert forall|i: int| 0 <= i < target.len() implies field[i] == target[i] by {
        assert(q.subrange(0, 0int + target.len())[i] == target[i]);
    }
    text::lemma_until_nul(field, target.len() as int);
    assert(field.take(target.len() as int) =~= target);
}

/// A target that fills the field is cut to it, and has no NUL: it is refused for its
/// length, never run under a shorter name.
pub proof fn law_long_exec_target_is_refused(target: Seq<u8>)
    requires
        target.len() >= 64,
        forall|i: int| 0 <= i < target.len() ==> #[trigger] target[i] != 0,
    ensures
        path::target_of(request::exec_payload(target).subrange(0, 64)) == Err::<path::Named, i32>(
            ENAMETOOLONG,
        ),
{
    let q = request::exec_payload(target);
    let cut = request::exec_target(target);
    assert(cut.len() == 64);
    payload::law_bytes_are_placed_whole(payload::zero_payload(), 0, cut);
    let field = q.subrange(0, 64);
    assert forall|i: int| 0 <= i < 64 implies field[i] != 0 by {
        assert(q.subrange(0, 0int + cut.len())[i] == cut[i]);
        assert(cut[i] == target[i]);
    }
    text::lemma_until_nul(field, 64);
}

/// The path of a staging request lies in its field as it is.
pub proof fn law_stage_path_is_read(path: Seq<u8>)
    requires
        path.len() <= 96,
    ensures
        request::stage_payload(path).subrange(0, path.len() as int) == path,
{
    payload::law_bytes_are_placed_whole(payload::zero_payload(), 0, path);
    assert(request::stage_payload(path).subrange(0, path.len() as int) =~= request::stage_payload(
        path,
    ).subrange(0, 0int + path.len()));
}

/// A line is what was to be printed, or its first 64 bytes.
pub proof fn law_line_is_cut_at_its_end(t: Seq<u8>)
    ensures
        line::cut(t).len() == (if t.len() <= 64 {
            t.len() as int
        } else {
            64
        }),
        line::cut(t) == t.take(line::cut(t).len() as int),
{
    if t.len() <= 64 {
        assert(t.take(t.len() as int) =~= t);
    }
}

/// What is appended fits what is left, and is no less than that or the whole.
pub proof fn law_appending_uses_the_room(len: int, n: int, src: int)
    requires
        0 <= n,
        0 <= len,
        0 <= src,
    ensures
        0 <= line::room(len, n, src) <= src,
        n <= len ==> n + line::room(len, n, src) <= len,
        line::room(len, n, src) < src ==> n + line::room(len, n, src) >= len,
{
}

/// The long line is as long as it says, begins with its prefix, ends with its tail, and
/// has dashes in between.
pub proof fn law_long_line_is_framed(prefix: Seq<u8>, tail: Seq<u8>)
    requires
        prefix.len() + tail.len() <= 288,
    ensures
        report::loop_line(prefix, tail).len() == 288,
        report::loop_line(prefix, tail).take(prefix.len() as int) == prefix,
        report::loop_line(prefix, tail).skip(288 - tail.len()) == tail,
        forall|i: int|
            prefix.len() <= i < 288 - tail.len() ==> #[trigger] report::loop_line(prefix, tail)[i]
                == 45,
{
    assert(report::loop_line(prefix, tail).take(prefix.len() as int) =~= prefix);
    assert(report::loop_line(prefix, tail).skip(288 - tail.len()) =~= tail);
}

/// The verdicts: a long write is good when every byte of the line was counted; two
/// reads are good when the first brought something and the second nothing; descriptors
/// are good when they were handed out lowest first; a big program is good when both ends
/// of its memory are zero. Nothing else is reported as good.
pub proof fn law_verdicts_tell_good_from_bad(a: i32, b: i32, c: i32, d: i32, e: i32, x: u8, y: u8)
    ensures
        report::long_text(a) == "minix.rs init: vfs.long ok match=1\n"@ <==> a == 288,
        report::read_text(a, b) == "minix.rs init: fs.read ok match=1\n"@ <==> a > 0 && b == 0,
        report::fd_text(a, b, c, d, e) == "minix.rs init: fs.fd ok match=1\n"@ <==> a == 3 && b == 4
            && c == 0 && d == 0 && e == 3,
        bigprog::verdict_text(x, y) == "bigprog ok: bss pages mapped\n"@ <==> x == 0 && y == 0,
{
    reveal_strlit("minix.rs init: vfs.long ok match=1\n");
    reveal_strlit("minix.rs init: vfs.long FAIL\n");
    reveal_strlit("minix.rs init: fs.read ok match=1\n");
    reveal_strlit("minix.rs init: fs.read FAIL\n");
    reveal_strlit("minix.rs init: fs.fd ok match=1\n");
    reveal_strlit("minix.rs init: fs.fd FAIL\n");
    reveal_strlit("bigprog ok: bss pages mapped\n");
    reveal_strlit("bigprog FAIL: bss not zeroed\n");
    assert("minix.rs init: vfs.long ok match=1\n"@.len() != "minix.rs init: vfs.long FAIL\n"@.len());
    assert("minix.rs init: fs.read ok match=1\n"@.len() != "minix.rs init: fs.read FAIL\n"@.len());
    assert("minix.rs init: fs.fd ok match=1\n"@.len() != "minix.rs init: fs.fd FAIL\n"@.len());
    assert("bigprog ok: bss pages mapped\n"@[8] != "bigprog FAIL: bss not zeroed\n"@[8]);
}

/// The stack report speaks of the code the program exited with: the status that its exit
/// came to is taken apart again. Success goes to the standard output; a program that
/// never told, and one that found something wrong, to the standard error, the latter
/// with its code.
pub proof fn law_stack_report_names_the_code(code: i32)
    requires
        0 <= code < 256,
    ensures
        code == EXEC_STACK_PROBE_PASS ==> report::stack_report(pm::encoded(code)) == (
            STDOUT,
            "minix.rs init: exec stack ok\n"@,
        ),
        code == 0 ==> report::stack_report(pm::encoded(code)) == (
            STDERR,
            "minix.rs init: exec stack FAIL "@ + "no-verdict\n"@,
        ),
        code != 0 && code != EXEC_STACK_PROBE_PASS ==> report::stack_report(pm::encoded(code)) == (
            STDERR,
            "minix.rs init: exec stack FAIL "@ + ("code="@ + text::decimal(code as int) + "\n"@),
        ),
{
    report::law_exit_code_survives(code);
}

/// The programs take turns: the module first, then the one from the filesystem, and a
/// turn that forked nobody is taken again. Parent and child agree on the program, since
/// it is chosen before they part.
pub proof fn law_programs_take_turns(c: Cycle, m_type: i32)
    ensures
        c.cycle as int % 2 == 0 ==> c.program() == "worker"@,
        c.cycle as int % 2 == 1 ==> c.program() == ROOTFS_HELLO_PATH@,
        c.after_fork(m_type).0 == Forked::Child <==> m_type == 0,
        c.after_fork(m_type).0 == Forked::Parent <==> m_type > 0,
        m_type <= 0 ==> c.after_fork(m_type).1 == c,
        m_type > 0 && c.cycle < usize::MAX ==> c.after_fork(m_type).1.cycle == c.cycle + 1,
        m_type > 0 && c.probe_pid == 0 ==> c.after_fork(m_type).1.probe_pid == m_type,
        m_type > 0 && c.probe_pid != 0 ==> c.after_fork(m_type).1.probe_pid == c.probe_pid,
        c.after_fork(m_type).1.reported == c.reported,
{
}

/// What is found in the vector is the value of the first entry of its type, and that
/// entry comes before the end.
pub proof fn law_vector_entry_is_the_first(m: Memory, auxv: int, want: u64, i: int)
    requires
        0 <= i,
        worker::aux_from(m, auxv, want, i) is Some,
    ensures
        exists|k: int|
            #![trigger m.word(auxv + 16 * k)]
            i <= k < 16 && m.word(auxv + 16 * k) == Some(want) && worker::aux_from(
                m,
                auxv,
                want,
                i,
            ) == m.word(auxv + 16 * k + 8) && forall|j: int|
                #![trigger m.word(auxv + 16 * j)]
                i <= j < k ==> m.word(auxv + 16 * j) != Some(want) && m.word(auxv + 16 * j) != Some(
                    AT_NULL,
                ),
    decreases 16 - i,
{
    if m.word(auxv + 16 * i) != Some(want) {
        law_vector_entry_is_the_first(m, auxv, want, i + 1);
        let k = choose|k: int|
            #![trigger m.word(auxv + 16 * k)]
            i + 1 <= k < 16 && m.word(auxv + 16 * k) == Some(want) && worker::aux_from(
                m,
                auxv,
                want,
                i + 1,
            ) == m.word(auxv + 16 * k + 8) && forall|j: int|
                #![trigger m.word(auxv + 16 * j)]
                i + 1 <= j < k ==> m.word(auxv + 16 * j) != Some(want) && m.word(auxv + 16 * j)
                    != Some(AT_NULL);
        assert(m.word(auxv + 16 * k) == Some(want));
    } else {
        assert(m.word(auxv + 16 * i) == Some(want));
    }
}

/// A frame that passes is a frame a program can start from: aligned to sixteen bytes,
/// with one argument that is the program's name, ended, with no environment, and with
/// a vector that gives the page size and ends.
pub proof fn law_passing_frame_is_in_order(m: Memory, sp: u64)
    requires
        forall|k: int| 1 <= k <= 8 ==> #[trigger] worker::check(m, sp, k),
    ensures
        sp % 16 == 0,
        m.word(sp as int) == Some(1u64),
        m.word(sp + 8) matches Some(va) && worker::text_at(m, va, "worker".spec_bytes()),
        m.word(sp + 16) == Some(0u64),
        m.word(sp + 24) == Some(0u64),
        worker::aux_from(m, sp + 32, AT_PAGESZ, 0) == Some(4096u64),
        worker::headers_found(m, sp + 32),
        exists|i: int| 0 <= i < 16 && #[trigger] m.word(sp + 32 + 16 * i) == Some(AT_NULL),
{
    assert(worker::check(m, sp, 1) && worker::check(m, sp, 2) && worker::check(m, sp, 3));
    assert(worker::check(m, sp, 4) && worker::check(m, sp, 5) && worker::check(m, sp, 6));
    assert(worker::check(m, sp, 7) && worker::check(m, sp, 8));
}

/// The reading exercise, run through: it reads the descriptor it opened, twice, and
/// closes it; then it opens two, closes the first and then the second, opens a third,
/// closes that, and reports exactly what each of these came to.
pub proof fn law_read_exercise_reports_its_results(
    fd: i32,
    n: i32,
    x: i32,
    m: i32,
    a: i32,
    b: i32,
    closed_a: i32,
    closed_b: i32,
    again: i32,
)
    requires
        fd >= 0,
        n > 0,
    ensures
        ({
            let d = read_demo::after(read_demo::Demo::Open, seq![fd, n, x, m]);
            d == (read_demo::Demo::Verdict { fd, n, m })
        }),
        read_demo::after(
            read_demo::Demo::First,
            seq![a, b, closed_a, closed_b, again, x],
        ) == (read_demo::Demo::FdVerdict { a, b, closed_a, closed_b, again }),
        forall|act: read_demo::Act|
            (read_demo::Demo::CloseFirst { a, b }).waits_for(act) ==> act == read_demo::Act::Close(a),
        forall|act: read_demo::Act|
            (read_demo::Demo::CloseSecond { a, b, closed_a }).waits_for(act) ==> act
                == read_demo::Act::Close(b),
{
    reveal_with_fuel(read_demo::after, 7);
    let s = seq![fd, n, x, m];
    assert(s.skip(1) =~= seq![n, x, m]);
    assert(s.skip(1).skip(1) =~= seq![x, m]);
    assert(s.skip(1).skip(1).skip(1) =~= seq![m]);
    let t = seq![a, b, closed_a, closed_b, again, x];
    assert(t.skip(1) =~= seq![b, closed_a, closed_b, again, x]);
    assert(t.skip(1).skip(1) =~= seq![closed_a, closed_b, again, x]);
    assert(t.skip(1).skip(1).skip(1) =~= seq![closed_b, again, x]);
    assert(t.skip(1).skip(1).skip(1).skip(1) =~= seq![again, x]);
    assert(t.skip(1).skip(1).skip(1).skip(1).skip(1) =~= seq![x]);
}

/// The pieces of the writing exercise tile the file: each starts where the last ended
/// and holds the pattern from there, and the file is closed only once the last byte has
/// been written.
pub proof fn law_pieces_tile_the_file(fd: i32, off: usize, rc: i32, data: Seq<u8>, next: Demo)
    requires
        off < ROOTFS_SCRATCH_LEN,
        (Demo::Write { fd, off }).steps(rc, data, next),
        next is Write || next is Close,
    ensures
        rc > 0,
        next matches Demo::Write { fd: f, off: o } ==> f == fd && o == off + rc && o
            < ROOTFS_SCRATCH_LEN,
        next matches Demo::Close { fd: f } ==> f == fd && off + rc == ROOTFS_SCRATCH_LEN,
        forall|act: Act|
            (Demo::Write { fd, off }).waits_for(act) ==> (act matches Act::Write(on, b) && on == fd
                && b@.len() == rc && forall|i: int|
                0 <= i < rc ==> #[trigger] b@[i] == (off + i) % 251),
{
    assert forall|act: Act| (Demo::Write { fd, off }).waits_for(act) implies (act matches
        Act::Write(on, b) && on == fd && b@.len() == rc && forall|i: int|
        0 <= i < rc ==> #[trigger] b@[i] == (off + i) % 251) by {
        if let Act::Write(on, b) = act {
            assert forall|i: int| 0 <= i < rc implies #[trigger] b@[i] == (off + i) % 251 by {
                assert(b@[i] == rootfs::scratch_byte(off + i));
            }
        }
    }
}

/// While the file is read back, every byte read counts once: the descriptor stands as
/// far on as the reads add up to, whether they wind forward or fill a part.
pub proof fn law_reading_back_keeps_its_place(
    fd: i32,
    k: usize,
    w: write_demo::Window,
    rc: i32,
    data: Seq<u8>,
    next: Demo,
)
    requires
        w.wf(),
        (Demo::Verify { fd, k, w }).steps(rc, data, next),
        next is Verify,
    ensures
        next matches Demo::Verify { fd: f, k: j, w: v } && f == fd && (j == k || j == k + 1)
            && v.pos + v.got == w.pos + w.got + rc,
        0 < rc <= 512,
{
}

/// A part is asked for by what is missing: no read goes past where the part starts, nor
/// past where it ends.
pub proof fn law_reads_do_not_overshoot(w: write_demo::Window)
    requires
        w.wf(),
    ensures
        0 < w.want_spec() <= 512,
        w.pos < w.start ==> w.pos + w.want_spec() <= w.start,
        w.pos == w.start ==> w.got + w.want_spec() == 512,
{
}

/// The requests that must be refused are refused by the file server, as expected: a
/// descriptor that is not open, a number that is no request, a negative length, a path
/// that leaves no room for its NUL, and a read of the console.
pub proof fn law_file_server_refuses_the_probes(
    rows: Seq<FdRow>,
    caller: Endpoint,
    peers: vfs::Peers,
    addr: u64,
    len: i32,
    at: u64,
)
    requires
        0 <= vfs::proc_of(caller) < rows.len(),
        rows[vfs::proc_of(caller) as int]@ == fd::default_fds(),
    ensures
        vfs::write_start(
            rows,
            caller,
            rw::request_payload((rw::Request { fd: 3, len, buf: addr })),
            peers,
        ) == vfs::Write::Reply(EBADF),
        vfs::request_of(UNKNOWN_REQUEST) == vfs::Request::Unknown,
        vfs::write_start(
            rows,
            caller,
            rw::request_payload((rw::Request { fd: STDOUT, len: -1i32, buf: addr })),
            peers,
        ) == vfs::Write::Reply(EINVAL),
        vfs::open_start(
            open::request_payload((open::OpenRequest { path: at, len: 64 })),
        ) == vfs::Open::Reply(ENAMETOOLONG),
        vfs::open_start(
            open::request_payload((open::OpenRequest { path: at, len: -1i32 })),
        ) == vfs::Open::Reply(EINVAL),
        vfs::read_start(
            rows,
            caller,
            rw::request_payload((rw::Request { fd: STDOUT, len: 8, buf: addr })),
        ) == vfs::Read::Reply(ENOSYS),
{
    rw::law_parse_reads_back(rw::Request { fd: 3, len, buf: addr });
    rw::law_parse_reads_back(rw::Request { fd: STDOUT, len: -1i32, buf: addr });
    rw::law_parse_reads_back(rw::Request { fd: STDOUT, len: 8, buf: addr });
    open::law_parse_reads_back(open::OpenRequest { path: at, len: 64 });
    open::law_parse_reads_back(open::OpenRequest { path: at, len: -1i32 });
    fd::law_born_with_the_console(rows, vfs::proc_of(caller), 3);
    fd::law_born_with_the_console(rows, vfs::proc_of(caller), STDOUT);
}

} // verus!
