//! What is read back out of the rendered `errno.h` and out of the stand-in for the C
//! library's header: the number of every error, by its name.
use vstd::prelude::*;
use crate::abi::errno::{
    ALL, E2BIG, EACCES, EAGAIN, EBADCALL, EBADF, EBUSY, ECALLDENIED, ECHILD, EDEADLK, EDEADSRCDST,
    EDOM, EDONTREPLY, EEXIST, EFAULT, EFBIG, EINTR, EINVAL, EIO, EISDIR, ELOOP, EMFILE, EMLINK,
    ENAMETOOLONG, ENFILE, ENODEV, ENOENT, ENOEXEC, ENOLCK, ENOMEM, ENOSPC, ENOSYS, ENOTBLK,
    ENOTDIR, ENOTEMPTY, ENOTREADY, ENOTTY, ENXIO, EPERM, EPIPE, ERANGE, EROFS, ESPIPE, ESRCH,
    ETRAPDENIED, ETXTBSY, EXDEV, MINIX_ERRNO_BASE, POSIX_ERRNO_MAX,
};
use crate::headers::builder;
use crate::headers::errno_h;
use crate::headers::errno_h::{
    BAND_NOTE, CHECK_MACRO, GUARD, POLICY_NOTE, POSIX_NOTE, SOURCES, STANDIN_GUARD, STANDIN_NOTE,
    STANDIN_TITLE, TITLE,
};
use crate::headers::macros;
use crate::headers::rows;
use crate::text;

verus! {

/// No line of this comment is broken.
proof fn lemma_policy_note_lines()
    ensures
        forall|i: int| 0 <= i < POLICY_NOTE@.len() ==> rows::one_line((#[trigger] POLICY_NOTE@[i])@),
{
    reveal_strlit("Errno policy (phase-5 decision D7):");
    reveal_strlit("");
    reveal_strlit("  * The POSIX block (1..40) is deliberately NOT defined here. minix.rs");
    reveal_strlit("    adopts musl's numbering verbatim, so those values come from the C");
    reveal_strlit("    library's own <errno.h> and musl's syscall_ret.c convention works");
    reveal_strlit("    unmodified.");
    reveal_strlit("  * The MINIX-specific IPC errnos below live in modern MINIX 3's 200");
    reveal_strlit("    band (sys/sys/errno.h), clear of Linux's entire range, so they can");
    reveal_strlit("    never collide with a musl-visible errno.");
    reveal_strlit("");
    reveal_strlit("Values here are POSITIVE magnitudes, matching the <errno.h> convention.");
    reveal_strlit("The kernel and the Rust servers carry them NEGATED on the wire (see");
    reveal_strlit("kernel-shared/src/error.rs); a libc wrapper negates on the way back out.");
}

/// No line of this comment is broken.
proof fn lemma_band_note_lines()
    ensures
        forall|i: int| 0 <= i < BAND_NOTE@.len() ==> rows::one_line((#[trigger] BAND_NOTE@[i])@),
{
    reveal_strlit("Libc-independent and always on: the band separation is what makes a");
    reveal_strlit("collision with a musl errno impossible.");
}

/// No line of this comment is broken.
proof fn lemma_posix_note_lines()
    ensures
        forall|i: int| 0 <= i < POSIX_NOTE@.len() ==> rows::one_line((#[trigger] POSIX_NOTE@[i])@),
{
    reveal_strlit("Verification of the POSIX block against the C library actually being");
    reveal_strlit("compiled against. Opt-in because it is only meaningful against the musl");
    reveal_strlit("fork: a HOST <errno.h> uses different numbers (Darwin: EDEADLK 11,");
    reveal_strlit("EAGAIN 35), so asserting against it would be wrong -- or, on glibc,");
    reveal_strlit("right for the wrong reason.");
    reveal_strlit("");
    reveal_strlit("tools/build-musl.sh (slice 5.6) defines the macro below so these fire");
    reveal_strlit("against the fork's real bits/errno.h. Until then CI compiles this block");
    reveal_strlit("against a generated stand-in, which checks the syntax and the macro");
    reveal_strlit("spellings but not the values.");
}

/// No line of this comment is broken.
proof fn lemma_standin_note_lines()
    ensures
        forall|i: int| 0 <= i < STANDIN_NOTE@.len() ==> rows::one_line((#[trigger] STANDIN_NOTE@[i])@),
{
    reveal_strlit("NOT A REAL LIBC HEADER.");
    reveal_strlit("");
    reveal_strlit("A stand-in so CI can compile <minixrs/errno.h>'s guarded POSIX");
    reveal_strlit("verification block without a musl sysroot. It is generated from the same");
    reveal_strlit("Rust table those assertions check, so it is a SYNTAX and MACRO-SPELLING");
    reveal_strlit("check, not a value check -- the real value check runs against the fork's");
    reveal_strlit("bits/errno.h from slice 5.6 on.");
    reveal_strlit("");
    reveal_strlit("Never installed into a sysroot; reachable only via an explicit -I.");
}

/// What tells the names of errors apart: the length and three of the letters.
spec fn key(s: Seq<char>) -> (int, char, char, char) {
    (s.len() as int, s[1], s[s.len() - 2], s[s.len() - 1])
}

/// The place of an error in the list, by what its name is told apart by.
spec fn place(k: (int, char, char, char)) -> int {
    if k == (5int, 'P', 'R', 'M') {
        0
    } else if k == (6int, 'N', 'N', 'T') {
        1
    } else if k == (5int, 'S', 'C', 'H') {
        2
    } else if k == (5int, 'I', 'T', 'R') {
        3
    } else if k == (3int, 'I', 'I', 'O') {
        4
    } else if k == (5int, 'N', 'I', 'O') {
        5
    } else if k == (5int, '2', 'I', 'G') {
        6
    } else if k == (7int, 'N', 'E', 'C') {
        7
    } else if k == (5int, 'B', 'D', 'F') {
        8
    } else if k == (6int, 'C', 'L', 'D') {
        9
    } else if k == (6int, 'A', 'I', 'N') {
        10
    } else if k == (6int, 'N', 'E', 'M') {
        11
    } else if k == (6int, 'A', 'E', 'S') {
        12
    } else if k == (6int, 'F', 'L', 'T') {
        13
    } else if k == (7int, 'N', 'L', 'K') {
        14
    } else if k == (5int, 'B', 'S', 'Y') {
        15
    } else if k == (6int, 'E', 'S', 'T') {
        16
    } else if k == (5int, 'X', 'E', 'V') {
        17
    } else if k == (6int, 'N', 'E', 'V') {
        18
    } else if k == (7int, 'N', 'I', 'R') {
        19
    } else if k == (6int, 'I', 'I', 'R') {
        20
    } else if k == (6int, 'I', 'A', 'L') {
        21
    } else if k == (6int, 'N', 'L', 'E') {
        22
    } else if k == (6int, 'M', 'L', 'E') {
        23
    } else if k == (6int, 'N', 'T', 'Y') {
        24
    } else if k == (7int, 'T', 'S', 'Y') {
        25
    } else if k == (5int, 'F', 'I', 'G') {
        26
    } else if k == (6int, 'N', 'P', 'C') {
        27
    } else if k == (6int, 'S', 'P', 'E') {
        28
    } else if k == (5int, 'R', 'F', 'S') {
        29
    } else if k == (6int, 'M', 'N', 'K') {
        30
    } else if k == (5int, 'P', 'P', 'E') {
        31
    } else if k == (4int, 'D', 'O', 'M') {
        32
    } else if k == (6int, 'R', 'G', 'E') {
        33
    } else if k == (7int, 'D', 'L', 'K') {
        34
    } else if k == (12int, 'N', 'N', 'G') {
        35
    } else if k == (6int, 'N', 'C', 'K') {
        36
    } else if k == (6int, 'N', 'Y', 'S') {
        37
    } else if k == (9int, 'N', 'T', 'Y') {
        38
    } else if k == (5int, 'L', 'O', 'P') {
        39
    } else if k == (9int, 'N', 'D', 'Y') {
        40
    } else if k == (11int, 'D', 'S', 'T') {
        41
    } else if k == (10int, 'D', 'L', 'Y') {
        42
    } else if k == (8int, 'B', 'L', 'L') {
        43
    } else if k == (11int, 'C', 'E', 'D') {
        44
    } else if k == (11int, 'T', 'E', 'D') {
        45
    } else {
        -1
    }
}

/// The names of some errors: plain, and at their places.
proof fn lemma_names_0(i: int)
    requires
        0 <= i < 12,
    ensures
        macros::plain_name(ALL@[i].0@),
        place(key(ALL@[i].0@)) == i,
{
    reveal_strlit("EPERM");
    reveal_strlit("ENOENT");
    reveal_strlit("ESRCH");
    reveal_strlit("EINTR");
    reveal_strlit("EIO");
    reveal_strlit("ENXIO");
    reveal_strlit("E2BIG");
    reveal_strlit("ENOEXEC");
    reveal_strlit("EBADF");
    reveal_strlit("ECHILD");
    reveal_strlit("EAGAIN");
    reveal_strlit("ENOMEM");
    assert(key(ALL@[0].0@) == (5int, 'P', 'R', 'M'));
    assert(key(ALL@[1].0@) == (6int, 'N', 'N', 'T'));
    assert(key(ALL@[2].0@) == (5int, 'S', 'C', 'H'));
    assert(key(ALL@[3].0@) == (5int, 'I', 'T', 'R'));
    assert(key(ALL@[4].0@) == (3int, 'I', 'I', 'O'));
    assert(key(ALL@[5].0@) == (5int, 'N', 'I', 'O'));
    assert(key(ALL@[6].0@) == (5int, '2', 'I', 'G'));
    assert(key(ALL@[7].0@) == (7int, 'N', 'E', 'C'));
    assert(key(ALL@[8].0@) == (5int, 'B', 'D', 'F'));
    assert(key(ALL@[9].0@) == (6int, 'C', 'L', 'D'));
    assert(key(ALL@[10].0@) == (6int, 'A', 'I', 'N'));
    assert(key(ALL@[11].0@) == (6int, 'N', 'E', 'M'));
}

/// The names of some errors: plain, and at their places.
proof fn lemma_names_1(i: int)
    requires
        12 <= i < 24,
    ensures
        macros::plain_name(ALL@[i].0@),
        place(key(ALL@[i].0@)) == i,
{
    reveal_strlit("EACCES");
    reveal_strlit("EFAULT");
    reveal_strlit("ENOTBLK");
    reveal_strlit("EBUSY");
    reveal_strlit("EEXIST");
    reveal_strlit("EXDEV");
    reveal_strlit("ENODEV");
    reveal_strlit("ENOTDIR");
    reveal_strlit("EISDIR");
    reveal_strlit("EINVAL");
    reveal_strlit("ENFILE");
    reveal_strlit("EMFILE");
    assert(key(ALL@[12].0@) == (6int, 'A', 'E', 'S'));
    assert(key(ALL@[13].0@) == (6int, 'F', 'L', 'T'));
    assert(key(ALL@[14].0@) == (7int, 'N', 'L', 'K'));
    assert(key(ALL@[15].0@) == (5int, 'B', 'S', 'Y'));
    assert(key(ALL@[16].0@) == (6int, 'E', 'S', 'T'));
    assert(key(ALL@[17].0@) == (5int, 'X', 'E', 'V'));
    assert(key(ALL@[18].0@) == (6int, 'N', 'E', 'V'));
    assert(key(ALL@[19].0@) == (7int, 'N', 'I', 'R'));
    assert(key(ALL@[20].0@) == (6int, 'I', 'I', 'R'));
    assert(key(ALL@[21].0@) == (6int, 'I', 'A', 'L'));
    assert(key(ALL@[22].0@) == (6int, 'N', 'L', 'E'));
    assert(key(ALL@[23].0@) == (6int, 'M', 'L', 'E'));
}

/// The names of some errors: plain, and at their places.
proof fn lemma_names_2(i: int)
    requires
        24 <= i < 36,
    ensures
        macros::plain_name(ALL@[i].0@),
        place(key(ALL@[i].0@)) == i,
{
    reveal_strlit("ENOTTY");
    reveal_strlit("ETXTBSY");
    reveal_strlit("EFBIG");
    reveal_strlit("ENOSPC");
    reveal_strlit("ESPIPE");
    reveal_strlit("EROFS");
    reveal_strlit("EMLINK");
    reveal_strlit("EPIPE");
    reveal_strlit("EDOM");
    reveal_strlit("ERANGE");
    reveal_strlit("EDEADLK");
    reveal_strlit("ENAMETOOLONG");
    assert(key(ALL@[24].0@) == (6int, 'N', 'T', 'Y'));
    assert(key(ALL@[25].0@) == (7int, 'T', 'S', 'Y'));
    assert(key(ALL@[26].0@) == (5int, 'F', 'I', 'G'));
    assert(key(ALL@[27].0@) == (6int, 'N', 'P', 'C'));
    assert(key(ALL@[28].0@) == (6int, 'S', 'P', 'E'));
    assert(key(ALL@[29].0@) == (5int, 'R', 'F', 'S'));
    assert(key(ALL@[30].0@) == (6int, 'M', 'N', 'K'));
    assert(key(ALL@[31].0@) == (5int, 'P', 'P', 'E'));
    assert(key(ALL@[32].0@) == (4int, 'D', 'O', 'M'));
    assert(key(ALL@[33].0@) == (6int, 'R', 'G', 'E'));
    assert(key(ALL@[34].0@) == (7int, 'D', 'L', 'K'));
    assert(key(ALL@[35].0@) == (12int, 'N', 'N', 'G'));
}

/// The names of some errors: plain, and at their places.
proof fn lemma_names_3(i: int)
    requires
        36 <= i < 46,
    ensures
        macros::plain_name(ALL@[i].0@),
        place(key(ALL@[i].0@)) == i,
{
    reveal_strlit("ENOLCK");
    reveal_strlit("ENOSYS");
    reveal_strlit("ENOTEMPTY");
    reveal_strlit("ELOOP");
    reveal_strlit("ENOTREADY");
    reveal_strlit("EDEADSRCDST");
    reveal_strlit("EDONTREPLY");
    reveal_strlit("EBADCALL");
    reveal_strlit("ECALLDENIED");
    reveal_strlit("ETRAPDENIED");
    assert(key(ALL@[36].0@) == (6int, 'N', 'C', 'K'));
    assert(key(ALL@[37].0@) == (6int, 'N', 'Y', 'S'));
    assert(key(ALL@[38].0@) == (9int, 'N', 'T', 'Y'));
    assert(key(ALL@[39].0@) == (5int, 'L', 'O', 'P'));
    assert(key(ALL@[40].0@) == (9int, 'N', 'D', 'Y'));
    assert(key(ALL@[41].0@) == (11int, 'D', 'S', 'T'));
    assert(key(ALL@[42].0@) == (10int, 'D', 'L', 'Y'));
    assert(key(ALL@[43].0@) == (8int, 'B', 'L', 'L'));
    assert(key(ALL@[44].0@) == (11int, 'C', 'E', 'D'));
    assert(key(ALL@[45].0@) == (11int, 'T', 'E', 'D'));
}

/// The name of error `i` of the list: plain, and at its place.
proof fn lemma_name(i: int)
    requires
        0 <= i < 46,
    ensures
        macros::plain_name(ALL@[i].0@),
        place(key(ALL@[i].0@)) == i,
{
    if i < 12 {
        lemma_names_0(i);
    } else if i < 24 {
        lemma_names_1(i);
    } else if i < 36 {
        lemma_names_2(i);
    } else {
        lemma_names_3(i);
    }
}

/// The first forty errors of the list make the POSIX block, in order, each with its
/// sign taken off; the six after them make the other band.
proof fn lemma_bands(n: int)
    requires
        0 <= n <= 46,
    ensures
        errno_h::posix_to(n).len() == (if n < 40 {
            n
        } else {
            40
        }),
        errno_h::minix_to(n).len() == (if n < 40 {
            0
        } else {
            n - 40
        }),
        forall|i: int|
            0 <= i < errno_h::posix_to(n).len() ==> (#[trigger] errno_h::posix_to(n)[i]).0
                == ALL@[i].0 && errno_h::posix_to(n)[i].1 == -ALL@[i].1,
        forall|i: int|
            0 <= i < errno_h::minix_to(n).len() ==> (#[trigger] errno_h::minix_to(n)[i]).0
                == ALL@[40 + i].0 && errno_h::minix_to(n)[i].1 == -ALL@[40 + i].1,
    decreases n,
{
    if n > 0 {
        lemma_bands(n - 1);
        assert(n - 1 < 40 ==> -40 <= ALL@[n - 1].1 < 0);
        assert(n - 1 >= 40 ==> -300 <= ALL@[n - 1].1 <= -200);
    }
}

/// The rows of a list of errors.
pub open spec fn errors(l: Seq<(&'static str, i32)>) -> Seq<rows::Row> {
    Seq::new(l.len(), |i: int| (l[i].0@, builder::dec_value(l[i].1 as int)))
}

/// The two limits of the bands.
pub open spec fn limits() -> Seq<rows::Row> {
    seq![
        ("MINIX_ERRNO_BASE"@, builder::dec_value(MINIX_ERRNO_BASE as int)),
        ("POSIX_ERRNO_MAX"@, builder::dec_value(POSIX_ERRNO_MAX as int)),
    ]
}

/// Every name of a list is the name of a macro.
spec fn named(l: Seq<(&'static str, i32)>) -> bool {
    forall|i: int| 0 <= i < l.len() ==> macros::plain_name((#[trigger] l[i]).0@)
}

/// The names of both bands.
proof fn lemma_named()
    ensures
        named(errno_h::posix_to(46)),
        named(errno_h::minix_to(46)),
{
    lemma_bands(46);
    let p = errno_h::posix_to(46);
    let m = errno_h::minix_to(46);
    assert forall|i: int| 0 <= i < p.len() implies macros::plain_name((#[trigger] p[i]).0@) by {
        lemma_name(i);
    }
    assert forall|i: int| 0 <= i < m.len() implies macros::plain_name((#[trigger] m[i]).0@) by {
        lemma_name(40 + i);
    }
}

/// A plain name stays on one line.
proof fn lemma_plain_line(name: Seq<char>)
    requires
        macros::plain_name(name),
    ensures
        rows::one_line(name),
{
    assert forall|i: int| 0 <= i < name.len() implies #[trigger] name[i] != '\n' && name[i] != '\r' by {
        assert(!text::is_space(name[i]));
    }
}

/// A list of errors adds its rows.
proof fn lemma_values_text(t: Seq<char>, l: Seq<(&'static str, i32)>, n: int)
    requires
        macros::whole_lines(t),
        named(l),
        0 <= n <= l.len(),
    ensures
        rows::adds(t, errno_h::values_text(t, l, n), errors(l).take(n)),
    decreases n,
{
    if n > 0 {
        let before = errno_h::values_text(t, l, n - 1);
        lemma_values_text(t, l, n - 1);
        assert(macros::plain_name(l[n - 1].0@));
        rows::lemma_dec(before, l[n - 1].0@, l[n - 1].1 as int);
        let row = errors(l)[n - 1];
        rows::lemma_adds(
            t,
            before,
            errno_h::values_text(t, l, n),
            errors(l).take(n - 1),
            seq![row],
        );
        assert(errors(l).take(n - 1) + seq![row] =~= errors(l).take(n));
    } else {
        assert(macros::macros(t) + errors(l).take(0) =~= macros::macros(t));
    }
}

/// The assertions on the band add no row.
proof fn lemma_band_text(t: Seq<char>, l: Seq<(&'static str, i32)>, n: int)
    requires
        macros::whole_lines(t),
        named(l),
        0 <= n <= l.len(),
    ensures
        rows::adds(t, errno_h::band_text(t, l, n), Seq::empty()),
    decreases n,
{
    if n > 0 {
        let before = errno_h::band_text(t, l, n - 1);
        lemma_band_text(t, l, n - 1);
        assert(macros::plain_name(l[n - 1].0@));
        lemma_plain_line(l[n - 1].0@);
        reveal_strlit(" >= MINIX_ERRNO_BASE");
        reveal_strlit(" escaped the MINIX errno band");
        rows::lemma_static_assert(
            before,
            l[n - 1].0@ + " >= MINIX_ERRNO_BASE"@,
            l[n - 1].0@ + " escaped the MINIX errno band"@,
        );
        rows::lemma_adds_none(t, before, errno_h::band_text(t, l, n), Seq::empty());
    } else {
        assert(macros::macros(t) + Seq::<rows::Row>::empty() =~= macros::macros(t));
    }
}

/// The assertions on the C library add no row.
proof fn lemma_libc_text(t: Seq<char>, l: Seq<(&'static str, i32)>, n: int)
    requires
        macros::whole_lines(t),
        named(l),
        0 <= n <= l.len(),
    ensures
        rows::adds(t, errno_h::libc_text(t, l, n), Seq::empty()),
    decreases n,
{
    if n > 0 {
        let before = errno_h::libc_text(t, l, n - 1);
        lemma_libc_text(t, l, n - 1);
        assert(macros::plain_name(l[n - 1].0@));
        lemma_plain_line(l[n - 1].0@);
        rows::lemma_decimal_line(l[n - 1].1 as int);
        reveal_strlit(" == ");
        reveal_strlit("libc ");
        reveal_strlit(" disagrees with kernel-shared error.rs");
        rows::lemma_static_assert(
            before,
            l[n - 1].0@ + " == "@ + text::decimal(l[n - 1].1 as int),
            "libc "@ + l[n - 1].0@ + " disagrees with kernel-shared error.rs"@,
        );
        rows::lemma_adds_none(t, before, errno_h::libc_text(t, l, n), Seq::empty());
    } else {
        assert(macros::macros(t) + Seq::<rows::Row>::empty() =~= macros::macros(t));
    }
}

/// The macros of the header, in order.
#[verifier::opaque]
pub open spec fn all() -> Seq<rows::Row> {
    errors(errno_h::minix_to(46)) + limits()
}

/// The banner and the guard define nothing.
proof fn lemma_opening(title: Seq<char>, guard: Seq<char>) -> (t: Seq<char>)
    requires
        rows::one_line(title),
        macros::plain_name(guard),
    ensures
        t == builder::guard_open(builder::banner(title, SOURCES@), guard),
        macros::whole_lines(t),
        macros::macros(t) == Seq::<rows::Row>::empty(),
{
    reveal_strlit("kernel-shared/src/error.rs");
    rows::lemma_banner(title, SOURCES@);
    let t0 = builder::banner(title, SOURCES@);
    rows::lemma_guard_open(t0, guard);
    assert(Seq::<rows::Row>::empty() + Seq::<rows::Row>::empty() =~= Seq::<rows::Row>::empty());
    builder::guard_open(t0, guard)
}

/// The texts around the tables of the header.
proof fn lemma_words()
    ensures
        rows::one_line(TITLE@),
        macros::plain_name(GUARD@),
        rows::one_line("MINIX-specific errnos"@),
        macros::plain_name("MINIX_ERRNO_BASE"@),
        macros::plain_name("POSIX_ERRNO_MAX"@),
        rows::one_line("POSIX block verification (opt-in)"@),
        rows::one_line("errno.h"@),
        rows::one_line("the C library's own POSIX errno values"@),
        rows::one_line("#ifdef "@ + CHECK_MACRO@),
        macros::macro_of("#ifdef "@ + CHECK_MACRO@) is None,
        rows::one_line("#endif /* "@ + CHECK_MACRO@ + " */"@),
        macros::macro_of("#endif /* "@ + CHECK_MACRO@ + " */"@) is None,
{
    reveal_strlit("MINIX-specific errno values, and a check on the C library's POSIX ones.");
    reveal_strlit("_MINIXRS_ERRNO_H");
    reveal_strlit("MINIX-specific errnos");
    reveal_strlit("MINIX_ERRNO_BASE");
    reveal_strlit("POSIX_ERRNO_MAX");
    reveal_strlit("POSIX block verification (opt-in)");
    reveal_strlit("errno.h");
    reveal_strlit("the C library's own POSIX errno values");
    reveal_strlit("MINIXRS_ABI_CHECK_POSIX_ERRNO");
    reveal_strlit("#define ");
    reveal_strlit("#ifdef ");
    reveal_strlit("#endif /* ");
    reveal_strlit(" */");
    assert(("#ifdef "@ + CHECK_MACRO@).take(8)[1] == 'i');
    assert(("#endif /* "@ + CHECK_MACRO@ + " */"@).take(8)[1] == 'e');
}

/// The macros read back out of the header are those of the band and the two limits.
#[verifier::rlimit(40)]
pub proof fn law_macros_read_back()
    ensures
        macros::macros(errno_h::errno_text()) == all(),
{
    reveal(all);
    lemma_words();
    lemma_policy_note_lines();
    lemma_band_note_lines();
    lemma_posix_note_lines();
    lemma_named();
    lemma_bands(46);
    let band = errno_h::minix_to(46);
    let posix = errno_h::posix_to(46);
    let t = lemma_opening(TITLE@, GUARD@);
    let t1 = builder::block_comment(t, POLICY_NOTE@);
    rows::lemma_block_comment(t, POLICY_NOTE@);
    let t2 = builder::section(t1, "MINIX-specific errnos"@);
    rows::lemma_section(t1, "MINIX-specific errnos"@);
    rows::lemma_adds_none(t, t1, t2, Seq::empty());
    assert(errors(band).take(6) =~= errors(band));
    let t3 = errno_h::values_text(t2, band, 6);
    lemma_values_text(t2, band, 6);
    let r1 = errors(band);
    rows::lemma_adds(t, t2, t3, Seq::empty(), r1);
    assert(Seq::<rows::Row>::empty() + r1 =~= r1);
    let t4 = builder::blank(t3);
    rows::lemma_blank(t3);
    rows::lemma_adds_none(t, t3, t4, r1);
    let t5 = builder::define_dec(t4, "MINIX_ERRNO_BASE"@, MINIX_ERRNO_BASE as int);
    rows::lemma_dec(t4, "MINIX_ERRNO_BASE"@, MINIX_ERRNO_BASE as int);
    rows::lemma_adds(t, t4, t5, r1, seq![("MINIX_ERRNO_BASE"@, builder::dec_value(MINIX_ERRNO_BASE as int))]);
    let r2 = r1 + seq![("MINIX_ERRNO_BASE"@, builder::dec_value(MINIX_ERRNO_BASE as int))];
    let t6 = builder::define_dec(t5, "POSIX_ERRNO_MAX"@, POSIX_ERRNO_MAX as int);
    rows::lemma_dec(t5, "POSIX_ERRNO_MAX"@, POSIX_ERRNO_MAX as int);
    rows::lemma_adds(t, t5, t6, r2, seq![("POSIX_ERRNO_MAX"@, builder::dec_value(POSIX_ERRNO_MAX as int))]);
    let r3 = r2 + seq![("POSIX_ERRNO_MAX"@, builder::dec_value(POSIX_ERRNO_MAX as int))];
    let t7 = builder::block_comment(t6, BAND_NOTE@);
    rows::lemma_block_comment(t6, BAND_NOTE@);
    rows::lemma_adds_none(t, t6, t7, r3);
    let t8 = errno_h::band_text(t7, band, 6);
    lemma_band_text(t7, band, 6);
    rows::lemma_adds_none(t, t7, t8, r3);
    let t9 = builder::section(t8, "POSIX block verification (opt-in)"@);
    rows::lemma_section(t8, "POSIX block verification (opt-in)"@);
    rows::lemma_adds_none(t, t8, t9, r3);
    let t10 = builder::block_comment(t9, POSIX_NOTE@);
    rows::lemma_block_comment(t9, POSIX_NOTE@);
    rows::lemma_adds_none(t, t9, t10, r3);
    let t11 = builder::line(t10, "#ifdef "@ + CHECK_MACRO@);
    rows::lemma_line(t10, "#ifdef "@ + CHECK_MACRO@);
    rows::lemma_adds_none(t, t10, t11, r3);
    let t12 = builder::include_line(t11, "errno.h"@, "the C library's own POSIX errno values"@);
    rows::lemma_include_line(t11, "errno.h"@, "the C library's own POSIX errno values"@);
    rows::lemma_adds_none(t, t11, t12, r3);
    let t13 = errno_h::libc_text(t12, posix, 40);
    lemma_libc_text(t12, posix, 40);
    rows::lemma_adds_none(t, t12, t13, r3);
    let t14 = builder::line(t13, "#endif /* "@ + CHECK_MACRO@ + " */"@);
    rows::lemma_line(t13, "#endif /* "@ + CHECK_MACRO@ + " */"@);
    rows::lemma_adds_none(t, t13, t14, r3);
    lemma_plain_line(GUARD@);
    let t15 = builder::guard_close(t14, GUARD@);
    rows::lemma_guard_close(t14, GUARD@);
    rows::lemma_adds_none(t, t14, t15, r3);
    assert(r3 =~= all());
    assert(Seq::<rows::Row>::empty() + all() =~= all());
    assert(t15 == errno_h::errno_text());
}

/// The macros read back out of the stand-in are those of the POSIX block.
pub proof fn law_standin_macros_read_back()
    ensures
        macros::macros(errno_h::standin_text()) == errors(errno_h::posix_to(46)),
{
    reveal_strlit("CI-only stand-in for the C library's <errno.h>.");
    reveal_strlit("_MINIXRS_ABI_CHECK_ERRNO_H");
    lemma_standin_note_lines();
    lemma_named();
    lemma_bands(46);
    let posix = errno_h::posix_to(46);
    let rows = errors(posix);
    let t = lemma_opening(STANDIN_TITLE@, STANDIN_GUARD@);
    let t1 = builder::block_comment(t, STANDIN_NOTE@);
    let t2 = builder::blank(t1);
    let t3 = errno_h::values_text(t2, posix, 40);
    let t4 = builder::guard_close(t3, STANDIN_GUARD@);
    rows::lemma_block_comment(t, STANDIN_NOTE@);
    rows::lemma_blank(t1);
    rows::lemma_adds_none(t, t1, t2, Seq::empty());
    lemma_values_text(t2, posix, 40);
    assert(rows.take(40) =~= rows);
    rows::lemma_adds(t, t2, t3, Seq::empty(), rows);
    assert(Seq::<rows::Row>::empty() + rows =~= rows);
    rows::lemma_guard_close(t3, STANDIN_GUARD@);
    rows::lemma_adds_none(t, t3, t4, rows);
}

/// No two macros of the header share a name, nor do two of the stand-in.
proof fn lemma_distinct()
    ensures
        all().len() == 8,
        rows::distinct(all()),
        errors(errno_h::posix_to(46)).len() == 40,
        rows::distinct(errors(errno_h::posix_to(46))),
{
    reveal(all);
    reveal_strlit("MINIX_ERRNO_BASE");
    reveal_strlit("POSIX_ERRNO_MAX");
    lemma_bands(46);
    let a = all();
    let b = errors(errno_h::posix_to(46));
    assert forall|i: int, j: int| 0 <= i < j < a.len() implies (#[trigger] a[i]).0 != (#[trigger] a[j]).0 by {
        lemma_name(40 + (if i < 6 {
            i
        } else {
            0
        }));
        if i < 6 {
            assert(a[i].0 == ALL@[40 + i].0@);
            if j < 6 {
                lemma_name(40 + j);
                assert(a[j].0 == ALL@[40 + j].0@);
            } else {
                assert(a[j] == limits()[j - 6]);
                assert(place(key(a[j].0)) == -1);
            }
        } else {
            assert(a[i] == limits()[0] && a[j] == limits()[1]);
            assert(a[i].0.len() == 16 && a[j].0.len() == 15);
        }
    }
    assert forall|i: int, j: int| 0 <= i < j < b.len() implies (#[trigger] b[i]).0 != (#[trigger] b[j]).0 by {
        lemma_name(i);
        lemma_name(j);
        assert(b[i].0 == ALL@[i].0@ && b[j].0 == ALL@[j].0@);
    }
}

/// What the header says a macro is worth.
#[verifier::opaque]
pub open spec fn value(name: Seq<char>) -> Option<Seq<char>> {
    macros::value_from(macros::macros(errno_h::errno_text()), name, 0)
}

/// What the stand-in says a macro is worth.
#[verifier::opaque]
pub open spec fn standin_value(name: Seq<char>) -> Option<Seq<char>> {
    macros::value_from(macros::macros(errno_h::standin_text()), name, 0)
}

/// Macro `k` of the header is found under its name.
proof fn lemma_value(k: int)
    requires
        0 <= k < 8,
    ensures
        value(all()[k].0) == Some(all()[k].1),
{
    reveal(value);
    law_macros_read_back();
    lemma_distinct();
    rows::lemma_found(all(), k, 0);
}

/// Every error of the POSIX block is read back out of the stand-in under its name, as a
/// positive number.
pub proof fn law_posix_error_reads_back(i: int)
    requires
        0 <= i < 40,
    ensures
        standin_value(ALL@[i].0@) == Some(text::decimal(-ALL@[i].1)),
{
    reveal(standin_value);
    law_standin_macros_read_back();
    lemma_distinct();
    lemma_bands(46);
    let b = errors(errno_h::posix_to(46));
    rows::lemma_found(b, i, 0);
    assert(errno_h::posix_to(46)[i].0 == ALL@[i].0);
    assert(-40 <= ALL@[i].1 < 0);
}

/// Every error of the other band, and the two limits of the bands, are read back out
/// of the header under their own names, as positive numbers.
pub proof fn law_band_reads_back()
    ensures
        value("ENOTREADY"@) == Some(text::decimal(-ENOTREADY)),
        value("EDEADSRCDST"@) == Some(text::decimal(-EDEADSRCDST)),
        value("EDONTREPLY"@) == Some(text::decimal(-EDONTREPLY)),
        value("EBADCALL"@) == Some(text::decimal(-EBADCALL)),
        value("ECALLDENIED"@) == Some(text::decimal(-ECALLDENIED)),
        value("ETRAPDENIED"@) == Some(text::decimal(-ETRAPDENIED)),
        value("MINIX_ERRNO_BASE"@) == Some(text::decimal(MINIX_ERRNO_BASE as int)),
        value("POSIX_ERRNO_MAX"@) == Some(text::decimal(POSIX_ERRNO_MAX as int)),
{
    lemma_value(0);
    lemma_value(1);
    lemma_value(2);
    lemma_value(3);
    lemma_value(4);
    lemma_value(5);
    lemma_value(6);
    lemma_value(7);
    reveal(all);
    lemma_bands(46);
    let a = all();
    let m = errno_h::minix_to(46);
    assert(m[0].0 == ALL@[40].0 && a[0].0 == ALL@[40].0@ && m[0].1 == -ENOTREADY);
    assert(m[1].0 == ALL@[41].0 && a[1].0 == ALL@[41].0@ && m[1].1 == -EDEADSRCDST);
    assert(m[2].0 == ALL@[42].0 && a[2].0 == ALL@[42].0@ && m[2].1 == -EDONTREPLY);
    assert(m[3].0 == ALL@[43].0 && a[3].0 == ALL@[43].0@ && m[3].1 == -EBADCALL);
    assert(m[4].0 == ALL@[44].0 && a[4].0 == ALL@[44].0@ && m[4].1 == -ECALLDENIED);
    assert(m[5].0 == ALL@[45].0 && a[5].0 == ALL@[45].0@ && m[5].1 == -ETRAPDENIED);
    assert(a[6] == limits()[0] && a[7] == limits()[1]);
}

/// Every error of the POSIX block by name.
pub proof fn law_posix_block_reads_back()
    ensures
        standin_value("EPERM"@) == Some(text::decimal(-EPERM)),
        standin_value("ENOENT"@) == Some(text::decimal(-ENOENT)),
        standin_value("ESRCH"@) == Some(text::decimal(-ESRCH)),
        standin_value("EINTR"@) == Some(text::decimal(-EINTR)),
        standin_value("EIO"@) == Some(text::decimal(-EIO)),
        standin_value("ENXIO"@) == Some(text::decimal(-ENXIO)),
        standin_value("E2BIG"@) == Some(text::decimal(-E2BIG)),
        standin_value("ENOEXEC"@) == Some(text::decimal(-ENOEXEC)),
        standin_value("EBADF"@) == Some(text::decimal(-EBADF)),
        standin_value("ECHILD"@) == Some(text::decimal(-ECHILD)),
        standin_value("EAGAIN"@) == Some(text::decimal(-EAGAIN)),
        standin_value("ENOMEM"@) == Some(text::decimal(-ENOMEM)),
        standin_value("EACCES"@) == Some(text::decimal(-EACCES)),
        standin_value("EFAULT"@) == Some(text::decimal(-EFAULT)),
        standin_value("ENOTBLK"@) == Some(text::decimal(-ENOTBLK)),
        standin_value("EBUSY"@) == Some(text::decimal(-EBUSY)),
        standin_value("EEXIST"@) == Some(text::decimal(-EEXIST)),
        standin_value("EXDEV"@) == Some(text::decimal(-EXDEV)),
        standin_value("ENODEV"@) == Some(text::decimal(-ENODEV)),
        standin_value("ENOTDIR"@) == Some(text::decimal(-ENOTDIR)),
        standin_value("EISDIR"@) == Some(text::decimal(-EISDIR)),
        standin_value("EINVAL"@) == Some(text::decimal(-EINVAL)),
        standin_value("ENFILE"@) == Some(text::decimal(-ENFILE)),
        standin_value("EMFILE"@) == Some(text::decimal(-EMFILE)),
        standin_value("ENOTTY"@) == Some(text::decimal(-ENOTTY)),
        standin_value("ETXTBSY"@) == Some(text::decimal(-ETXTBSY)),
        standin_value("EFBIG"@) == Some(text::decimal(-EFBIG)),
        standin_value("ENOSPC"@) == Some(text::decimal(-ENOSPC)),
        standin_value("ESPIPE"@) == Some(text::decimal(-ESPIPE)),
        standin_value("EROFS"@) == Some(text::decimal(-EROFS)),
        standin_value("EMLINK"@) == Some(text::decimal(-EMLINK)),
        standin_value("EPIPE"@) == Some(text::decimal(-EPIPE)),
        standin_value("EDOM"@) == Some(text::decimal(-EDOM)),
        standin_value("ERANGE"@) == Some(text::decimal(-ERANGE)),
        standin_value("EDEADLK"@) == Some(text::decimal(-EDEADLK)),
        standin_value("ENAMETOOLONG"@) == Some(text::decimal(-ENAMETOOLONG)),
        standin_value("ENOLCK"@) == Some(text::decimal(-ENOLCK)),
        standin_value("ENOSYS"@) == Some(text::decimal(-ENOSYS)),
        standin_value("ENOTEMPTY"@) == Some(text::decimal(-ENOTEMPTY)),
        standin_value("ELOOP"@) == Some(text::decimal(-ELOOP)),
{
    law_posix_error_reads_back(0);
    law_posix_error_reads_back(1);
    law_posix_error_reads_back(2);
    law_posix_error_reads_back(3);
    law_posix_error_reads_back(4);
    law_posix_error_reads_back(5);
    law_posix_error_reads_back(6);
    law_posix_error_reads_back(7);
    law_posix_error_reads_back(8);
    law_posix_error_reads_back(9);
    law_posix_error_reads_back(10);
    law_posix_error_reads_back(11);
    law_posix_error_reads_back(12);
    law_posix_error_reads_back(13);
    law_posix_error_reads_back(14);
    law_posix_error_reads_back(15);
    law_posix_error_reads_back(16);
    law_posix_error_reads_back(17);
    law_posix_error_reads_back(18);
    law_posix_error_reads_back(19);
    law_posix_error_reads_back(20);
    law_posix_error_reads_back(21);
    law_posix_error_reads_back(22);
    law_posix_error_reads_back(23);
    law_posix_error_reads_back(24);
    law_posix_error_reads_back(25);
    law_posix_error_reads_back(26);
    law_posix_error_reads_back(27);
    law_posix_error_reads_back(28);
    law_posix_error_reads_back(29);
    law_posix_error_reads_back(30);
    law_posix_error_reads_back(31);
    law_posix_error_reads_back(32);
    law_posix_error_reads_back(33);
    law_posix_error_reads_back(34);
    law_posix_error_reads_back(35);
    law_posix_error_reads_back(36);
    law_posix_error_reads_back(37);
    law_posix_error_reads_back(38);
    law_posix_error_reads_back(39);
}

} // verus!
