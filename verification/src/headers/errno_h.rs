//! `errno.h`: the IPC-specific error band, and an opt-in check that the C
//! library's POSIX errors agree with this ABI.
//!
//! The POSIX block is never defined here: those values come from the C library.
use vstd::prelude::*;
use vstd::string::*;
use crate::abi::errno::{ALL, MINIX_ERRNO_BASE, POSIX_ERRNO_MAX};
use crate::headers::builder;
use crate::headers::builder::CFile;
use crate::text;

verus! {

/// Guard of the generated header.
pub const GUARD: &'static str = "_MINIXRS_ERRNO_H";

/// Guard of the stand-in for the C library's header.
pub const STANDIN_GUARD: &'static str = "_MINIXRS_ABI_CHECK_ERRNO_H";

/// Opts a translation unit into the POSIX check.
pub const CHECK_MACRO: &'static str = "MINIXRS_ABI_CHECK_POSIX_ERRNO";

pub const TITLE: &'static str = "MINIX-specific errno values, and a check on the C library's POSIX ones.";

pub const STANDIN_TITLE: &'static str = "CI-only stand-in for the C library's <errno.h>.";

/// The files the content is derived from.
pub const SOURCES: [&'static str; 1] = [
    "kernel-shared/src/error.rs",
];

/// A comment of the header.
pub const POLICY_NOTE: [&'static str; 13] = [
    "Errno policy (phase-5 decision D7):",
    "",
    "  * The POSIX block (1..40) is deliberately NOT defined here. minix.rs",
    "    adopts musl's numbering verbatim, so those values come from the C",
    "    library's own <errno.h> and musl's syscall_ret.c convention works",
    "    unmodified.",
    "  * The MINIX-specific IPC errnos below live in modern MINIX 3's 200",
    "    band (sys/sys/errno.h), clear of Linux's entire range, so they can",
    "    never collide with a musl-visible errno.",
    "",
    "Values here are POSITIVE magnitudes, matching the <errno.h> convention.",
    "The kernel and the Rust servers carry them NEGATED on the wire (see",
    "kernel-shared/src/error.rs); a libc wrapper negates on the way back out.",
];

/// A comment of the header.
pub const BAND_NOTE: [&'static str; 2] = [
    "Libc-independent and always on: the band separation is what makes a",
    "collision with a musl errno impossible.",
];

/// A comment of the header.
pub const POSIX_NOTE: [&'static str; 10] = [
    "Verification of the POSIX block against the C library actually being",
    "compiled against. Opt-in because it is only meaningful against the musl",
    "fork: a HOST <errno.h> uses different numbers (Darwin: EDEADLK 11,",
    "EAGAIN 35), so asserting against it would be wrong -- or, on glibc,",
    "right for the wrong reason.",
    "",
    "tools/build-musl.sh (slice 5.6) defines the macro below so these fire",
    "against the fork's real bits/errno.h. Until then CI compiles this block",
    "against a generated stand-in, which checks the syntax and the macro",
    "spellings but not the values.",
];

/// A comment of the header.
pub const STANDIN_NOTE: [&'static str; 9] = [
    "NOT A REAL LIBC HEADER.",
    "",
    "A stand-in so CI can compile <minixrs/errno.h>'s guarded POSIX",
    "verification block without a musl sysroot. It is generated from the same",
    "Rust table those assertions check, so it is a SYNTAX and MACRO-SPELLING",
    "check, not a value check -- the real value check runs against the fork's",
    "bits/errno.h from slice 5.6 on.",
    "",
    "Never installed into a sysroot; reachable only via an explicit -I.",
];

/// The errors of the POSIX block among the first `n`, as positive magnitudes.
pub open spec fn posix_to(n: int) -> Seq<(&'static str, i32)>
    decreases n,
{
    if n <= 0 {
        Seq::empty()
    } else {
        let (name, value) = ALL@[n - 1];
        if -value <= POSIX_ERRNO_MAX {
            posix_to(n - 1).push((name, (-value) as i32))
        } else {
            posix_to(n - 1)
        }
    }
}

/// The errors of the IPC-specific band among the first `n`, as positive
/// magnitudes.
pub open spec fn minix_to(n: int) -> Seq<(&'static str, i32)>
    decreases n,
{
    if n <= 0 {
        Seq::empty()
    } else {
        let (name, value) = ALL@[n - 1];
        if -value >= MINIX_ERRNO_BASE {
            minix_to(n - 1).push((name, (-value) as i32))
        } else {
            minix_to(n - 1)
        }
    }
}

/// Every error is negative, and its name holds no double quote.
proof fn lemma_all(i: int)
    requires
        0 <= i < 46,
    ensures
        -300 < ALL@[i].1 < 0,
        !ALL@[i].0@.contains('"'),
{
    reveal_strlit("EPERM");
    reveal_strlit("ENOENT");
    reveal_strlit("ESRCH");
    reveal_strlit("EINTR");
    reveal_strlit("EIO");
    reveal_strlit("ENXIO");
    reveal_strlit("E2BIG");
    reveal_strlit("ENOEXEC");
    reveal_strlit("EBADF");
    reveal_strlit("ECHILD");
    reveal_strlit("EAGAIN");
    reveal_strlit("ENOMEM");
    reveal_strlit("EACCES");
    reveal_strlit("EFAULT");
    reveal_strlit("ENOTBLK");
    reveal_strlit("EBUSY");
    reveal_strlit("EEXIST");
    reveal_strlit("EXDEV");
    reveal_strlit("ENODEV");
    reveal_strlit("ENOTDIR");
    reveal_strlit("EISDIR");
    reveal_strlit("EINVAL");
    reveal_strlit("ENFILE");
    reveal_strlit("EMFILE");
    reveal_strlit("ENOTTY");
    reveal_strlit("ETXTBSY");
    reveal_strlit("EFBIG");
    reveal_strlit("ENOSPC");
    reveal_strlit("ESPIPE");
    reveal_strlit("EROFS");
    reveal_strlit("EMLINK");
    reveal_strlit("EPIPE");
    reveal_strlit("EDOM");
    reveal_strlit("ERANGE");
    reveal_strlit("EDEADLK");
    reveal_strlit("ENAMETOOLONG");
    reveal_strlit("ENOLCK");
    reveal_strlit("ENOSYS");
    reveal_strlit("ENOTEMPTY");
    reveal_strlit("ELOOP");
    reveal_strlit("ENOTREADY");
    reveal_strlit("EDEADSRCDST");
    reveal_strlit("EDONTREPLY");
    reveal_strlit("EBADCALL");
    reveal_strlit("ECALLDENIED");
    reveal_strlit("ETRAPDENIED");
}

/// The names of a list of errors hold no double quote.
pub open spec fn quote_free_names(l: Seq<(&'static str, i32)>) -> bool {
    forall|i: int| 0 <= i < l.len() ==> !(#[trigger] l[i]).0@.contains('"')
}

/// Name and magnitude of each error of the POSIX block, in declaration order.
pub fn posix_block() -> (v: Vec<(&'static str, i32)>)
    ensures
        v@ == posix_to(46),
        quote_free_names(v@),
{
    let all = ALL;
    let mut v: Vec<(&'static str, i32)> = Vec::new();
    let mut i: usize = 0;
    while i < 46
        invariant
            i <= 46,
            all@ == ALL@,
            v@ == posix_to(i as int),
            quote_free_names(v@),
        decreases 46 - i,
    {
        proof {
            lemma_all(i as int);
        }
        let (name, value) = all[i];
        if -value <= POSIX_ERRNO_MAX {
            v.push((name, -value));
        }
        i = i + 1;
    }
    v
}

/// Name and magnitude of each error of the IPC-specific band.
pub fn minix_band() -> (v: Vec<(&'static str, i32)>)
    ensures
        v@ == minix_to(46),
        quote_free_names(v@),
{
    let all = ALL;
    let mut v: Vec<(&'static str, i32)> = Vec::new();
    let mut i: usize = 0;
    while i < 46
        invariant
            i <= 46,
            all@ == ALL@,
            v@ == minix_to(i as int),
            quote_free_names(v@),
        decreases 46 - i,
    {
        proof {
            lemma_all(i as int);
        }
        let (name, value) = all[i];
        if -value >= MINIX_ERRNO_BASE {
            v.push((name, -value));
        }
        i = i + 1;
    }
    v
}

/// The two bands partition the errors: each belongs to exactly one.
pub proof fn law_bands_partition(n: int)
    requires
        0 <= n <= 46,
    ensures
        posix_to(n).len() + minix_to(n).len() == n,
        forall|i: int| 0 <= i < posix_to(n).len() ==> 1 <= (#[trigger] posix_to(n)[i]).1 <= 40,
        forall|i: int| 0 <= i < minix_to(n).len() ==> (#[trigger] minix_to(n)[i]).1 >= 200,
    decreases n,
{
    if n > 0 {
        lemma_all(n - 1);
        law_bands_partition(n - 1);
        assert(-ALL@[n - 1].1 <= 40 || -ALL@[n - 1].1 >= 200);
    }
}

/// `t` and a macro for each of the first `n` errors of a list.
pub open spec fn values_text(t: Seq<char>, l: Seq<(&'static str, i32)>, n: int) -> Seq<char>
    decreases n,
{
    if n <= 0 {
        t
    } else {
        builder::define_dec(values_text(t, l, n - 1), l[n - 1].0@, l[n - 1].1 as int)
    }
}

/// `t` and the assertion, for each of the first `n` errors of a list, that it
/// stays in its band.
pub open spec fn band_text(t: Seq<char>, l: Seq<(&'static str, i32)>, n: int) -> Seq<char>
    decreases n,
{
    if n <= 0 {
        t
    } else {
        builder::static_assert(
            band_text(t, l, n - 1),
            l[n - 1].0@ + " >= MINIX_ERRNO_BASE"@,
            l[n - 1].0@ + " escaped the MINIX errno band"@,
        )
    }
}

/// `t` and the assertion, for each of the first `n` errors of a list, that the C
/// library gives it the same number.
pub open spec fn libc_text(t: Seq<char>, l: Seq<(&'static str, i32)>, n: int) -> Seq<char>
    decreases n,
{
    if n <= 0 {
        t
    } else {
        builder::static_assert(
            libc_text(t, l, n - 1),
            l[n - 1].0@ + " == "@ + text::decimal(l[n - 1].1 as int),
            "libc "@ + l[n - 1].0@ + " disagrees with kernel-shared error.rs"@,
        )
    }
}

/// The text of the header.
pub open spec fn errno_text() -> Seq<char> {
    let band = minix_to(46);
    let posix = posix_to(46);
    let t = builder::guard_open(builder::banner(TITLE@, SOURCES@), GUARD@);
    let t = builder::block_comment(t, POLICY_NOTE@);
    let t = builder::section(t, "MINIX-specific errnos"@);
    let t = values_text(t, band, band.len() as int);
    let t = builder::define_dec(
        builder::blank(t),
        "MINIX_ERRNO_BASE"@,
        MINIX_ERRNO_BASE as int,
    );
    let t = builder::define_dec(t, "POSIX_ERRNO_MAX"@, POSIX_ERRNO_MAX as int);
    let t = builder::block_comment(t, BAND_NOTE@);
    let t = band_text(t, band, band.len() as int);
    let t = builder::section(t, "POSIX block verification (opt-in)"@);
    let t = builder::block_comment(t, POSIX_NOTE@);
    let t = builder::line(t, "#ifdef "@ + CHECK_MACRO@);
    let t = builder::include_line(t, "errno.h"@, "the C library's own POSIX errno values"@);
    let t = libc_text(t, posix, posix.len() as int);
    let t = builder::line(t, "#endif /* "@ + CHECK_MACRO@ + " */"@);
    builder::guard_close(t, GUARD@)
}

/// The text of the stand-in for the C library's header.
pub open spec fn standin_text() -> Seq<char> {
    let posix = posix_to(46);
    let t = builder::guard_open(builder::banner(STANDIN_TITLE@, SOURCES@), STANDIN_GUARD@);
    let t = builder::block_comment(t, STANDIN_NOTE@);
    let t = values_text(builder::blank(t), posix, posix.len() as int);
    builder::guard_close(t, STANDIN_GUARD@)
}

/// Define every error of a list.
fn render_values(f: &mut CFile, l: &Vec<(&'static str, i32)>)
    ensures
        final(f)@ == values_text(old(f)@, l@, l@.len() as int),
{
    let mut i: usize = 0;
    while i < l.len()
        invariant
            i <= l@.len(),
            f@ == values_text(old(f)@, l@, i as int),
        decreases l@.len() - i,
    {
        f.define_dec(l[i].0, l[i].1 as i64);
        i = i + 1;
    }
}

/// Assert that every error of a list stays in its band.
fn render_band(f: &mut CFile, l: &Vec<(&'static str, i32)>)
    requires
        quote_free_names(l@),
    ensures
        final(f)@ == band_text(old(f)@, l@, l@.len() as int),
{
    let mut i: usize = 0;
    while i < l.len()
        invariant
            i <= l@.len(),
            quote_free_names(l@),
            f@ == band_text(old(f)@, l@, i as int),
        decreases l@.len() - i,
    {
        let name = l[i].0;
        let expr = text::concat(name, " >= MINIX_ERRNO_BASE");
        let msg = text::concat(name, " escaped the MINIX errno band");
        proof {
            reveal_strlit(" escaped the MINIX errno band");
            assert(!l@[i as int].0@.contains('"'));
        }
        f.static_assert(expr.as_str(), msg.as_str());
        i = i + 1;
    }
}

/// Assert that the C library agrees on every error of a list.
fn render_libc(f: &mut CFile, l: &Vec<(&'static str, i32)>)
    requires
        quote_free_names(l@),
    ensures
        final(f)@ == libc_text(old(f)@, l@, l@.len() as int),
{
    let mut i: usize = 0;
    while i < l.len()
        invariant
            i <= l@.len(),
            quote_free_names(l@),
            f@ == libc_text(old(f)@, l@, i as int),
        decreases l@.len() - i,
    {
        let name = l[i].0;
        let expr = text::concat3(name, " == ", text::to_decimal(l[i].1 as i64).as_str());
        let msg = text::concat3("libc ", name, " disagrees with kernel-shared error.rs");
        proof {
            reveal_strlit("libc ");
            reveal_strlit(" disagrees with kernel-shared error.rs");
            assert(!l@[i as int].0@.contains('"'));
        }
        f.static_assert(expr.as_str(), msg.as_str());
        i = i + 1;
    }
}

/// Render the header.
pub fn render() -> (s: String)
    ensures
        s@ == errno_text(),
{
    let band = minix_band();
    let posix = posix_block();
    let mut f = CFile::new(TITLE, &SOURCES);
    f.guard_open(GUARD);
    f.block_comment(&POLICY_NOTE);
    f.section("MINIX-specific errnos");
    render_values(&mut f, &band);
    f.blank();
    f.define_dec("MINIX_ERRNO_BASE", MINIX_ERRNO_BASE as i64);
    f.define_dec("POSIX_ERRNO_MAX", POSIX_ERRNO_MAX as i64);
    f.block_comment(&BAND_NOTE);
    render_band(&mut f, &band);
    f.section("POSIX block verification (opt-in)");
    f.block_comment(&POSIX_NOTE);
    f.line(text::concat("#ifdef ", CHECK_MACRO).as_str());
    f.include_header("errno.h", "the C library's own POSIX errno values");
    render_libc(&mut f, &posix);
    f.line(text::concat3("#endif /* ", CHECK_MACRO, " */").as_str());
    f.guard_close(GUARD);
    f.finish()
}

/// Render the stand-in for the C library's header, so that the opt-in check can
/// be compiled without a C library. It proves the syntax and the macro names, not
/// the values.
pub fn render_standin() -> (s: String)
    ensures
        s@ == standin_text(),
{
    let posix = posix_block();
    let mut f = CFile::new(STANDIN_TITLE, &SOURCES);
    f.guard_open(STANDIN_GUARD);
    f.block_comment(&STANDIN_NOTE);
    f.blank();
    render_values(&mut f, &posix);
    f.guard_close(STANDIN_GUARD);
    f.finish()
}

} // verus!
