//! `abi-selftest.c`: the translation unit that fires every assertion.
//!
//! A header is never a translation unit on its own, so its assertions never fire.
//! This file pulls in every generated header, twice to exercise the guards, and
//! adds the invariants that span headers.
use vstd::prelude::*;
use crate::headers::builder;
use crate::headers::builder::CFile;
use crate::headers::tables;
use crate::text;

verus! {

pub const TITLE: &'static str = "Compile-time self-check for the generated minix.rs ABI headers.";

/// The files the content is derived from.
pub const SOURCES: [&'static str; 1] = [
    "kernel-shared/src/",
];

/// The generated headers, in dependency order.
pub const HEADERS: [&'static str; 4] = [
    "minix/ipc.h",
    "minix/com.h",
    "minix/callnr.h",
    "minix/errno.h",
];

/// A comment of the file.
pub const TWICE_NOTE: [&'static str; 2] = [
    "Included a second time on purpose: proves every include guard actually",
    "guards, which a single-include check cannot.",
];

/// A comment of the file.
pub const CROSS_NOTE: [&'static str; 4] = [
    "Cross-header invariants. Each of these spans two generated headers, so",
    "none of them can live in a header of its own. (The single-header",
    "assertions -- message layout, endpoint round-trips, the errno band --",
    "fire from the includes above.)",
];

/// A comment of the file.
pub const EMPTY_NOTE: [&'static str; 1] = [
    "ISO C forbids an empty translation unit.",
];

/// The invariants that span headers.
pub const CROSS: [(&'static str, &'static str); 7] = [
    ("PM_RQ_BASE > KERNEL_CALL + NR_KERN_CALLS - 1", "the PM request band overlaps the kernel calls"),
    ("SCHED_RQ_BASE + NR_SCHED_MSGS - 1 < NOTIFY_MESSAGE", "a server request number collides with NOTIFY_MESSAGE"),
    ("ANY != NONE && NONE != SELF && ANY != SELF", "the endpoint sentinels are not distinct"),
    ("SYSTEM_EP != HARDWARE_EP", "two kernel tasks share a boot endpoint"),
    ("PM_EP != VFS_EP", "two boot servers share a boot endpoint"),
    ("sizeof(message) == sizeof(struct message)", "the message typedef and struct disagree"),
    ("OK == 0", "OK must stay 0 -- servers check IPC success against it"),
];

/// `t` and a line that pulls in each of the first `n` headers.
pub open spec fn headers_text(t: Seq<char>, n: int) -> Seq<char>
    decreases n,
{
    if n <= 0 {
        t
    } else {
        builder::line(headers_text(t, n - 1), "#include <"@ + HEADERS@[n - 1]@ + ">"@)
    }
}

/// The text of the file.
pub open spec fn selftest_text() -> Seq<char> {
    let t = headers_text(builder::blank(builder::banner(TITLE@, SOURCES@)), 4);
    let t = headers_text(builder::block_comment(t, TWICE_NOTE@), 4);
    let t = tables::asserts(builder::block_comment(t, CROSS_NOTE@), CROSS@, 7);
    builder::line(builder::block_comment(t, EMPTY_NOTE@), "typedef int minixrs_abi_selftest_tu_;"@)
}

/// Pull in every header.
fn render_headers(f: &mut CFile)
    ensures
        final(f)@ == headers_text(old(f)@, 4),
{
    let all = HEADERS;
    let mut i: usize = 0;
    while i < 4
        invariant
            i <= 4,
            all@ == HEADERS@,
            f@ == headers_text(old(f)@, i as int),
        decreases 4 - i,
    {
        f.line(text::concat3("#include <", all[i], ">").as_str());
        i = i + 1;
    }
}

/// No message holds a double quote.
proof fn lemma_cross_quotes()
    ensures
        tables::quote_free(CROSS@),
{
    reveal_strlit("the PM request band overlaps the kernel calls");
    reveal_strlit("a server request number collides with NOTIFY_MESSAGE");
    reveal_strlit("the endpoint sentinels are not distinct");
    reveal_strlit("two kernel tasks share a boot endpoint");
    reveal_strlit("two boot servers share a boot endpoint");
    reveal_strlit("the message typedef and struct disagree");
    reveal_strlit("OK must stay 0 -- servers check IPC success against it");
}

/// Render the file.
pub fn render() -> (s: String)
    ensures
        s@ == selftest_text(),
{
    proof {
        lemma_cross_quotes();
    }
    let mut f = CFile::new(TITLE, &SOURCES);
    f.blank();
    render_headers(&mut f);
    f.block_comment(&TWICE_NOTE);
    render_headers(&mut f);
    f.block_comment(&CROSS_NOTE);
    tables::static_asserts(&mut f, &CROSS);
    f.block_comment(&EMPTY_NOTE);
    f.line("typedef int minixrs_abi_selftest_tu_;");
    f.finish()
}

} // verus!
