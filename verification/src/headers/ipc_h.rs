//! `ipc.h`: the message struct, endpoint packing, and IPC primitives.
use vstd::prelude::*;
use vstd::string::*;
use crate::abi::endpoint::{
    ANY, ENDPOINT_GEN_SHIFT, ENDPOINT_MAX_GENERATION, ENDPOINT_PROC_MASK, ENDPOINT_SLOT_TOP, NONE,
    SELF,
};
use crate::abi::ipc::{
    MINIX_KERNINFO, NOTIFY, NOTIFY_MESSAGE, RECEIVE, SEND, SENDA, SENDNB, SENDREC,
};
use crate::abi::message::PAYLOAD_LEN;
use crate::headers::builder;
use crate::headers::builder::CFile;
use crate::headers::tables;
use crate::text;

verus! {

/// Guard of the generated header.
pub const GUARD: &'static str = "_MINIXRS_IPC_H";

pub const TITLE: &'static str = "IPC message format, endpoint packing, and the IPC primitive numbers.";

/// The files the content is derived from.
pub const SOURCES: [&'static str; 3] = [
    "kernel-shared/src/message.rs",
    "kernel-shared/src/endpoint.rs",
    "kernel-shared/src/ipc_const.rs",
];

/// A comment of the header.
pub const OFFSETOF_NOTE: [&'static str; 9] = [
    "This header deliberately includes nothing in the common case: it",
    "describes a kernel ABI and must be usable from freestanding C as well as",
    "from musl user space. The one thing it needs is offsetof, which comes",
    "from a compiler builtin under a private name -- both to avoid depending",
    "on <stddef.h> and to avoid ever colliding with the C library's own",
    "offsetof macro.",
    "",
    "The fallback exists for a hypothetical non-GNU-flavoured compiler; the",
    "supported toolchain is clang (phase-5 decision D10).",
];

/// A comment of the header.
pub const PACKING_NOTE: [&'static str; 7] = [
    "Endpoint packing. minix.rs deviates from MINIX 3 deliberately: the proc",
    "field is SIGN-EXTENDED from bit ENDPOINT_GEN_SHIFT-1 to recover negative",
    "kernel-task slots, rather than MINIX 3's MAX_NR_TASKS offset bias. These",
    "mirror endpoint.rs::{make_endpoint, endpoint_proc, endpoint_gen}.",
    "",
    "The consequence is that _ENDPOINT(0, p) != p for negative p, which is why",
    "minix/com.h gives every process both a _PROC_NR and an _EP macro.",
];

/// A comment of the header.
pub const MESSAGE_NOTE: [&'static str; 8] = [
    "The IPC message. Laid out to match kernel-shared's #[repr(C, align(8))]",
    "Message exactly; the assertions below are generated from the live Rust",
    "type, so a layout change on either side fails to compile rather than",
    "silently corrupting every IPC call.",
    "",
    "C11 forbids an alignment specifier on a struct type declaration, so the",
    "_Alignas rides the first member -- a struct's alignment is the maximum of",
    "its members', which yields the required 8.",
];

/// A comment of the header.
pub const PRIMITIVES_NOTE: [&'static str; 3] = [
    "Primitive numbers for the IPC trap. The register that carries them is",
    "part of the per-architecture trap ABI -- see kernel-shared/src/ipc_const.rs",
    "and the minix-ipc crate, which are authoritative.",
];

/// The packing macros, line by line.
pub const PACKING: [&'static str; 6] = [
    "#define _ENDPOINT(g, p)  (((g) << ENDPOINT_GEN_SHIFT) | ((p) & ENDPOINT_PROC_MASK))",
    "#define _ENDPOINT_G(e)   ((e) >> ENDPOINT_GEN_SHIFT)",
    "#define _ENDPOINT_P(e)                                                   \\",
    "    ((((e) & ENDPOINT_PROC_MASK) & (1 << (ENDPOINT_GEN_SHIFT - 1)))      \\",
    "        ? (((e) & ENDPOINT_PROC_MASK) | ~ENDPOINT_PROC_MASK)             \\",
    "        : ((e) & ENDPOINT_PROC_MASK))",
];

/// Where the fields of a message lie, and how large it is.
#[derive(Copy, Clone, Debug, PartialEq, Eq, Structural)]
pub struct MessageLayout {
    pub size: usize,
    pub align: usize,
    pub m_source_off: usize,
    pub m_type_off: usize,
    pub payload_off: usize,
    pub payload_len: usize,
}

impl MessageLayout {
    /// The C layout of a message: two 32-bit words, then the payload, aligned to
    /// eight bytes as a whole.
    pub open spec fn spec_measure() -> MessageLayout {
        MessageLayout {
            size: (8 + PAYLOAD_LEN) as usize,
            align: 8,
            m_source_off: 0,
            m_type_off: 4,
            payload_off: 8,
            payload_len: PAYLOAD_LEN,
        }
    }

    /// Compute the layout.
    pub fn measure() -> (l: MessageLayout)
        ensures
            l == MessageLayout::spec_measure(),
    {
        let payload_off: usize = 8;
        let end: usize = payload_off + PAYLOAD_LEN;
        let size: usize = (end + 7) / 8 * 8;
        MessageLayout {
            size,
            align: 8,
            m_source_off: 0,
            m_type_off: 4,
            payload_off,
            payload_len: PAYLOAD_LEN,
        }
    }
}

/// `t` and the offset macro, with a fallback.
#[verifier::opaque]
pub open spec fn offsetof_text(t: Seq<char>) -> Seq<char> {
    let t = builder::block_comment(t, OFFSETOF_NOTE@);
    let t = builder::line(t, "#if defined(__GNUC__) || defined(__clang__)"@);
    let t = builder::define_raw(t, "_MINIX_OFFSETOF(t, m)"@, "__builtin_offsetof(t, m)"@);
    let t = builder::line(t, "#else"@);
    let t = builder::include_line(t, "stddef.h"@, "offsetof"@);
    let t = builder::define_raw(t, "_MINIX_OFFSETOF(t, m)"@, "offsetof(t, m)"@);
    let t = builder::line(t, "#endif"@);
    t
}

/// Render that part.
fn render_offsetof(f: &mut CFile)
    ensures
        final(f)@ == offsetof_text(old(f)@),
{
    proof {
        reveal(offsetof_text);
    }
    f.block_comment(&OFFSETOF_NOTE);
    f.line("#if defined(__GNUC__) || defined(__clang__)");
    f.define_raw("_MINIX_OFFSETOF(t, m)", "__builtin_offsetof(t, m)");
    f.line("#else");
    f.include_header("stddef.h", "offsetof");
    f.define_raw("_MINIX_OFFSETOF(t, m)", "offsetof(t, m)");
    f.line("#endif");
}

/// `t` and the section on endpoints.
#[verifier::opaque]
pub open spec fn endpoints_text(t: Seq<char>) -> Seq<char> {
    let t = builder::section(t, "endpoints"@);
    let t = builder::line(t, "typedef int endpoint_t;"@);
    let t = builder::static_assert(t, "sizeof(int) == 4"@, "the minix.rs ABI assumes a 32-bit int for endpoint_t"@);
    let t = builder::blank(t);
    let t = builder::define_dec(t, "ENDPOINT_GEN_SHIFT"@, ENDPOINT_GEN_SHIFT as int);
    let t = builder::define_raw(
        t,
        "ENDPOINT_PROC_MASK"@,
        "0x"@ + text::lower_hex(ENDPOINT_PROC_MASK as nat),
    );
    let t = builder::define_dec(t, "ENDPOINT_MAX_GENERATION"@, ENDPOINT_MAX_GENERATION as int);
    let t = builder::define_dec(t, "ENDPOINT_SLOT_TOP"@, ENDPOINT_SLOT_TOP as int);
    let t = builder::blank(t);
    let t = builder::define_ep(t, "ANY"@, ANY as int);
    let t = builder::define_ep(t, "NONE"@, NONE as int);
    let t = builder::define_ep(t, "SELF"@, SELF as int);
    let t = builder::block_comment(t, PACKING_NOTE@);
    let t = tables::lines(t, PACKING@, 6);
    t
}

/// Render that part.
fn render_endpoints(f: &mut CFile)
    ensures
        final(f)@ == endpoints_text(old(f)@),
{
    proof {
        reveal(endpoints_text);
        reveal_strlit("the minix.rs ABI assumes a 32-bit int for endpoint_t");
    }
    f.section("endpoints");
    f.line("typedef int endpoint_t;");
    f.static_assert("sizeof(int) == 4", "the minix.rs ABI assumes a 32-bit int for endpoint_t");
    f.blank();
    f.define_dec("ENDPOINT_GEN_SHIFT", ENDPOINT_GEN_SHIFT as i64);
    f.define_raw(
        "ENDPOINT_PROC_MASK",
        text::concat("0x", text::to_lower_hex(ENDPOINT_PROC_MASK as u64).as_str()).as_str(),
    );
    f.define_dec("ENDPOINT_MAX_GENERATION", ENDPOINT_MAX_GENERATION as i64);
    f.define_dec("ENDPOINT_SLOT_TOP", ENDPOINT_SLOT_TOP as i64);
    f.blank();
    f.define_ep("ANY", ANY);
    f.define_ep("NONE", NONE);
    f.define_ep("SELF", SELF);
    f.block_comment(&PACKING_NOTE);
    tables::add_lines(f, &PACKING);
}

/// `t` and the section on messages.
#[verifier::opaque]
pub open spec fn message_text(t: Seq<char>) -> Seq<char> {
    let t = builder::section(t, "message"@);
    let t = builder::block_comment(t, MESSAGE_NOTE@);
    let t = builder::line(t, "struct message {"@);
    let t = builder::line(t, "    _Alignas(8) endpoint_t m_source;   /* set by the kernel on delivery */"@);
    let t = builder::line(t, "    int                    m_type;     /* call number out, result back  */"@);
    let l = MessageLayout::spec_measure();
    let t = builder::line(
        t,
        "    unsigned char          payload["@ + text::decimal(l.payload_len as int) + "];"@,
    );
    let t = builder::line(t, "};"@);
    let t = builder::line(t, "typedef struct message message;"@);
    let t = builder::blank(t);
    let t = builder::static_assert(
        t,
        "sizeof(message) == "@ + text::decimal(l.size as int),
        "message size drifted from kernel-shared Message"@,
    );
    let t = builder::static_assert(
        t,
        "_Alignof(message) == "@ + text::decimal(l.align as int),
        "message alignment drifted from kernel-shared Message"@,
    );
    let t = builder::static_assert(
        t,
        "_MINIX_OFFSETOF(message, m_source) == "@ + text::decimal(l.m_source_off as int),
        "m_source offset drifted from kernel-shared Message"@,
    );
    let t = builder::static_assert(
        t,
        "_MINIX_OFFSETOF(message, m_type) == "@ + text::decimal(l.m_type_off as int),
        "m_type offset drifted from kernel-shared Message"@,
    );
    let t = builder::static_assert(
        t,
        "_MINIX_OFFSETOF(message, payload) == "@ + text::decimal(l.payload_off as int),
        "payload offset drifted from kernel-shared Message"@,
    );
    t
}

/// Render that part.
fn render_message(f: &mut CFile)
    ensures
        final(f)@ == message_text(old(f)@),
{
    proof {
        reveal(message_text);
        reveal_strlit("message size drifted from kernel-shared Message");
        reveal_strlit("message alignment drifted from kernel-shared Message");
        reveal_strlit("m_source offset drifted from kernel-shared Message");
        reveal_strlit("m_type offset drifted from kernel-shared Message");
        reveal_strlit("payload offset drifted from kernel-shared Message");
    }
    f.section("message");
    f.block_comment(&MESSAGE_NOTE);
    f.line("struct message {");
    f.line("    _Alignas(8) endpoint_t m_source;   /* set by the kernel on delivery */");
    f.line("    int                    m_type;     /* call number out, result back  */");
    let l = MessageLayout::measure();
    f.line(
        text::concat3(
            "    unsigned char          payload[",
            text::to_decimal(l.payload_len as i64).as_str(),
            "];",
        ).as_str(),
    );
    f.line("};");
    f.line("typedef struct message message;");
    f.blank();
    f.static_assert(
        text::concat("sizeof(message) == ", text::to_decimal(l.size as i64).as_str()).as_str(),
        "message size drifted from kernel-shared Message",
    );
    f.static_assert(
        text::concat("_Alignof(message) == ", text::to_decimal(l.align as i64).as_str()).as_str(),
        "message alignment drifted from kernel-shared Message",
    );
    f.static_assert(
        text::concat("_MINIX_OFFSETOF(message, m_source) == ", text::to_decimal(l.m_source_off as i64).as_str()).as_str(),
        "m_source offset drifted from kernel-shared Message",
    );
    f.static_assert(
        text::concat("_MINIX_OFFSETOF(message, m_type) == ", text::to_decimal(l.m_type_off as i64).as_str()).as_str(),
        "m_type offset drifted from kernel-shared Message",
    );
    f.static_assert(
        text::concat("_MINIX_OFFSETOF(message, payload) == ", text::to_decimal(l.payload_off as i64).as_str()).as_str(),
        "payload offset drifted from kernel-shared Message",
    );
}

/// `t` and the section on the IPC primitives.
#[verifier::opaque]
pub open spec fn primitives_text(t: Seq<char>) -> Seq<char> {
    let t = builder::section(t, "IPC primitives"@);
    let t = builder::block_comment(t, PRIMITIVES_NOTE@);
    let t = builder::define_dec(t, "SEND"@, SEND as int);
    let t = builder::define_dec(t, "RECEIVE"@, RECEIVE as int);
    let t = builder::define_dec(t, "SENDREC"@, SENDREC as int);
    let t = builder::define_dec(t, "NOTIFY"@, NOTIFY as int);
    let t = builder::define_dec(t, "SENDNB"@, SENDNB as int);
    let t = builder::define_dec(t, "SENDA"@, SENDA as int);
    let t = builder::define_dec(t, "MINIX_KERNINFO"@, MINIX_KERNINFO as int);
    let t = builder::define_hex(t, "NOTIFY_MESSAGE"@, NOTIFY_MESSAGE as int);
    t
}

/// Render that part.
fn render_primitives(f: &mut CFile)
    ensures
        final(f)@ == primitives_text(old(f)@),
{
    proof {
        reveal(primitives_text);
    }
    f.section("IPC primitives");
    f.block_comment(&PRIMITIVES_NOTE);
    f.define_dec("SEND", SEND as i64);
    f.define_dec("RECEIVE", RECEIVE as i64);
    f.define_dec("SENDREC", SENDREC as i64);
    f.define_dec("NOTIFY", NOTIFY as i64);
    f.define_dec("SENDNB", SENDNB as i64);
    f.define_dec("SENDA", SENDA as i64);
    f.define_dec("MINIX_KERNINFO", MINIX_KERNINFO as i64);
    f.define_hex("NOTIFY_MESSAGE", NOTIFY_MESSAGE as i64);
}

/// The text of the header.
pub open spec fn ipc_text() -> Seq<char> {
    let t = builder::guard_open(builder::banner(TITLE@, SOURCES@), GUARD@);
    let t = primitives_text(message_text(endpoints_text(offsetof_text(t))));
    builder::guard_close(t, GUARD@)
}

/// Render the header.
pub fn render() -> (s: String)
    ensures
        s@ == ipc_text(),
{
    let mut f = CFile::new(TITLE, &SOURCES);
    f.guard_open(GUARD);
    render_offsetof(&mut f);
    render_endpoints(&mut f);
    render_message(&mut f);
    render_primitives(&mut f);
    f.guard_close(GUARD);
    f.finish()
}

} // verus!
