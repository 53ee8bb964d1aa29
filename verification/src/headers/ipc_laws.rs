//! What is read back out of the rendered `ipc.h`: every number it defines, by its
//! name.
use vstd::prelude::*;
use crate::abi::endpoint::{
    ANY, ENDPOINT_GEN_SHIFT, ENDPOINT_MAX_GENERATION, ENDPOINT_PROC_MASK, ENDPOINT_SLOT_TOP, NONE,
    SELF,
};
use crate::abi::ipc::{
    MINIX_KERNINFO, NOTIFY, NOTIFY_MESSAGE, RECEIVE, SEND, SENDA, SENDNB, SENDREC,
};
use crate::headers::builder;
use crate::headers::ipc_h;
use crate::headers::ipc_h::{
    MessageLayout, GUARD, MESSAGE_NOTE, OFFSETOF_NOTE, PACKING, PACKING_NOTE, PRIMITIVES_NOTE,
    SOURCES, TITLE,
};
use crate::headers::macros;
use crate::headers::rows;
use crate::headers::tables;
use crate::text;

verus! {

/// No line of this comment is broken.
proof fn lemma_offsetof_note_lines()
    ensures
        forall|i: int| 0 <= i < OFFSETOF_NOTE@.len() ==> rows::one_line((#[trigger] OFFSETOF_NOTE@[i])@),
{
    reveal_strlit("This header deliberately includes nothing in the common case: it");
    reveal_strlit("describes a kernel ABI and must be usable from freestanding C as well as");
    reveal_strlit("from musl user space. The one thing it needs is offsetof, which comes");
    reveal_strlit("from a compiler builtin under a private name -- both to avoid depending");
    reveal_strlit("on <stddef.h> and to avoid ever colliding with the C library's own");
    reveal_strlit("offsetof macro.");
    reveal_strlit("");
    reveal_strlit("The fallback exists for a hypothetical non-GNU-flavoured compiler; the");
    reveal_strlit("supported toolchain is clang (phase-5 decision D10).");
}

/// No line of this comment is broken.
proof fn lemma_packing_note_lines()
    ensures
        forall|i: int| 0 <= i < PACKING_NOTE@.len() ==> rows::one_line((#[trigger] PACKING_NOTE@[i])@),
{
    reveal_strlit("Endpoint packing. minix.rs deviates from MINIX 3 deliberately: the proc");
    reveal_strlit("field is SIGN-EXTENDED from bit ENDPOINT_GEN_SHIFT-1 to recover negative");
    reveal_strlit("kernel-task slots, rather than MINIX 3's MAX_NR_TASKS offset bias. These");
    reveal_strlit("mirror endpoint.rs::{make_endpoint, endpoint_proc, endpoint_gen}.");
    reveal_strlit("");
    reveal_strlit("The consequence is that _ENDPOINT(0, p) != p for negative p, which is why");
    reveal_strlit("minix/com.h gives every process both a _PROC_NR and an _EP macro.");
}

/// No line of this comment is broken.
proof fn lemma_message_note_lines()
    ensures
        forall|i: int| 0 <= i < MESSAGE_NOTE@.len() ==> rows::one_line((#[trigger] MESSAGE_NOTE@[i])@),
{
    reveal_strlit("The IPC message. Laid out to match kernel-shared's #[repr(C, align(8))]");
    reveal_strlit("Message exactly; the assertions below are generated from the live Rust");
    reveal_strlit("type, so a layout change on either side fails to compile rather than");
    reveal_strlit("silently corrupting every IPC call.");
    reveal_strlit("");
    reveal_strlit("C11 forbids an alignment specifier on a struct type declaration, so the");
    reveal_strlit("_Alignas rides the first member -- a struct's alignment is the maximum of");
    reveal_strlit("its members', which yields the required 8.");
}

/// No line of this comment is broken.
proof fn lemma_primitives_note_lines()
    ensures
        forall|i: int| 0 <= i < PRIMITIVES_NOTE@.len() ==> rows::one_line((#[trigger] PRIMITIVES_NOTE@[i])@),
{
    reveal_strlit("Primitive numbers for the IPC trap. The register that carries them is");
    reveal_strlit("part of the per-architecture trap ABI -- see kernel-shared/src/ipc_const.rs");
    reveal_strlit("and the minix-ipc crate, which are authoritative.");
}

/// The offset macro takes arguments, so it has no row.
proof fn lemma_offsetof_text(t: Seq<char>)
    requires
        macros::whole_lines(t),
    ensures
        rows::adds(t, ipc_h::offsetof_text(t), Seq::empty()),
{
    reveal(ipc_h::offsetof_text);
    reveal_strlit("#define ");
    reveal_strlit("#if defined(__GNUC__) || defined(__clang__)");
    reveal_strlit("_MINIX_OFFSETOF(t, m)");
    reveal_strlit("__builtin_offsetof(t, m)");
    reveal_strlit("#else");
    reveal_strlit("stddef.h");
    reveal_strlit("offsetof");
    reveal_strlit("offsetof(t, m)");
    reveal_strlit("#endif");
    lemma_offsetof_note_lines();
    let t1 = builder::block_comment(t, OFFSETOF_NOTE@);
    rows::lemma_block_comment(t, OFFSETOF_NOTE@);
    assert("#if defined(__GNUC__) || defined(__clang__)"@.take(8)[1] == 'i');
    let t2 = builder::line(t1, "#if defined(__GNUC__) || defined(__clang__)"@);
    rows::lemma_line(t1, "#if defined(__GNUC__) || defined(__clang__)"@);
    rows::lemma_adds_none(t, t1, t2, Seq::empty());
    let t3 = builder::define_raw(t2, "_MINIX_OFFSETOF(t, m)"@, "__builtin_offsetof(t, m)"@);
    rows::lemma_function(t2, "_MINIX_OFFSETOF(t, m)"@, 15, "__builtin_offsetof(t, m)"@);
    rows::lemma_adds_none(t, t2, t3, Seq::empty());
    let t4 = builder::line(t3, "#else"@);
    rows::lemma_line(t3, "#else"@);
    rows::lemma_adds_none(t, t3, t4, Seq::empty());
    let t5 = builder::include_line(t4, "stddef.h"@, "offsetof"@);
    rows::lemma_include_line(t4, "stddef.h"@, "offsetof"@);
    rows::lemma_adds_none(t, t4, t5, Seq::empty());
    let t6 = builder::define_raw(t5, "_MINIX_OFFSETOF(t, m)"@, "offsetof(t, m)"@);
    rows::lemma_function(t5, "_MINIX_OFFSETOF(t, m)"@, 15, "offsetof(t, m)"@);
    rows::lemma_adds_none(t, t5, t6, Seq::empty());
    let t7 = builder::line(t6, "#endif"@);
    rows::lemma_line(t6, "#endif"@);
    rows::lemma_adds_none(t, t6, t7, Seq::empty());
}

/// The packing macros take an argument, so they have no row.
proof fn lemma_packing(t: Seq<char>)
    requires
        macros::whole_lines(t),
    ensures
        rows::adds(t, tables::lines(t, PACKING@, 6), Seq::empty()),
{
    reveal_strlit("#define ");
    reveal_strlit("#define _ENDPOINT(g, p)  (((g) << ENDPOINT_GEN_SHIFT) | ((p) & ENDPOINT_PROC_MASK))");
    reveal_strlit("#define _ENDPOINT_G(e)   ((e) >> ENDPOINT_GEN_SHIFT)");
    reveal_strlit("#define _ENDPOINT_P(e)                                                   \\");
    reveal_strlit("    ((((e) & ENDPOINT_PROC_MASK) & (1 << (ENDPOINT_GEN_SHIFT - 1)))      \\");
    reveal_strlit("        ? (((e) & ENDPOINT_PROC_MASK) | ~ENDPOINT_PROC_MASK)             \\");
    reveal_strlit("        : ((e) & ENDPOINT_PROC_MASK))");
    reveal_with_fuel(tables::lines, 7);
    let a = tables::lines(t, PACKING@, 1);
    let b = tables::lines(t, PACKING@, 2);
    let c = tables::lines(t, PACKING@, 3);
    let d = tables::lines(t, PACKING@, 4);
    let e = tables::lines(t, PACKING@, 5);
    rows::lemma_function_text(t, PACKING@[0]@, 17);
    rows::lemma_function_text(a, PACKING@[1]@, 19);
    rows::lemma_function_text(b, PACKING@[2]@, 19);
    rows::lemma_text(c, PACKING@[3]@);
    rows::lemma_text(d, PACKING@[4]@);
    rows::lemma_text(e, PACKING@[5]@);
    rows::lemma_adds_none(t, a, b, Seq::empty());
    rows::lemma_adds_none(t, b, c, Seq::empty());
    rows::lemma_adds_none(t, c, d, Seq::empty());
    rows::lemma_adds_none(t, d, e, Seq::empty());
    rows::lemma_adds_none(t, e, tables::lines(t, PACKING@, 6), Seq::empty());
}

/// The value of the mask: lower-case hexadecimal.
pub open spec fn mask_value() -> Seq<char> {
    "0x"@ + text::lower_hex(ENDPOINT_PROC_MASK as nat)
}

/// The macros of the section on endpoints.
pub open spec fn endpoints() -> Seq<rows::Row> {
    seq![
        ("ENDPOINT_GEN_SHIFT"@, builder::dec_value(ENDPOINT_GEN_SHIFT as int)),
        ("ENDPOINT_PROC_MASK"@, mask_value()),
        ("ENDPOINT_MAX_GENERATION"@, builder::dec_value(ENDPOINT_MAX_GENERATION as int)),
        ("ENDPOINT_SLOT_TOP"@, builder::dec_value(ENDPOINT_SLOT_TOP as int)),
        ("ANY"@, builder::ep_value(ANY as int)),
        ("NONE"@, builder::ep_value(NONE as int)),
        ("SELF"@, builder::ep_value(SELF as int)),
    ]
}

/// The macros of the section on the primitives.
pub open spec fn primitives() -> Seq<rows::Row> {
    seq![
        ("SEND"@, builder::dec_value(SEND as int)),
        ("RECEIVE"@, builder::dec_value(RECEIVE as int)),
        ("SENDREC"@, builder::dec_value(SENDREC as int)),
        ("NOTIFY"@, builder::dec_value(NOTIFY as int)),
        ("SENDNB"@, builder::dec_value(SENDNB as int)),
        ("SENDA"@, builder::dec_value(SENDA as int)),
        ("MINIX_KERNINFO"@, builder::dec_value(MINIX_KERNINFO as int)),
        ("NOTIFY_MESSAGE"@, builder::hex_value(NOTIFY_MESSAGE as int)),
    ]
}

/// The names of the section on endpoints.
proof fn lemma_endpoint_names()
    ensures
        forall|i: int| 0 <= i < 7 ==> macros::plain_name((#[trigger] endpoints()[i]).0),
        rows::distinct(endpoints()),
        forall|i: int|
            0 <= i < 7 ==> (#[trigger] endpoints()[i]).0.len() > 14 || endpoints()[i].0.len() == 3
                || (endpoints()[i].0.len() == 4 && endpoints()[i].0[3] != 'D'),
{
    reveal_strlit("ENDPOINT_GEN_SHIFT");
    reveal_strlit("ENDPOINT_PROC_MASK");
    reveal_strlit("ENDPOINT_MAX_GENERATION");
    reveal_strlit("ENDPOINT_SLOT_TOP");
    reveal_strlit("ANY");
    reveal_strlit("NONE");
    reveal_strlit("SELF");
    let e = endpoints();
    assert(e[0].0[17] == 'T' && e[1].0[17] == 'K');
    assert(e[2].0.len() == 23 && e[3].0.len() == 17);
    assert(e[4].0.len() == 3 && e[5].0[0] == 'N' && e[6].0[0] == 'S');
    assert(e[5].0[3] == 'E' && e[6].0[3] == 'F');
}

/// The names of the section on the primitives.
proof fn lemma_primitive_names()
    ensures
        forall|i: int| 0 <= i < 8 ==> macros::plain_name((#[trigger] primitives()[i]).0),
        rows::distinct(primitives()),
        forall|i: int|
            0 <= i < 8 ==> 4 <= (#[trigger] primitives()[i]).0.len() <= 14 && (primitives()[i].0.len()
                == 4 ==> primitives()[i].0[3] == 'D'),
{
    reveal_strlit("SEND");
    reveal_strlit("RECEIVE");
    reveal_strlit("SENDREC");
    reveal_strlit("NOTIFY");
    reveal_strlit("SENDNB");
    reveal_strlit("SENDA");
    reveal_strlit("MINIX_KERNINFO");
    reveal_strlit("NOTIFY_MESSAGE");
    let p = primitives();
    assert(p[0].0.len() == 4 && p[0].0[3] == 'D' && p[5].0.len() == 5);
    assert(p[1].0[0] == 'R' && p[2].0[0] == 'S');
    assert(p[3].0[0] == 'N' && p[4].0[0] == 'S');
    assert(p[6].0[0] == 'M' && p[7].0[0] == 'N');
    assert(p[1].0.len() == 7 && p[2].0.len() == 7 && p[3].0.len() == 6 && p[4].0.len() == 6);
    assert(p[6].0.len() == 14 && p[7].0.len() == 14);
}

/// The mask stands on one line.
proof fn lemma_mask_plain()
    ensures
        macros::plain_value(mask_value()),
{
    reveal_strlit("0x");
    let n = ENDPOINT_PROC_MASK as nat;
    macros::lemma_numeral_plain(n, 16);
    let v = mask_value();
    assert forall|i: int| 2 <= i < v.len() implies !text::is_space(#[trigger] v[i]) by {
        let c = text::numeral(n, 16)[i - 2];
        assert(!text::is_space(c));
        assert(v[i] == text::lower_digit(c));
    }
    assert forall|i: int| 0 <= i < v.len() implies v[i] != '\n' by {}
}

/// The section on endpoints adds its rows.
proof fn lemma_endpoints_text(t: Seq<char>)
    requires
        macros::whole_lines(t),
    ensures
        rows::adds(t, ipc_h::endpoints_text(t), endpoints()),
{
    reveal(ipc_h::endpoints_text);
    reveal_strlit("endpoints");
    reveal_strlit("typedef int endpoint_t;");
    reveal_strlit("sizeof(int) == 4");
    reveal_strlit("the minix.rs ABI assumes a 32-bit int for endpoint_t");
    lemma_packing_note_lines();
    lemma_mask_plain();
    lemma_endpoint_names();
    let t1 = builder::section(t, "endpoints"@);
    rows::lemma_section(t, "endpoints"@);
    let t2 = builder::line(t1, "typedef int endpoint_t;"@);
    rows::lemma_text(t1, "typedef int endpoint_t;"@);
    rows::lemma_adds_none(t, t1, t2, Seq::empty());
    let t3 = builder::static_assert(t2, "sizeof(int) == 4"@, "the minix.rs ABI assumes a 32-bit int for endpoint_t"@);
    rows::lemma_static_assert(t2, "sizeof(int) == 4"@, "the minix.rs ABI assumes a 32-bit int for endpoint_t"@);
    rows::lemma_adds_none(t, t2, t3, Seq::empty());
    let t4 = builder::blank(t3);
    rows::lemma_blank(t3);
    rows::lemma_adds_none(t, t3, t4, Seq::empty());
    assert(macros::plain_name(endpoints()[0].0));
    let t5 = builder::define_dec(t4, "ENDPOINT_GEN_SHIFT"@, ENDPOINT_GEN_SHIFT as int);
    rows::lemma_dec(t4, "ENDPOINT_GEN_SHIFT"@, ENDPOINT_GEN_SHIFT as int);
    let r1 = seq![("ENDPOINT_GEN_SHIFT"@, builder::dec_value(ENDPOINT_GEN_SHIFT as int))];
    rows::lemma_adds(t, t4, t5, Seq::empty(), r1);
    assert(Seq::<rows::Row>::empty() + r1 =~= r1);
    assert(macros::plain_name(endpoints()[1].0));
    let t6 = builder::define_raw(t5, "ENDPOINT_PROC_MASK"@, mask_value());
    rows::lemma_raw(t5, "ENDPOINT_PROC_MASK"@, mask_value());
    rows::lemma_adds(t, t5, t6, r1, seq![("ENDPOINT_PROC_MASK"@, mask_value())]);
    let r2 = r1 + seq![("ENDPOINT_PROC_MASK"@, mask_value())];
    assert(macros::plain_name(endpoints()[2].0));
    let t7 = builder::define_dec(t6, "ENDPOINT_MAX_GENERATION"@, ENDPOINT_MAX_GENERATION as int);
    rows::lemma_dec(t6, "ENDPOINT_MAX_GENERATION"@, ENDPOINT_MAX_GENERATION as int);
    rows::lemma_adds(t, t6, t7, r2, seq![("ENDPOINT_MAX_GENERATION"@, builder::dec_value(ENDPOINT_MAX_GENERATION as int))]);
    let r3 = r2 + seq![("ENDPOINT_MAX_GENERATION"@, builder::dec_value(ENDPOINT_MAX_GENERATION as int))];
    assert(macros::plain_name(endpoints()[3].0));
    let t8 = builder::define_dec(t7, "ENDPOINT_SLOT_TOP"@, ENDPOINT_SLOT_TOP as int);
    rows::lemma_dec(t7, "ENDPOINT_SLOT_TOP"@, ENDPOINT_SLOT_TOP as int);
    rows::lemma_adds(t, t7, t8, r3, seq![("ENDPOINT_SLOT_TOP"@, builder::dec_value(ENDPOINT_SLOT_TOP as int))]);
    let r4 = r3 + seq![("ENDPOINT_SLOT_TOP"@, builder::dec_value(ENDPOINT_SLOT_TOP as int))];
    let t9 = builder::blank(t8);
    rows::lemma_blank(t8);
    rows::lemma_adds_none(t, t8, t9, r4);
    assert(macros::plain_name(endpoints()[4].0));
    let t10 = builder::define_ep(t9, "ANY"@, ANY as int);
    rows::lemma_ep(t9, "ANY"@, ANY as int);
    rows::lemma_adds(t, t9, t10, r4, seq![("ANY"@, builder::ep_value(ANY as int))]);
    let r5 = r4 + seq![("ANY"@, builder::ep_value(ANY as int))];
    assert(macros::plain_name(endpoints()[5].0));
    let t11 = builder::define_ep(t10, "NONE"@, NONE as int);
    rows::lemma_ep(t10, "NONE"@, NONE as int);
    rows::lemma_adds(t, t10, t11, r5, seq![("NONE"@, builder::ep_value(NONE as int))]);
    let r6 = r5 + seq![("NONE"@, builder::ep_value(NONE as int))];
    assert(macros::plain_name(endpoints()[6].0));
    let t12 = builder::define_ep(t11, "SELF"@, SELF as int);
    rows::lemma_ep(t11, "SELF"@, SELF as int);
    rows::lemma_adds(t, t11, t12, r6, seq![("SELF"@, builder::ep_value(SELF as int))]);
    let r7 = r6 + seq![("SELF"@, builder::ep_value(SELF as int))];
    let t13 = builder::block_comment(t12, PACKING_NOTE@);
    rows::lemma_block_comment(t12, PACKING_NOTE@);
    rows::lemma_adds_none(t, t12, t13, r7);
    let t14 = tables::lines(t13, PACKING@, 6);
    lemma_packing(t13);
    rows::lemma_adds_none(t, t13, t14, r7);
    assert(r7 =~= endpoints());
}

/// No text of the section on messages is broken, and no line of it starts like a
/// directive.
proof fn lemma_message_words()
    ensures
        rows::one_line("message"@),
        rows::one_line("struct message {"@) && "struct message {"@.len() > 0 && "struct message {"@[0] != '#',
        rows::one_line("    _Alignas(8) endpoint_t m_source;   /* set by the kernel on delivery */"@) && "    _Alignas(8) endpoint_t m_source;   /* set by the kernel on delivery */"@.len() > 0 && "    _Alignas(8) endpoint_t m_source;   /* set by the kernel on delivery */"@[0] != '#',
        rows::one_line("    int                    m_type;     /* call number out, result back  */"@) && "    int                    m_type;     /* call number out, result back  */"@.len() > 0 && "    int                    m_type;     /* call number out, result back  */"@[0] != '#',
        rows::one_line("    unsigned char          payload["@) && "    unsigned char          payload["@.len() > 0 && "    unsigned char          payload["@[0] != '#',
        rows::one_line("];"@),
        rows::one_line("};"@) && "};"@.len() > 0 && "};"@[0] != '#',
        rows::one_line("typedef struct message message;"@) && "typedef struct message message;"@.len() > 0 && "typedef struct message message;"@[0] != '#',
        rows::one_line("sizeof(message) == "@),
        rows::one_line("_Alignof(message) == "@),
        rows::one_line("_MINIX_OFFSETOF(message, m_source) == "@),
        rows::one_line("_MINIX_OFFSETOF(message, m_type) == "@),
        rows::one_line("_MINIX_OFFSETOF(message, payload) == "@),
        rows::one_line("message size drifted from kernel-shared Message"@),
        rows::one_line("message alignment drifted from kernel-shared Message"@),
        rows::one_line("m_source offset drifted from kernel-shared Message"@),
        rows::one_line("m_type offset drifted from kernel-shared Message"@),
        rows::one_line("payload offset drifted from kernel-shared Message"@),
{
    reveal_strlit("message");
    reveal_strlit("struct message {");
    reveal_strlit("    _Alignas(8) endpoint_t m_source;   /* set by the kernel on delivery */");
    reveal_strlit("    int                    m_type;     /* call number out, result back  */");
    reveal_strlit("    unsigned char          payload[");
    reveal_strlit("];");
    reveal_strlit("};");
    reveal_strlit("typedef struct message message;");
    reveal_strlit("sizeof(message) == ");
    reveal_strlit("_Alignof(message) == ");
    reveal_strlit("_MINIX_OFFSETOF(message, m_source) == ");
    reveal_strlit("_MINIX_OFFSETOF(message, m_type) == ");
    reveal_strlit("_MINIX_OFFSETOF(message, payload) == ");
    reveal_strlit("message size drifted from kernel-shared Message");
    reveal_strlit("message alignment drifted from kernel-shared Message");
    reveal_strlit("m_source offset drifted from kernel-shared Message");
    reveal_strlit("m_type offset drifted from kernel-shared Message");
    reveal_strlit("payload offset drifted from kernel-shared Message");
}

/// The section on messages has no row.
#[verifier::rlimit(40)]
proof fn lemma_message_text(t: Seq<char>)
    requires
        macros::whole_lines(t),
    ensures
        rows::adds(t, ipc_h::message_text(t), Seq::empty()),
{
    reveal(ipc_h::message_text);
    lemma_message_words();
    lemma_message_note_lines();
    let l = MessageLayout::spec_measure();
    rows::lemma_decimal_line(l.payload_len as int);
    let t1 = builder::section(t, "message"@);
    rows::lemma_section(t, "message"@);
    let t2 = builder::block_comment(t1, MESSAGE_NOTE@);
    rows::lemma_block_comment(t1, MESSAGE_NOTE@);
    rows::lemma_adds_none(t, t1, t2, Seq::empty());
    let t3 = builder::line(t2, "struct message {"@);
    rows::lemma_text(t2, "struct message {"@);
    rows::lemma_adds_none(t, t2, t3, Seq::empty());
    let t4 = builder::line(t3, "    _Alignas(8) endpoint_t m_source;   /* set by the kernel on delivery */"@);
    rows::lemma_text(t3, "    _Alignas(8) endpoint_t m_source;   /* set by the kernel on delivery */"@);
    rows::lemma_adds_none(t, t3, t4, Seq::empty());
    let t5 = builder::line(t4, "    int                    m_type;     /* call number out, result back  */"@);
    rows::lemma_text(t4, "    int                    m_type;     /* call number out, result back  */"@);
    rows::lemma_adds_none(t, t4, t5, Seq::empty());
    let field = "    unsigned char          payload["@ + text::decimal(l.payload_len as int) + "];"@;
    let t6 = builder::line(t5, field);
    rows::lemma_text(t5, field);
    rows::lemma_adds_none(t, t5, t6, Seq::empty());
    let t7 = builder::line(t6, "};"@);
    rows::lemma_text(t6, "};"@);
    rows::lemma_adds_none(t, t6, t7, Seq::empty());
    let t8 = builder::line(t7, "typedef struct message message;"@);
    rows::lemma_text(t7, "typedef struct message message;"@);
    rows::lemma_adds_none(t, t7, t8, Seq::empty());
    let t9 = builder::blank(t8);
    rows::lemma_blank(t8);
    rows::lemma_adds_none(t, t8, t9, Seq::empty());
    let x0 = "sizeof(message) == "@ + text::decimal(l.size as int);
    rows::lemma_decimal_line(l.size as int);
    let t10 = builder::static_assert(t9, x0, "message size drifted from kernel-shared Message"@);
    rows::lemma_static_assert(t9, x0, "message size drifted from kernel-shared Message"@);
    rows::lemma_adds_none(t, t9, t10, Seq::empty());
    let x1 = "_Alignof(message) == "@ + text::decimal(l.align as int);
    rows::lemma_decimal_line(l.align as int);
    let t11 = builder::static_assert(t10, x1, "message alignment drifted from kernel-shared Message"@);
    rows::lemma_static_assert(t10, x1, "message alignment drifted from kernel-shared Message"@);
    rows::lemma_adds_none(t, t10, t11, Seq::empty());
    let x2 = "_MINIX_OFFSETOF(message, m_source) == "@ + text::decimal(l.m_source_off as int);
    rows::lemma_decimal_line(l.m_source_off as int);
    let t12 = builder::static_assert(t11, x2, "m_source offset drifted from kernel-shared Message"@);
    rows::lemma_static_assert(t11, x2, "m_source offset drifted from kernel-shared Message"@);
    rows::lemma_adds_none(t, t11, t12, Seq::empty());
    let x3 = "_MINIX_OFFSETOF(message, m_type) == "@ + text::decimal(l.m_type_off as int);
    rows::lemma_decimal_line(l.m_type_off as int);
    let t13 = builder::static_assert(t12, x3, "m_type offset drifted from kernel-shared Message"@);
    rows::lemma_static_assert(t12, x3, "m_type offset drifted from kernel-shared Message"@);
    rows::lemma_adds_none(t, t12, t13, Seq::empty());
    let x4 = "_MINIX_OFFSETOF(message, payload) == "@ + text::decimal(l.payload_off as int);
    rows::lemma_decimal_line(l.payload_off as int);
    let t14 = builder::static_assert(t13, x4, "payload offset drifted from kernel-shared Message"@);
    rows::lemma_static_assert(t13, x4, "payload offset drifted from kernel-shared Message"@);
    rows::lemma_adds_none(t, t13, t14, Seq::empty());
}

/// The section on the primitives adds its rows.
proof fn lemma_primitives_text(t: Seq<char>)
    requires
        macros::whole_lines(t),
    ensures
        rows::adds(t, ipc_h::primitives_text(t), primitives()),
{
    reveal(ipc_h::primitives_text);
    reveal_strlit("IPC primitives");
    lemma_primitives_note_lines();
    lemma_primitive_names();
    let t1 = builder::section(t, "IPC primitives"@);
    rows::lemma_section(t, "IPC primitives"@);
    let t2 = builder::block_comment(t1, PRIMITIVES_NOTE@);
    rows::lemma_block_comment(t1, PRIMITIVES_NOTE@);
    rows::lemma_adds_none(t, t1, t2, Seq::empty());
    assert(macros::plain_name(primitives()[0].0));
    let t3 = builder::define_dec(t2, "SEND"@, SEND as int);
    rows::lemma_dec(t2, "SEND"@, SEND as int);
    let r1 = seq![("SEND"@, builder::dec_value(SEND as int))];
    rows::lemma_adds(t, t2, t3, Seq::empty(), r1);
    assert(Seq::<rows::Row>::empty() + r1 =~= r1);
    assert(macros::plain_name(primitives()[1].0));
    let t4 = builder::define_dec(t3, "RECEIVE"@, RECEIVE as int);
    rows::lemma_dec(t3, "RECEIVE"@, RECEIVE as int);
    rows::lemma_adds(t, t3, t4, r1, seq![("RECEIVE"@, builder::dec_value(RECEIVE as int))]);
    let r2 = r1 + seq![("RECEIVE"@, builder::dec_value(RECEIVE as int))];
    assert(macros::plain_name(primitives()[2].0));
    let t5 = builder::define_dec(t4, "SENDREC"@, SENDREC as int);
    rows::lemma_dec(t4, "SENDREC"@, SENDREC as int);
    rows::lemma_adds(t, t4, t5, r2, seq![("SENDREC"@, builder::dec_value(SENDREC as int))]);
    let r3 = r2 + seq![("SENDREC"@, builder::dec_value(SENDREC as int))];
    assert(macros::plain_name(primitives()[3].0));
    let t6 = builder::define_dec(t5, "NOTIFY"@, NOTIFY as int);
    rows::lemma_dec(t5, "NOTIFY"@, NOTIFY as int);
    rows::lemma_adds(t, t5, t6, r3, seq![("NOTIFY"@, builder::dec_value(NOTIFY as int))]);
    let r4 = r3 + seq![("NOTIFY"@, builder::dec_value(NOTIFY as int))];
    assert(macros::plain_name(primitives()[4].0));
    let t7 = builder::define_dec(t6, "SENDNB"@, SENDNB as int);
    rows::lemma_dec(t6, "SENDNB"@, SENDNB as int);
    rows::lemma_adds(t, t6, t7, r4, seq![("SENDNB"@, builder::dec_value(SENDNB as int))]);
    let r5 = r4 + seq![("SENDNB"@, builder::dec_value(SENDNB as int))];
    assert(macros::plain_name(primitives()[5].0));
    let t8 = builder::define_dec(t7, "SENDA"@, SENDA as int);
    rows::lemma_dec(t7, "SENDA"@, SENDA as int);
    rows::lemma_adds(t, t7, t8, r5, seq![("SENDA"@, builder::dec_value(SENDA as int))]);
    let r6 = r5 + seq![("SENDA"@, builder::dec_value(SENDA as int))];
    assert(macros::plain_name(primitives()[6].0));
    let t9 = builder::define_dec(t8, "MINIX_KERNINFO"@, MINIX_KERNINFO as int);
    rows::lemma_dec(t8, "MINIX_KERNINFO"@, MINIX_KERNINFO as int);
    rows::lemma_adds(t, t8, t9, r6, seq![("MINIX_KERNINFO"@, builder::dec_value(MINIX_KERNINFO as int))]);
    let r7 = r6 + seq![("MINIX_KERNINFO"@, builder::dec_value(MINIX_KERNINFO as int))];
    assert(macros::plain_name(primitives()[7].0));
    let t10 = builder::define_hex(t9, "NOTIFY_MESSAGE"@, NOTIFY_MESSAGE as int);
    rows::lemma_hex(t9, "NOTIFY_MESSAGE"@, NOTIFY_MESSAGE as int);
    rows::lemma_adds(t, t9, t10, r7, seq![("NOTIFY_MESSAGE"@, builder::hex_value(NOTIFY_MESSAGE as int))]);
    let r8 = r7 + seq![("NOTIFY_MESSAGE"@, builder::hex_value(NOTIFY_MESSAGE as int))];
    assert(r8 =~= primitives());
}

/// The macros read back out of the header are those of its two sections, in order.
pub proof fn law_macros_read_back()
    ensures
        macros::macros(ipc_h::ipc_text()) == endpoints() + primitives(),
{
    reveal_strlit("IPC message format, endpoint packing, and the IPC primitive numbers.");
    reveal_strlit("kernel-shared/src/message.rs");
    reveal_strlit("kernel-shared/src/endpoint.rs");
    reveal_strlit("kernel-shared/src/ipc_const.rs");
    reveal_strlit("_MINIXRS_IPC_H");
    rows::lemma_banner(TITLE@, SOURCES@);
    let t = builder::banner(TITLE@, SOURCES@);
    let t1 = builder::guard_open(t, GUARD@);
    let t2 = ipc_h::offsetof_text(t1);
    let t3 = ipc_h::endpoints_text(t2);
    let t4 = ipc_h::message_text(t3);
    let t5 = ipc_h::primitives_text(t4);
    let all = endpoints() + primitives();
    rows::lemma_guard_open(t, GUARD@);
    lemma_offsetof_text(t1);
    lemma_endpoints_text(t2);
    lemma_message_text(t3);
    lemma_primitives_text(t4);
    rows::lemma_guard_close(t5, GUARD@);
    rows::lemma_adds_none(t, t1, t2, Seq::empty());
    rows::lemma_adds(t, t2, t3, Seq::empty(), endpoints());
    assert(Seq::<rows::Row>::empty() + endpoints() =~= endpoints());
    rows::lemma_adds_none(t, t3, t4, endpoints());
    rows::lemma_adds(t, t4, t5, endpoints(), primitives());
    rows::lemma_adds_none(t, t5, ipc_h::ipc_text(), all);
    assert(Seq::<rows::Row>::empty() + all =~= all);
}

/// No two macros of the header share a name.
proof fn lemma_distinct()
    ensures
        rows::distinct(endpoints() + primitives()),
{
    lemma_endpoint_names();
    lemma_primitive_names();
    let all = endpoints() + primitives();
    assert forall|i: int, j: int| 0 <= i < j < all.len() implies (#[trigger] all[i]).0 != (
    #[trigger] all[j]).0 by {
        if j < 7 {
            assert(endpoints()[i].0 != endpoints()[j].0);
        } else if i >= 7 {
            assert(primitives()[i - 7].0 != primitives()[j - 7].0);
        } else {
            let a = endpoints()[i].0;
            let b = primitives()[j - 7].0;
            assert(all[i].0 == a && all[j].0 == b);
            assert(a.len() == b.len() ==> a.len() == 4 && a[3] != b[3]);
        }
    }
}

/// What the header says a macro is worth.
#[verifier::opaque]
pub open spec fn value(name: Seq<char>) -> Option<Seq<char>> {
    macros::value_from(macros::macros(ipc_h::ipc_text()), name, 0)
}

/// Macro `k` of the header is found under its name.
proof fn lemma_value(k: int)
    requires
        0 <= k < 15,
    ensures
        value((endpoints() + primitives())[k].0) == Some((endpoints() + primitives())[k].1),
{
    reveal(value);
    law_macros_read_back();
    lemma_distinct();
    rows::lemma_found(endpoints() + primitives(), k, 0);
}

/// Every primitive is read back under its own name, with its own number in decimal;
/// the type of a notification in hexadecimal.
pub proof fn law_primitives_read_back()
    ensures
        value("SEND"@) == Some(text::decimal(SEND as int)),
        value("RECEIVE"@) == Some(text::decimal(RECEIVE as int)),
        value("SENDREC"@) == Some(text::decimal(SENDREC as int)),
        value("NOTIFY"@) == Some(text::decimal(NOTIFY as int)),
        value("SENDNB"@) == Some(text::decimal(SENDNB as int)),
        value("SENDA"@) == Some(text::decimal(SENDA as int)),
        value("MINIX_KERNINFO"@) == Some(text::decimal(MINIX_KERNINFO as int)),
        value("NOTIFY_MESSAGE"@) == Some("0x"@ + text::numeral(NOTIFY_MESSAGE as nat, 16)),
{
    let all = endpoints() + primitives();
    assert(all[7] == primitives()[0]);
    lemma_value(7);
    assert(all[8] == primitives()[1]);
    lemma_value(8);
    assert(all[9] == primitives()[2]);
    lemma_value(9);
    assert(all[10] == primitives()[3]);
    lemma_value(10);
    assert(all[11] == primitives()[4]);
    lemma_value(11);
    assert(all[12] == primitives()[5]);
    lemma_value(12);
    assert(all[13] == primitives()[6]);
    lemma_value(13);
    assert(all[14] == primitives()[7]);
    lemma_value(14);
}

/// Every number of the endpoint packing is read back under its own name, and each of
/// the special endpoints as an endpoint.
pub proof fn law_endpoints_read_back()
    ensures
        value("ENDPOINT_GEN_SHIFT"@) == Some(text::decimal(ENDPOINT_GEN_SHIFT as int)),
        value("ENDPOINT_PROC_MASK"@) == Some("0x"@ + text::lower_hex(ENDPOINT_PROC_MASK as nat)),
        value("ENDPOINT_MAX_GENERATION"@) == Some(text::decimal(ENDPOINT_MAX_GENERATION as int)),
        value("ENDPOINT_SLOT_TOP"@) == Some(text::decimal(ENDPOINT_SLOT_TOP as int)),
        value("ANY"@) == Some("((endpoint_t) "@ + text::decimal(ANY as int) + ")"@),
        value("NONE"@) == Some("((endpoint_t) "@ + text::decimal(NONE as int) + ")"@),
        value("SELF"@) == Some("((endpoint_t) "@ + text::decimal(SELF as int) + ")"@),
{
    let all = endpoints() + primitives();
    assert(all[0] == endpoints()[0]);
    lemma_value(0);
    assert(all[1] == endpoints()[1]);
    lemma_value(1);
    assert(all[2] == endpoints()[2]);
    lemma_value(2);
    assert(all[3] == endpoints()[3]);
    lemma_value(3);
    assert(all[4] == endpoints()[4]);
    lemma_value(4);
    assert(all[5] == endpoints()[5]);
    lemma_value(5);
    assert(all[6] == endpoints()[6]);
    lemma_value(6);
}

} // verus!
