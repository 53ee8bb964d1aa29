//! What is read back out of the rendered `callnr.h`: every number of its tables and
//! bands, by its name.
use vstd::prelude::*;
use crate::abi::callnr::KERNEL_CALL;
use crate::abi::grant::{GRANT_INVALID, GRANT_SHIFT};
use crate::headers::builder;
use crate::headers::callnr_h;
use crate::headers::callnr_h::{
    CALL_COUNTS, CALL_PAYLOAD, CDEV_OFFSETS, CPF_FLAGS, DIAG, EXEC_OFFSETS, GRANT_FIELDS,
    GRANT_MACROS, GRANT_MAX_ID, GRANT_NOTE, GRANT_PROBE_ID, GRANT_PROBE_IDX, GRANT_PROBE_SEQ, GUARD,
    KERNEL_CALLS, NOTE, OFFSET_NOTE, ORDERING, ORDER_NOTE, SAFECOPY, SOURCES, TITLE, VFS_OFFSETS,
    VMCTL, VMCTL_PROT,
};
use crate::headers::callnr_rows;
use crate::headers::macros;
use crate::headers::rows;
use crate::headers::tables;
use crate::text;

verus! {

/// No line of this comment is broken.
proof fn lemma_note_lines()
    ensures
        forall|i: int| 0 <= i < NOTE@.len() ==> rows::one_line((#[trigger] NOTE@[i])@),
{
    reveal_strlit("Deviation from MINIX 3: its <minix/callnr.h> holds POSIX syscall numbers");
    reveal_strlit("and keeps server request numbers in <minix/com.h>. minix.rs has no POSIX");
    reveal_strlit("call-number layer -- a libc wrapper builds a server request directly --");
    reveal_strlit("so this header carries the kernel calls and the request bands together.");
    reveal_strlit("");
    reveal_strlit("Payload byte offsets ARE emitted, at the end of this header: slice 5.6's");
    reveal_strlit("musl wrappers build VFS and PM requests by hand and need them. The grant");
    reveal_strlit("ENTRY layout still is not -- see the grants section.");
}

/// No line of this comment is broken.
proof fn lemma_grant_note_lines()
    ensures
        forall|i: int| 0 <= i < GRANT_NOTE@.len() ==> rows::one_line((#[trigger] GRANT_NOTE@[i])@),
{
    reveal_strlit("The grant ABI (slice 5.2). The grant-entry layout itself is deliberately");
    reveal_strlit("not emitted yet: no C consumes it before the musl slice, and a dedicated");
    reveal_strlit("<minixrs/safecopies.h> would need its own builder and CI syntax check. The");
    reveal_strlit("flag values and the id packing are here because a C caller needs them to");
    reveal_strlit("read a grant id out of a message payload.");
}

/// No line of this comment is broken.
proof fn lemma_offset_note_lines()
    ensures
        forall|i: int|
            0 <= i < OFFSET_NOTE@.len() ==> rows::one_line((#[trigger] OFFSET_NOTE@[i])@),
{
    reveal_strlit("Byte offsets within a message payload, which starts at message offset 8.");
    reveal_strlit("Emitted since slice 5.6: src/minixrs/_syscall.c in the musl fork builds");
    reveal_strlit("these requests by hand, so it needs the offsets as real constants rather");
    reveal_strlit("than as Rust doc comments.");
    reveal_strlit("");
    reveal_strlit("VFS_WRITE carries a RAW BUFFER ADDRESS in the caller's own address space,");
    reveal_strlit("not a grant id -- VFS's client is an ordinary user process with no grant");
    reveal_strlit("table. VFS is what turns it into a magic grant, naming the owner from the");
    reveal_strlit("kernel-stamped m_source and never from the payload.");
    reveal_strlit("CDEV_WRITE, by contrast, carries a grant id and NO granter field, for the");
    reveal_strlit("same anti-spoof reason. Its offsets are emitted for completeness of the");
    reveal_strlit("band, not because C talks to a driver: musl's write() goes to VFS.");
}

/// No line of this comment is broken.
proof fn lemma_order_note_lines()
    ensures
        forall|i: int| 0 <= i < ORDER_NOTE@.len() ==> rows::one_line((#[trigger] ORDER_NOTE@[i])@),
{
    reveal_strlit("Mirrors the `const _: () = assert!(..)` guards in callnr.rs: every band");
    reveal_strlit("sits above the previous one and entirely below NOTIFY_MESSAGE, so no");
    reveal_strlit("server request can ever be mistaken for a kernel NOTIFY.");
}

/// No assertion on the order of the bands is broken.
proof fn lemma_ordering_lines()
    ensures
        forall|i: int|
            0 <= i < ORDERING@.len() ==> rows::one_line((#[trigger] ORDERING@[i]).0@)
                && rows::one_line(ORDERING@[i].1@),
{
    reveal_strlit("NR_SYS_CALLS >= NR_KERN_CALLS");
    reveal_strlit("the privilege call mask is narrower than the kernel-call set");
    reveal_strlit("PM_RQ_BASE > KERNEL_CALL + NR_KERN_CALLS - 1");
    reveal_strlit("the PM band overlaps the kernel calls");
    reveal_strlit("PM_RQ_BASE + NR_PM_MSGS - 1 < VFS_RQ_BASE");
    reveal_strlit("the PM band overlaps the VFS band");
    reveal_strlit("VFS_RQ_BASE + NR_VFS_MSGS - 1 < FS_RQ_BASE");
    reveal_strlit("the VFS band overlaps the FS band");
    reveal_strlit("FS_RQ_BASE + NR_FS_MSGS - 1 < BDEV_RQ_BASE");
    reveal_strlit("the FS band overlaps the BDEV band");
    reveal_strlit("BDEV_RQ_BASE + NR_BDEV_MSGS - 1 < CDEV_RQ_BASE");
    reveal_strlit("the BDEV band overlaps the CDEV band");
    reveal_strlit("CDEV_RQ_BASE + NR_CDEV_MSGS - 1 < VM_RQ_BASE");
    reveal_strlit("the CDEV band overlaps the VM band");
    reveal_strlit("SEF_RQ_BASE > VM_FORK");
    reveal_strlit("the SEF band overlaps the VM band");
    reveal_strlit("DS_RQ_BASE > SEF_RQ_BASE + NR_SEF_MSGS - 1");
    reveal_strlit("the DS band overlaps the SEF band");
    reveal_strlit("SCHED_RQ_BASE > DS_RQ_BASE + NR_DS_REQUESTS - 1");
    reveal_strlit("the SCHED band overlaps the DS band");
    reveal_strlit("SCHED_RQ_BASE + NR_SCHED_MSGS - 1 < NOTIFY_MESSAGE");
    reveal_strlit("a server request number collides with NOTIFY_MESSAGE");
}

/// The kernel-call sections add their rows.
proof fn lemma_calls_text(t: Seq<char>)
    requires
        macros::whole_lines(t),
    ensures
        rows::adds(t, callnr_h::calls_text(t), callnr_rows::calls()),
{
    reveal_strlit("kernel calls");
    reveal_strlit("kernel-call payload constants");
    reveal_strlit("SYS_DIAGCTL subcodes + inline-text payload");
    callnr_rows::lemma_single_names();
    let t1 = builder::section(t, "kernel calls"@);
    rows::lemma_section(t, "kernel calls"@);
    let t2 = builder::define_hex(t1, "KERNEL_CALL"@, KERNEL_CALL as int);
    rows::lemma_hex(t1, "KERNEL_CALL"@, KERNEL_CALL as int);
    let r1 = seq![("KERNEL_CALL"@, builder::hex_value(KERNEL_CALL as int))];
    rows::lemma_adds(t, t1, t2, Seq::empty(), r1);
    assert(Seq::<rows::Row>::empty() + r1 =~= r1);
    let t3 = builder::blank(t2);
    rows::lemma_blank(t2);
    rows::lemma_adds_none(t, t2, t3, r1);
    callnr_rows::lemma_kernel_calls();
    assert(rows::hex_rows(KERNEL_CALLS@).take(18) =~= rows::hex_rows(KERNEL_CALLS@));
    let t4 = tables::hexes(t3, KERNEL_CALLS@, 18);
    rows::lemma_hexes(t3, KERNEL_CALLS@, 18);
    rows::lemma_adds(t, t3, t4, r1, rows::hex_rows(KERNEL_CALLS@));
    let r2 = r1 + rows::hex_rows(KERNEL_CALLS@);
    let t5 = builder::blank(t4);
    rows::lemma_blank(t4);
    rows::lemma_adds_none(t, t4, t5, r2);
    callnr_rows::lemma_call_counts();
    assert(rows::dec_rows(CALL_COUNTS@).take(2) =~= rows::dec_rows(CALL_COUNTS@));
    let t6 = tables::decs(t5, CALL_COUNTS@, 2);
    rows::lemma_decs(t5, CALL_COUNTS@, 2);
    rows::lemma_adds(t, t5, t6, r2, rows::dec_rows(CALL_COUNTS@));
    let r3 = r2 + rows::dec_rows(CALL_COUNTS@);
    let t7 = builder::section(t6, "kernel-call payload constants"@);
    rows::lemma_section(t6, "kernel-call payload constants"@);
    rows::lemma_adds_none(t, t6, t7, r3);
    callnr_rows::lemma_call_payload();
    assert(rows::dec_rows(CALL_PAYLOAD@).take(5) =~= rows::dec_rows(CALL_PAYLOAD@));
    let t8 = tables::decs(t7, CALL_PAYLOAD@, 5);
    rows::lemma_decs(t7, CALL_PAYLOAD@, 5);
    rows::lemma_adds(t, t7, t8, r3, rows::dec_rows(CALL_PAYLOAD@));
    let r4 = r3 + rows::dec_rows(CALL_PAYLOAD@);
    let t9 = builder::section(t8, "SYS_DIAGCTL subcodes + inline-text payload"@);
    rows::lemma_section(t8, "SYS_DIAGCTL subcodes + inline-text payload"@);
    rows::lemma_adds_none(t, t8, t9, r4);
    callnr_rows::lemma_diag();
    assert(rows::dec_rows(DIAG@).take(6) =~= rows::dec_rows(DIAG@));
    let t10 = tables::decs(t9, DIAG@, 6);
    rows::lemma_decs(t9, DIAG@, 6);
    rows::lemma_adds(t, t9, t10, r4, rows::dec_rows(DIAG@));
    let r5 = r4 + rows::dec_rows(DIAG@);
    assert(r5 =~= callnr_rows::calls());
}

/// The macros that pack and unpack grant ids have no row: they take an argument.
proof fn lemma_grant_macros(t: Seq<char>)
    requires
        macros::whole_lines(t),
    ensures
        rows::adds(t, tables::raws(t, GRANT_MACROS@, 4), Seq::empty()),
{
    reveal_strlit("GRANT_ID(idx, seq)");
    reveal_strlit("((int) ((((unsigned) (seq) & GRANT_MAX_SEQ) << GRANT_SHIFT) \\\n                                 | ((unsigned) (idx) & GRANT_MAX_IDX)))");
    reveal_strlit("GRANT_IDX(g)");
    reveal_strlit("((unsigned) (g) & GRANT_MAX_IDX)");
    reveal_strlit("GRANT_SEQ(g)");
    reveal_strlit("(((unsigned) (g) >> GRANT_SHIFT) & GRANT_MAX_SEQ)");
    reveal_strlit("GRANT_VALID(g)");
    reveal_strlit("((g) >= 0)");
    reveal_with_fuel(tables::raws, 5);
    let a = tables::raws(t, GRANT_MACROS@, 1);
    let b = tables::raws(t, GRANT_MACROS@, 2);
    let c = tables::raws(t, GRANT_MACROS@, 3);
    let whole = GRANT_MACROS@[0].1@;
    let cut = 61;
    let first = whole.take(cut);
    let second = whole.skip(cut + 1);
    assert(whole =~= first + seq!['\n'] + second);
    rows::lemma_long_function(t, GRANT_MACROS@[0].0@, 8, first, second);
    rows::lemma_function(a, GRANT_MACROS@[1].0@, 9, GRANT_MACROS@[1].1@);
    rows::lemma_function(b, GRANT_MACROS@[2].0@, 9, GRANT_MACROS@[2].1@);
    rows::lemma_function(c, GRANT_MACROS@[3].0@, 11, GRANT_MACROS@[3].1@);
    rows::lemma_adds_none(t, a, b, Seq::empty());
    rows::lemma_adds_none(t, b, c, Seq::empty());
    rows::lemma_adds_none(t, c, tables::raws(t, GRANT_MACROS@, 4), Seq::empty());
}

/// The assertions on grant ids add no row.
proof fn lemma_grant_asserts(t: Seq<char>)
    requires
        macros::whole_lines(t),
    ensures
        rows::adds(t, callnr_h::grant_asserts(t), Seq::empty()),
{
    reveal_strlit("GRANT_ID(GRANT_MAX_IDX, GRANT_MAX_SEQ) == ");
    reveal_strlit("GRANT_IDX(");
    reveal_strlit("GRANT_SEQ(");
    reveal_strlit(") == ");
    reveal_strlit("the C grant-id packing disagrees with the Rust one");
    reveal_strlit("GRANT_IDX does not invert GRANT_ID");
    reveal_strlit("GRANT_SEQ does not invert GRANT_ID");
    rows::lemma_decimal_line(GRANT_MAX_ID as int);
    rows::lemma_decimal_line(GRANT_PROBE_ID as int);
    rows::lemma_decimal_line(GRANT_PROBE_IDX as int);
    rows::lemma_decimal_line(GRANT_PROBE_SEQ as int);
    let id = text::decimal(GRANT_PROBE_ID as int);
    let x = "GRANT_ID(GRANT_MAX_IDX, GRANT_MAX_SEQ) == "@ + text::decimal(GRANT_MAX_ID as int);
    let y = "GRANT_IDX("@ + id + ") == "@ + text::decimal(GRANT_PROBE_IDX as int);
    let z = "GRANT_SEQ("@ + id + ") == "@ + text::decimal(GRANT_PROBE_SEQ as int);
    let a = builder::static_assert(t, x, "the C grant-id packing disagrees with the Rust one"@);
    let b = builder::static_assert(a, y, "GRANT_IDX does not invert GRANT_ID"@);
    rows::lemma_static_assert(t, x, "the C grant-id packing disagrees with the Rust one"@);
    rows::lemma_static_assert(a, y, "GRANT_IDX does not invert GRANT_ID"@);
    rows::lemma_static_assert(b, z, "GRANT_SEQ does not invert GRANT_ID"@);
    rows::lemma_adds_none(t, a, b, Seq::empty());
    rows::lemma_adds_none(t, b, callnr_h::grant_asserts(t), Seq::empty());
}

/// The section on grants adds its rows.
proof fn lemma_grants_text(t: Seq<char>)
    requires
        macros::whole_lines(t),
    ensures
        rows::adds(t, callnr_h::grants_text(t), callnr_rows::grants()),
{
    reveal_strlit("grants: SYS_SETGRANT / SYS_SAFECOPY");
    callnr_rows::lemma_single_names();
    let t1 = builder::section(t, "grants: SYS_SETGRANT / SYS_SAFECOPY"@);
    rows::lemma_section(t, "grants: SYS_SETGRANT / SYS_SAFECOPY"@);
    lemma_grant_note_lines();
    let t2 = builder::block_comment(t1, GRANT_NOTE@);
    rows::lemma_block_comment(t1, GRANT_NOTE@);
    rows::lemma_adds_none(t, t1, t2, Seq::empty());
    callnr_rows::lemma_safecopy();
    assert(rows::dec_rows(SAFECOPY@).take(2) =~= rows::dec_rows(SAFECOPY@));
    let t3 = tables::decs(t2, SAFECOPY@, 2);
    rows::lemma_decs(t2, SAFECOPY@, 2);
    rows::lemma_adds(t, t2, t3, Seq::empty(), rows::dec_rows(SAFECOPY@));
    let r1 = rows::dec_rows(SAFECOPY@);
    assert(Seq::<rows::Row>::empty() + r1 =~= r1);
    let t4 = builder::blank(t3);
    rows::lemma_blank(t3);
    rows::lemma_adds_none(t, t3, t4, r1);
    callnr_rows::lemma_cpf_flags();
    assert(rows::hex_rows(CPF_FLAGS@).take(8) =~= rows::hex_rows(CPF_FLAGS@));
    let t5 = tables::hexes(t4, CPF_FLAGS@, 8);
    rows::lemma_hexes(t4, CPF_FLAGS@, 8);
    rows::lemma_adds(t, t4, t5, r1, rows::hex_rows(CPF_FLAGS@));
    let r2 = r1 + rows::hex_rows(CPF_FLAGS@);
    let t6 = builder::blank(t5);
    rows::lemma_blank(t5);
    rows::lemma_adds_none(t, t5, t6, r2);
    let t7 = builder::define_dec(t6, "GRANT_SHIFT"@, GRANT_SHIFT as int);
    rows::lemma_dec(t6, "GRANT_SHIFT"@, GRANT_SHIFT as int);
    rows::lemma_adds(t, t6, t7, r2, seq![("GRANT_SHIFT"@, builder::dec_value(GRANT_SHIFT as int))]);
    let r3 = r2 + seq![("GRANT_SHIFT"@, builder::dec_value(GRANT_SHIFT as int))];
    callnr_rows::lemma_grant_fields();
    assert(rows::hex_rows(GRANT_FIELDS@).take(2) =~= rows::hex_rows(GRANT_FIELDS@));
    let t8 = tables::hexes(t7, GRANT_FIELDS@, 2);
    rows::lemma_hexes(t7, GRANT_FIELDS@, 2);
    rows::lemma_adds(t, t7, t8, r3, rows::hex_rows(GRANT_FIELDS@));
    let r4 = r3 + rows::hex_rows(GRANT_FIELDS@);
    let t9 = builder::define_dec(t8, "GRANT_INVALID"@, GRANT_INVALID as int);
    rows::lemma_dec(t8, "GRANT_INVALID"@, GRANT_INVALID as int);
    let last = seq![("GRANT_INVALID"@, builder::dec_value(GRANT_INVALID as int))];
    rows::lemma_adds(t, t8, t9, r4, last);
    let r5 = r4 + last;
    let t10 = builder::blank(t9);
    rows::lemma_blank(t9);
    rows::lemma_adds_none(t, t9, t10, r5);
    let t11 = tables::raws(t10, GRANT_MACROS@, 4);
    lemma_grant_macros(t10);
    rows::lemma_adds_none(t, t10, t11, r5);
    let t12 = builder::blank(t11);
    rows::lemma_blank(t11);
    rows::lemma_adds_none(t, t11, t12, r5);
    let t13 = callnr_h::grant_asserts(t12);
    lemma_grant_asserts(t12);
    rows::lemma_adds_none(t, t12, t13, r5);
    assert(r5 =~= callnr_rows::grants());
}

/// The sections after the bands add their rows.
proof fn lemma_offsets_text(t: Seq<char>)
    requires
        macros::whole_lines(t),
    ensures
        rows::adds(t, callnr_h::offsets_text(t), callnr_rows::offsets()),
{
    reveal_strlit("server-request payload offsets");
    reveal_strlit("band ordering");
    let t1 = builder::section(t, "server-request payload offsets"@);
    rows::lemma_section(t, "server-request payload offsets"@);
    lemma_offset_note_lines();
    let t2 = builder::block_comment(t1, OFFSET_NOTE@);
    rows::lemma_block_comment(t1, OFFSET_NOTE@);
    rows::lemma_adds_none(t, t1, t2, Seq::empty());
    callnr_rows::lemma_vfs_offsets();
    assert(rows::dec_rows(VFS_OFFSETS@).take(3) =~= rows::dec_rows(VFS_OFFSETS@));
    let t3 = tables::decs(t2, VFS_OFFSETS@, 3);
    rows::lemma_decs(t2, VFS_OFFSETS@, 3);
    rows::lemma_adds(t, t2, t3, Seq::empty(), rows::dec_rows(VFS_OFFSETS@));
    let r1 = rows::dec_rows(VFS_OFFSETS@);
    assert(Seq::<rows::Row>::empty() + r1 =~= r1);
    let t4 = builder::blank(t3);
    rows::lemma_blank(t3);
    rows::lemma_adds_none(t, t3, t4, r1);
    callnr_rows::lemma_exec_offsets();
    assert(rows::dec_rows(EXEC_OFFSETS@).take(2) =~= rows::dec_rows(EXEC_OFFSETS@));
    let t5 = tables::decs(t4, EXEC_OFFSETS@, 2);
    rows::lemma_decs(t4, EXEC_OFFSETS@, 2);
    rows::lemma_adds(t, t4, t5, r1, rows::dec_rows(EXEC_OFFSETS@));
    let r2 = r1 + rows::dec_rows(EXEC_OFFSETS@);
    let t6 = builder::blank(t5);
    rows::lemma_blank(t5);
    rows::lemma_adds_none(t, t5, t6, r2);
    callnr_rows::lemma_cdev_offsets();
    assert(rows::dec_rows(CDEV_OFFSETS@).take(6) =~= rows::dec_rows(CDEV_OFFSETS@));
    let t7 = tables::decs(t6, CDEV_OFFSETS@, 6);
    rows::lemma_decs(t6, CDEV_OFFSETS@, 6);
    rows::lemma_adds(t, t6, t7, r2, rows::dec_rows(CDEV_OFFSETS@));
    let r3 = r2 + rows::dec_rows(CDEV_OFFSETS@);
    let t8 = builder::section(t7, "band ordering"@);
    rows::lemma_section(t7, "band ordering"@);
    rows::lemma_adds_none(t, t7, t8, r3);
    lemma_order_note_lines();
    let t9 = builder::block_comment(t8, ORDER_NOTE@);
    rows::lemma_block_comment(t8, ORDER_NOTE@);
    rows::lemma_adds_none(t, t8, t9, r3);
    lemma_ordering_lines();
    let t10 = tables::asserts(t9, ORDERING@, 11);
    rows::lemma_asserts(t9, ORDERING@, 11);
    rows::lemma_adds_none(t, t9, t10, r3);
    assert(r3 =~= callnr_rows::offsets());
}

/// A band adds its rows.
proof fn lemma_band_text(t: Seq<char>, b: callnr_h::BandView, at: int)
    requires
        macros::whole_lines(t),
        callnr_rows::band_in_order(b, at),
    ensures
        rows::adds(t, callnr_h::band_text(t, b), callnr_rows::band(b)),
{
    let n = b.members.len() as int;
    let t1 = builder::section(t, b.title);
    let t2 = builder::define_hex(t1, b.base_name, b.base);
    let t3 = tables::hexes(t2, b.members, n);
    let base = seq![(b.base_name, builder::hex_value(b.base))];
    rows::lemma_section(t, b.title);
    rows::lemma_hex(t1, b.base_name, b.base);
    rows::lemma_adds(t, t1, t2, Seq::empty(), base);
    assert(Seq::<rows::Row>::empty() + base =~= base);
    rows::lemma_hexes(t2, b.members, n);
    assert(rows::hex_rows(b.members).take(n) =~= rows::hex_rows(b.members));
    rows::lemma_adds(t, t2, t3, base, rows::hex_rows(b.members));
    if let Some((name, v)) = b.count {
        rows::lemma_dec(t3, name, v);
        rows::lemma_adds(
            t,
            t3,
            builder::define_dec(t3, name, v),
            base + rows::hex_rows(b.members),
            seq![(name, builder::dec_value(v))],
        );
    }
}

/// The bands add their rows.
proof fn lemma_bands_text(t: Seq<char>, n: int)
    requires
        macros::whole_lines(t),
        0 <= n <= 9,
    ensures
        rows::adds(t, callnr_h::bands_text(t, n), callnr_rows::bands(n)),
    decreases n,
{
    if n > 0 {
        let before = callnr_h::bands_text(t, n - 1);
        let b = callnr_h::band(n - 1);
        lemma_bands_text(t, n - 1);
        callnr_rows::lemma_band(n - 1);
        lemma_band_text(before, b, callnr_rows::band_place(n - 1));
        rows::lemma_adds(
            t,
            before,
            callnr_h::bands_text(t, n),
            callnr_rows::bands(n - 1),
            callnr_rows::band(b),
        );
    } else {
        assert(macros::macros(t) + callnr_rows::bands(0) =~= macros::macros(t));
    }
}

/// What stands ahead of the first section defines nothing.
proof fn lemma_opening() -> (t: Seq<char>)
    ensures
        t == builder::block_comment(
            builder::include_line(
                builder::blank(builder::guard_open(builder::banner(TITLE@, SOURCES@), GUARD@)),
                "minixrs/ipc.h"@,
                "NOTIFY_MESSAGE, for the band ordering checks"@,
            ),
            NOTE@,
        ),
        macros::whole_lines(t),
        macros::macros(t) == Seq::<rows::Row>::empty(),
{
    reveal_strlit("Kernel-call numbers, server request bands, and their payload constants.");
    reveal_strlit("kernel-shared/src/callnr.rs");
    reveal_strlit("_MINIXRS_CALLNR_H");
    reveal_strlit("minixrs/ipc.h");
    reveal_strlit("NOTIFY_MESSAGE, for the band ordering checks");
    lemma_note_lines();
    rows::lemma_banner(TITLE@, SOURCES@);
    let t0 = builder::banner(TITLE@, SOURCES@);
    let t1 = builder::guard_open(t0, GUARD@);
    let t2 = builder::blank(t1);
    let t3 = builder::include_line(
        t2,
        "minixrs/ipc.h"@,
        "NOTIFY_MESSAGE, for the band ordering checks"@,
    );
    let t4 = builder::block_comment(t3, NOTE@);
    rows::lemma_guard_open(t0, GUARD@);
    rows::lemma_blank(t1);
    rows::lemma_include_line(
        t2,
        "minixrs/ipc.h"@,
        "NOTIFY_MESSAGE, for the band ordering checks"@,
    );
    rows::lemma_block_comment(t3, NOTE@);
    assert(Seq::<rows::Row>::empty() + Seq::<rows::Row>::empty() =~= Seq::<rows::Row>::empty());
    t4
}

/// The macros read back out of the header are those that were written into it, in
/// order: each number of its tables and bands, under its name.
pub proof fn law_macros_read_back()
    ensures
        macros::macros(callnr_h::callnr_text()) == callnr_rows::all(),
{
    reveal_strlit("SYS_VMCTL subcalls");
    reveal_strlit("_MINIXRS_CALLNR_H");
    let t = lemma_opening();
    let t1 = callnr_h::calls_text(t);
    let t2 = callnr_h::grants_text(t1);
    let t3 = builder::section(t2, "SYS_VMCTL subcalls"@);
    let t4 = tables::decs(t3, VMCTL@, 7);
    let t5 = builder::blank(t4);
    let t6 = tables::decs(t5, VMCTL_PROT@, 2);
    let t7 = callnr_h::bands_text(t6, 9);
    let t8 = callnr_h::offsets_text(t7);
    let t9 = builder::guard_close(t8, GUARD@);
    let prot = rows::dec_rows(VMCTL_PROT@);
    lemma_calls_text(t);
    lemma_grants_text(t1);
    rows::lemma_section(t2, "SYS_VMCTL subcalls"@);
    callnr_rows::lemma_vmctl();
    assert(rows::dec_rows(VMCTL@).take(7) =~= rows::dec_rows(VMCTL@));
    rows::lemma_decs(t3, VMCTL@, 7);
    rows::lemma_blank(t4);
    callnr_rows::lemma_vmctl_prot();
    assert(prot.take(2) =~= prot);
    rows::lemma_decs(t5, VMCTL_PROT@, 2);
    rows::lemma_adds_none(t3, t4, t5, rows::dec_rows(VMCTL@));
    rows::lemma_adds(t3, t5, t6, rows::dec_rows(VMCTL@), prot);
    rows::lemma_adds(t2, t3, t6, Seq::empty(), callnr_rows::memory());
    assert(Seq::<rows::Row>::empty() + callnr_rows::memory() =~= callnr_rows::memory());
    lemma_bands_text(t6, 9);
    lemma_offsets_text(t7);
    rows::lemma_guard_close(t8, GUARD@);
    let r2 = callnr_rows::calls() + callnr_rows::grants();
    let r6 = r2 + callnr_rows::memory();
    let r7 = r6 + callnr_rows::bands(9);
    rows::lemma_adds(t, t1, t2, callnr_rows::calls(), callnr_rows::grants());
    rows::lemma_adds(t, t2, t6, r2, callnr_rows::memory());
    rows::lemma_adds(t, t6, t7, r6, callnr_rows::bands(9));
    rows::lemma_adds(t, t7, t8, r7, callnr_rows::offsets());
    rows::lemma_adds_none(t, t8, t9, callnr_rows::all());
    assert(Seq::<rows::Row>::empty() + callnr_rows::all() =~= callnr_rows::all());
}

/// A search for the name of macro `k` passes those ahead of it.
proof fn lemma_value_at(r: Seq<rows::Row>, k: int, i: int)
    requires
        callnr_rows::placed(r, 0),
        0 <= i <= k < r.len(),
    ensures
        macros::value_from(r, r[k].0, i) == Some(r[k].1),
    decreases k - i,
{
    if i < k {
        assert(callnr_rows::place(r[i].0) == i && callnr_rows::place(r[k].0) == k);
        lemma_value_at(r, k, i + 1);
    }
}

/// Every macro of the header is read back by its name, with its value.
pub proof fn law_every_macro_reads_back(k: int)
    requires
        0 <= k < callnr_rows::all().len(),
    ensures
        macros::value_from(
            macros::macros(callnr_h::callnr_text()),
            callnr_rows::all()[k].0,
            0,
        ) == Some(callnr_rows::all()[k].1),
{
    law_macros_read_back();
    callnr_rows::lemma_all_placed();
    lemma_value_at(callnr_rows::all(), k, 0);
}

/// The number of every kernel call is read back by its name.
pub proof fn law_kernel_calls_read_back(i: int)
    requires
        0 <= i < KERNEL_CALLS@.len(),
    ensures
        macros::value_from(
            macros::macros(callnr_h::callnr_text()),
            KERNEL_CALLS@[i].0@,
            0,
        ) == Some(builder::hex_value(KERNEL_CALLS@[i].1 as int)),
{
    assert(callnr_rows::all()[1 + i] == rows::hex_rows(KERNEL_CALLS@)[i]);
    law_every_macro_reads_back(1 + i);
}

/// Macro `j` of band `k` is a macro of the header.
proof fn lemma_band_row(k: int, j: int, n: int)
    requires
        0 <= k < n <= 9,
        0 <= j < callnr_rows::band(callnr_h::band(k)).len(),
    ensures
        callnr_rows::bands(k).len() + j < callnr_rows::bands(n).len(),
        callnr_rows::bands(n)[callnr_rows::bands(k).len() + j] == callnr_rows::band(
            callnr_h::band(k),
        )[j],
    decreases n,
{
    if k < n - 1 {
        lemma_band_row(k, j, n - 1);
    }
}

/// Every number of every band is read back by its name: the base, the requests, and
/// how many there are.
pub proof fn law_bands_read_back(k: int, i: int)
    requires
        0 <= k < 9,
        0 <= i < callnr_h::band(k).members.len(),
    ensures
        ({
            let b = callnr_h::band(k);
            let ms = macros::macros(callnr_h::callnr_text());
            &&& macros::value_from(ms, b.base_name, 0) == Some(builder::hex_value(b.base))
            &&& macros::value_from(ms, b.members[i].0@, 0) == Some(
                builder::hex_value(b.members[i].1 as int),
            )
            &&& b.count matches Some((name, n)) ==> macros::value_from(ms, name, 0) == Some(
                builder::dec_value(n),
            )
        }),
{
    let b = callnr_h::band(k);
    let r = callnr_rows::band(b);
    let n = b.members.len() as int;
    let before = callnr_rows::calls() + callnr_rows::grants() + callnr_rows::memory();
    let at = before.len() + callnr_rows::bands(k).len();
    assert(r[0] == (b.base_name, builder::hex_value(b.base)));
    assert(r[1 + i] == rows::hex_rows(b.members)[i]);
    lemma_band_row(k, 0, 9);
    lemma_band_row(k, 1 + i, 9);
    assert(callnr_rows::all()[at as int] == r[0]);
    assert(callnr_rows::all()[at + 1 + i] == r[1 + i]);
    law_every_macro_reads_back(at as int);
    law_every_macro_reads_back(at + 1 + i);
    if let Some((name, v)) = b.count {
        assert(r[1 + n] == (name, builder::dec_value(v)));
        lemma_band_row(k, 1 + n, 9);
        assert(callnr_rows::all()[at + 1 + n] == r[1 + n]);
        law_every_macro_reads_back(at + 1 + n);
    }
}

} // verus!
