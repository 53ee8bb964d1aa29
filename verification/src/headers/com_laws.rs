//! What is read back out of the rendered `com.h`: the capacities, and for every
//! process its number and its boot endpoint, by their names.
use vstd::prelude::*;
use crate::abi::com;
use crate::abi::com::{
    ASYNCM, CLOCK, DS_PROC_NR, EXEC_ONLY_PROC_NR, HARDWARE, IDLE, INIT_PROC_NR, MEM_PROC_NR,
    MFS_PROC_NR, NR_BOOT_PROCS, NR_PROCS, NR_SYS_PROCS, NR_TASKS, PFS_PROC_NR, PM_PROC_NR,
    RS_PROC_NR, SCHED_PROC_NR, SYSTEM, TTY_PROC_NR, VFS_PROC_NR, VM_PROC_NR,
};
use crate::abi::errno::OK;
use crate::headers::builder;
use crate::headers::com_h;
use crate::headers::com_h::{
    CAPACITIES, CHECKED, CHECK_NOTE, EXEC_NOTE, GUARD, OK_NOTE, OMITTED_NOTE, PROCESSES, PROC_NOTE,
    SOURCES, TITLE,
};
use crate::headers::macros;
use crate::headers::rows;
use crate::headers::tables;
use crate::text;

verus! {

/// No line of this comment is broken.
proof fn lemma_ok_note_lines()
    ensures
        forall|i: int| 0 <= i < OK_NOTE@.len() ==> rows::one_line((#[trigger] OK_NOTE@[i])@),
{
    reveal_strlit("MINIX 3 keeps OK in <minix/const.h>; minix.rs defines it alongside the");
    reveal_strlit("errnos in kernel-shared/src/error.rs. It lives here so a C file that");
    reveal_strlit("checks an IPC result does not have to include <minixrs/errno.h> as well.");
}

/// No line of this comment is broken.
proof fn lemma_proc_note_lines()
    ensures
        forall|i: int| 0 <= i < PROC_NOTE@.len() ==> rows::one_line((#[trigger] PROC_NOTE@[i])@),
{
    reveal_strlit("Every process below has TWO macros, and they are NOT interchangeable:");
    reveal_strlit("");
    reveal_strlit("    <NAME>_PROC_NR   the process-table slot (NEGATIVE for kernel tasks)");
    reveal_strlit("    <NAME>_EP        the boot endpoint -- what belongs in an IPC call");
    reveal_strlit("");
    reveal_strlit("They differ for the kernel tasks because minix.rs sign-extends the");
    reveal_strlit("endpoint proc field instead of using MINIX 3's offset bias (see");
    reveal_strlit("minixrs/ipc.h). Naming a task by its _PROC_NR in an IPC call is a bug.");
    reveal_strlit("");
    reveal_strlit("The _EP values are computed by calling com::boot_endpoint() in the");
    reveal_strlit("generator: no equivalent Rust constant exists, and deriving them here is");
    reveal_strlit("exactly what this tool is for.");
}

/// No line of this comment is broken.
proof fn lemma_exec_note_lines()
    ensures
        forall|i: int| 0 <= i < EXEC_NOTE@.len() ==> rows::one_line((#[trigger] EXEC_NOTE@[i])@),
{
    reveal_strlit("Sentinel proc number for an MXBI archive module that is resolvable by");
    reveal_strlit("name but never boot-loaded (the exec target). Not a process.");
}

/// No line of this comment is broken.
proof fn lemma_omitted_note_lines()
    ensures
        forall|i: int| 0 <= i < OMITTED_NOTE@.len() ==> rows::one_line((#[trigger] OMITTED_NOTE@[i])@),
{
    reveal_strlit("Deliberately not emitted, each for want of a C consumer:");
    reveal_strlit("  * STUB_[A-D]_PROC_NR / NR_STUB_PROCS -- the demo stubs are scoped to");
    reveal_strlit("    the kernel's `boot-stubs` cargo feature.");
    reveal_strlit("  * NR_SERVED_PROCS -- sizes the Rust servers' per-process tables.");
    reveal_strlit("  * message::USER_VA_TOP and sys_limits::* -- kernel-internal caps.");
    reveal_strlit("  * signal numbers -- musl's <signal.h> is authoritative and already");
    reveal_strlit("    agrees with kernel-shared/src/signal.rs.");
}

/// No line of this comment is broken.
proof fn lemma_check_note_lines()
    ensures
        forall|i: int| 0 <= i < CHECK_NOTE@.len() ==> rows::one_line((#[trigger] CHECK_NOTE@[i])@),
{
    reveal_strlit("The C decode macros in minixrs/ipc.h are hand-written; the _EP values are");
    reveal_strlit("Rust-computed. These assertions check one against the other at compile");
    reveal_strlit("time, in every translation unit, with no libc and no sysroot.");
}

/// The macros of the sections before the processes.
pub open spec fn capacities() -> Seq<rows::Row> {
    rows::dec_rows(CAPACITIES@) + seq![("OK"@, builder::dec_value(OK as int))]
}

/// The two macros of process `i` of the list.
pub open spec fn process(i: int) -> Seq<rows::Row> {
    let (name, nr) = PROCESSES@[i];
    seq![
        (name@ + "_PROC_NR"@, builder::dec_value(nr as int)),
        (name@ + "_EP"@, builder::ep_value(com::boot_spec(nr as int))),
    ]
}

/// The macros of the first `n` processes.
pub open spec fn processes(n: int) -> Seq<rows::Row>
    decreases n,
{
    if n <= 0 {
        Seq::empty()
    } else {
        processes(n - 1) + process(n - 1)
    }
}

/// The macro after the processes.
pub open spec fn sentinel() -> Seq<rows::Row> {
    seq![("EXEC_ONLY_PROC_NR"@, builder::dec_value(EXEC_ONLY_PROC_NR as int))]
}

/// All macros of the header that have a value, in order.
#[verifier::opaque]
pub open spec fn all() -> Seq<rows::Row> {
    capacities() + processes(16) + sentinel()
}

/// The place of a process in the list, by the first two letters of its name.
spec fn slot(a: char, b: char) -> int {
    if a == 'A' && b == 'S' {
        0
    } else if a == 'I' && b == 'D' {
        1
    } else if a == 'C' && b == 'L' {
        2
    } else if a == 'S' && b == 'Y' {
        3
    } else if a == 'H' && b == 'A' {
        4
    } else if a == 'P' && b == 'M' {
        5
    } else if a == 'V' && b == 'F' {
        6
    } else if a == 'R' && b == 'S' {
        7
    } else if a == 'M' && b == 'E' {
        8
    } else if a == 'T' && b == 'T' {
        9
    } else if a == 'D' && b == 'S' {
        10
    } else if a == 'M' && b == 'F' {
        11
    } else if a == 'V' && b == 'M' {
        12
    } else if a == 'P' && b == 'F' {
        13
    } else if a == 'S' && b == 'C' {
        14
    } else if a == 'I' && b == 'N' {
        15
    } else {
        -1
    }
}

/// The place of a macro of the header, by its name.
spec fn place(s: Seq<char>) -> int {
    let n = s.len() as int;
    let z = s[n - 1];
    if n == 17 {
        37
    } else if z == 'R' {
        5 + 2 * slot(s[0], s[1])
    } else if z == 'P' {
        6 + 2 * slot(s[0], s[1])
    } else if z == 'K' {
        4
    } else if s[3] == 'T' {
        0
    } else if s[3] == 'P' {
        1
    } else if s[3] == 'S' {
        2
    } else {
        3
    }
}

/// The names of the sections before the processes.
proof fn lemma_capacity_names()
    ensures
        rows::named(CAPACITIES@),
        macros::plain_name("OK"@),
        capacities().len() == 5,
        forall|i: int| 0 <= i < 5 ==> place((#[trigger] capacities()[i]).0) == i,
{
    reveal_strlit("NR_TASKS");
    reveal_strlit("NR_PROCS");
    reveal_strlit("NR_SYS_PROCS");
    reveal_strlit("NR_BOOT_PROCS");
    reveal_strlit("OK");
    let c = capacities();
    assert(c[0].0 == "NR_TASKS"@ && c[1].0 == "NR_PROCS"@);
    assert(c[2].0 == "NR_SYS_PROCS"@ && c[3].0 == "NR_BOOT_PROCS"@ && c[4].0 == "OK"@);
    assert(c[0].0[7] == 'S' && c[0].0[3] == 'T');
    assert(c[1].0[7] == 'S' && c[1].0[3] == 'P');
    assert(c[2].0[11] == 'S' && c[2].0[3] == 'S');
    assert(c[3].0[12] == 'S' && c[3].0[3] == 'B');
    assert(c[4].0[1] == 'K');
}

/// The name of a process: short, of plain letters, and told apart by its first two.
proof fn lemma_process_name(i: int)
    requires
        0 <= i < 16,
    ensures
        macros::plain_name(PROCESSES@[i].0@),
        2 <= PROCESSES@[i].0@.len() <= 8,
        slot(PROCESSES@[i].0@[0], PROCESSES@[i].0@[1]) == i,
{
    reveal_strlit("ASYNCM");
    reveal_strlit("IDLE");
    reveal_strlit("CLOCK");
    reveal_strlit("SYSTEM");
    reveal_strlit("HARDWARE");
    reveal_strlit("PM");
    reveal_strlit("VFS");
    reveal_strlit("RS");
    reveal_strlit("MEM");
    reveal_strlit("TTY");
    reveal_strlit("DS");
    reveal_strlit("MFS");
    reveal_strlit("VM");
    reveal_strlit("PFS");
    reveal_strlit("SCHED");
    reveal_strlit("INIT");
}

/// The name of the macro after the processes.
proof fn lemma_sentinel_name()
    ensures
        macros::plain_name("EXEC_ONLY_PROC_NR"@),
        "EXEC_ONLY_PROC_NR"@.len() == 17,
{
    reveal_strlit("EXEC_ONLY_PROC_NR");
}

/// The two macros of a process have plain names, at their places.
proof fn lemma_process(i: int)
    requires
        0 <= i < 16,
    ensures
        macros::plain_name(process(i)[0].0),
        macros::plain_name(process(i)[1].0),
        place(process(i)[0].0) == 5 + 2 * i,
        place(process(i)[1].0) == 6 + 2 * i,
{
    reveal_strlit("_PROC_NR");
    reveal_strlit("_EP");
    lemma_process_name(i);
    let name = PROCESSES@[i].0@;
    let a = name + "_PROC_NR"@;
    let b = name + "_EP"@;
    let k = name.len() as int;
    assert(forall|j: int| 0 <= j < k ==> a[j] == name[j] && b[j] == name[j]);
    assert(a[a.len() - 1] == 'R' && b[b.len() - 1] == 'P');
    assert(a.len() == k + 8 && b.len() == k + 3);
    assert forall|j: int| 0 <= j < a.len() implies !text::is_space(#[trigger] a[j]) && a[j] != '(' by {
        if j < k {
            assert(!text::is_space(name[j]));
        } else {
            assert(a[j] == "_PROC_NR"@[j - k]);
        }
    }
    assert forall|j: int| 0 <= j < b.len() implies !text::is_space(#[trigger] b[j]) && b[j] != '(' by {
        if j < k {
            assert(!text::is_space(name[j]));
        } else {
            assert(b[j] == "_EP"@[j - k]);
        }
    }
}

/// The macros of the processes stand two by two.
proof fn lemma_processes(n: int)
    requires
        0 <= n <= 16,
    ensures
        processes(n).len() == 2 * n,
        forall|i: int|
            0 <= i < n ==> processes(n)[2 * i] == (#[trigger] process(i))[0] && processes(n)[2 * i + 1]
                == process(i)[1],
    decreases n,
{
    if n > 0 {
        lemma_processes(n - 1);
        assert forall|i: int| 0 <= i < n implies processes(n)[2 * i] == (#[trigger] process(i))[0]
            && processes(n)[2 * i + 1] == process(i)[1] by {
            if i < n - 1 {
                assert(processes(n)[2 * i] == processes(n - 1)[2 * i]);
                assert(processes(n)[2 * i + 1] == processes(n - 1)[2 * i + 1]);
            }
        }
    }
}

/// No two macros of the header share a name.
proof fn lemma_distinct()
    ensures
        all().len() == 38,
        rows::distinct(all()),
{
    reveal(all);
    lemma_capacity_names();
    lemma_sentinel_name();
    lemma_processes(16);
    let r = all();
    assert forall|k: int| 0 <= k < 38 implies place((#[trigger] r[k]).0) == k by {
        if k < 5 {
            assert(r[k] == capacities()[k]);
        } else if k < 37 {
            let i = (k - 5) / 2;
            lemma_process(i);
            assert(r[k] == processes(16)[k - 5]);
            if (k - 5) % 2 == 0 {
                assert(k - 5 == 2 * i);
            } else {
                assert(k - 5 == 2 * i + 1);
            }
        } else {
            assert(r[k] == sentinel()[0]);
        }
    }
    assert forall|i: int, j: int| 0 <= i < j < r.len() implies (#[trigger] r[i]).0 != (#[trigger] r[j]).0 by {
        assert(place(r[i].0) == i && place(r[j].0) == j);
    }
}

/// The sections before the processes add their rows.
proof fn lemma_capacities_text(t: Seq<char>)
    requires
        macros::whole_lines(t),
    ensures
        rows::adds(t, com_h::capacities_text(t), capacities()),
{
    reveal(com_h::capacities_text);
    reveal_strlit("process-table capacities");
    reveal_strlit("success sentinel");
    reveal_strlit("processes");
    lemma_ok_note_lines();
    lemma_proc_note_lines();
    lemma_capacity_names();
    let t1 = builder::section(t, "process-table capacities"@);
    rows::lemma_section(t, "process-table capacities"@);
    assert(rows::dec_rows(CAPACITIES@).take(4) =~= rows::dec_rows(CAPACITIES@));
    let t2 = tables::decs(t1, CAPACITIES@, 4);
    rows::lemma_decs(t1, CAPACITIES@, 4);
    let r1 = rows::dec_rows(CAPACITIES@);
    rows::lemma_adds(t, t1, t2, Seq::empty(), r1);
    assert(Seq::<rows::Row>::empty() + r1 =~= r1);
    let t3 = builder::section(t2, "success sentinel"@);
    rows::lemma_section(t2, "success sentinel"@);
    rows::lemma_adds_none(t, t2, t3, r1);
    let t4 = builder::block_comment(t3, OK_NOTE@);
    rows::lemma_block_comment(t3, OK_NOTE@);
    rows::lemma_adds_none(t, t3, t4, r1);
    let t5 = builder::define_dec(t4, "OK"@, OK as int);
    rows::lemma_dec(t4, "OK"@, OK as int);
    rows::lemma_adds(t, t4, t5, r1, seq![("OK"@, builder::dec_value(OK as int))]);
    let r2 = r1 + seq![("OK"@, builder::dec_value(OK as int))];
    let t6 = builder::section(t5, "processes"@);
    rows::lemma_section(t5, "processes"@);
    rows::lemma_adds_none(t, t5, t6, r2);
    let t7 = builder::block_comment(t6, PROC_NOTE@);
    rows::lemma_block_comment(t6, PROC_NOTE@);
    rows::lemma_adds_none(t, t6, t7, r2);
    assert(r2 =~= capacities());
}

/// The processes add their rows.
proof fn lemma_procs_text(t: Seq<char>, n: int)
    requires
        macros::whole_lines(t),
        0 <= n <= 16,
    ensures
        rows::adds(t, com_h::procs_text(t, n), processes(n)),
    decreases n,
{
    if n > 0 {
        let (name, nr) = PROCESSES@[n - 1];
        let a = com_h::procs_text(t, n - 1);
        lemma_procs_text(t, n - 1);
        lemma_process(n - 1);
        let b = builder::define_dec(a, name@ + "_PROC_NR"@, nr as int);
        let c = builder::define_ep(b, name@ + "_EP"@, com::boot_spec(nr as int));
        rows::lemma_dec(a, name@ + "_PROC_NR"@, nr as int);
        rows::lemma_ep(b, name@ + "_EP"@, com::boot_spec(nr as int));
        let x = seq![process(n - 1)[0]];
        let y = seq![process(n - 1)[1]];
        rows::lemma_adds(a, b, c, x, y);
        assert(x + y =~= process(n - 1));
        rows::lemma_adds(t, a, c, processes(n - 1), process(n - 1));
    } else {
        assert(macros::macros(t) + processes(0) =~= macros::macros(t));
    }
}

/// The parts after the processes add their row.
proof fn lemma_sentinels_text(t: Seq<char>)
    requires
        macros::whole_lines(t),
    ensures
        rows::adds(t, com_h::sentinels_text(t), sentinel()),
{
    reveal(com_h::sentinels_text);
    reveal_strlit("endpoint packing self-check");
    lemma_exec_note_lines();
    lemma_omitted_note_lines();
    lemma_check_note_lines();
    lemma_sentinel_name();
    let t1 = builder::block_comment(t, EXEC_NOTE@);
    rows::lemma_block_comment(t, EXEC_NOTE@);
    let t2 = builder::define_dec(t1, "EXEC_ONLY_PROC_NR"@, EXEC_ONLY_PROC_NR as int);
    rows::lemma_dec(t1, "EXEC_ONLY_PROC_NR"@, EXEC_ONLY_PROC_NR as int);
    let r1 = sentinel();
    rows::lemma_adds(t, t1, t2, Seq::empty(), r1);
    assert(Seq::<rows::Row>::empty() + r1 =~= r1);
    let t3 = builder::block_comment(t2, OMITTED_NOTE@);
    rows::lemma_block_comment(t2, OMITTED_NOTE@);
    rows::lemma_adds_none(t, t2, t3, r1);
    let t4 = builder::section(t3, "endpoint packing self-check"@);
    rows::lemma_section(t3, "endpoint packing self-check"@);
    rows::lemma_adds_none(t, t3, t4, r1);
    let t5 = builder::block_comment(t4, CHECK_NOTE@);
    rows::lemma_block_comment(t4, CHECK_NOTE@);
    rows::lemma_adds_none(t, t4, t5, r1);
}

/// The assertions on one process add no row.
proof fn lemma_check_text(t: Seq<char>, name: Seq<char>)
    requires
        macros::whole_lines(t),
        rows::one_line(name),
    ensures
        rows::adds(t, com_h::check_text(t, name), Seq::empty()),
{
    reveal_strlit("_EP == _ENDPOINT(0, ");
    reveal_strlit("_PROC_NR)");
    reveal_strlit("_EP disagrees with the _ENDPOINT packing macro");
    reveal_strlit("_ENDPOINT_P(");
    reveal_strlit("_EP) == ");
    reveal_strlit("_PROC_NR");
    reveal_strlit("_ENDPOINT_P does not round-trip ");
    reveal_strlit("_EP");
    reveal_strlit("_ENDPOINT_G(");
    reveal_strlit("_EP) == 0");
    reveal_strlit("_EP is not a generation-0 boot endpoint");
    let x = name + "_EP == _ENDPOINT(0, "@ + name + "_PROC_NR)"@;
    let y = "_ENDPOINT_P("@ + name + "_EP) == "@ + name + "_PROC_NR"@;
    let z = "_ENDPOINT_G("@ + name + "_EP) == 0"@;
    let a = builder::static_assert(t, x, name + "_EP disagrees with the _ENDPOINT packing macro"@);
    let b = builder::static_assert(a, y, "_ENDPOINT_P does not round-trip "@ + name + "_EP"@);
    rows::lemma_static_assert(t, x, name + "_EP disagrees with the _ENDPOINT packing macro"@);
    rows::lemma_static_assert(a, y, "_ENDPOINT_P does not round-trip "@ + name + "_EP"@);
    rows::lemma_static_assert(b, z, name + "_EP is not a generation-0 boot endpoint"@);
    rows::lemma_adds_none(t, a, b, Seq::empty());
    rows::lemma_adds_none(t, b, com_h::check_text(t, name), Seq::empty());
}

/// No checked name is broken.
proof fn lemma_checked_lines()
    ensures
        forall|i: int| 0 <= i < 6 ==> rows::one_line((#[trigger] CHECKED@[i])@),
{
    reveal_strlit("SYSTEM");
    reveal_strlit("HARDWARE");
    reveal_strlit("CLOCK");
    reveal_strlit("PM");
    reveal_strlit("VFS");
    reveal_strlit("INIT");
}

/// The assertions add no row.
proof fn lemma_checks_text(t: Seq<char>, n: int)
    requires
        macros::whole_lines(t),
        0 <= n <= 6,
    ensures
        rows::adds(t, com_h::checks_text(t, n), Seq::empty()),
    decreases n,
{
    if n > 0 {
        lemma_checks_text(t, n - 1);
        lemma_checked_lines();
        let before = com_h::checks_text(t, n - 1);
        lemma_check_text(before, CHECKED@[n - 1]@);
        rows::lemma_adds_none(t, before, com_h::checks_text(t, n), Seq::empty());
    } else {
        assert(macros::macros(t) + Seq::<rows::Row>::empty() =~= macros::macros(t));
    }
}

/// What stands ahead of the first section defines nothing.
proof fn lemma_opening() -> (t: Seq<char>)
    ensures
        t == builder::include_line(
            builder::blank(builder::guard_open(builder::banner(TITLE@, SOURCES@), GUARD@)),
            "minixrs/ipc.h"@,
            "endpoint_t and the _ENDPOINT* packing macros"@,
        ),
        macros::whole_lines(t),
        macros::macros(t) == Seq::<rows::Row>::empty(),
        rows::one_line(GUARD@),
{
    reveal_strlit("Process numbers, boot endpoints, and process-table capacities.");
    reveal_strlit("kernel-shared/src/com.rs");
    reveal_strlit("kernel-shared/src/error.rs");
    reveal_strlit("_MINIXRS_COM_H");
    reveal_strlit("minixrs/ipc.h");
    reveal_strlit("endpoint_t and the _ENDPOINT* packing macros");
    rows::lemma_banner(TITLE@, SOURCES@);
    let t0 = builder::banner(TITLE@, SOURCES@);
    let t1 = builder::guard_open(t0, GUARD@);
    let t2 = builder::blank(t1);
    rows::lemma_guard_open(t0, GUARD@);
    rows::lemma_blank(t1);
    rows::lemma_include_line(
        t2,
        "minixrs/ipc.h"@,
        "endpoint_t and the _ENDPOINT* packing macros"@,
    );
    assert(Seq::<rows::Row>::empty() + Seq::<rows::Row>::empty() =~= Seq::<rows::Row>::empty());
    builder::include_line(
        t2,
        "minixrs/ipc.h"@,
        "endpoint_t and the _ENDPOINT* packing macros"@,
    )
}

/// The macros read back out of the header are those that were written into it, in
/// order.
pub proof fn law_macros_read_back()
    ensures
        macros::macros(com_h::com_text()) == all(),
{
    reveal(all);
    let t = lemma_opening();
    let t1 = com_h::capacities_text(t);
    let t2 = com_h::procs_text(t1, 16);
    let t3 = com_h::sentinels_text(t2);
    let t4 = com_h::checks_text(t3, 6);
    let t5 = builder::guard_close(t4, GUARD@);
    lemma_capacities_text(t);
    lemma_procs_text(t1, 16);
    lemma_sentinels_text(t2);
    lemma_checks_text(t3, 6);
    rows::lemma_guard_close(t4, GUARD@);
    rows::lemma_adds(t, t1, t2, capacities(), processes(16));
    rows::lemma_adds(t, t2, t3, capacities() + processes(16), sentinel());
    rows::lemma_adds_none(t, t3, t4, all());
    rows::lemma_adds_none(t, t4, t5, all());
    assert(Seq::<rows::Row>::empty() + all() =~= all());
}

/// What the header says a macro is worth.
#[verifier::opaque]
pub open spec fn value(name: Seq<char>) -> Option<Seq<char>> {
    macros::value_from(macros::macros(com_h::com_text()), name, 0)
}

/// Macro `k` of the header is found under its name.
proof fn lemma_value(k: int)
    requires
        0 <= k < 38,
    ensures
        value(all()[k].0) == Some(all()[k].1),
{
    reveal(value);
    law_macros_read_back();
    lemma_distinct();
    rows::lemma_found(all(), k, 0);
}

/// The macros of process `i` of the list are found under its name and the two
/// endings.
proof fn lemma_process_value(i: int)
    requires
        0 <= i < 16,
    ensures
        value(process(i)[0].0) == Some(process(i)[0].1),
        value(process(i)[1].0) == Some(process(i)[1].1),
{
    lemma_value(5 + 2 * i);
    lemma_value(6 + 2 * i);
    reveal(all);
    lemma_capacity_names();
    lemma_processes(16);
    let r = all();
    assert(processes(16)[2 * i] == process(i)[0] && processes(16)[2 * i + 1] == process(i)[1]);
    assert(r[5 + 2 * i] == processes(16)[2 * i]);
    assert(r[6 + 2 * i] == processes(16)[2 * i + 1]);
}

/// The capacities, the success code and the marker for programs that are only
/// executed are read back under their own names.
pub proof fn law_capacities_read_back()
    ensures
        value("NR_TASKS"@) == Some(text::decimal(NR_TASKS as int)),
        value("NR_PROCS"@) == Some(text::decimal(NR_PROCS as int)),
        value("NR_SYS_PROCS"@) == Some(text::decimal(NR_SYS_PROCS as int)),
        value("NR_BOOT_PROCS"@) == Some(text::decimal(NR_BOOT_PROCS as int)),
        value("OK"@) == Some(text::decimal(OK as int)),
        value("EXEC_ONLY_PROC_NR"@) == Some("("@ + text::decimal(EXEC_ONLY_PROC_NR as int) + ")"@),
{
    lemma_value(0);
    lemma_value(1);
    lemma_value(2);
    lemma_value(3);
    lemma_value(4);
    lemma_value(37);
    reveal(all);
    lemma_capacity_names();
    lemma_processes(16);
    let r = all();
    let c = rows::dec_rows(CAPACITIES@);
    assert(r[0] == c[0] && r[1] == c[1] && r[2] == c[2] && r[3] == c[3]);
    assert(r[4] == capacities()[4]);
    assert(r[37] == sentinel()[0]);
}

/// How the names of this process's macros are made.
proof fn lemma_joined_asyncm()
    ensures
        "ASYNCM"@ + "_PROC_NR"@ == "ASYNCM_PROC_NR"@,
        "ASYNCM"@ + "_EP"@ == "ASYNCM_EP"@,
{
    reveal_strlit("ASYNCM");
    reveal_strlit("_PROC_NR");
    reveal_strlit("_EP");
    reveal_strlit("ASYNCM_PROC_NR");
    reveal_strlit("ASYNCM_EP");
    assert("ASYNCM"@ + "_PROC_NR"@ =~= "ASYNCM_PROC_NR"@);
    assert("ASYNCM"@ + "_EP"@ =~= "ASYNCM_EP"@);
}

/// How the names of this process's macros are made.
proof fn lemma_joined_idle()
    ensures
        "IDLE"@ + "_PROC_NR"@ == "IDLE_PROC_NR"@,
        "IDLE"@ + "_EP"@ == "IDLE_EP"@,
{
    reveal_strlit("IDLE");
    reveal_strlit("_PROC_NR");
    reveal_strlit("_EP");
    reveal_strlit("IDLE_PROC_NR");
    reveal_strlit("IDLE_EP");
    assert("IDLE"@ + "_PROC_NR"@ =~= "IDLE_PROC_NR"@);
    assert("IDLE"@ + "_EP"@ =~= "IDLE_EP"@);
}

/// How the names of this process's macros are made.
proof fn lemma_joined_clock()
    ensures
        "CLOCK"@ + "_PROC_NR"@ == "CLOCK_PROC_NR"@,
        "CLOCK"@ + "_EP"@ == "CLOCK_EP"@,
{
    reveal_strlit("CLOCK");
    reveal_strlit("_PROC_NR");
    reveal_strlit("_EP");
    reveal_strlit("CLOCK_PROC_NR");
    reveal_strlit("CLOCK_EP");
    assert("CLOCK"@ + "_PROC_NR"@ =~= "CLOCK_PROC_NR"@);
    assert("CLOCK"@ + "_EP"@ =~= "CLOCK_EP"@);
}

/// How the names of this process's macros are made.
proof fn lemma_joined_system()
    ensures
        "SYSTEM"@ + "_PROC_NR"@ == "SYSTEM_PROC_NR"@,
        "SYSTEM"@ + "_EP"@ == "SYSTEM_EP"@,
{
    reveal_strlit("SYSTEM");
    reveal_strlit("_PROC_NR");
    reveal_strlit("_EP");
    reveal_strlit("SYSTEM_PROC_NR");
    reveal_strlit("SYSTEM_EP");
    assert("SYSTEM"@ + "_PROC_NR"@ =~= "SYSTEM_PROC_NR"@);
    assert("SYSTEM"@ + "_EP"@ =~= "SYSTEM_EP"@);
}

/// How the names of this process's macros are made.
proof fn lemma_joined_hardware()
    ensures
        "HARDWARE"@ + "_PROC_NR"@ == "HARDWARE_PROC_NR"@,
        "HARDWARE"@ + "_EP"@ == "HARDWARE_EP"@,
{
    reveal_strlit("HARDWARE");
    reveal_strlit("_PROC_NR");
    reveal_strlit("_EP");
    reveal_strlit("HARDWARE_PROC_NR");
    reveal_strlit("HARDWARE_EP");
    assert("HARDWARE"@ + "_PROC_NR"@ =~= "HARDWARE_PROC_NR"@);
    assert("HARDWARE"@ + "_EP"@ =~= "HARDWARE_EP"@);
}

/// How the names of this process's macros are made.
proof fn lemma_joined_pm()
    ensures
        "PM"@ + "_PROC_NR"@ == "PM_PROC_NR"@,
        "PM"@ + "_EP"@ == "PM_EP"@,
{
    reveal_strlit("PM");
    reveal_strlit("_PROC_NR");
    reveal_strlit("_EP");
    reveal_strlit("PM_PROC_NR");
    reveal_strlit("PM_EP");
    assert("PM"@ + "_PROC_NR"@ =~= "PM_PROC_NR"@);
    assert("PM"@ + "_EP"@ =~= "PM_EP"@);
}

/// How the names of this process's macros are made.
proof fn lemma_joined_vfs()
    ensures
        "VFS"@ + "_PROC_NR"@ == "VFS_PROC_NR"@,
        "VFS"@ + "_EP"@ == "VFS_EP"@,
{
    reveal_strlit("VFS");
    reveal_strlit("_PROC_NR");
    reveal_strlit("_EP");
    reveal_strlit("VFS_PROC_NR");
    reveal_strlit("VFS_EP");
    assert("VFS"@ + "_PROC_NR"@ =~= "VFS_PROC_NR"@);
    assert("VFS"@ + "_EP"@ =~= "VFS_EP"@);
}

/// How the names of this process's macros are made.
proof fn lemma_joined_rs()
    ensures
        "RS"@ + "_PROC_NR"@ == "RS_PROC_NR"@,
        "RS"@ + "_EP"@ == "RS_EP"@,
{
    reveal_strlit("RS");
    reveal_strlit("_PROC_NR");
    reveal_strlit("_EP");
    reveal_strlit("RS_PROC_NR");
    reveal_strlit("RS_EP");
    assert("RS"@ + "_PROC_NR"@ =~= "RS_PROC_NR"@);
    assert("RS"@ + "_EP"@ =~= "RS_EP"@);
}

/// How the names of this process's macros are made.
proof fn lemma_joined_mem()
    ensures
        "MEM"@ + "_PROC_NR"@ == "MEM_PROC_NR"@,
        "MEM"@ + "_EP"@ == "MEM_EP"@,
{
    reveal_strlit("MEM");
    reveal_strlit("_PROC_NR");
    reveal_strlit("_EP");
    reveal_strlit("MEM_PROC_NR");
    reveal_strlit("MEM_EP");
    assert("MEM"@ + "_PROC_NR"@ =~= "MEM_PROC_NR"@);
    assert("MEM"@ + "_EP"@ =~= "MEM_EP"@);
}

/// How the names of this process's macros are made.
proof fn lemma_joined_tty()
    ensures
        "TTY"@ + "_PROC_NR"@ == "TTY_PROC_NR"@,
        "TTY"@ + "_EP"@ == "TTY_EP"@,
{
    reveal_strlit("TTY");
    reveal_strlit("_PROC_NR");
    reveal_strlit("_EP");
    reveal_strlit("TTY_PROC_NR");
    reveal_strlit("TTY_EP");
    assert("TTY"@ + "_PROC_NR"@ =~= "TTY_PROC_NR"@);
    assert("TTY"@ + "_EP"@ =~= "TTY_EP"@);
}

/// How the names of this process's macros are made.
proof fn lemma_joined_ds()
    ensures
        "DS"@ + "_PROC_NR"@ == "DS_PROC_NR"@,
        "DS"@ + "_EP"@ == "DS_EP"@,
{
    reveal_strlit("DS");
    reveal_strlit("_PROC_NR");
    reveal_strlit("_EP");
    reveal_strlit("DS_PROC_NR");
    reveal_strlit("DS_EP");
    assert("DS"@ + "_PROC_NR"@ =~= "DS_PROC_NR"@);
    assert("DS"@ + "_EP"@ =~= "DS_EP"@);
}

/// How the names of this process's macros are made.
proof fn lemma_joined_mfs()
    ensures
        "MFS"@ + "_PROC_NR"@ == "MFS_PROC_NR"@,
        "MFS"@ + "_EP"@ == "MFS_EP"@,
{
    reveal_strlit("MFS");
    reveal_strlit("_PROC_NR");
    reveal_strlit("_EP");
    reveal_strlit("MFS_PROC_NR");
    reveal_strlit("MFS_EP");
    assert("MFS"@ + "_PROC_NR"@ =~= "MFS_PROC_NR"@);
    assert("MFS"@ + "_EP"@ =~= "MFS_EP"@);
}

/// How the names of this process's macros are made.
proof fn lemma_joined_vm()
    ensures
        "VM"@ + "_PROC_NR"@ == "VM_PROC_NR"@,
        "VM"@ + "_EP"@ == "VM_EP"@,
{
    reveal_strlit("VM");
    reveal_strlit("_PROC_NR");
    reveal_strlit("_EP");
    reveal_strlit("VM_PROC_NR");
    reveal_strlit("VM_EP");
    assert("VM"@ + "_PROC_NR"@ =~= "VM_PROC_NR"@);
    assert("VM"@ + "_EP"@ =~= "VM_EP"@);
}

/// How the names of this process's macros are made.
proof fn lemma_joined_pfs()
    ensures
        "PFS"@ + "_PROC_NR"@ == "PFS_PROC_NR"@,
        "PFS"@ + "_EP"@ == "PFS_EP"@,
{
    reveal_strlit("PFS");
    reveal_strlit("_PROC_NR");
    reveal_strlit("_EP");
    reveal_strlit("PFS_PROC_NR");
    reveal_strlit("PFS_EP");
    assert("PFS"@ + "_PROC_NR"@ =~= "PFS_PROC_NR"@);
    assert("PFS"@ + "_EP"@ =~= "PFS_EP"@);
}

/// How the names of this process's macros are made.
proof fn lemma_joined_sched()
    ensures
        "SCHED"@ + "_PROC_NR"@ == "SCHED_PROC_NR"@,
        "SCHED"@ + "_EP"@ == "SCHED_EP"@,
{
    reveal_strlit("SCHED");
    reveal_strlit("_PROC_NR");
    reveal_strlit("_EP");
    reveal_strlit("SCHED_PROC_NR");
    reveal_strlit("SCHED_EP");
    assert("SCHED"@ + "_PROC_NR"@ =~= "SCHED_PROC_NR"@);
    assert("SCHED"@ + "_EP"@ =~= "SCHED_EP"@);
}

/// How the names of this process's macros are made.
proof fn lemma_joined_init()
    ensures
        "INIT"@ + "_PROC_NR"@ == "INIT_PROC_NR"@,
        "INIT"@ + "_EP"@ == "INIT_EP"@,
{
    reveal_strlit("INIT");
    reveal_strlit("_PROC_NR");
    reveal_strlit("_EP");
    reveal_strlit("INIT_PROC_NR");
    reveal_strlit("INIT_EP");
    assert("INIT"@ + "_PROC_NR"@ =~= "INIT_PROC_NR"@);
    assert("INIT"@ + "_EP"@ =~= "INIT_EP"@);
}

/// Every kernel task is read back under its own name: its process number, which is
/// negative, in parentheses, and its endpoint, which is not that number but the number
/// above it by the width of the process field.
pub proof fn law_tasks_read_back()
    ensures
        value("ASYNCM_PROC_NR"@) == Some("("@ + text::decimal(ASYNCM as int) + ")"@),
        value("ASYNCM_EP"@) == Some("((endpoint_t) "@ + text::decimal(ASYNCM + 0x8000) + ")"@),
        value("IDLE_PROC_NR"@) == Some("("@ + text::decimal(IDLE as int) + ")"@),
        value("IDLE_EP"@) == Some("((endpoint_t) "@ + text::decimal(IDLE + 0x8000) + ")"@),
        value("CLOCK_PROC_NR"@) == Some("("@ + text::decimal(CLOCK as int) + ")"@),
        value("CLOCK_EP"@) == Some("((endpoint_t) "@ + text::decimal(CLOCK + 0x8000) + ")"@),
        value("SYSTEM_PROC_NR"@) == Some("("@ + text::decimal(SYSTEM as int) + ")"@),
        value("SYSTEM_EP"@) == Some("((endpoint_t) "@ + text::decimal(SYSTEM + 0x8000) + ")"@),
        value("HARDWARE_PROC_NR"@) == Some("("@ + text::decimal(HARDWARE as int) + ")"@),
        value("HARDWARE_EP"@) == Some("((endpoint_t) "@ + text::decimal(HARDWARE + 0x8000) + ")"@),
{
    lemma_process_value(0);
    lemma_joined_asyncm();
    lemma_process_value(1);
    lemma_joined_idle();
    lemma_process_value(2);
    lemma_joined_clock();
    lemma_process_value(3);
    lemma_joined_system();
    lemma_process_value(4);
    lemma_joined_hardware();
}

/// Every server is read back under its own name: its process number, and the endpoint
/// of the same number.
pub proof fn law_servers_read_back()
    ensures
        value("PM_PROC_NR"@) == Some(text::decimal(PM_PROC_NR as int)),
        value("PM_EP"@) == Some("((endpoint_t) "@ + text::decimal(PM_PROC_NR as int) + ")"@),
        value("VFS_PROC_NR"@) == Some(text::decimal(VFS_PROC_NR as int)),
        value("VFS_EP"@) == Some("((endpoint_t) "@ + text::decimal(VFS_PROC_NR as int) + ")"@),
        value("RS_PROC_NR"@) == Some(text::decimal(RS_PROC_NR as int)),
        value("RS_EP"@) == Some("((endpoint_t) "@ + text::decimal(RS_PROC_NR as int) + ")"@),
        value("MEM_PROC_NR"@) == Some(text::decimal(MEM_PROC_NR as int)),
        value("MEM_EP"@) == Some("((endpoint_t) "@ + text::decimal(MEM_PROC_NR as int) + ")"@),
        value("TTY_PROC_NR"@) == Some(text::decimal(TTY_PROC_NR as int)),
        value("TTY_EP"@) == Some("((endpoint_t) "@ + text::decimal(TTY_PROC_NR as int) + ")"@),
        value("DS_PROC_NR"@) == Some(text::decimal(DS_PROC_NR as int)),
        value("DS_EP"@) == Some("((endpoint_t) "@ + text::decimal(DS_PROC_NR as int) + ")"@),
        value("MFS_PROC_NR"@) == Some(text::decimal(MFS_PROC_NR as int)),
        value("MFS_EP"@) == Some("((endpoint_t) "@ + text::decimal(MFS_PROC_NR as int) + ")"@),
        value("VM_PROC_NR"@) == Some(text::decimal(VM_PROC_NR as int)),
        value("VM_EP"@) == Some("((endpoint_t) "@ + text::decimal(VM_PROC_NR as int) + ")"@),
        value("PFS_PROC_NR"@) == Some(text::decimal(PFS_PROC_NR as int)),
        value("PFS_EP"@) == Some("((endpoint_t) "@ + text::decimal(PFS_PROC_NR as int) + ")"@),
        value("SCHED_PROC_NR"@) == Some(text::decimal(SCHED_PROC_NR as int)),
        value("SCHED_EP"@) == Some("((endpoint_t) "@ + text::decimal(SCHED_PROC_NR as int) + ")"@),
        value("INIT_PROC_NR"@) == Some(text::decimal(INIT_PROC_NR as int)),
        value("INIT_EP"@) == Some("((endpoint_t) "@ + text::decimal(INIT_PROC_NR as int) + ")"@),
{
    lemma_process_value(5);
    lemma_joined_pm();
    lemma_process_value(6);
    lemma_joined_vfs();
    lemma_process_value(7);
    lemma_joined_rs();
    lemma_process_value(8);
    lemma_joined_mem();
    lemma_process_value(9);
    lemma_joined_tty();
    lemma_process_value(10);
    lemma_joined_ds();
    lemma_process_value(11);
    lemma_joined_mfs();
    lemma_process_value(12);
    lemma_joined_vm();
    lemma_process_value(13);
    lemma_joined_pfs();
    lemma_process_value(14);
    lemma_joined_sched();
    lemma_process_value(15);
    lemma_joined_init();
}

} // verus!
