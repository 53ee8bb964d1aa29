//! `com.h`: process numbers and the endpoints derived from them.
use vstd::prelude::*;
use vstd::string::*;
use crate::abi::com;
use crate::abi::com::{
    boot_endpoint, ASYNCM, CLOCK, DS_PROC_NR, EXEC_ONLY_PROC_NR, HARDWARE, IDLE, INIT_PROC_NR,
    MEM_PROC_NR, MFS_PROC_NR, NR_BOOT_PROCS, NR_PROCS, NR_SYS_PROCS, NR_TASKS, PFS_PROC_NR,
    PM_PROC_NR, RS_PROC_NR, SCHED_PROC_NR, SYSTEM, TTY_PROC_NR, VFS_PROC_NR, VM_PROC_NR,
};
use crate::abi::endpoint::ProcNr;
use crate::abi::errno::OK;
use crate::headers::builder;
use crate::headers::builder::CFile;
use crate::headers::tables;
use crate::text;

verus! {

/// Guard of the generated header.
pub const GUARD: &'static str = "_MINIXRS_COM_H";

pub const TITLE: &'static str = "Process numbers, boot endpoints, and process-table capacities.";

/// The files the content is derived from.
pub const SOURCES: [&'static str; 2] = [
    "kernel-shared/src/com.rs",
    "kernel-shared/src/error.rs",
];

/// A comment of the header.
pub const OK_NOTE: [&'static str; 3] = [
    "MINIX 3 keeps OK in <minix/const.h>; minix.rs defines it alongside the",
    "errnos in kernel-shared/src/error.rs. It lives here so a C file that",
    "checks an IPC result does not have to include <minixrs/errno.h> as well.",
];

/// A comment of the header.
pub const PROC_NOTE: [&'static str; 12] = [
    "Every process below has TWO macros, and they are NOT interchangeable:",
    "",
    "    <NAME>_PROC_NR   the process-table slot (NEGATIVE for kernel tasks)",
    "    <NAME>_EP        the boot endpoint -- what belongs in an IPC call",
    "",
    "They differ for the kernel tasks because minix.rs sign-extends the",
    "endpoint proc field instead of using MINIX 3's offset bias (see",
    "minixrs/ipc.h). Naming a task by its _PROC_NR in an IPC call is a bug.",
    "",
    "The _EP values are computed by calling com::boot_endpoint() in the",
    "generator: no equivalent Rust constant exists, and deriving them here is",
    "exactly what this tool is for.",
];

/// A comment of the header.
pub const EXEC_NOTE: [&'static str; 2] = [
    "Sentinel proc number for an MXBI archive module that is resolvable by",
    "name but never boot-loaded (the exec target). Not a process.",
];

/// A comment of the header.
pub const OMITTED_NOTE: [&'static str; 7] = [
    "Deliberately not emitted, each for want of a C consumer:",
    "  * STUB_[A-D]_PROC_NR / NR_STUB_PROCS -- the demo stubs are scoped to",
    "    the kernel's `boot-stubs` cargo feature.",
    "  * NR_SERVED_PROCS -- sizes the Rust servers' per-process tables.",
    "  * message::USER_VA_TOP and sys_limits::* -- kernel-internal caps.",
    "  * signal numbers -- musl's <signal.h> is authoritative and already",
    "    agrees with kernel-shared/src/signal.rs.",
];

/// A comment of the header.
pub const CHECK_NOTE: [&'static str; 3] = [
    "The C decode macros in minixrs/ipc.h are hand-written; the _EP values are",
    "Rust-computed. These assertions check one against the other at compile",
    "time, in every translation unit, with no libc and no sysroot.",
];

/// Every process with a `_PROC_NR` and an `_EP` macro, in slot order.
pub const PROCESSES: [(&'static str, ProcNr); 16] = [
    ("ASYNCM", ASYNCM),
    ("IDLE", IDLE),
    ("CLOCK", CLOCK),
    ("SYSTEM", SYSTEM),
    ("HARDWARE", HARDWARE),
    ("PM", PM_PROC_NR),
    ("VFS", VFS_PROC_NR),
    ("RS", RS_PROC_NR),
    ("MEM", MEM_PROC_NR),
    ("TTY", TTY_PROC_NR),
    ("DS", DS_PROC_NR),
    ("MFS", MFS_PROC_NR),
    ("VM", VM_PROC_NR),
    ("PFS", PFS_PROC_NR),
    ("SCHED", SCHED_PROC_NR),
    ("INIT", INIT_PROC_NR),
];

/// The table capacities.
pub const CAPACITIES: [(&'static str, i64); 4] = [
    ("NR_TASKS", NR_TASKS as i64),
    ("NR_PROCS", NR_PROCS as i64),
    ("NR_SYS_PROCS", NR_SYS_PROCS as i64),
    ("NR_BOOT_PROCS", NR_BOOT_PROCS as i64),
];

/// The processes whose packing the header checks.
pub const CHECKED: [&'static str; 6] = [
    "SYSTEM",
    "HARDWARE",
    "CLOCK",
    "PM",
    "VFS",
    "INIT",
];

/// The processes, in slot order.
pub fn processes() -> (r: [(&'static str, ProcNr); 16])
    ensures
        r@ == PROCESSES@,
{
    PROCESSES
}

/// The list covers every task slot and every boot slot, in order and without a
/// gap.
pub proof fn law_processes_cover_slots()
    ensures
        PROCESSES@.len() == NR_TASKS + NR_BOOT_PROCS,
        forall|i: int| 0 <= i < PROCESSES@.len() ==> (#[trigger] PROCESSES@[i]).1 == i - NR_TASKS,
{
}

/// `t` and the two macros of each of the first `n` processes.
pub open spec fn procs_text(t: Seq<char>, n: int) -> Seq<char>
    decreases n,
{
    if n <= 0 {
        t
    } else {
        let (name, nr) = PROCESSES@[n - 1];
        let t = builder::define_dec(procs_text(t, n - 1), name@ + "_PROC_NR"@, nr as int);
        builder::define_ep(t, name@ + "_EP"@, com::boot_spec(nr as int))
    }
}

/// `t` and the three assertions on the packing of one process.
pub open spec fn check_text(t: Seq<char>, name: Seq<char>) -> Seq<char> {
    let t = builder::static_assert(
        t,
        name + "_EP == _ENDPOINT(0, "@ + name + "_PROC_NR)"@,
        name + "_EP disagrees with the _ENDPOINT packing macro"@,
    );
    let t = builder::static_assert(
        t,
        "_ENDPOINT_P("@ + name + "_EP) == "@ + name + "_PROC_NR"@,
        "_ENDPOINT_P does not round-trip "@ + name + "_EP"@,
    );
    builder::static_assert(
        t,
        "_ENDPOINT_G("@ + name + "_EP) == 0"@,
        name + "_EP is not a generation-0 boot endpoint"@,
    )
}

/// `t` and the assertions on the first `n` checked processes.
pub open spec fn checks_text(t: Seq<char>, n: int) -> Seq<char>
    decreases n,
{
    if n <= 0 {
        t
    } else {
        check_text(checks_text(t, n - 1), CHECKED@[n - 1]@)
    }
}

/// Render the three assertions on one process.
fn render_check(f: &mut CFile, name: &str)
    requires
        !name@.contains('"'),
    ensures
        final(f)@ == check_text(old(f)@, name@),
{
    proof {
        reveal_strlit("_EP disagrees with the _ENDPOINT packing macro");
        reveal_strlit("_ENDPOINT_P does not round-trip ");
        reveal_strlit("_EP");
        reveal_strlit("_EP is not a generation-0 boot endpoint");
    }
    let mut expr = text::concat3(name, "_EP == _ENDPOINT(0, ", name);
    expr.append("_PROC_NR)");
    let msg = text::concat(name, "_EP disagrees with the _ENDPOINT packing macro");
    f.static_assert(expr.as_str(), msg.as_str());
    let mut expr = text::concat3("_ENDPOINT_P(", name, "_EP) == ");
    expr.append(name);
    expr.append("_PROC_NR");
    let msg = text::concat3("_ENDPOINT_P does not round-trip ", name, "_EP");
    f.static_assert(expr.as_str(), msg.as_str());
    let expr = text::concat3("_ENDPOINT_G(", name, "_EP) == 0");
    let msg = text::concat(name, "_EP is not a generation-0 boot endpoint");
    f.static_assert(expr.as_str(), msg.as_str());
}

/// No checked name holds a double quote.
proof fn lemma_checked_quotes()
    ensures
        forall|i: int| 0 <= i < 6 ==> !(#[trigger] CHECKED@[i])@.contains('"'),
{
    reveal_strlit("SYSTEM");
    reveal_strlit("HARDWARE");
    reveal_strlit("CLOCK");
    reveal_strlit("PM");
    reveal_strlit("VFS");
    reveal_strlit("INIT");
}

/// `t` and the sections before the processes.
#[verifier::opaque]
pub open spec fn capacities_text(t: Seq<char>) -> Seq<char> {
    let t = builder::section(t, "process-table capacities"@);
    let t = tables::decs(t, CAPACITIES@, 4);
    let t = builder::section(t, "success sentinel"@);
    let t = builder::block_comment(t, OK_NOTE@);
    let t = builder::define_dec(t, "OK"@, OK as int);
    let t = builder::section(t, "processes"@);
    let t = builder::block_comment(t, PROC_NOTE@);
    t
}

/// Render that part.
fn render_capacities(f: &mut CFile)
    ensures
        final(f)@ == capacities_text(old(f)@),
{
    proof {
        reveal(capacities_text);
    }
    f.section("process-table capacities");
    tables::define_decs(f, &CAPACITIES);
    f.section("success sentinel");
    f.block_comment(&OK_NOTE);
    f.define_dec("OK", OK as i64);
    f.section("processes");
    f.block_comment(&PROC_NOTE);
}

/// `t` and the parts between the processes and the checks.
#[verifier::opaque]
pub open spec fn sentinels_text(t: Seq<char>) -> Seq<char> {
    let t = builder::block_comment(t, EXEC_NOTE@);
    let t = builder::define_dec(t, "EXEC_ONLY_PROC_NR"@, EXEC_ONLY_PROC_NR as int);
    let t = builder::block_comment(t, OMITTED_NOTE@);
    let t = builder::section(t, "endpoint packing self-check"@);
    let t = builder::block_comment(t, CHECK_NOTE@);
    t
}

/// Render that part.
fn render_sentinels(f: &mut CFile)
    ensures
        final(f)@ == sentinels_text(old(f)@),
{
    proof {
        reveal(sentinels_text);
    }
    f.block_comment(&EXEC_NOTE);
    f.define_dec("EXEC_ONLY_PROC_NR", EXEC_ONLY_PROC_NR as i64);
    f.block_comment(&OMITTED_NOTE);
    f.section("endpoint packing self-check");
    f.block_comment(&CHECK_NOTE);
}

/// The text of the header.
pub open spec fn com_text() -> Seq<char> {
    let t = builder::guard_open(builder::banner(TITLE@, SOURCES@), GUARD@);
    let t = builder::include_line(
        builder::blank(t),
        "minixrs/ipc.h"@,
        "endpoint_t and the _ENDPOINT* packing macros"@,
    );
    let t = sentinels_text(procs_text(capacities_text(t), 16));
    builder::guard_close(checks_text(t, 6), GUARD@)
}

/// Render the header.
pub fn render() -> (s: String)
    ensures
        s@ == com_text(),
{
    let mut f = CFile::new(TITLE, &SOURCES);
    f.guard_open(GUARD);
    f.blank();
    f.include_header("minixrs/ipc.h", "endpoint_t and the _ENDPOINT* packing macros");
    render_capacities(&mut f);
    let ghost t = f@;
    let all = processes();
    let mut i: usize = 0;
    while i < 16
        invariant
            i <= 16,
            all@ == PROCESSES@,
            f@ == procs_text(t, i as int),
        decreases 16 - i,
    {
        let (name, nr) = all[i];
        f.define_dec(text::concat(name, "_PROC_NR").as_str(), nr as i64);
        f.define_ep(text::concat(name, "_EP").as_str(), boot_endpoint(nr));
        i = i + 1;
    }
    render_sentinels(&mut f);
    let ghost t = f@;
    let mut i: usize = 0;
    while i < 6
        invariant
            i <= 6,
            f@ == checks_text(t, i as int),
        decreases 6 - i,
    {
        proof {
            lemma_checked_quotes();
        }
        let names = CHECKED;
        render_check(&mut f, names[i]);
        i = i + 1;
    }
    f.guard_close(GUARD);
    f.finish()
}

} // verus!
