//! `callnr.h`: kernel-call numbers and the server request bands.
use vstd::prelude::*;
use vstd::slice::slice_to_vec;
use vstd::string::*;
use crate::abi::callnr::{
    BDEV_READ, BDEV_RQ_BASE, BDEV_WRITE, CDEV_GRANT_OFF, CDEV_LEN_OFF, CDEV_MAX_IO,
    CDEV_MINOR_CONSOLE, CDEV_MINOR_OFF, CDEV_OFFSET_OFF, CDEV_RQ_BASE, CDEV_WRITE,
    DIAGCTL_CODE_DIAG, DIAGCTL_CODE_REGISTER, DIAGCTL_CODE_STACKTRACE, DIAGCTL_CODE_UNREGISTER,
    DIAG_TEXT_MAX, DIAG_TEXT_OFF, DS_CHECK, DS_PUBLISH, DS_RETRIEVE, DS_RQ_BASE, EXEC_NAME_LEN,
    FS_LOOKUP, FS_READ, FS_READSUPER, FS_RQ_BASE, FS_WRITE, GET_WHOAMI, KERNEL_CALL,
    NR_BDEV_MSGS, NR_CDEV_MSGS, NR_DS_REQUESTS, NR_FS_MSGS, NR_KERN_CALLS, NR_PM_MSGS,
    NR_SCHED_MSGS, NR_SEF_MSGS, NR_SYS_CALLS, NR_VFS_MSGS, NR_VMCTL_SUBCALLS, PM_EXEC,
    PM_EXEC_PATH_MAX, PM_EXEC_PATH_OFF, PM_EXIT, PM_FORK, PM_GETPID, PM_GRANT_TEST, PM_RQ_BASE,
    PM_WAIT, PRIVCTL_SET_USER, SAFECOPY_FROM, SAFECOPY_TO, SCHEDCTL_FLAG_KERNEL,
    SCHEDULING_NO_QUANTUM, SCHEDULING_SET_NICE, SCHEDULING_START, SCHEDULING_STOP, SCHED_RQ_BASE,
    SEF_INIT, SEF_RQ_BASE, SEF_SIGNAL, SYS_COPY, SYS_DIAGCTL, SYS_ENDKSIG, SYS_EXEC, SYS_EXIT,
    SYS_FORK, SYS_GETINFO, SYS_GETINFO_NAME_LEN, SYS_GETKSIG, SYS_IRQCTL, SYS_KILL, SYS_PRIVCTL,
    SYS_SAFECOPY, SYS_SCHEDCTL, SYS_SCHEDULE, SYS_SETALARM, SYS_SETGRANT, SYS_TIMES, SYS_VMCTL,
    VFS_BUF_OFF, VFS_CLOSE, VFS_EXEC_STAGE, VFS_FD_OFF, VFS_LEN_OFF, VFS_OPEN, VFS_READ,
    VFS_RQ_BASE, VFS_WRITE, VMCTL_CLEAR_PAGEFAULT, VMCTL_GET_PAGEFAULT, VMCTL_PROT_EXEC,
    VMCTL_PROT_WRITE, VMCTL_PT_MAP, VMCTL_PT_UNMAP, VMCTL_VMINHIBIT_CLEAR, VMCTL_VMINHIBIT_SET,
    VM_BRK, VM_FORK, VM_MMAP, VM_MUNMAP, VM_PAGEFAULT, VM_RQ_BASE,
};
use crate::abi::grant;
use crate::abi::grant::{
    CPF_DIRECT, CPF_INDIRECT, CPF_MAGIC, CPF_READ, CPF_TRY, CPF_USED, CPF_VALID, CPF_WRITE, GRANT_INVALID, GRANT_MAX_IDX, GRANT_MAX_SEQ, GRANT_SHIFT,
};
use crate::abi::ipc::NOTIFY_MESSAGE;
use crate::headers::builder;
use crate::headers::builder::CFile;
use crate::headers::tables;
use crate::text;

verus! {

/// Guard of the generated header.
pub const GUARD: &'static str = "_MINIXRS_CALLNR_H";

pub const TITLE: &'static str = "Kernel-call numbers, server request bands, and their payload constants.";

/// The files the content is derived from.
pub const SOURCES: [&'static str; 1] = [
    "kernel-shared/src/callnr.rs",
];

/// The comment at the top.
pub const NOTE: [&'static str; 8] = [
    "Deviation from MINIX 3: its <minix/callnr.h> holds POSIX syscall numbers",
    "and keeps server request numbers in <minix/com.h>. minix.rs has no POSIX",
    "call-number layer -- a libc wrapper builds a server request directly --",
    "so this header carries the kernel calls and the request bands together.",
    "",
    "Payload byte offsets ARE emitted, at the end of this header: slice 5.6's",
    "musl wrappers build VFS and PM requests by hand and need them. The grant",
    "ENTRY layout still is not -- see the grants section.",
];

/// The kernel calls, in numeric order.
pub const KERNEL_CALLS: [(&'static str, i64); 18] = [
    ("SYS_GETINFO", SYS_GETINFO as i64),
    ("SYS_PRIVCTL", SYS_PRIVCTL as i64),
    ("SYS_FORK", SYS_FORK as i64),
    ("SYS_EXEC", SYS_EXEC as i64),
    ("SYS_EXIT", SYS_EXIT as i64),
    ("SYS_COPY", SYS_COPY as i64),
    ("SYS_SAFECOPY", SYS_SAFECOPY as i64),
    ("SYS_IRQCTL", SYS_IRQCTL as i64),
    ("SYS_VMCTL", SYS_VMCTL as i64),
    ("SYS_SCHEDULE", SYS_SCHEDULE as i64),
    ("SYS_SETALARM", SYS_SETALARM as i64),
    ("SYS_TIMES", SYS_TIMES as i64),
    ("SYS_DIAGCTL", SYS_DIAGCTL as i64),
    ("SYS_SETGRANT", SYS_SETGRANT as i64),
    ("SYS_SCHEDCTL", SYS_SCHEDCTL as i64),
    ("SYS_KILL", SYS_KILL as i64),
    ("SYS_GETKSIG", SYS_GETKSIG as i64),
    ("SYS_ENDKSIG", SYS_ENDKSIG as i64),
];

/// How many kernel calls there are.
pub const CALL_COUNTS: [(&'static str, i64); 2] = [
    ("NR_KERN_CALLS", NR_KERN_CALLS as i64),
    ("NR_SYS_CALLS", NR_SYS_CALLS as i64),
];

/// Kernel-call payload constants.
pub const CALL_PAYLOAD: [(&'static str, i64); 5] = [
    ("GET_WHOAMI", GET_WHOAMI as i64),
    ("SYS_GETINFO_NAME_LEN", SYS_GETINFO_NAME_LEN as i64),
    ("EXEC_NAME_LEN", EXEC_NAME_LEN as i64),
    ("PRIVCTL_SET_USER", PRIVCTL_SET_USER as i64),
    ("SCHEDCTL_FLAG_KERNEL", SCHEDCTL_FLAG_KERNEL as i64),
];

/// The debug-channel constants.
pub const DIAG: [(&'static str, i64); 6] = [
    ("DIAGCTL_CODE_DIAG", DIAGCTL_CODE_DIAG as i64),
    ("DIAGCTL_CODE_STACKTRACE", DIAGCTL_CODE_STACKTRACE as i64),
    ("DIAGCTL_CODE_REGISTER", DIAGCTL_CODE_REGISTER as i64),
    ("DIAGCTL_CODE_UNREGISTER", DIAGCTL_CODE_UNREGISTER as i64),
    ("DIAG_TEXT_OFF", DIAG_TEXT_OFF as i64),
    ("DIAG_TEXT_MAX", DIAG_TEXT_MAX as i64),
];

/// The comment on grants.
pub const GRANT_NOTE: [&'static str; 5] = [
    "The grant ABI (slice 5.2). The grant-entry layout itself is deliberately",
    "not emitted yet: no C consumes it before the musl slice, and a dedicated",
    "<minixrs/safecopies.h> would need its own builder and CI syntax check. The",
    "flag values and the id packing are here because a C caller needs them to",
    "read a grant id out of a message payload.",
];

/// The copy directions.
pub const SAFECOPY: [(&'static str, i64); 2] = [
    ("SAFECOPY_FROM", SAFECOPY_FROM as i64),
    ("SAFECOPY_TO", SAFECOPY_TO as i64),
];

/// The grant flags, in numeric order.
pub const CPF_FLAGS: [(&'static str, i64); 8] = [
    ("CPF_READ", CPF_READ as i64),
    ("CPF_WRITE", CPF_WRITE as i64),
    ("CPF_TRY", CPF_TRY as i64),
    ("CPF_USED", CPF_USED as i64),
    ("CPF_DIRECT", CPF_DIRECT as i64),
    ("CPF_INDIRECT", CPF_INDIRECT as i64),
    ("CPF_MAGIC", CPF_MAGIC as i64),
    ("CPF_VALID", CPF_VALID as i64),
];

/// The largest index and sequence of a grant id.
pub const GRANT_FIELDS: [(&'static str, i64); 2] = [
    ("GRANT_MAX_IDX", GRANT_MAX_IDX as i64),
    ("GRANT_MAX_SEQ", GRANT_MAX_SEQ as i64),
];

/// The macros that pack and unpack grant ids.
pub const GRANT_MACROS: [(&'static str, &'static str); 4] = [
    ("GRANT_ID(idx, seq)", "((int) ((((unsigned) (seq) & GRANT_MAX_SEQ) << GRANT_SHIFT) \\\n                                 | ((unsigned) (idx) & GRANT_MAX_IDX)))"),
    ("GRANT_IDX(g)", "((unsigned) (g) & GRANT_MAX_IDX)"),
    ("GRANT_SEQ(g)", "(((unsigned) (g) >> GRANT_SHIFT) & GRANT_MAX_SEQ)"),
    ("GRANT_VALID(g)", "((g) >= 0)"),
];

/// The memory-control subcalls.
pub const VMCTL: [(&'static str, i64); 7] = [
    ("VMCTL_PT_MAP", VMCTL_PT_MAP as i64),
    ("VMCTL_PT_UNMAP", VMCTL_PT_UNMAP as i64),
    ("VMCTL_CLEAR_PAGEFAULT", VMCTL_CLEAR_PAGEFAULT as i64),
    ("VMCTL_GET_PAGEFAULT", VMCTL_GET_PAGEFAULT as i64),
    ("VMCTL_VMINHIBIT_SET", VMCTL_VMINHIBIT_SET as i64),
    ("VMCTL_VMINHIBIT_CLEAR", VMCTL_VMINHIBIT_CLEAR as i64),
    ("NR_VMCTL_SUBCALLS", NR_VMCTL_SUBCALLS as i64),
];

/// The memory-protection flags.
pub const VMCTL_PROT: [(&'static str, i64); 2] = [
    ("VMCTL_PROT_WRITE", VMCTL_PROT_WRITE as i64),
    ("VMCTL_PROT_EXEC", VMCTL_PROT_EXEC as i64),
];

/// The PM requests, in numeric order.
pub const PM_MEMBERS: [(&'static str, i64); 6] = [
    ("PM_GETPID", PM_GETPID as i64),
    ("PM_FORK", PM_FORK as i64),
    ("PM_EXIT", PM_EXIT as i64),
    ("PM_WAIT", PM_WAIT as i64),
    ("PM_EXEC", PM_EXEC as i64),
    ("PM_GRANT_TEST", PM_GRANT_TEST as i64),
];

/// The VFS requests, in numeric order.
pub const VFS_MEMBERS: [(&'static str, i64); 5] = [
    ("VFS_WRITE", VFS_WRITE as i64),
    ("VFS_OPEN", VFS_OPEN as i64),
    ("VFS_READ", VFS_READ as i64),
    ("VFS_CLOSE", VFS_CLOSE as i64),
    ("VFS_EXEC_STAGE", VFS_EXEC_STAGE as i64),
];

/// The file-system requests, in numeric order.
pub const FS_MEMBERS: [(&'static str, i64); 4] = [
    ("FS_READSUPER", FS_READSUPER as i64),
    ("FS_LOOKUP", FS_LOOKUP as i64),
    ("FS_READ", FS_READ as i64),
    ("FS_WRITE", FS_WRITE as i64),
];

/// The block-device requests, in numeric order.
pub const BDEV_MEMBERS: [(&'static str, i64); 2] = [
    ("BDEV_READ", BDEV_READ as i64),
    ("BDEV_WRITE", BDEV_WRITE as i64),
];

/// The character-device requests, in numeric order.
pub const CDEV_MEMBERS: [(&'static str, i64); 1] = [
    ("CDEV_WRITE", CDEV_WRITE as i64),
];

/// The VM requests, in numeric order.
pub const VM_MEMBERS: [(&'static str, i64); 5] = [
    ("VM_PAGEFAULT", VM_PAGEFAULT as i64),
    ("VM_BRK", VM_BRK as i64),
    ("VM_MMAP", VM_MMAP as i64),
    ("VM_MUNMAP", VM_MUNMAP as i64),
    ("VM_FORK", VM_FORK as i64),
];

/// The SEF control messages, in numeric order.
pub const SEF_MEMBERS: [(&'static str, i64); 2] = [
    ("SEF_INIT", SEF_INIT as i64),
    ("SEF_SIGNAL", SEF_SIGNAL as i64),
];

/// The DS requests, in numeric order.
pub const DS_MEMBERS: [(&'static str, i64); 3] = [
    ("DS_PUBLISH", DS_PUBLISH as i64),
    ("DS_RETRIEVE", DS_RETRIEVE as i64),
    ("DS_CHECK", DS_CHECK as i64),
];

/// The SCHED requests, in numeric order.
pub const SCHED_MEMBERS: [(&'static str, i64); 4] = [
    ("SCHEDULING_NO_QUANTUM", SCHEDULING_NO_QUANTUM as i64),
    ("SCHEDULING_START", SCHEDULING_START as i64),
    ("SCHEDULING_STOP", SCHEDULING_STOP as i64),
    ("SCHEDULING_SET_NICE", SCHEDULING_SET_NICE as i64),
];

/// The comment on payload offsets.
pub const OFFSET_NOTE: [&'static str; 13] = [
    "Byte offsets within a message payload, which starts at message offset 8.",
    "Emitted since slice 5.6: src/minixrs/_syscall.c in the musl fork builds",
    "these requests by hand, so it needs the offsets as real constants rather",
    "than as Rust doc comments.",
    "",
    "VFS_WRITE carries a RAW BUFFER ADDRESS in the caller's own address space,",
    "not a grant id -- VFS's client is an ordinary user process with no grant",
    "table. VFS is what turns it into a magic grant, naming the owner from the",
    "kernel-stamped m_source and never from the payload.",
    "",
    "CDEV_WRITE, by contrast, carries a grant id and NO granter field, for the",
    "same anti-spoof reason. Its offsets are emitted for completeness of the",
    "band, not because C talks to a driver: musl's write() goes to VFS.",
];

/// Offsets in a file request.
pub const VFS_OFFSETS: [(&'static str, i64); 3] = [
    ("VFS_FD_OFF", VFS_FD_OFF as i64),
    ("VFS_LEN_OFF", VFS_LEN_OFF as i64),
    ("VFS_BUF_OFF", VFS_BUF_OFF as i64),
];

/// Offsets in an exec request.
pub const EXEC_OFFSETS: [(&'static str, i64); 2] = [
    ("PM_EXEC_PATH_OFF", PM_EXEC_PATH_OFF as i64),
    ("PM_EXEC_PATH_MAX", PM_EXEC_PATH_MAX as i64),
];

/// Offsets in a character-device request.
pub const CDEV_OFFSETS: [(&'static str, i64); 6] = [
    ("CDEV_MINOR_OFF", CDEV_MINOR_OFF as i64),
    ("CDEV_GRANT_OFF", CDEV_GRANT_OFF as i64),
    ("CDEV_LEN_OFF", CDEV_LEN_OFF as i64),
    ("CDEV_OFFSET_OFF", CDEV_OFFSET_OFF as i64),
    ("CDEV_MAX_IO", CDEV_MAX_IO as i64),
    ("CDEV_MINOR_CONSOLE", CDEV_MINOR_CONSOLE as i64),
];

/// The comment on band ordering.
pub const ORDER_NOTE: [&'static str; 3] = [
    "Mirrors the `const _: () = assert!(..)` guards in callnr.rs: every band",
    "sits above the previous one and entirely below NOTIFY_MESSAGE, so no",
    "server request can ever be mistaken for a kernel NOTIFY.",
];

/// The order of the bands, as assertions.
pub const ORDERING: [(&'static str, &'static str); 11] = [
    ("NR_SYS_CALLS >= NR_KERN_CALLS", "the privilege call mask is narrower than the kernel-call set"),
    ("PM_RQ_BASE > KERNEL_CALL + NR_KERN_CALLS - 1", "the PM band overlaps the kernel calls"),
    ("PM_RQ_BASE + NR_PM_MSGS - 1 < VFS_RQ_BASE", "the PM band overlaps the VFS band"),
    ("VFS_RQ_BASE + NR_VFS_MSGS - 1 < FS_RQ_BASE", "the VFS band overlaps the FS band"),
    ("FS_RQ_BASE + NR_FS_MSGS - 1 < BDEV_RQ_BASE", "the FS band overlaps the BDEV band"),
    ("BDEV_RQ_BASE + NR_BDEV_MSGS - 1 < CDEV_RQ_BASE", "the BDEV band overlaps the CDEV band"),
    ("CDEV_RQ_BASE + NR_CDEV_MSGS - 1 < VM_RQ_BASE", "the CDEV band overlaps the VM band"),
    ("SEF_RQ_BASE > VM_FORK", "the SEF band overlaps the VM band"),
    ("DS_RQ_BASE > SEF_RQ_BASE + NR_SEF_MSGS - 1", "the DS band overlaps the SEF band"),
    ("SCHED_RQ_BASE > DS_RQ_BASE + NR_DS_REQUESTS - 1", "the SCHED band overlaps the DS band"),
    ("SCHED_RQ_BASE + NR_SCHED_MSGS - 1 < NOTIFY_MESSAGE", "a server request number collides with NOTIFY_MESSAGE"),
];

/// A slot index for the assertions that tie the C packing to this one.
pub const GRANT_PROBE_IDX: u32 = 1234;

/// A sequence number for those assertions. It differs from the index, so that a
/// macro that dropped or swapped a field would fail.
pub const GRANT_PROBE_SEQ: u32 = 56;

/// The id those two make.
pub const GRANT_PROBE_ID: i32 = 58_721_490;

/// The id of the largest index and sequence.
pub const GRANT_MAX_ID: i32 = 0x7FFF_FFFF;

/// The probe is the packed form of its two fields, and so is the largest id.
pub proof fn law_probe_packs()
    ensures
        GRANT_PROBE_ID == grant::grant_id_spec(GRANT_PROBE_IDX as int, GRANT_PROBE_SEQ as int),
        grant::grant_idx_spec(GRANT_PROBE_ID as int) == GRANT_PROBE_IDX,
        grant::grant_seq_spec(GRANT_PROBE_ID as int) == GRANT_PROBE_SEQ,
        GRANT_PROBE_IDX != GRANT_PROBE_SEQ,
        GRANT_MAX_ID == grant::grant_id_spec(GRANT_MAX_IDX as int, GRANT_MAX_SEQ as int),
{
}

/// The kernel calls, in numeric order.
pub fn kernel_calls() -> (r: [(&'static str, i64); 18])
    ensures
        r@ == KERNEL_CALLS@,
{
    KERNEL_CALLS
}

/// The grant flags, in numeric order.
pub fn cpf_flags() -> (r: [(&'static str, i64); 8])
    ensures
        r@ == CPF_FLAGS@,
{
    CPF_FLAGS
}

/// A server request band: its base, its members, and the count that bounds it
/// (`None` for the memory server's, which has none).
pub struct Band {
    pub title: &'static str,
    pub base_name: &'static str,
    pub base: i64,
    pub count: Option<(&'static str, i64)>,
    pub members: Vec<(&'static str, i64)>,
}

/// What a [`Band`] says, with its members as a sequence.
pub struct BandView {
    pub title: Seq<char>,
    pub base_name: Seq<char>,
    pub base: int,
    pub count: Option<(Seq<char>, int)>,
    pub members: Seq<(&'static str, i64)>,
}

impl View for Band {
    type V = BandView;

    open spec fn view(&self) -> BandView {
        BandView {
            title: self.title@,
            base_name: self.base_name@,
            base: self.base as int,
            count: match self.count {
                Some((name, n)) => Some((name@, n as int)),
                None => None,
            },
            members: self.members@,
        }
    }
}

/// The bands, in ascending numeric order.
pub open spec fn band(k: int) -> BandView {
    if k == 0 {
        BandView {
            title: "PM requests"@,
            base_name: "PM_RQ_BASE"@,
            base: PM_RQ_BASE as int,
            count: Some(("NR_PM_MSGS"@, NR_PM_MSGS as int)),
            members: PM_MEMBERS@,
        }
    } else if k == 1 {
        BandView {
            title: "VFS requests"@,
            base_name: "VFS_RQ_BASE"@,
            base: VFS_RQ_BASE as int,
            count: Some(("NR_VFS_MSGS"@, NR_VFS_MSGS as int)),
            members: VFS_MEMBERS@,
        }
    } else if k == 2 {
        BandView {
            title: "file-system requests"@,
            base_name: "FS_RQ_BASE"@,
            base: FS_RQ_BASE as int,
            count: Some(("NR_FS_MSGS"@, NR_FS_MSGS as int)),
            members: FS_MEMBERS@,
        }
    } else if k == 3 {
        BandView {
            title: "block-device requests"@,
            base_name: "BDEV_RQ_BASE"@,
            base: BDEV_RQ_BASE as int,
            count: Some(("NR_BDEV_MSGS"@, NR_BDEV_MSGS as int)),
            members: BDEV_MEMBERS@,
        }
    } else if k == 4 {
        BandView {
            title: "character-device requests"@,
            base_name: "CDEV_RQ_BASE"@,
            base: CDEV_RQ_BASE as int,
            count: Some(("NR_CDEV_MSGS"@, NR_CDEV_MSGS as int)),
            members: CDEV_MEMBERS@,
        }
    } else if k == 5 {
        BandView {
            title: "VM requests"@,
            base_name: "VM_RQ_BASE"@,
            base: VM_RQ_BASE as int,
            count: None,
            members: VM_MEMBERS@,
        }
    } else if k == 6 {
        BandView {
            title: "SEF control messages"@,
            base_name: "SEF_RQ_BASE"@,
            base: SEF_RQ_BASE as int,
            count: Some(("NR_SEF_MSGS"@, NR_SEF_MSGS as int)),
            members: SEF_MEMBERS@,
        }
    } else if k == 7 {
        BandView {
            title: "DS requests"@,
            base_name: "DS_RQ_BASE"@,
            base: DS_RQ_BASE as int,
            count: Some(("NR_DS_REQUESTS"@, NR_DS_REQUESTS as int)),
            members: DS_MEMBERS@,
        }
    } else {
        BandView {
            title: "SCHED requests"@,
            base_name: "SCHED_RQ_BASE"@,
            base: SCHED_RQ_BASE as int,
            count: Some(("NR_SCHED_MSGS"@, NR_SCHED_MSGS as int)),
            members: SCHED_MEMBERS@,
        }
    }
}

/// The bands, in ascending numeric order.
pub fn bands() -> (r: [Band; 9])
    ensures
        forall|k: int| 0 <= k < 9 ==> (#[trigger] r@[k])@ == band(k),
{
    let r = [
        Band {
            title: "PM requests",
            base_name: "PM_RQ_BASE",
            base: PM_RQ_BASE as i64,
            count: Some(("NR_PM_MSGS", NR_PM_MSGS as i64)),
            members: slice_to_vec(&PM_MEMBERS),
        },
        Band {
            title: "VFS requests",
            base_name: "VFS_RQ_BASE",
            base: VFS_RQ_BASE as i64,
            count: Some(("NR_VFS_MSGS", NR_VFS_MSGS as i64)),
            members: slice_to_vec(&VFS_MEMBERS),
        },
        Band {
            title: "file-system requests",
            base_name: "FS_RQ_BASE",
            base: FS_RQ_BASE as i64,
            count: Some(("NR_FS_MSGS", NR_FS_MSGS as i64)),
            members: slice_to_vec(&FS_MEMBERS),
        },
        Band {
            title: "block-device requests",
            base_name: "BDEV_RQ_BASE",
            base: BDEV_RQ_BASE as i64,
            count: Some(("NR_BDEV_MSGS", NR_BDEV_MSGS as i64)),
            members: slice_to_vec(&BDEV_MEMBERS),
        },
        Band {
            title: "character-device requests",
            base_name: "CDEV_RQ_BASE",
            base: CDEV_RQ_BASE as i64,
            count: Some(("NR_CDEV_MSGS", NR_CDEV_MSGS as i64)),
            members: slice_to_vec(&CDEV_MEMBERS),
        },
        Band {
            title: "VM requests",
            base_name: "VM_RQ_BASE",
            base: VM_RQ_BASE as i64,
            count: None,
            members: slice_to_vec(&VM_MEMBERS),
        },
        Band {
            title: "SEF control messages",
            base_name: "SEF_RQ_BASE",
            base: SEF_RQ_BASE as i64,
            count: Some(("NR_SEF_MSGS", NR_SEF_MSGS as i64)),
            members: slice_to_vec(&SEF_MEMBERS),
        },
        Band {
            title: "DS requests",
            base_name: "DS_RQ_BASE",
            base: DS_RQ_BASE as i64,
            count: Some(("NR_DS_REQUESTS", NR_DS_REQUESTS as i64)),
            members: slice_to_vec(&DS_MEMBERS),
        },
        Band {
            title: "SCHED requests",
            base_name: "SCHED_RQ_BASE",
            base: SCHED_RQ_BASE as i64,
            count: Some(("NR_SCHED_MSGS", NR_SCHED_MSGS as i64)),
            members: slice_to_vec(&SCHED_MEMBERS),
        },
    ];
    assert(r@[0]@ == band(0));
    assert(r@[1]@ == band(1));
    assert(r@[2]@ == band(2));
    assert(r@[3]@ == band(3));
    assert(r@[4]@ == band(4));
    assert(r@[5]@ == band(5));
    assert(r@[6]@ == band(6));
    assert(r@[7]@ == band(7));
    assert(r@[8]@ == band(8));
    r
}

/// `t` and one band: a section, the base, the members, and the count.
pub open spec fn band_text(t: Seq<char>, b: BandView) -> Seq<char> {
    let t = builder::section(t, b.title);
    let t = builder::define_hex(t, b.base_name, b.base);
    let t = tables::hexes(t, b.members, b.members.len() as int);
    match b.count {
        Some((name, n)) => builder::define_dec(t, name, n),
        None => t,
    }
}

/// `t` and the first `n` bands.
pub open spec fn bands_text(t: Seq<char>, n: int) -> Seq<char>
    decreases n,
{
    if n <= 0 {
        t
    } else {
        band_text(bands_text(t, n - 1), band(n - 1))
    }
}

/// `t` and the assertions on grant ids.
pub open spec fn grant_asserts(t: Seq<char>) -> Seq<char> {
    let t = builder::static_assert(
        t,
        "GRANT_ID(GRANT_MAX_IDX, GRANT_MAX_SEQ) == "@ + text::decimal(GRANT_MAX_ID as int),
        "the C grant-id packing disagrees with the Rust one"@,
    );
    let t = builder::static_assert(
        t,
        "GRANT_IDX("@ + text::decimal(GRANT_PROBE_ID as int) + ") == "@ + text::decimal(
            GRANT_PROBE_IDX as int,
        ),
        "GRANT_IDX does not invert GRANT_ID"@,
    );
    builder::static_assert(
        t,
        "GRANT_SEQ("@ + text::decimal(GRANT_PROBE_ID as int) + ") == "@ + text::decimal(
            GRANT_PROBE_SEQ as int,
        ),
        "GRANT_SEQ does not invert GRANT_ID"@,
    )
}

/// `t` and the kernel-call sections.
pub open spec fn calls_text(t: Seq<char>) -> Seq<char> {
    let t = builder::section(t, "kernel calls"@);
    let t = builder::define_hex(t, "KERNEL_CALL"@, KERNEL_CALL as int);
    let t = tables::hexes(builder::blank(t), KERNEL_CALLS@, 18);
    let t = tables::decs(builder::blank(t), CALL_COUNTS@, 2);
    let t = builder::section(t, "kernel-call payload constants"@);
    let t = tables::decs(t, CALL_PAYLOAD@, 5);
    let t = builder::section(t, "SYS_DIAGCTL subcodes + inline-text payload"@);
    tables::decs(t, DIAG@, 6)
}

/// `t` and the section on grants.
pub open spec fn grants_text(t: Seq<char>) -> Seq<char> {
    let t = builder::section(t, "grants: SYS_SETGRANT / SYS_SAFECOPY"@);
    let t = builder::block_comment(t, GRANT_NOTE@);
    let t = tables::decs(t, SAFECOPY@, 2);
    let t = tables::hexes(builder::blank(t), CPF_FLAGS@, 8);
    let t = builder::define_dec(builder::blank(t), "GRANT_SHIFT"@, GRANT_SHIFT as int);
    let t = tables::hexes(t, GRANT_FIELDS@, 2);
    let t = builder::define_dec(t, "GRANT_INVALID"@, GRANT_INVALID as int);
    let t = tables::raws(builder::blank(t), GRANT_MACROS@, 4);
    grant_asserts(builder::blank(t))
}

/// `t` and the sections after the bands.
pub open spec fn offsets_text(t: Seq<char>) -> Seq<char> {
    let t = builder::section(t, "server-request payload offsets"@);
    let t = builder::block_comment(t, OFFSET_NOTE@);
    let t = tables::decs(t, VFS_OFFSETS@, 3);
    let t = tables::decs(builder::blank(t), EXEC_OFFSETS@, 2);
    let t = tables::decs(builder::blank(t), CDEV_OFFSETS@, 6);
    let t = builder::section(t, "band ordering"@);
    let t = builder::block_comment(t, ORDER_NOTE@);
    tables::asserts(t, ORDERING@, 11)
}

/// The text of the header.
pub open spec fn callnr_text() -> Seq<char> {
    let t = builder::guard_open(builder::banner(TITLE@, SOURCES@), GUARD@);
    let t = builder::include_line(
        builder::blank(t),
        "minixrs/ipc.h"@,
        "NOTIFY_MESSAGE, for the band ordering checks"@,
    );
    let t = builder::block_comment(t, NOTE@);
    let t = grants_text(calls_text(t));
    let t = builder::section(t, "SYS_VMCTL subcalls"@);
    let t = tables::decs(t, VMCTL@, 7);
    let t = tables::decs(builder::blank(t), VMCTL_PROT@, 2);
    builder::guard_close(offsets_text(bands_text(t, 9)), GUARD@)
}

/// Render one band.
fn render_band(f: &mut CFile, b: &Band)
    requires
        b.base >= 0,
        forall|i: int| 0 <= i < b.members@.len() ==> (#[trigger] b.members@[i]).1 >= 0,
    ensures
        final(f)@ == band_text(old(f)@, b@),
{
    f.section(b.title);
    f.define_hex(b.base_name, b.base);
    tables::define_hexes(f, b.members.as_slice());
    match b.count {
        Some((name, n)) => f.define_dec(name, n),
        None => {},
    }
}

/// No band holds a negative number.
proof fn lemma_bands_positive(k: int)
    requires
        0 <= k < 9,
    ensures
        band(k).base >= 0,
        forall|i: int| 0 <= i < band(k).members.len() ==> (#[trigger] band(k).members[i]).1 >= 0,
{
}

/// Render the assertions on grant ids.
fn render_grant_asserts(f: &mut CFile)
    ensures
        final(f)@ == grant_asserts(old(f)@),
{
    proof {
        reveal_strlit("the C grant-id packing disagrees with the Rust one");
        reveal_strlit("GRANT_IDX does not invert GRANT_ID");
        reveal_strlit("GRANT_SEQ does not invert GRANT_ID");
    }
    let max = text::to_decimal(GRANT_MAX_ID as i64);
    let id = text::to_decimal(GRANT_PROBE_ID as i64);
    let idx = text::to_decimal(GRANT_PROBE_IDX as i64);
    let seq = text::to_decimal(GRANT_PROBE_SEQ as i64);
    f.static_assert(
        text::concat("GRANT_ID(GRANT_MAX_IDX, GRANT_MAX_SEQ) == ", max.as_str()).as_str(),
        "the C grant-id packing disagrees with the Rust one",
    );
    let mut left = text::concat3("GRANT_IDX(", id.as_str(), ") == ");
    left.append(idx.as_str());
    f.static_assert(left.as_str(), "GRANT_IDX does not invert GRANT_ID");
    let mut right = text::concat3("GRANT_SEQ(", id.as_str(), ") == ");
    right.append(seq.as_str());
    f.static_assert(right.as_str(), "GRANT_SEQ does not invert GRANT_ID");
}

/// Render the header.
pub fn render() -> (s: String)
    ensures
        s@ == callnr_text(),
{
    let mut f = CFile::new(TITLE, &SOURCES);
    f.guard_open(GUARD);
    f.blank();
    f.include_header("minixrs/ipc.h", "NOTIFY_MESSAGE, for the band ordering checks");
    f.block_comment(&NOTE);
    render_calls(&mut f);
    render_grants(&mut f);
    f.section("SYS_VMCTL subcalls");
    tables::define_decs(&mut f, &VMCTL);
    f.blank();
    tables::define_decs(&mut f, &VMCTL_PROT);
    let all = bands();
    let ghost t = f@;
    let mut k: usize = 0;
    while k < 9
        invariant
            k <= 9,
            f@ == bands_text(t, k as int),
            forall|i: int| 0 <= i < 9 ==> (#[trigger] all@[i])@ == band(i),
        decreases 9 - k,
    {
        proof {
            lemma_bands_positive(k as int);
            assert(all@[k as int]@ == band(k as int));
            assert(all@[k as int]@.members == all@[k as int].members@);
        }
        render_band(&mut f, &all[k]);
        k = k + 1;
    }
    render_offsets(&mut f);
    f.guard_close(GUARD);
    f.finish()
}

/// Render the kernel-call sections.
fn render_calls(f: &mut CFile)
    ensures
        final(f)@ == calls_text(old(f)@),
{
    f.section("kernel calls");
    f.define_hex("KERNEL_CALL", KERNEL_CALL as i64);
    f.blank();
    tables::define_hexes(f, &KERNEL_CALLS);
    f.blank();
    tables::define_decs(f, &CALL_COUNTS);
    f.section("kernel-call payload constants");
    tables::define_decs(f, &CALL_PAYLOAD);
    f.section("SYS_DIAGCTL subcodes + inline-text payload");
    tables::define_decs(f, &DIAG);
}

/// Render the section on grants.
fn render_grants(f: &mut CFile)
    ensures
        final(f)@ == grants_text(old(f)@),
{
    f.section("grants: SYS_SETGRANT / SYS_SAFECOPY");
    f.block_comment(&GRANT_NOTE);
    tables::define_decs(f, &SAFECOPY);
    f.blank();
    tables::define_hexes(f, &CPF_FLAGS);
    f.blank();
    f.define_dec("GRANT_SHIFT", GRANT_SHIFT as i64);
    tables::define_hexes(f, &GRANT_FIELDS);
    f.define_dec("GRANT_INVALID", GRANT_INVALID as i64);
    f.blank();
    tables::define_raws(f, &GRANT_MACROS);
    f.blank();
    render_grant_asserts(f);
}

/// No message of the ordering assertions holds a double quote.
proof fn lemma_ordering_quotes()
    ensures
        tables::quote_free(ORDERING@),
{
    reveal_strlit("the privilege call mask is narrower than the kernel-call set");
    reveal_strlit("the PM band overlaps the kernel calls");
    reveal_strlit("the PM band overlaps the VFS band");
    reveal_strlit("the VFS band overlaps the FS band");
    reveal_strlit("the FS band overlaps the BDEV band");
    reveal_strlit("the BDEV band overlaps the CDEV band");
    reveal_strlit("the CDEV band overlaps the VM band");
    reveal_strlit("the SEF band overlaps the VM band");
    reveal_strlit("the DS band overlaps the SEF band");
    reveal_strlit("the SCHED band overlaps the DS band");
    reveal_strlit("a server request number collides with NOTIFY_MESSAGE");
}

/// Render the sections after the bands.
fn render_offsets(f: &mut CFile)
    ensures
        final(f)@ == offsets_text(old(f)@),
{
    proof {
        lemma_ordering_quotes();
    }
    f.section("server-request payload offsets");
    f.block_comment(&OFFSET_NOTE);
    tables::define_decs(f, &VFS_OFFSETS);
    f.blank();
    tables::define_decs(f, &EXEC_OFFSETS);
    f.blank();
    tables::define_decs(f, &CDEV_OFFSETS);
    f.section("band ordering");
    f.block_comment(&ORDER_NOTE);
    tables::static_asserts(f, &ORDERING);
}

/// The kernel-call list is complete and contiguous.
pub proof fn law_kernel_calls_contiguous(i: int)
    requires
        0 <= i < KERNEL_CALLS@.len(),
    ensures
        KERNEL_CALLS@.len() == NR_KERN_CALLS,
        KERNEL_CALLS@[i].1 == KERNEL_CALL + i,
{
}

/// Every band's members are contiguous from its base, and as many as its count
/// says where it has one.
pub proof fn law_band_members_contiguous(k: int, i: int)
    requires
        0 <= k < 9,
        0 <= i < band(k).members.len(),
    ensures
        band(k).members[i].1 == band(k).base + i,
        band(k).count matches Some((_, n)) ==> n == band(k).members.len(),
{
}

/// The bands ascend: each ends below the next one's base, and the last ends below
/// the notification type, so no request can be mistaken for a notification.
pub proof fn law_bands_ascend(j: int, k: int)
    requires
        0 <= j < k < 9,
    ensures
        band(j).base + band(j).members.len() <= band(k).base,
        KERNEL_CALL + NR_KERN_CALLS <= band(0).base,
        band(8).base + band(8).members.len() <= NOTIFY_MESSAGE,
{
}

} // verus!
