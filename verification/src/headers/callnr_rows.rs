//! The macros of `callnr.h`: which they are, in order, and that no two of them share
//! a name.
use vstd::prelude::*;
use crate::abi::callnr::KERNEL_CALL;
use crate::abi::grant::{GRANT_INVALID, GRANT_SHIFT};
use crate::headers::builder;
use crate::headers::callnr_h;
use crate::headers::callnr_h::{
    CALL_COUNTS, CALL_PAYLOAD, CDEV_OFFSETS, CPF_FLAGS, DIAG, EXEC_OFFSETS, GRANT_FIELDS,
    KERNEL_CALLS, SAFECOPY, VFS_OFFSETS, VMCTL, VMCTL_PROT,
};
use crate::headers::macros;
use crate::headers::rows;

verus! {

/// The macros of the kernel-call sections.
pub open spec fn calls() -> Seq<rows::Row> {
    seq![("KERNEL_CALL"@, builder::hex_value(KERNEL_CALL as int))] + rows::hex_rows(KERNEL_CALLS@)
        + rows::dec_rows(CALL_COUNTS@) + rows::dec_rows(CALL_PAYLOAD@) + rows::dec_rows(DIAG@)
}

/// The macros of the section on grants. Those that take an argument have no value.
pub open spec fn grants() -> Seq<rows::Row> {
    rows::dec_rows(SAFECOPY@) + rows::hex_rows(CPF_FLAGS@) + seq![
        ("GRANT_SHIFT"@, builder::dec_value(GRANT_SHIFT as int)),
    ] + rows::hex_rows(GRANT_FIELDS@) + seq![
        ("GRANT_INVALID"@, builder::dec_value(GRANT_INVALID as int)),
    ]
}

/// The macros of the memory-control section.
pub open spec fn memory() -> Seq<rows::Row> {
    rows::dec_rows(VMCTL@) + rows::dec_rows(VMCTL_PROT@)
}

/// The macros of one band: its base, its members, and their count.
pub open spec fn band(b: callnr_h::BandView) -> Seq<rows::Row> {
    let r = seq![(b.base_name, builder::hex_value(b.base))] + rows::hex_rows(b.members);
    match b.count {
        Some((name, n)) => r + seq![(name, builder::dec_value(n))],
        None => r,
    }
}

/// The macros of the first `n` bands.
pub open spec fn bands(n: int) -> Seq<rows::Row>
    decreases n,
{
    if n <= 0 {
        Seq::empty()
    } else {
        bands(n - 1) + band(callnr_h::band(n - 1))
    }
}

/// The macros of the sections after the bands.
pub open spec fn offsets() -> Seq<rows::Row> {
    rows::dec_rows(VFS_OFFSETS@) + rows::dec_rows(EXEC_OFFSETS@) + rows::dec_rows(CDEV_OFFSETS@)
}

/// All macros of the header that have a value, in order.
pub open spec fn all() -> Seq<rows::Row> {
    calls() + grants() + memory() + bands(9) + offsets()
}

/// A number that tells names of the header apart that start alike: it is made of the
/// length and five of the letters.
spec fn mark(s: Seq<char>) -> int {
    let n = s.len() as int;
    n + 0x80 * (s[0] as int) + 0x4000 * (s[3] as int) + 0x20_0000 * (s[5] as int) + 0x1000_0000 * (
    s[n - 2] as int) + 0x8_0000_0000 * (s[n - 1] as int)
}

/// The places of the names that start with `SYS`.
spec fn sys_place(name: Seq<char>) -> int {
    let m = mark(name);
    if m == mark("SYS_GETINFO"@) {
        1
    } else if m == mark("SYS_PRIVCTL"@) {
        2
    } else if m == mark("SYS_FORK"@) {
        3
    } else if m == mark("SYS_EXEC"@) {
        4
    } else if m == mark("SYS_EXIT"@) {
        5
    } else if m == mark("SYS_COPY"@) {
        6
    } else if m == mark("SYS_SAFECOPY"@) {
        7
    } else if m == mark("SYS_IRQCTL"@) {
        8
    } else if m == mark("SYS_VMCTL"@) {
        9
    } else if m == mark("SYS_SCHEDULE"@) {
        10
    } else if m == mark("SYS_SETALARM"@) {
        11
    } else if m == mark("SYS_TIMES"@) {
        12
    } else if m == mark("SYS_DIAGCTL"@) {
        13
    } else if m == mark("SYS_SETGRANT"@) {
        14
    } else if m == mark("SYS_SCHEDCTL"@) {
        15
    } else if m == mark("SYS_KILL"@) {
        16
    } else if m == mark("SYS_GETKSIG"@) {
        17
    } else if m == mark("SYS_ENDKSIG"@) {
        18
    } else if m == mark("SYS_GETINFO_NAME_LEN"@) {
        22
    } else {
        -1
    }
}

/// The places of the names that start with `NR`.
spec fn nr_place(name: Seq<char>) -> int {
    let m = mark(name);
    if m == mark("NR_KERN_CALLS"@) {
        19
    } else if m == mark("NR_SYS_CALLS"@) {
        20
    } else if m == mark("NR_VMCTL_SUBCALLS"@) {
        52
    } else if m == mark("NR_PM_MSGS"@) {
        62
    } else if m == mark("NR_VFS_MSGS"@) {
        69
    } else if m == mark("NR_FS_MSGS"@) {
        75
    } else if m == mark("NR_BDEV_MSGS"@) {
        79
    } else if m == mark("NR_CDEV_MSGS"@) {
        82
    } else if m == mark("NR_SEF_MSGS"@) {
        92
    } else if m == mark("NR_DS_REQUESTS"@) {
        97
    } else if m == mark("NR_SCHED_MSGS"@) {
        103
    } else {
        -1
    }
}

/// The places of the names that start with `SCHED`.
spec fn sched_place(name: Seq<char>) -> int {
    let m = mark(name);
    if m == mark("SCHEDCTL_FLAG_KERNEL"@) {
        25
    } else if m == mark("SCHED_RQ_BASE"@) {
        98
    } else if m == mark("SCHEDULING_NO_QUANTUM"@) {
        99
    } else if m == mark("SCHEDULING_START"@) {
        100
    } else if m == mark("SCHEDULING_STOP"@) {
        101
    } else if m == mark("SCHEDULING_SET_NICE"@) {
        102
    } else {
        -1
    }
}

/// The places of the names that start with `DIAG`.
spec fn diag_place(name: Seq<char>) -> int {
    let m = mark(name);
    if m == mark("DIAGCTL_CODE_DIAG"@) {
        26
    } else if m == mark("DIAGCTL_CODE_STACKTRACE"@) {
        27
    } else if m == mark("DIAGCTL_CODE_REGISTER"@) {
        28
    } else if m == mark("DIAGCTL_CODE_UNREGISTER"@) {
        29
    } else if m == mark("DIAG_TEXT_OFF"@) {
        30
    } else if m == mark("DIAG_TEXT_MAX"@) {
        31
    } else {
        -1
    }
}

/// The places of the names that start with `SAFECOPY`.
spec fn safecopy_place(name: Seq<char>) -> int {
    let m = mark(name);
    if m == mark("SAFECOPY_FROM"@) {
        32
    } else if m == mark("SAFECOPY_TO"@) {
        33
    } else {
        -1
    }
}

/// The places of the names that start with `CPF`.
spec fn cpf_place(name: Seq<char>) -> int {
    let m = mark(name);
    if m == mark("CPF_READ"@) {
        34
    } else if m == mark("CPF_WRITE"@) {
        35
    } else if m == mark("CPF_TRY"@) {
        36
    } else if m == mark("CPF_USED"@) {
        37
    } else if m == mark("CPF_DIRECT"@) {
        38
    } else if m == mark("CPF_INDIRECT"@) {
        39
    } else if m == mark("CPF_MAGIC"@) {
        40
    } else if m == mark("CPF_VALID"@) {
        41
    } else {
        -1
    }
}

/// The places of the names that start with `GRANT`.
spec fn grant_place(name: Seq<char>) -> int {
    let m = mark(name);
    if m == mark("GRANT_SHIFT"@) {
        42
    } else if m == mark("GRANT_MAX_IDX"@) {
        43
    } else if m == mark("GRANT_MAX_SEQ"@) {
        44
    } else if m == mark("GRANT_INVALID"@) {
        45
    } else {
        -1
    }
}

/// The places of the names that start with `VMCTL`.
spec fn vmctl_place(name: Seq<char>) -> int {
    let m = mark(name);
    if m == mark("VMCTL_PT_MAP"@) {
        46
    } else if m == mark("VMCTL_PT_UNMAP"@) {
        47
    } else if m == mark("VMCTL_CLEAR_PAGEFAULT"@) {
        48
    } else if m == mark("VMCTL_GET_PAGEFAULT"@) {
        49
    } else if m == mark("VMCTL_VMINHIBIT_SET"@) {
        50
    } else if m == mark("VMCTL_VMINHIBIT_CLEAR"@) {
        51
    } else if m == mark("VMCTL_PROT_WRITE"@) {
        53
    } else if m == mark("VMCTL_PROT_EXEC"@) {
        54
    } else {
        -1
    }
}

/// The places of the names that start with `PM`.
spec fn pm_place(name: Seq<char>) -> int {
    let m = mark(name);
    if m == mark("PM_RQ_BASE"@) {
        55
    } else if m == mark("PM_GETPID"@) {
        56
    } else if m == mark("PM_FORK"@) {
        57
    } else if m == mark("PM_EXIT"@) {
        58
    } else if m == mark("PM_WAIT"@) {
        59
    } else if m == mark("PM_EXEC"@) {
        60
    } else if m == mark("PM_GRANT_TEST"@) {
        61
    } else if m == mark("PM_EXEC_PATH_OFF"@) {
        107
    } else if m == mark("PM_EXEC_PATH_MAX"@) {
        108
    } else {
        -1
    }
}

/// The places of the names that start with `VFS`.
spec fn vfs_place(name: Seq<char>) -> int {
    let m = mark(name);
    if m == mark("VFS_RQ_BASE"@) {
        63
    } else if m == mark("VFS_WRITE"@) {
        64
    } else if m == mark("VFS_OPEN"@) {
        65
    } else if m == mark("VFS_READ"@) {
        66
    } else if m == mark("VFS_CLOSE"@) {
        67
    } else if m == mark("VFS_EXEC_STAGE"@) {
        68
    } else if m == mark("VFS_FD_OFF"@) {
        104
    } else if m == mark("VFS_LEN_OFF"@) {
        105
    } else if m == mark("VFS_BUF_OFF"@) {
        106
    } else {
        -1
    }
}

/// The places of the names that start with `FS`.
spec fn fs_place(name: Seq<char>) -> int {
    let m = mark(name);
    if m == mark("FS_RQ_BASE"@) {
        70
    } else if m == mark("FS_READSUPER"@) {
        71
    } else if m == mark("FS_LOOKUP"@) {
        72
    } else if m == mark("FS_READ"@) {
        73
    } else if m == mark("FS_WRITE"@) {
        74
    } else {
        -1
    }
}

/// The places of the names that start with `BDEV`.
spec fn bdev_place(name: Seq<char>) -> int {
    let m = mark(name);
    if m == mark("BDEV_RQ_BASE"@) {
        76
    } else if m == mark("BDEV_READ"@) {
        77
    } else if m == mark("BDEV_WRITE"@) {
        78
    } else {
        -1
    }
}

/// The places of the names that start with `CDEV`.
spec fn cdev_place(name: Seq<char>) -> int {
    let m = mark(name);
    if m == mark("CDEV_RQ_BASE"@) {
        80
    } else if m == mark("CDEV_WRITE"@) {
        81
    } else if m == mark("CDEV_MINOR_OFF"@) {
        109
    } else if m == mark("CDEV_GRANT_OFF"@) {
        110
    } else if m == mark("CDEV_LEN_OFF"@) {
        111
    } else if m == mark("CDEV_OFFSET_OFF"@) {
        112
    } else if m == mark("CDEV_MAX_IO"@) {
        113
    } else if m == mark("CDEV_MINOR_CONSOLE"@) {
        114
    } else {
        -1
    }
}

/// The places of the names that start with `VM`.
spec fn vm_place(name: Seq<char>) -> int {
    let m = mark(name);
    if m == mark("VM_RQ_BASE"@) {
        83
    } else if m == mark("VM_PAGEFAULT"@) {
        84
    } else if m == mark("VM_BRK"@) {
        85
    } else if m == mark("VM_MMAP"@) {
        86
    } else if m == mark("VM_MUNMAP"@) {
        87
    } else if m == mark("VM_FORK"@) {
        88
    } else {
        -1
    }
}

/// The places of the names that start with `SEF`.
spec fn sef_place(name: Seq<char>) -> int {
    let m = mark(name);
    if m == mark("SEF_RQ_BASE"@) {
        89
    } else if m == mark("SEF_INIT"@) {
        90
    } else if m == mark("SEF_SIGNAL"@) {
        91
    } else {
        -1
    }
}

/// The places of the names that start with `DS`.
spec fn ds_place(name: Seq<char>) -> int {
    let m = mark(name);
    if m == mark("DS_RQ_BASE"@) {
        93
    } else if m == mark("DS_PUBLISH"@) {
        94
    } else if m == mark("DS_RETRIEVE"@) {
        95
    } else if m == mark("DS_CHECK"@) {
        96
    } else {
        -1
    }
}

/// The place of a name of the header among its macros.
pub closed spec fn place(name: Seq<char>) -> int {
    let head = (name[0], name[1], name[2]);
    if head == ('K', 'E', 'R') {
        0
    } else if head == ('S', 'Y', 'S') {
        sys_place(name)
    } else if head == ('N', 'R', '_') {
        nr_place(name)
    } else if head == ('G', 'E', 'T') {
        21
    } else if head == ('E', 'X', 'E') {
        23
    } else if head == ('P', 'R', 'I') {
        24
    } else if head == ('S', 'C', 'H') {
        sched_place(name)
    } else if head == ('D', 'I', 'A') {
        diag_place(name)
    } else if head == ('S', 'A', 'F') {
        safecopy_place(name)
    } else if head == ('C', 'P', 'F') {
        cpf_place(name)
    } else if head == ('G', 'R', 'A') {
        grant_place(name)
    } else if head == ('V', 'M', 'C') {
        vmctl_place(name)
    } else if head == ('P', 'M', '_') {
        pm_place(name)
    } else if head == ('V', 'F', 'S') {
        vfs_place(name)
    } else if head == ('F', 'S', '_') {
        fs_place(name)
    } else if head == ('B', 'D', 'E') {
        bdev_place(name)
    } else if head == ('C', 'D', 'E') {
        cdev_place(name)
    } else if head == ('V', 'M', '_') {
        vm_place(name)
    } else if head == ('S', 'E', 'F') {
        sef_place(name)
    } else if head == ('D', 'S', '_') {
        ds_place(name)
    } else {
        -1
    }
}

/// These macros stand one after the other from place `at` on.
pub open spec fn placed(r: Seq<rows::Row>, at: int) -> bool {
    forall|i: int| 0 <= i < r.len() ==> place((#[trigger] r[i]).0) == at + i
}

/// Macros that follow one another do so together.
pub proof fn lemma_placed(a: Seq<rows::Row>, b: Seq<rows::Row>, at: int)
    requires
        placed(a, at),
        placed(b, at + a.len()),
    ensures
        placed(a + b, at),
{
    assert forall|i: int| 0 <= i < (a + b).len() implies place((#[trigger] (a + b)[i]).0) == at
        + i by {
        if i < a.len() {
            assert(place(a[i].0) == at + i);
        } else {
            assert(place(b[i - a.len()].0) == at + i);
        }
    }
}

/// The names of `KERNEL_CALLS` are names of macros, and stand in their places.
pub proof fn lemma_kernel_calls()
    ensures
        rows::named(KERNEL_CALLS@),
        placed(rows::hex_rows(KERNEL_CALLS@), 1),
        forall|i: int| 0 <= i < KERNEL_CALLS@.len() ==> (#[trigger] KERNEL_CALLS@[i]).1 >= 0,
{
    reveal_strlit("SYS_GETINFO");
    reveal_strlit("SYS_PRIVCTL");
    reveal_strlit("SYS_FORK");
    reveal_strlit("SYS_EXEC");
    reveal_strlit("SYS_EXIT");
    reveal_strlit("SYS_COPY");
    reveal_strlit("SYS_SAFECOPY");
    reveal_strlit("SYS_IRQCTL");
    reveal_strlit("SYS_VMCTL");
    reveal_strlit("SYS_SCHEDULE");
    reveal_strlit("SYS_SETALARM");
    reveal_strlit("SYS_TIMES");
    reveal_strlit("SYS_DIAGCTL");
    reveal_strlit("SYS_SETGRANT");
    reveal_strlit("SYS_SCHEDCTL");
    reveal_strlit("SYS_KILL");
    reveal_strlit("SYS_GETKSIG");
    reveal_strlit("SYS_ENDKSIG");
    reveal_strlit("SYS_GETINFO_NAME_LEN");
    let r = rows::hex_rows(KERNEL_CALLS@);
    assert forall|i: int| 0 <= i < 18 implies place((#[trigger] r[i]).0) == 1 + i by {
        assert(r[i].0 == KERNEL_CALLS@[i].0@);
    }
}

/// The names of `CALL_COUNTS` are names of macros, and stand in their places.
pub proof fn lemma_call_counts()
    ensures
        rows::named(CALL_COUNTS@),
        placed(rows::dec_rows(CALL_COUNTS@), 19),
{
    reveal_strlit("NR_KERN_CALLS");
    reveal_strlit("NR_SYS_CALLS");
    reveal_strlit("NR_VMCTL_SUBCALLS");
    reveal_strlit("NR_PM_MSGS");
    reveal_strlit("NR_VFS_MSGS");
    reveal_strlit("NR_FS_MSGS");
    reveal_strlit("NR_BDEV_MSGS");
    reveal_strlit("NR_CDEV_MSGS");
    reveal_strlit("NR_SEF_MSGS");
    reveal_strlit("NR_DS_REQUESTS");
    reveal_strlit("NR_SCHED_MSGS");
    let r = rows::dec_rows(CALL_COUNTS@);
    assert forall|i: int| 0 <= i < 2 implies place((#[trigger] r[i]).0) == 19 + i by {
        assert(r[i].0 == CALL_COUNTS@[i].0@);
    }
}

/// The names of `CALL_PAYLOAD` are names of macros, and stand in their places.
pub proof fn lemma_call_payload()
    ensures
        rows::named(CALL_PAYLOAD@),
        placed(rows::dec_rows(CALL_PAYLOAD@), 21),
{
    reveal_strlit("GET_WHOAMI");
    reveal_strlit("SYS_GETINFO");
    reveal_strlit("SYS_PRIVCTL");
    reveal_strlit("SYS_FORK");
    reveal_strlit("SYS_EXEC");
    reveal_strlit("SYS_EXIT");
    reveal_strlit("SYS_COPY");
    reveal_strlit("SYS_SAFECOPY");
    reveal_strlit("SYS_IRQCTL");
    reveal_strlit("SYS_VMCTL");
    reveal_strlit("SYS_SCHEDULE");
    reveal_strlit("SYS_SETALARM");
    reveal_strlit("SYS_TIMES");
    reveal_strlit("SYS_DIAGCTL");
    reveal_strlit("SYS_SETGRANT");
    reveal_strlit("SYS_SCHEDCTL");
    reveal_strlit("SYS_KILL");
    reveal_strlit("SYS_GETKSIG");
    reveal_strlit("SYS_ENDKSIG");
    reveal_strlit("SYS_GETINFO_NAME_LEN");
    reveal_strlit("EXEC_NAME_LEN");
    reveal_strlit("PRIVCTL_SET_USER");
    reveal_strlit("SCHEDCTL_FLAG_KERNEL");
    reveal_strlit("SCHED_RQ_BASE");
    reveal_strlit("SCHEDULING_NO_QUANTUM");
    reveal_strlit("SCHEDULING_START");
    reveal_strlit("SCHEDULING_STOP");
    reveal_strlit("SCHEDULING_SET_NICE");
    let r = rows::dec_rows(CALL_PAYLOAD@);
    assert forall|i: int| 0 <= i < 5 implies place((#[trigger] r[i]).0) == 21 + i by {
        assert(r[i].0 == CALL_PAYLOAD@[i].0@);
    }
}

/// The names of `DIAG` are names of macros, and stand in their places.
pub proof fn lemma_diag()
    ensures
        rows::named(DIAG@),
        placed(rows::dec_rows(DIAG@), 26),
{
    reveal_strlit("DIAGCTL_CODE_DIAG");
    reveal_strlit("DIAGCTL_CODE_STACKTRACE");
    reveal_strlit("DIAGCTL_CODE_REGISTER");
    reveal_strlit("DIAGCTL_CODE_UNREGISTER");
    reveal_strlit("DIAG_TEXT_OFF");
    reveal_strlit("DIAG_TEXT_MAX");
    let r = rows::dec_rows(DIAG@);
    assert forall|i: int| 0 <= i < 6 implies place((#[trigger] r[i]).0) == 26 + i by {
        assert(r[i].0 == DIAG@[i].0@);
    }
}

/// The names of `SAFECOPY` are names of macros, and stand in their places.
pub proof fn lemma_safecopy()
    ensures
        rows::named(SAFECOPY@),
        placed(rows::dec_rows(SAFECOPY@), 32),
{
    reveal_strlit("SAFECOPY_FROM");
    reveal_strlit("SAFECOPY_TO");
    let r = rows::dec_rows(SAFECOPY@);
    assert forall|i: int| 0 <= i < 2 implies place((#[trigger] r[i]).0) == 32 + i by {
        assert(r[i].0 == SAFECOPY@[i].0@);
    }
}

/// The names of `CPF_FLAGS` are names of macros, and stand in their places.
pub proof fn lemma_cpf_flags()
    ensures
        rows::named(CPF_FLAGS@),
        placed(rows::hex_rows(CPF_FLAGS@), 34),
        forall|i: int| 0 <= i < CPF_FLAGS@.len() ==> (#[trigger] CPF_FLAGS@[i]).1 >= 0,
{
    reveal_strlit("CPF_READ");
    reveal_strlit("CPF_WRITE");
    reveal_strlit("CPF_TRY");
    reveal_strlit("CPF_USED");
    reveal_strlit("CPF_DIRECT");
    reveal_strlit("CPF_INDIRECT");
    reveal_strlit("CPF_MAGIC");
    reveal_strlit("CPF_VALID");
    let r = rows::hex_rows(CPF_FLAGS@);
    assert forall|i: int| 0 <= i < 8 implies place((#[trigger] r[i]).0) == 34 + i by {
        assert(r[i].0 == CPF_FLAGS@[i].0@);
    }
}

/// The names of `GRANT_FIELDS` are names of macros, and stand in their places.
pub proof fn lemma_grant_fields()
    ensures
        rows::named(GRANT_FIELDS@),
        placed(rows::hex_rows(GRANT_FIELDS@), 43),
        forall|i: int| 0 <= i < GRANT_FIELDS@.len() ==> (#[trigger] GRANT_FIELDS@[i]).1 >= 0,
{
    reveal_strlit("GRANT_SHIFT");
    reveal_strlit("GRANT_MAX_IDX");
    reveal_strlit("GRANT_MAX_SEQ");
    reveal_strlit("GRANT_INVALID");
    let r = rows::hex_rows(GRANT_FIELDS@);
    assert forall|i: int| 0 <= i < 2 implies place((#[trigger] r[i]).0) == 43 + i by {
        assert(r[i].0 == GRANT_FIELDS@[i].0@);
    }
}

/// The names of `VMCTL` are names of macros, and stand in their places.
pub proof fn lemma_vmctl()
    ensures
        rows::named(VMCTL@),
        placed(rows::dec_rows(VMCTL@), 46),
{
    reveal_strlit("VMCTL_PT_MAP");
    reveal_strlit("VMCTL_PT_UNMAP");
    reveal_strlit("VMCTL_CLEAR_PAGEFAULT");
    reveal_strlit("VMCTL_GET_PAGEFAULT");
    reveal_strlit("VMCTL_VMINHIBIT_SET");
    reveal_strlit("VMCTL_VMINHIBIT_CLEAR");
    reveal_strlit("VMCTL_PROT_WRITE");
    reveal_strlit("VMCTL_PROT_EXEC");
    reveal_strlit("NR_KERN_CALLS");
    reveal_strlit("NR_SYS_CALLS");
    reveal_strlit("NR_VMCTL_SUBCALLS");
    reveal_strlit("NR_PM_MSGS");
    reveal_strlit("NR_VFS_MSGS");
    reveal_strlit("NR_FS_MSGS");
    reveal_strlit("NR_BDEV_MSGS");
    reveal_strlit("NR_CDEV_MSGS");
    reveal_strlit("NR_SEF_MSGS");
    reveal_strlit("NR_DS_REQUESTS");
    reveal_strlit("NR_SCHED_MSGS");
    let r = rows::dec_rows(VMCTL@);
    assert forall|i: int| 0 <= i < 7 implies place((#[trigger] r[i]).0) == 46 + i by {
        assert(r[i].0 == VMCTL@[i].0@);
    }
}

/// The names of `VMCTL_PROT` are names of macros, and stand in their places.
pub proof fn lemma_vmctl_prot()
    ensures
        rows::named(VMCTL_PROT@),
        placed(rows::dec_rows(VMCTL_PROT@), 53),
{
    reveal_strlit("VMCTL_PT_MAP");
    reveal_strlit("VMCTL_PT_UNMAP");
    reveal_strlit("VMCTL_CLEAR_PAGEFAULT");
    reveal_strlit("VMCTL_GET_PAGEFAULT");
    reveal_strlit("VMCTL_VMINHIBIT_SET");
    reveal_strlit("VMCTL_VMINHIBIT_CLEAR");
    reveal_strlit("VMCTL_PROT_WRITE");
    reveal_strlit("VMCTL_PROT_EXEC");
    let r = rows::dec_rows(VMCTL_PROT@);
    assert forall|i: int| 0 <= i < 2 implies place((#[trigger] r[i]).0) == 53 + i by {
        assert(r[i].0 == VMCTL_PROT@[i].0@);
    }
}

/// The names of `VFS_OFFSETS` are names of macros, and stand in their places.
pub proof fn lemma_vfs_offsets()
    ensures
        rows::named(VFS_OFFSETS@),
        placed(rows::dec_rows(VFS_OFFSETS@), 104),
{
    reveal_strlit("VFS_RQ_BASE");
    reveal_strlit("VFS_WRITE");
    reveal_strlit("VFS_OPEN");
    reveal_strlit("VFS_READ");
    reveal_strlit("VFS_CLOSE");
    reveal_strlit("VFS_EXEC_STAGE");
    reveal_strlit("VFS_FD_OFF");
    reveal_strlit("VFS_LEN_OFF");
    reveal_strlit("VFS_BUF_OFF");
    let r = rows::dec_rows(VFS_OFFSETS@);
    assert forall|i: int| 0 <= i < 3 implies place((#[trigger] r[i]).0) == 104 + i by {
        assert(r[i].0 == VFS_OFFSETS@[i].0@);
    }
}

/// The names of `EXEC_OFFSETS` are names of macros, and stand in their places.
pub proof fn lemma_exec_offsets()
    ensures
        rows::named(EXEC_OFFSETS@),
        placed(rows::dec_rows(EXEC_OFFSETS@), 107),
{
    reveal_strlit("PM_RQ_BASE");
    reveal_strlit("PM_GETPID");
    reveal_strlit("PM_FORK");
    reveal_strlit("PM_EXIT");
    reveal_strlit("PM_WAIT");
    reveal_strlit("PM_EXEC");
    reveal_strlit("PM_GRANT_TEST");
    reveal_strlit("PM_EXEC_PATH_OFF");
    reveal_strlit("PM_EXEC_PATH_MAX");
    let r = rows::dec_rows(EXEC_OFFSETS@);
    assert forall|i: int| 0 <= i < 2 implies place((#[trigger] r[i]).0) == 107 + i by {
        assert(r[i].0 == EXEC_OFFSETS@[i].0@);
    }
}

/// The names of `CDEV_OFFSETS` are names of macros, and stand in their places.
pub proof fn lemma_cdev_offsets()
    ensures
        rows::named(CDEV_OFFSETS@),
        placed(rows::dec_rows(CDEV_OFFSETS@), 109),
{
    reveal_strlit("CDEV_RQ_BASE");
    reveal_strlit("CDEV_WRITE");
    reveal_strlit("CDEV_MINOR_OFF");
    reveal_strlit("CDEV_GRANT_OFF");
    reveal_strlit("CDEV_LEN_OFF");
    reveal_strlit("CDEV_OFFSET_OFF");
    reveal_strlit("CDEV_MAX_IO");
    reveal_strlit("CDEV_MINOR_CONSOLE");
    let r = rows::dec_rows(CDEV_OFFSETS@);
    assert forall|i: int| 0 <= i < 6 implies place((#[trigger] r[i]).0) == 109 + i by {
        assert(r[i].0 == CDEV_OFFSETS@[i].0@);
    }
}

/// So are the names that stand alone, and so do they.
pub proof fn lemma_single_names()
    ensures
        macros::plain_name("KERNEL_CALL"@) && place("KERNEL_CALL"@) == 0,
        macros::plain_name("GRANT_SHIFT"@) && place("GRANT_SHIFT"@) == 42,
        macros::plain_name("GRANT_INVALID"@) && place("GRANT_INVALID"@) == 45,
{
    reveal_strlit("KERNEL_CALL");
    reveal_strlit("GRANT_SHIFT");
    reveal_strlit("GRANT_MAX_IDX");
    reveal_strlit("GRANT_MAX_SEQ");
    reveal_strlit("GRANT_INVALID");
}

/// A band's text and names can be read back, and its macros stand from place `at` on.
pub open spec fn band_in_order(b: callnr_h::BandView, at: int) -> bool {
    &&& rows::one_line(b.title)
    &&& macros::plain_name(b.base_name)
    &&& b.base >= 0
    &&& rows::named(b.members)
    &&& forall|i: int| 0 <= i < b.members.len() ==> (#[trigger] b.members[i]).1 >= 0
    &&& b.count matches Some((name, _)) ==> macros::plain_name(name)
    &&& placed(band(b), at)
}

/// The band of the `PM` requests is in order.
proof fn lemma_pm_band()
    ensures
        band_in_order(callnr_h::band(0), 55),
{
    reveal_strlit("PM requests");
    reveal_strlit("PM_RQ_BASE");
    reveal_strlit("PM_GETPID");
    reveal_strlit("PM_FORK");
    reveal_strlit("PM_EXIT");
    reveal_strlit("PM_WAIT");
    reveal_strlit("PM_EXEC");
    reveal_strlit("PM_GRANT_TEST");
    reveal_strlit("PM_EXEC_PATH_OFF");
    reveal_strlit("PM_EXEC_PATH_MAX");
    reveal_strlit("NR_KERN_CALLS");
    reveal_strlit("NR_SYS_CALLS");
    reveal_strlit("NR_VMCTL_SUBCALLS");
    reveal_strlit("NR_PM_MSGS");
    reveal_strlit("NR_VFS_MSGS");
    reveal_strlit("NR_FS_MSGS");
    reveal_strlit("NR_BDEV_MSGS");
    reveal_strlit("NR_CDEV_MSGS");
    reveal_strlit("NR_SEF_MSGS");
    reveal_strlit("NR_DS_REQUESTS");
    reveal_strlit("NR_SCHED_MSGS");
    let b = callnr_h::band(0);
    let r = band(b);
    assert forall|i: int| 0 <= i < r.len() implies place((#[trigger] r[i]).0) == 55 + i by {
        if 1 <= i <= 6 {
            assert(r[i].0 == b.members[i - 1].0@);
        }
    }
}

/// The band of the `VFS` requests is in order.
proof fn lemma_vfs_band()
    ensures
        band_in_order(callnr_h::band(1), 63),
{
    reveal_strlit("VFS requests");
    reveal_strlit("VFS_RQ_BASE");
    reveal_strlit("VFS_WRITE");
    reveal_strlit("VFS_OPEN");
    reveal_strlit("VFS_READ");
    reveal_strlit("VFS_CLOSE");
    reveal_strlit("VFS_EXEC_STAGE");
    reveal_strlit("VFS_FD_OFF");
    reveal_strlit("VFS_LEN_OFF");
    reveal_strlit("VFS_BUF_OFF");
    reveal_strlit("NR_KERN_CALLS");
    reveal_strlit("NR_SYS_CALLS");
    reveal_strlit("NR_VMCTL_SUBCALLS");
    reveal_strlit("NR_PM_MSGS");
    reveal_strlit("NR_VFS_MSGS");
    reveal_strlit("NR_FS_MSGS");
    reveal_strlit("NR_BDEV_MSGS");
    reveal_strlit("NR_CDEV_MSGS");
    reveal_strlit("NR_SEF_MSGS");
    reveal_strlit("NR_DS_REQUESTS");
    reveal_strlit("NR_SCHED_MSGS");
    let b = callnr_h::band(1);
    let r = band(b);
    assert forall|i: int| 0 <= i < r.len() implies place((#[trigger] r[i]).0) == 63 + i by {
        if 1 <= i <= 5 {
            assert(r[i].0 == b.members[i - 1].0@);
        }
    }
}

/// The band of the `FS` requests is in order.
proof fn lemma_fs_band()
    ensures
        band_in_order(callnr_h::band(2), 70),
{
    reveal_strlit("file-system requests");
    reveal_strlit("FS_RQ_BASE");
    reveal_strlit("FS_READSUPER");
    reveal_strlit("FS_LOOKUP");
    reveal_strlit("FS_READ");
    reveal_strlit("FS_WRITE");
    reveal_strlit("NR_KERN_CALLS");
    reveal_strlit("NR_SYS_CALLS");
    reveal_strlit("NR_VMCTL_SUBCALLS");
    reveal_strlit("NR_PM_MSGS");
    reveal_strlit("NR_VFS_MSGS");
    reveal_strlit("NR_FS_MSGS");
    reveal_strlit("NR_BDEV_MSGS");
    reveal_strlit("NR_CDEV_MSGS");
    reveal_strlit("NR_SEF_MSGS");
    reveal_strlit("NR_DS_REQUESTS");
    reveal_strlit("NR_SCHED_MSGS");
    let b = callnr_h::band(2);
    let r = band(b);
    assert forall|i: int| 0 <= i < r.len() implies place((#[trigger] r[i]).0) == 70 + i by {
        if 1 <= i <= 4 {
            assert(r[i].0 == b.members[i - 1].0@);
        }
    }
}

/// The band of the `BDEV` requests is in order.
proof fn lemma_bdev_band()
    ensures
        band_in_order(callnr_h::band(3), 76),
{
    reveal_strlit("block-device requests");
    reveal_strlit("BDEV_RQ_BASE");
    reveal_strlit("BDEV_READ");
    reveal_strlit("BDEV_WRITE");
    reveal_strlit("NR_KERN_CALLS");
    reveal_strlit("NR_SYS_CALLS");
    reveal_strlit("NR_VMCTL_SUBCALLS");
    reveal_strlit("NR_PM_MSGS");
    reveal_strlit("NR_VFS_MSGS");
    reveal_strlit("NR_FS_MSGS");
    reveal_strlit("NR_BDEV_MSGS");
    reveal_strlit("NR_CDEV_MSGS");
    reveal_strlit("NR_SEF_MSGS");
    reveal_strlit("NR_DS_REQUESTS");
    reveal_strlit("NR_SCHED_MSGS");
    let b = callnr_h::band(3);
    let r = band(b);
    assert forall|i: int| 0 <= i < r.len() implies place((#[trigger] r[i]).0) == 76 + i by {
        if 1 <= i <= 2 {
            assert(r[i].0 == b.members[i - 1].0@);
        }
    }
}

/// The band of the `CDEV` requests is in order.
proof fn lemma_cdev_band()
    ensures
        band_in_order(callnr_h::band(4), 80),
{
    reveal_strlit("character-device requests");
    reveal_strlit("CDEV_RQ_BASE");
    reveal_strlit("CDEV_WRITE");
    reveal_strlit("CDEV_MINOR_OFF");
    reveal_strlit("CDEV_GRANT_OFF");
    reveal_strlit("CDEV_LEN_OFF");
    reveal_strlit("CDEV_OFFSET_OFF");
    reveal_strlit("CDEV_MAX_IO");
    reveal_strlit("CDEV_MINOR_CONSOLE");
    reveal_strlit("NR_KERN_CALLS");
    reveal_strlit("NR_SYS_CALLS");
    reveal_strlit("NR_VMCTL_SUBCALLS");
    reveal_strlit("NR_PM_MSGS");
    reveal_strlit("NR_VFS_MSGS");
    reveal_strlit("NR_FS_MSGS");
    reveal_strlit("NR_BDEV_MSGS");
    reveal_strlit("NR_CDEV_MSGS");
    reveal_strlit("NR_SEF_MSGS");
    reveal_strlit("NR_DS_REQUESTS");
    reveal_strlit("NR_SCHED_MSGS");
    let b = callnr_h::band(4);
    let r = band(b);
    assert forall|i: int| 0 <= i < r.len() implies place((#[trigger] r[i]).0) == 80 + i by {
        if 1 <= i <= 1 {
            assert(r[i].0 == b.members[i - 1].0@);
        }
    }
}

/// The band of the `VM` requests is in order.
proof fn lemma_vm_band()
    ensures
        band_in_order(callnr_h::band(5), 83),
{
    reveal_strlit("VM requests");
    reveal_strlit("VM_RQ_BASE");
    reveal_strlit("VM_PAGEFAULT");
    reveal_strlit("VM_BRK");
    reveal_strlit("VM_MMAP");
    reveal_strlit("VM_MUNMAP");
    reveal_strlit("VM_FORK");
    let b = callnr_h::band(5);
    let r = band(b);
    assert forall|i: int| 0 <= i < r.len() implies place((#[trigger] r[i]).0) == 83 + i by {
        if 1 <= i <= 5 {
            assert(r[i].0 == b.members[i - 1].0@);
        }
    }
}

/// The band of the `SEF` requests is in order.
proof fn lemma_sef_band()
    ensures
        band_in_order(callnr_h::band(6), 89),
{
    reveal_strlit("SEF control messages");
    reveal_strlit("SEF_RQ_BASE");
    reveal_strlit("SEF_INIT");
    reveal_strlit("SEF_SIGNAL");
    reveal_strlit("NR_KERN_CALLS");
    reveal_strlit("NR_SYS_CALLS");
    reveal_strlit("NR_VMCTL_SUBCALLS");
    reveal_strlit("NR_PM_MSGS");
    reveal_strlit("NR_VFS_MSGS");
    reveal_strlit("NR_FS_MSGS");
    reveal_strlit("NR_BDEV_MSGS");
    reveal_strlit("NR_CDEV_MSGS");
    reveal_strlit("NR_SEF_MSGS");
    reveal_strlit("NR_DS_REQUESTS");
    reveal_strlit("NR_SCHED_MSGS");
    let b = callnr_h::band(6);
    let r = band(b);
    assert forall|i: int| 0 <= i < r.len() implies place((#[trigger] r[i]).0) == 89 + i by {
        if 1 <= i <= 2 {
            assert(r[i].0 == b.members[i - 1].0@);
        }
    }
}

/// The band of the `DS` requests is in order.
proof fn lemma_ds_band()
    ensures
        band_in_order(callnr_h::band(7), 93),
{
    reveal_strlit("DS requests");
    reveal_strlit("DS_RQ_BASE");
    reveal_strlit("DS_PUBLISH");
    reveal_strlit("DS_RETRIEVE");
    reveal_strlit("DS_CHECK");
    reveal_strlit("NR_KERN_CALLS");
    reveal_strlit("NR_SYS_CALLS");
    reveal_strlit("NR_VMCTL_SUBCALLS");
    reveal_strlit("NR_PM_MSGS");
    reveal_strlit("NR_VFS_MSGS");
    reveal_strlit("NR_FS_MSGS");
    reveal_strlit("NR_BDEV_MSGS");
    reveal_strlit("NR_CDEV_MSGS");
    reveal_strlit("NR_SEF_MSGS");
    reveal_strlit("NR_DS_REQUESTS");
    reveal_strlit("NR_SCHED_MSGS");
    let b = callnr_h::band(7);
    let r = band(b);
    assert forall|i: int| 0 <= i < r.len() implies place((#[trigger] r[i]).0) == 93 + i by {
        if 1 <= i <= 3 {
            assert(r[i].0 == b.members[i - 1].0@);
        }
    }
}

/// The band of the `SCHED` requests is in order.
proof fn lemma_sched_band()
    ensures
        band_in_order(callnr_h::band(8), 98),
{
    reveal_strlit("SCHED requests");
    reveal_strlit("SCHEDCTL_FLAG_KERNEL");
    reveal_strlit("SCHED_RQ_BASE");
    reveal_strlit("SCHEDULING_NO_QUANTUM");
    reveal_strlit("SCHEDULING_START");
    reveal_strlit("SCHEDULING_STOP");
    reveal_strlit("SCHEDULING_SET_NICE");
    reveal_strlit("NR_KERN_CALLS");
    reveal_strlit("NR_SYS_CALLS");
    reveal_strlit("NR_VMCTL_SUBCALLS");
    reveal_strlit("NR_PM_MSGS");
    reveal_strlit("NR_VFS_MSGS");
    reveal_strlit("NR_FS_MSGS");
    reveal_strlit("NR_BDEV_MSGS");
    reveal_strlit("NR_CDEV_MSGS");
    reveal_strlit("NR_SEF_MSGS");
    reveal_strlit("NR_DS_REQUESTS");
    reveal_strlit("NR_SCHED_MSGS");
    let b = callnr_h::band(8);
    let r = band(b);
    assert forall|i: int| 0 <= i < r.len() implies place((#[trigger] r[i]).0) == 98 + i by {
        if 1 <= i <= 4 {
            assert(r[i].0 == b.members[i - 1].0@);
        }
    }
}

/// The place of the base of band `k`.
pub open spec fn band_place(k: int) -> int {
    (55 + bands(k).len()) as int
}

/// Every band is in order, in its place.
pub proof fn lemma_band(k: int)
    requires
        0 <= k < 9,
    ensures
        band_in_order(callnr_h::band(k), band_place(k)),
{
    reveal_with_fuel(bands, 10);
    if k == 0 {
        lemma_pm_band();
    } else if k == 1 {
        lemma_vfs_band();
    } else if k == 2 {
        lemma_fs_band();
    } else if k == 3 {
        lemma_bdev_band();
    } else if k == 4 {
        lemma_cdev_band();
    } else if k == 5 {
        lemma_vm_band();
    } else if k == 6 {
        lemma_sef_band();
    } else if k == 7 {
        lemma_ds_band();
    } else {
        lemma_sched_band();
    }
}

/// The macros of the bands stand in their places.
proof fn lemma_bands_placed(n: int)
    requires
        0 <= n <= 9,
    ensures
        placed(bands(n), band_place(0)),
    decreases n,
{
    if n > 0 {
        lemma_bands_placed(n - 1);
        lemma_band(n - 1);
        lemma_placed(bands(n - 1), band(callnr_h::band(n - 1)), band_place(0));
    }
}

/// Every macro of the header stands in the place that its name says, so no two have
/// one name.
pub proof fn lemma_all_placed()
    ensures
        placed(all(), 0),
{
    lemma_single_names();
    lemma_kernel_calls();
    lemma_call_counts();
    lemma_call_payload();
    lemma_diag();
    lemma_safecopy();
    lemma_cpf_flags();
    lemma_grant_fields();
    lemma_vmctl();
    lemma_vmctl_prot();
    lemma_vfs_offsets();
    lemma_exec_offsets();
    lemma_cdev_offsets();
    reveal_with_fuel(bands, 10);
    lemma_bands_placed(9);
    let head = seq![("KERNEL_CALL"@, builder::hex_value(KERNEL_CALL as int))];
    let shift = seq![("GRANT_SHIFT"@, builder::dec_value(GRANT_SHIFT as int))];
    let invalid = seq![("GRANT_INVALID"@, builder::dec_value(GRANT_INVALID as int))];
    let kernel = rows::hex_rows(KERNEL_CALLS@);
    let counts = rows::dec_rows(CALL_COUNTS@);
    let passed = rows::dec_rows(CALL_PAYLOAD@);
    lemma_placed(head, kernel, 0);
    lemma_placed(head + kernel, counts, 0);
    lemma_placed(head + kernel + counts, passed, 0);
    lemma_placed(head + kernel + counts + passed, rows::dec_rows(DIAG@), 0);
    let copies = rows::dec_rows(SAFECOPY@);
    let flags = rows::hex_rows(CPF_FLAGS@);
    let fields = rows::hex_rows(GRANT_FIELDS@);
    lemma_placed(copies, flags, 32);
    lemma_placed(copies + flags, shift, 32);
    lemma_placed(copies + flags + shift, fields, 32);
    lemma_placed(copies + flags + shift + fields, invalid, 32);
    lemma_placed(rows::dec_rows(VMCTL@), rows::dec_rows(VMCTL_PROT@), 46);
    let files = rows::dec_rows(VFS_OFFSETS@);
    let execs = rows::dec_rows(EXEC_OFFSETS@);
    lemma_placed(files, execs, 104);
    lemma_placed(files + execs, rows::dec_rows(CDEV_OFFSETS@), 104);
    lemma_placed(calls(), grants(), 0);
    lemma_placed(calls() + grants(), memory(), 0);
    lemma_placed(calls() + grants() + memory(), bands(9), 0);
    lemma_placed(
        calls() + grants() + memory() + bands(9),
        offsets(),
        0,
    );
}

} // verus!
