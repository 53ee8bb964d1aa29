//! Every macro of the rendered `callnr.h` by its own name, with the number of the
//! constant of that name.
use vstd::prelude::*;
use crate::abi::callnr::{
    BDEV_READ, BDEV_RQ_BASE, BDEV_WRITE, CDEV_GRANT_OFF, CDEV_LEN_OFF, CDEV_MAX_IO,
    CDEV_MINOR_CONSOLE, CDEV_MINOR_OFF, CDEV_OFFSET_OFF, CDEV_RQ_BASE, CDEV_WRITE,
    DIAGCTL_CODE_DIAG, DIAGCTL_CODE_REGISTER, DIAGCTL_CODE_STACKTRACE, DIAGCTL_CODE_UNREGISTER,
    DIAG_TEXT_MAX, DIAG_TEXT_OFF, DS_CHECK, DS_PUBLISH, DS_RETRIEVE, DS_RQ_BASE, EXEC_NAME_LEN,
    FS_LOOKUP, FS_READ, FS_READSUPER, FS_RQ_BASE, FS_WRITE, GET_WHOAMI, KERNEL_CALL, NR_BDEV_MSGS,
    NR_CDEV_MSGS, NR_DS_REQUESTS, NR_FS_MSGS, NR_KERN_CALLS, NR_PM_MSGS, NR_SCHED_MSGS,
    NR_SEF_MSGS, NR_SYS_CALLS, NR_VFS_MSGS, NR_VMCTL_SUBCALLS, PM_EXEC, PM_EXEC_PATH_MAX,
    PM_EXEC_PATH_OFF, PM_EXIT, PM_FORK, PM_GETPID, PM_GRANT_TEST, PM_RQ_BASE, PM_WAIT,
    PRIVCTL_SET_USER, SAFECOPY_FROM, SAFECOPY_TO, SCHEDCTL_FLAG_KERNEL, SCHEDULING_NO_QUANTUM,
    SCHEDULING_SET_NICE, SCHEDULING_START, SCHEDULING_STOP, SCHED_RQ_BASE, SEF_INIT, SEF_RQ_BASE,
    SEF_SIGNAL, SYS_COPY, SYS_DIAGCTL, SYS_ENDKSIG, SYS_EXEC, SYS_EXIT, SYS_FORK, SYS_GETINFO,
    SYS_GETINFO_NAME_LEN, SYS_GETKSIG, SYS_IRQCTL, SYS_KILL, SYS_PRIVCTL, SYS_SAFECOPY,
    SYS_SCHEDCTL, SYS_SCHEDULE, SYS_SETALARM, SYS_SETGRANT, SYS_TIMES, SYS_VMCTL, VFS_BUF_OFF,
    VFS_CLOSE, VFS_EXEC_STAGE, VFS_FD_OFF, VFS_LEN_OFF, VFS_OPEN, VFS_READ, VFS_RQ_BASE, VFS_WRITE,
    VMCTL_CLEAR_PAGEFAULT, VMCTL_GET_PAGEFAULT, VMCTL_PROT_EXEC, VMCTL_PROT_WRITE, VMCTL_PT_MAP,
    VMCTL_PT_UNMAP, VMCTL_VMINHIBIT_CLEAR, VMCTL_VMINHIBIT_SET, VM_BRK, VM_FORK, VM_MMAP,
    VM_MUNMAP, VM_PAGEFAULT, VM_RQ_BASE,
};
use crate::abi::grant::{
    CPF_DIRECT, CPF_INDIRECT, CPF_MAGIC, CPF_READ, CPF_TRY, CPF_USED, CPF_VALID, CPF_WRITE,
    GRANT_INVALID, GRANT_MAX_IDX, GRANT_MAX_SEQ, GRANT_SHIFT,
};
use crate::headers::builder;
use crate::headers::callnr_h;
use crate::headers::callnr_h::{
    KERNEL_CALLS, CALL_COUNTS, CALL_PAYLOAD, DIAG, SAFECOPY, CPF_FLAGS, GRANT_FIELDS, VMCTL,
    VMCTL_PROT, VFS_OFFSETS, EXEC_OFFSETS, CDEV_OFFSETS,
};
use crate::headers::callnr_laws;
use crate::headers::callnr_rows;
use crate::headers::macros;
use crate::headers::rows;
use crate::text;

verus! {

/// What the header says a macro is worth.
#[verifier::opaque]
pub open spec fn value(name: Seq<char>) -> Option<Seq<char>> {
    macros::value_from(macros::macros(callnr_h::callnr_text()), name, 0)
}

/// How many macros each part of the header has.
proof fn lemma_lengths()
    ensures
        callnr_rows::calls().len() == 32,
        callnr_rows::grants().len() == 14,
        callnr_rows::memory().len() == 9,
        callnr_rows::bands(9).len() == 49,
        callnr_rows::offsets().len() == 11,
{
    reveal_with_fuel(callnr_rows::bands, 10);
}

/// Macro `i` of this part is found under its name.
proof fn lemma_calls(i: int)
    requires
        0 <= i < 32,
    ensures
        value(callnr_rows::calls()[i].0) == Some(callnr_rows::calls()[i].1),
{
    reveal(value);
    lemma_lengths();
    callnr_laws::law_every_macro_reads_back(0 + i);
    assert(callnr_rows::all()[0 + i] == callnr_rows::calls()[i]);
}

/// Macro `i` of this part is found under its name.
proof fn lemma_grants(i: int)
    requires
        0 <= i < 14,
    ensures
        value(callnr_rows::grants()[i].0) == Some(callnr_rows::grants()[i].1),
{
    reveal(value);
    lemma_lengths();
    callnr_laws::law_every_macro_reads_back(32 + i);
    assert(callnr_rows::all()[32 + i] == callnr_rows::grants()[i]);
}

/// Macro `i` of this part is found under its name.
proof fn lemma_memory(i: int)
    requires
        0 <= i < 9,
    ensures
        value(callnr_rows::memory()[i].0) == Some(callnr_rows::memory()[i].1),
{
    reveal(value);
    lemma_lengths();
    callnr_laws::law_every_macro_reads_back(46 + i);
    assert(callnr_rows::all()[46 + i] == callnr_rows::memory()[i]);
}

/// Macro `i` of this part is found under its name.
proof fn lemma_offsets(i: int)
    requires
        0 <= i < 11,
    ensures
        value(callnr_rows::offsets()[i].0) == Some(callnr_rows::offsets()[i].1),
{
    reveal(value);
    lemma_lengths();
    callnr_laws::law_every_macro_reads_back(104 + i);
    assert(callnr_rows::all()[104 + i] == callnr_rows::offsets()[i]);
}

/// Every kernel call is read back under its own name with its own number, and so is
/// every constant of a kernel call's payload.
pub proof fn law_calls_by_name()
    ensures
        value("KERNEL_CALL"@) == Some("0x"@ + text::numeral(KERNEL_CALL as nat, 16)),
        value("SYS_GETINFO"@) == Some("0x"@ + text::numeral(SYS_GETINFO as nat, 16)),
        value("SYS_PRIVCTL"@) == Some("0x"@ + text::numeral(SYS_PRIVCTL as nat, 16)),
        value("SYS_FORK"@) == Some("0x"@ + text::numeral(SYS_FORK as nat, 16)),
        value("SYS_EXEC"@) == Some("0x"@ + text::numeral(SYS_EXEC as nat, 16)),
        value("SYS_EXIT"@) == Some("0x"@ + text::numeral(SYS_EXIT as nat, 16)),
        value("SYS_COPY"@) == Some("0x"@ + text::numeral(SYS_COPY as nat, 16)),
        value("SYS_SAFECOPY"@) == Some("0x"@ + text::numeral(SYS_SAFECOPY as nat, 16)),
        value("SYS_IRQCTL"@) == Some("0x"@ + text::numeral(SYS_IRQCTL as nat, 16)),
        value("SYS_VMCTL"@) == Some("0x"@ + text::numeral(SYS_VMCTL as nat, 16)),
        value("SYS_SCHEDULE"@) == Some("0x"@ + text::numeral(SYS_SCHEDULE as nat, 16)),
        value("SYS_SETALARM"@) == Some("0x"@ + text::numeral(SYS_SETALARM as nat, 16)),
        value("SYS_TIMES"@) == Some("0x"@ + text::numeral(SYS_TIMES as nat, 16)),
        value("SYS_DIAGCTL"@) == Some("0x"@ + text::numeral(SYS_DIAGCTL as nat, 16)),
        value("SYS_SETGRANT"@) == Some("0x"@ + text::numeral(SYS_SETGRANT as nat, 16)),
        value("SYS_SCHEDCTL"@) == Some("0x"@ + text::numeral(SYS_SCHEDCTL as nat, 16)),
        value("SYS_KILL"@) == Some("0x"@ + text::numeral(SYS_KILL as nat, 16)),
        value("SYS_GETKSIG"@) == Some("0x"@ + text::numeral(SYS_GETKSIG as nat, 16)),
        value("SYS_ENDKSIG"@) == Some("0x"@ + text::numeral(SYS_ENDKSIG as nat, 16)),
        value("NR_KERN_CALLS"@) == Some(text::decimal(NR_KERN_CALLS as int)),
        value("NR_SYS_CALLS"@) == Some(text::decimal(NR_SYS_CALLS as int)),
        value("GET_WHOAMI"@) == Some(text::decimal(GET_WHOAMI as int)),
        value("SYS_GETINFO_NAME_LEN"@) == Some(text::decimal(SYS_GETINFO_NAME_LEN as int)),
        value("EXEC_NAME_LEN"@) == Some(text::decimal(EXEC_NAME_LEN as int)),
        value("PRIVCTL_SET_USER"@) == Some(text::decimal(PRIVCTL_SET_USER as int)),
        value("SCHEDCTL_FLAG_KERNEL"@) == Some(text::decimal(SCHEDCTL_FLAG_KERNEL as int)),
        value("DIAGCTL_CODE_DIAG"@) == Some(text::decimal(DIAGCTL_CODE_DIAG as int)),
        value("DIAGCTL_CODE_STACKTRACE"@) == Some(text::decimal(DIAGCTL_CODE_STACKTRACE as int)),
        value("DIAGCTL_CODE_REGISTER"@) == Some(text::decimal(DIAGCTL_CODE_REGISTER as int)),
        value("DIAGCTL_CODE_UNREGISTER"@) == Some(text::decimal(DIAGCTL_CODE_UNREGISTER as int)),
        value("DIAG_TEXT_OFF"@) == Some(text::decimal(DIAG_TEXT_OFF as int)),
        value("DIAG_TEXT_MAX"@) == Some(text::decimal(DIAG_TEXT_MAX as int)),
{
    let g = callnr_rows::calls();
    lemma_calls(0);
    assert(g[0] == ("KERNEL_CALL"@, builder::hex_value(KERNEL_CALL as int)));
    lemma_calls(1);
    assert(g[1] == rows::hex_rows(KERNEL_CALLS@)[0]);
    lemma_calls(2);
    assert(g[2] == rows::hex_rows(KERNEL_CALLS@)[1]);
    lemma_calls(3);
    assert(g[3] == rows::hex_rows(KERNEL_CALLS@)[2]);
    lemma_calls(4);
    assert(g[4] == rows::hex_rows(KERNEL_CALLS@)[3]);
    lemma_calls(5);
    assert(g[5] == rows::hex_rows(KERNEL_CALLS@)[4]);
    lemma_calls(6);
    assert(g[6] == rows::hex_rows(KERNEL_CALLS@)[5]);
    lemma_calls(7);
    assert(g[7] == rows::hex_rows(KERNEL_CALLS@)[6]);
    lemma_calls(8);
    assert(g[8] == rows::hex_rows(KERNEL_CALLS@)[7]);
    lemma_calls(9);
    assert(g[9] == rows::hex_rows(KERNEL_CALLS@)[8]);
    lemma_calls(10);
    assert(g[10] == rows::hex_rows(KERNEL_CALLS@)[9]);
    lemma_calls(11);
    assert(g[11] == rows::hex_rows(KERNEL_CALLS@)[10]);
    lemma_calls(12);
    assert(g[12] == rows::hex_rows(KERNEL_CALLS@)[11]);
    lemma_calls(13);
    assert(g[13] == rows::hex_rows(KERNEL_CALLS@)[12]);
    lemma_calls(14);
    assert(g[14] == rows::hex_rows(KERNEL_CALLS@)[13]);
    lemma_calls(15);
    assert(g[15] == rows::hex_rows(KERNEL_CALLS@)[14]);
    lemma_calls(16);
    assert(g[16] == rows::hex_rows(KERNEL_CALLS@)[15]);
    lemma_calls(17);
    assert(g[17] == rows::hex_rows(KERNEL_CALLS@)[16]);
    lemma_calls(18);
    assert(g[18] == rows::hex_rows(KERNEL_CALLS@)[17]);
    lemma_calls(19);
    assert(g[19] == rows::dec_rows(CALL_COUNTS@)[0]);
    lemma_calls(20);
    assert(g[20] == rows::dec_rows(CALL_COUNTS@)[1]);
    lemma_calls(21);
    assert(g[21] == rows::dec_rows(CALL_PAYLOAD@)[0]);
    lemma_calls(22);
    assert(g[22] == rows::dec_rows(CALL_PAYLOAD@)[1]);
    lemma_calls(23);
    assert(g[23] == rows::dec_rows(CALL_PAYLOAD@)[2]);
    lemma_calls(24);
    assert(g[24] == rows::dec_rows(CALL_PAYLOAD@)[3]);
    lemma_calls(25);
    assert(g[25] == rows::dec_rows(CALL_PAYLOAD@)[4]);
    lemma_calls(26);
    assert(g[26] == rows::dec_rows(DIAG@)[0]);
    lemma_calls(27);
    assert(g[27] == rows::dec_rows(DIAG@)[1]);
    lemma_calls(28);
    assert(g[28] == rows::dec_rows(DIAG@)[2]);
    lemma_calls(29);
    assert(g[29] == rows::dec_rows(DIAG@)[3]);
    lemma_calls(30);
    assert(g[30] == rows::dec_rows(DIAG@)[4]);
    lemma_calls(31);
    assert(g[31] == rows::dec_rows(DIAG@)[5]);
}

/// Every constant of the grants is read back under its own name.
pub proof fn law_grants_by_name()
    ensures
        value("SAFECOPY_FROM"@) == Some(text::decimal(SAFECOPY_FROM as int)),
        value("SAFECOPY_TO"@) == Some(text::decimal(SAFECOPY_TO as int)),
        value("CPF_READ"@) == Some("0x"@ + text::numeral(CPF_READ as nat, 16)),
        value("CPF_WRITE"@) == Some("0x"@ + text::numeral(CPF_WRITE as nat, 16)),
        value("CPF_TRY"@) == Some("0x"@ + text::numeral(CPF_TRY as nat, 16)),
        value("CPF_USED"@) == Some("0x"@ + text::numeral(CPF_USED as nat, 16)),
        value("CPF_DIRECT"@) == Some("0x"@ + text::numeral(CPF_DIRECT as nat, 16)),
        value("CPF_INDIRECT"@) == Some("0x"@ + text::numeral(CPF_INDIRECT as nat, 16)),
        value("CPF_MAGIC"@) == Some("0x"@ + text::numeral(CPF_MAGIC as nat, 16)),
        value("CPF_VALID"@) == Some("0x"@ + text::numeral(CPF_VALID as nat, 16)),
        value("GRANT_SHIFT"@) == Some(text::decimal(GRANT_SHIFT as int)),
        value("GRANT_MAX_IDX"@) == Some("0x"@ + text::numeral(GRANT_MAX_IDX as nat, 16)),
        value("GRANT_MAX_SEQ"@) == Some("0x"@ + text::numeral(GRANT_MAX_SEQ as nat, 16)),
        value("GRANT_INVALID"@) == Some("("@ + text::decimal(GRANT_INVALID as int) + ")"@),
{
    let g = callnr_rows::grants();
    lemma_grants(0);
    assert(g[0] == rows::dec_rows(SAFECOPY@)[0]);
    lemma_grants(1);
    assert(g[1] == rows::dec_rows(SAFECOPY@)[1]);
    lemma_grants(2);
    assert(g[2] == rows::hex_rows(CPF_FLAGS@)[0]);
    lemma_grants(3);
    assert(g[3] == rows::hex_rows(CPF_FLAGS@)[1]);
    lemma_grants(4);
    assert(g[4] == rows::hex_rows(CPF_FLAGS@)[2]);
    lemma_grants(5);
    assert(g[5] == rows::hex_rows(CPF_FLAGS@)[3]);
    lemma_grants(6);
    assert(g[6] == rows::hex_rows(CPF_FLAGS@)[4]);
    lemma_grants(7);
    assert(g[7] == rows::hex_rows(CPF_FLAGS@)[5]);
    lemma_grants(8);
    assert(g[8] == rows::hex_rows(CPF_FLAGS@)[6]);
    lemma_grants(9);
    assert(g[9] == rows::hex_rows(CPF_FLAGS@)[7]);
    lemma_grants(10);
    assert(g[10] == ("GRANT_SHIFT"@, builder::dec_value(GRANT_SHIFT as int)));
    lemma_grants(11);
    assert(g[11] == rows::hex_rows(GRANT_FIELDS@)[0]);
    lemma_grants(12);
    assert(g[12] == rows::hex_rows(GRANT_FIELDS@)[1]);
    lemma_grants(13);
    assert(g[13] == ("GRANT_INVALID"@, builder::dec_value(GRANT_INVALID as int)));
}

/// Every memory-control subcall is read back under its own name.
pub proof fn law_memory_by_name()
    ensures
        value("VMCTL_PT_MAP"@) == Some(text::decimal(VMCTL_PT_MAP as int)),
        value("VMCTL_PT_UNMAP"@) == Some(text::decimal(VMCTL_PT_UNMAP as int)),
        value("VMCTL_CLEAR_PAGEFAULT"@) == Some(text::decimal(VMCTL_CLEAR_PAGEFAULT as int)),
        value("VMCTL_GET_PAGEFAULT"@) == Some(text::decimal(VMCTL_GET_PAGEFAULT as int)),
        value("VMCTL_VMINHIBIT_SET"@) == Some(text::decimal(VMCTL_VMINHIBIT_SET as int)),
        value("VMCTL_VMINHIBIT_CLEAR"@) == Some(text::decimal(VMCTL_VMINHIBIT_CLEAR as int)),
        value("NR_VMCTL_SUBCALLS"@) == Some(text::decimal(NR_VMCTL_SUBCALLS as int)),
        value("VMCTL_PROT_WRITE"@) == Some(text::decimal(VMCTL_PROT_WRITE as int)),
        value("VMCTL_PROT_EXEC"@) == Some(text::decimal(VMCTL_PROT_EXEC as int)),
{
    let g = callnr_rows::memory();
    lemma_memory(0);
    assert(g[0] == rows::dec_rows(VMCTL@)[0]);
    lemma_memory(1);
    assert(g[1] == rows::dec_rows(VMCTL@)[1]);
    lemma_memory(2);
    assert(g[2] == rows::dec_rows(VMCTL@)[2]);
    lemma_memory(3);
    assert(g[3] == rows::dec_rows(VMCTL@)[3]);
    lemma_memory(4);
    assert(g[4] == rows::dec_rows(VMCTL@)[4]);
    lemma_memory(5);
    assert(g[5] == rows::dec_rows(VMCTL@)[5]);
    lemma_memory(6);
    assert(g[6] == rows::dec_rows(VMCTL@)[6]);
    lemma_memory(7);
    assert(g[7] == rows::dec_rows(VMCTL_PROT@)[0]);
    lemma_memory(8);
    assert(g[8] == rows::dec_rows(VMCTL_PROT@)[1]);
}

/// Every payload offset and limit of a request is read back under its own name.
pub proof fn law_offsets_by_name()
    ensures
        value("VFS_FD_OFF"@) == Some(text::decimal(VFS_FD_OFF as int)),
        value("VFS_LEN_OFF"@) == Some(text::decimal(VFS_LEN_OFF as int)),
        value("VFS_BUF_OFF"@) == Some(text::decimal(VFS_BUF_OFF as int)),
        value("PM_EXEC_PATH_OFF"@) == Some(text::decimal(PM_EXEC_PATH_OFF as int)),
        value("PM_EXEC_PATH_MAX"@) == Some(text::decimal(PM_EXEC_PATH_MAX as int)),
        value("CDEV_MINOR_OFF"@) == Some(text::decimal(CDEV_MINOR_OFF as int)),
        value("CDEV_GRANT_OFF"@) == Some(text::decimal(CDEV_GRANT_OFF as int)),
        value("CDEV_LEN_OFF"@) == Some(text::decimal(CDEV_LEN_OFF as int)),
        value("CDEV_OFFSET_OFF"@) == Some(text::decimal(CDEV_OFFSET_OFF as int)),
        value("CDEV_MAX_IO"@) == Some(text::decimal(CDEV_MAX_IO as int)),
        value("CDEV_MINOR_CONSOLE"@) == Some(text::decimal(CDEV_MINOR_CONSOLE as int)),
{
    let g = callnr_rows::offsets();
    lemma_offsets(0);
    assert(g[0] == rows::dec_rows(VFS_OFFSETS@)[0]);
    lemma_offsets(1);
    assert(g[1] == rows::dec_rows(VFS_OFFSETS@)[1]);
    lemma_offsets(2);
    assert(g[2] == rows::dec_rows(VFS_OFFSETS@)[2]);
    lemma_offsets(3);
    assert(g[3] == rows::dec_rows(EXEC_OFFSETS@)[0]);
    lemma_offsets(4);
    assert(g[4] == rows::dec_rows(EXEC_OFFSETS@)[1]);
    lemma_offsets(5);
    assert(g[5] == rows::dec_rows(CDEV_OFFSETS@)[0]);
    lemma_offsets(6);
    assert(g[6] == rows::dec_rows(CDEV_OFFSETS@)[1]);
    lemma_offsets(7);
    assert(g[7] == rows::dec_rows(CDEV_OFFSETS@)[2]);
    lemma_offsets(8);
    assert(g[8] == rows::dec_rows(CDEV_OFFSETS@)[3]);
    lemma_offsets(9);
    assert(g[9] == rows::dec_rows(CDEV_OFFSETS@)[4]);
    lemma_offsets(10);
    assert(g[10] == rows::dec_rows(CDEV_OFFSETS@)[5]);
}

/// Band `k` of the header: its base, its request `i`, and its count, by name.
proof fn lemma_band(k: int, i: int)
    requires
        0 <= k < 9,
        0 <= i < callnr_h::band(k).members.len(),
    ensures
        value(callnr_h::band(k).base_name) == Some(builder::hex_value(callnr_h::band(k).base)),
        value(callnr_h::band(k).members[i].0@) == Some(
            builder::hex_value(callnr_h::band(k).members[i].1 as int),
        ),
        callnr_h::band(k).count matches Some((name, n)) ==> value(name) == Some(
            builder::dec_value(n),
        ),
{
    reveal(value);
    callnr_laws::law_bands_read_back(k, i);
}

/// Every server request is read back under its own name with its own number, and so are
/// the base of its band and how many requests the band has.
pub proof fn law_requests_by_name()
    ensures
        value("PM_RQ_BASE"@) == Some("0x"@ + text::numeral(PM_RQ_BASE as nat, 16)),
        value("PM_GETPID"@) == Some("0x"@ + text::numeral(PM_GETPID as nat, 16)),
        value("PM_FORK"@) == Some("0x"@ + text::numeral(PM_FORK as nat, 16)),
        value("PM_EXIT"@) == Some("0x"@ + text::numeral(PM_EXIT as nat, 16)),
        value("PM_WAIT"@) == Some("0x"@ + text::numeral(PM_WAIT as nat, 16)),
        value("PM_EXEC"@) == Some("0x"@ + text::numeral(PM_EXEC as nat, 16)),
        value("PM_GRANT_TEST"@) == Some("0x"@ + text::numeral(PM_GRANT_TEST as nat, 16)),
        value("NR_PM_MSGS"@) == Some(text::decimal(NR_PM_MSGS as int)),
        value("VFS_RQ_BASE"@) == Some("0x"@ + text::numeral(VFS_RQ_BASE as nat, 16)),
        value("VFS_WRITE"@) == Some("0x"@ + text::numeral(VFS_WRITE as nat, 16)),
        value("VFS_OPEN"@) == Some("0x"@ + text::numeral(VFS_OPEN as nat, 16)),
        value("VFS_READ"@) == Some("0x"@ + text::numeral(VFS_READ as nat, 16)),
        value("VFS_CLOSE"@) == Some("0x"@ + text::numeral(VFS_CLOSE as nat, 16)),
        value("VFS_EXEC_STAGE"@) == Some("0x"@ + text::numeral(VFS_EXEC_STAGE as nat, 16)),
        value("NR_VFS_MSGS"@) == Some(text::decimal(NR_VFS_MSGS as int)),
        value("FS_RQ_BASE"@) == Some("0x"@ + text::numeral(FS_RQ_BASE as nat, 16)),
        value("FS_READSUPER"@) == Some("0x"@ + text::numeral(FS_READSUPER as nat, 16)),
        value("FS_LOOKUP"@) == Some("0x"@ + text::numeral(FS_LOOKUP as nat, 16)),
        value("FS_READ"@) == Some("0x"@ + text::numeral(FS_READ as nat, 16)),
        value("FS_WRITE"@) == Some("0x"@ + text::numeral(FS_WRITE as nat, 16)),
        value("NR_FS_MSGS"@) == Some(text::decimal(NR_FS_MSGS as int)),
        value("BDEV_RQ_BASE"@) == Some("0x"@ + text::numeral(BDEV_RQ_BASE as nat, 16)),
        value("BDEV_READ"@) == Some("0x"@ + text::numeral(BDEV_READ as nat, 16)),
        value("BDEV_WRITE"@) == Some("0x"@ + text::numeral(BDEV_WRITE as nat, 16)),
        value("NR_BDEV_MSGS"@) == Some(text::decimal(NR_BDEV_MSGS as int)),
        value("CDEV_RQ_BASE"@) == Some("0x"@ + text::numeral(CDEV_RQ_BASE as nat, 16)),
        value("CDEV_WRITE"@) == Some("0x"@ + text::numeral(CDEV_WRITE as nat, 16)),
        value("NR_CDEV_MSGS"@) == Some(text::decimal(NR_CDEV_MSGS as int)),
        value("VM_RQ_BASE"@) == Some("0x"@ + text::numeral(VM_RQ_BASE as nat, 16)),
        value("VM_PAGEFAULT"@) == Some("0x"@ + text::numeral(VM_PAGEFAULT as nat, 16)),
        value("VM_BRK"@) == Some("0x"@ + text::numeral(VM_BRK as nat, 16)),
        value("VM_MMAP"@) == Some("0x"@ + text::numeral(VM_MMAP as nat, 16)),
        value("VM_MUNMAP"@) == Some("0x"@ + text::numeral(VM_MUNMAP as nat, 16)),
        value("VM_FORK"@) == Some("0x"@ + text::numeral(VM_FORK as nat, 16)),
        value("SEF_RQ_BASE"@) == Some("0x"@ + text::numeral(SEF_RQ_BASE as nat, 16)),
        value("SEF_INIT"@) == Some("0x"@ + text::numeral(SEF_INIT as nat, 16)),
        value("SEF_SIGNAL"@) == Some("0x"@ + text::numeral(SEF_SIGNAL as nat, 16)),
        value("NR_SEF_MSGS"@) == Some(text::decimal(NR_SEF_MSGS as int)),
        value("DS_RQ_BASE"@) == Some("0x"@ + text::numeral(DS_RQ_BASE as nat, 16)),
        value("DS_PUBLISH"@) == Some("0x"@ + text::numeral(DS_PUBLISH as nat, 16)),
        value("DS_RETRIEVE"@) == Some("0x"@ + text::numeral(DS_RETRIEVE as nat, 16)),
        value("DS_CHECK"@) == Some("0x"@ + text::numeral(DS_CHECK as nat, 16)),
        value("NR_DS_REQUESTS"@) == Some(text::decimal(NR_DS_REQUESTS as int)),
        value("SCHED_RQ_BASE"@) == Some("0x"@ + text::numeral(SCHED_RQ_BASE as nat, 16)),
        value("SCHEDULING_NO_QUANTUM"@) == Some("0x"@ + text::numeral(SCHEDULING_NO_QUANTUM as nat, 16)),
        value("SCHEDULING_START"@) == Some("0x"@ + text::numeral(SCHEDULING_START as nat, 16)),
        value("SCHEDULING_STOP"@) == Some("0x"@ + text::numeral(SCHEDULING_STOP as nat, 16)),
        value("SCHEDULING_SET_NICE"@) == Some("0x"@ + text::numeral(SCHEDULING_SET_NICE as nat, 16)),
        value("NR_SCHED_MSGS"@) == Some(text::decimal(NR_SCHED_MSGS as int)),
{
    lemma_band(0, 0);
    lemma_band(0, 1);
    lemma_band(0, 2);
    lemma_band(0, 3);
    lemma_band(0, 4);
    lemma_band(0, 5);
    lemma_band(1, 0);
    lemma_band(1, 1);
    lemma_band(1, 2);
    lemma_band(1, 3);
    lemma_band(1, 4);
    lemma_band(2, 0);
    lemma_band(2, 1);
    lemma_band(2, 2);
    lemma_band(2, 3);
    lemma_band(3, 0);
    lemma_band(3, 1);
    lemma_band(4, 0);
    lemma_band(5, 0);
    lemma_band(5, 1);
    lemma_band(5, 2);
    lemma_band(5, 3);
    lemma_band(5, 4);
    lemma_band(6, 0);
    lemma_band(6, 1);
    lemma_band(7, 0);
    lemma_band(7, 1);
    lemma_band(7, 2);
    lemma_band(8, 0);
    lemma_band(8, 1);
    lemma_band(8, 2);
    lemma_band(8, 3);
}

} // verus!
