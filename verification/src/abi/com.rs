//! Process numbers and the endpoints the boot processes hold.
use vstd::prelude::*;
use crate::abi::endpoint::{make_endpoint, Endpoint, ProcNr};

verus! {

pub const NR_TASKS: usize = 5;

pub const NR_PROCS: usize = 256;

pub const NR_SYS_PROCS: usize = 64;

pub const NR_BOOT_PROCS: usize = 11;

pub const NR_STUB_PROCS: usize = 4;

/// Process slots the servers' per-process tables cover.
pub const NR_SERVED_PROCS: usize = 32;

pub const ASYNCM: ProcNr = -5;

pub const IDLE: ProcNr = -4;

pub const CLOCK: ProcNr = -3;

pub const SYSTEM: ProcNr = -2;

pub const HARDWARE: ProcNr = -1;

pub const PM_PROC_NR: ProcNr = 0;

pub const VFS_PROC_NR: ProcNr = 1;

pub const RS_PROC_NR: ProcNr = 2;

pub const MEM_PROC_NR: ProcNr = 3;

pub const TTY_PROC_NR: ProcNr = 4;

pub const DS_PROC_NR: ProcNr = 5;

pub const MFS_PROC_NR: ProcNr = 6;

pub const VM_PROC_NR: ProcNr = 7;

pub const PFS_PROC_NR: ProcNr = 8;

pub const SCHED_PROC_NR: ProcNr = 9;

pub const INIT_PROC_NR: ProcNr = 10;

pub const STUB_A_PROC_NR: ProcNr = 11;

pub const STUB_B_PROC_NR: ProcNr = 12;

pub const STUB_C_PROC_NR: ProcNr = 13;

pub const STUB_D_PROC_NR: ProcNr = 14;

/// Marks an archive module that can be executed by name but is never loaded at
/// boot.
pub const EXEC_ONLY_PROC_NR: i32 = -1000;

/// The endpoint of process `p` at boot: generation zero.
pub open spec fn boot_spec(p: int) -> int {
    crate::abi::endpoint::endpoint_spec(0, p)
}

/// The endpoint process `nr` holds at boot.
pub fn boot_endpoint(nr: ProcNr) -> (e: Endpoint)
    ensures
        e == boot_spec(nr as int),
{
    make_endpoint(0, nr)
}

/// A boot endpoint names the process it was made from, and distinct processes
/// hold distinct boot endpoints.
pub proof fn law_boot_endpoints_distinct(p: int, q: int)
    requires
        crate::abi::endpoint::proc_in_range(p),
        crate::abi::endpoint::proc_in_range(q),
    ensures
        crate::abi::endpoint::proc_spec(boot_spec(p)) == p,
        boot_spec(p) == boot_spec(q) ==> p == q,
        p >= 0 ==> boot_spec(p) == p,
        p < 0 ==> boot_spec(p) != p,
{
}

} // verus!
