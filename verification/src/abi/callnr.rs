//! Kernel-call numbers, the server request bands, and their payload offsets.
use vstd::prelude::*;

verus! {

/// First kernel call.
pub const KERNEL_CALL: i32 = 0x600;

pub const SYS_GETINFO: i32 = 0x600;

pub const SYS_PRIVCTL: i32 = 0x601;

pub const SYS_FORK: i32 = 0x602;

pub const SYS_EXEC: i32 = 0x603;

pub const SYS_EXIT: i32 = 0x604;

pub const SYS_COPY: i32 = 0x605;

pub const SYS_SAFECOPY: i32 = 0x606;

pub const SYS_IRQCTL: i32 = 0x607;

pub const SYS_VMCTL: i32 = 0x608;

pub const SYS_SCHEDULE: i32 = 0x609;

pub const SYS_SETALARM: i32 = 0x60A;

pub const SYS_TIMES: i32 = 0x60B;

pub const SYS_DIAGCTL: i32 = 0x60C;

pub const SYS_SETGRANT: i32 = 0x60D;

pub const SYS_SCHEDCTL: i32 = 0x60E;

pub const SYS_KILL: i32 = 0x60F;

pub const SYS_GETKSIG: i32 = 0x610;

pub const SYS_ENDKSIG: i32 = 0x611;

pub const NR_KERN_CALLS: usize = 18;

/// Bits in a privilege call mask.
pub const NR_SYS_CALLS: usize = 64;

pub const GET_WHOAMI: i32 = 19;

/// Bytes of a NUL-padded process name.
pub const SYS_GETINFO_NAME_LEN: usize = 16;

pub const EXEC_NAME_LEN: usize = 16;

/// Where `SYS_EXEC` carries the kind of its image source.
pub const EXEC_SRC_OFF: usize = 20;

/// The image is a boot-archive module named in the payload.
pub const EXEC_SRC_NAME: i32 = 1;

pub const PRIVCTL_SET_USER: i32 = 8;

pub const SCHEDCTL_FLAG_KERNEL: i32 = 1;

pub const DIAGCTL_CODE_DIAG: i32 = 1;

pub const DIAGCTL_CODE_STACKTRACE: i32 = 2;

pub const DIAGCTL_CODE_REGISTER: i32 = 3;

pub const DIAGCTL_CODE_UNREGISTER: i32 = 4;

pub const DIAG_TEXT_OFF: usize = 8;

pub const DIAG_TEXT_MAX: usize = 88;

pub const SAFECOPY_FROM: i32 = 0;

pub const SAFECOPY_TO: i32 = 1;

pub const VMCTL_PT_MAP: i32 = 0;

pub const VMCTL_PT_UNMAP: i32 = 1;

pub const VMCTL_CLEAR_PAGEFAULT: i32 = 2;

pub const VMCTL_GET_PAGEFAULT: i32 = 3;

pub const VMCTL_VMINHIBIT_SET: i32 = 4;

pub const VMCTL_VMINHIBIT_CLEAR: i32 = 5;

pub const NR_VMCTL_SUBCALLS: usize = 6;

pub const VMCTL_PROT_WRITE: i32 = 1;

pub const VMCTL_PROT_EXEC: i32 = 2;

pub const PM_RQ_BASE: i32 = 0x700;

pub const PM_GETPID: i32 = 0x700;

pub const PM_FORK: i32 = 0x701;

pub const PM_EXIT: i32 = 0x702;

pub const PM_WAIT: i32 = 0x703;

pub const PM_EXEC: i32 = 0x704;

pub const PM_GRANT_TEST: i32 = 0x705;

pub const NR_PM_MSGS: usize = 6;

pub const VFS_RQ_BASE: i32 = 0x800;

pub const VFS_WRITE: i32 = 0x800;

pub const VFS_OPEN: i32 = 0x801;

pub const VFS_READ: i32 = 0x802;

pub const VFS_CLOSE: i32 = 0x803;

pub const VFS_EXEC_STAGE: i32 = 0x804;

pub const NR_VFS_MSGS: usize = 5;

pub const FS_RQ_BASE: i32 = 0x900;

pub const FS_READSUPER: i32 = 0x900;

pub const FS_LOOKUP: i32 = 0x901;

pub const FS_READ: i32 = 0x902;

pub const FS_WRITE: i32 = 0x903;

pub const NR_FS_MSGS: usize = 4;

pub const BDEV_RQ_BASE: i32 = 0xA00;

pub const BDEV_READ: i32 = 0xA00;

pub const BDEV_WRITE: i32 = 0xA01;

pub const NR_BDEV_MSGS: usize = 2;

pub const CDEV_RQ_BASE: i32 = 0xB00;

pub const CDEV_WRITE: i32 = 0xB00;

pub const NR_CDEV_MSGS: usize = 1;

pub const VM_RQ_BASE: i32 = 0xC00;

pub const VM_PAGEFAULT: i32 = 0xC00;

pub const VM_BRK: i32 = 0xC01;

pub const VM_MMAP: i32 = 0xC02;

pub const VM_MUNMAP: i32 = 0xC03;

pub const VM_FORK: i32 = 0xC04;

pub const SEF_RQ_BASE: i32 = 0xD00;

pub const SEF_INIT: i32 = 0xD00;

pub const SEF_SIGNAL: i32 = 0xD01;

pub const NR_SEF_MSGS: usize = 2;

pub const DS_RQ_BASE: i32 = 0xE00;

pub const DS_PUBLISH: i32 = 0xE00;

pub const DS_RETRIEVE: i32 = 0xE01;

pub const DS_CHECK: i32 = 0xE02;

pub const NR_DS_REQUESTS: usize = 3;

pub const SCHED_RQ_BASE: i32 = 0xF00;

pub const SCHEDULING_NO_QUANTUM: i32 = 0xF00;

pub const SCHEDULING_START: i32 = 0xF01;

pub const SCHEDULING_STOP: i32 = 0xF02;

pub const SCHEDULING_SET_NICE: i32 = 0xF03;

pub const NR_SCHED_MSGS: usize = 4;

pub const VFS_FD_OFF: usize = 0;

pub const VFS_LEN_OFF: usize = 4;

pub const VFS_BUF_OFF: usize = 8;

pub const VFS_PATH_LEN_OFF: usize = 0;

pub const VFS_PATH_OFF: usize = 8;

pub const VFS_EXEC_PATH_OFF: usize = 0;

pub const PM_EXEC_PATH_OFF: usize = 0;

pub const PM_EXEC_PATH_MAX: usize = 64;

pub const PM_EXEC_NAME_OFF: usize = 0;

pub const CDEV_MINOR_OFF: usize = 0;

pub const CDEV_GRANT_OFF: usize = 4;

pub const CDEV_LEN_OFF: usize = 8;

pub const CDEV_OFFSET_OFF: usize = 16;

pub const CDEV_MAX_IO: usize = 256;

pub const FS_INO_OFF: usize = 0;

pub const FS_GRANT_OFF: usize = 4;

pub const FS_LEN_OFF: usize = 8;

pub const FS_MODE_OFF: usize = 12;

pub const FS_POS_OFF: usize = 16;

pub const FS_PATH_OFF: usize = 24;

pub const FS_PATH_MAX: usize = 64;

pub const FS_SUPER_MINOR_OFF: usize = 0;

pub const FS_SUPER_BLOCK_SIZE_OFF: usize = 4;

pub const FS_SUPER_BLOCKS_OFF: usize = 8;

pub const FS_SUPER_ROOT_OFF: usize = 12;

pub const BDEV_BLOCK_SIZE: usize = 4096;

/// Largest image the file server stages for an exec.
pub const VFS_EXEC_MAX: usize = 0x10_0000;

pub const CDEV_MINOR_CONSOLE: i32 = 0;

pub const CDEV_MINOR_NULL: i32 = 0;

pub const CDEV_MINOR_ZERO: i32 = 1;

pub const BDEV_MINOR_RAMDISK: i32 = 0;

pub const DEV_CONSOLE_PATH: &'static str = "/dev/console";

pub const DEV_NULL_PATH: &'static str = "/dev/null";

pub const DEV_ZERO_PATH: &'static str = "/dev/zero";

} // verus!
