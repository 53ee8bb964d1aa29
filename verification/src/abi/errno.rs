//! Error numbers. A result carries them negated.
use vstd::prelude::*;

verus! {

/// Success.
pub const OK: i32 = 0;

pub const EPERM: i32 = -1;

pub const ENOENT: i32 = -2;

pub const ESRCH: i32 = -3;

pub const EINTR: i32 = -4;

pub const EIO: i32 = -5;

pub const ENXIO: i32 = -6;

pub const E2BIG: i32 = -7;

pub const ENOEXEC: i32 = -8;

pub const EBADF: i32 = -9;

pub const ECHILD: i32 = -10;

pub const EAGAIN: i32 = -11;

pub const ENOMEM: i32 = -12;

pub const EACCES: i32 = -13;

pub const EFAULT: i32 = -14;

pub const ENOTBLK: i32 = -15;

pub const EBUSY: i32 = -16;

pub const EEXIST: i32 = -17;

pub const EXDEV: i32 = -18;

pub const ENODEV: i32 = -19;

pub const ENOTDIR: i32 = -20;

pub const EISDIR: i32 = -21;

pub const EINVAL: i32 = -22;

pub const ENFILE: i32 = -23;

pub const EMFILE: i32 = -24;

pub const ENOTTY: i32 = -25;

pub const ETXTBSY: i32 = -26;

pub const EFBIG: i32 = -27;

pub const ENOSPC: i32 = -28;

pub const ESPIPE: i32 = -29;

pub const EROFS: i32 = -30;

pub const EMLINK: i32 = -31;

pub const EPIPE: i32 = -32;

pub const EDOM: i32 = -33;

pub const ERANGE: i32 = -34;

pub const EDEADLK: i32 = -35;

pub const ENAMETOOLONG: i32 = -36;

pub const ENOLCK: i32 = -37;

pub const ENOSYS: i32 = -38;

pub const ENOTEMPTY: i32 = -39;

pub const ELOOP: i32 = -40;

pub const ENOTREADY: i32 = -201;

pub const EDEADSRCDST: i32 = -202;

pub const EDONTREPLY: i32 = -203;

pub const EBADCALL: i32 = -209;

pub const ECALLDENIED: i32 = -210;

pub const ETRAPDENIED: i32 = -211;

/// Largest magnitude in the POSIX block, which starts at 1.
pub const POSIX_ERRNO_MAX: i32 = 40;

/// Smallest magnitude in the IPC-specific band.
pub const MINIX_ERRNO_BASE: i32 = 200;

/// Every error by name, in declaration order.
pub const ALL: [(&'static str, i32); 46] = [
    ("EPERM", EPERM),
    ("ENOENT", ENOENT),
    ("ESRCH", ESRCH),
    ("EINTR", EINTR),
    ("EIO", EIO),
    ("ENXIO", ENXIO),
    ("E2BIG", E2BIG),
    ("ENOEXEC", ENOEXEC),
    ("EBADF", EBADF),
    ("ECHILD", ECHILD),
    ("EAGAIN", EAGAIN),
    ("ENOMEM", ENOMEM),
    ("EACCES", EACCES),
    ("EFAULT", EFAULT),
    ("ENOTBLK", ENOTBLK),
    ("EBUSY", EBUSY),
    ("EEXIST", EEXIST),
    ("EXDEV", EXDEV),
    ("ENODEV", ENODEV),
    ("ENOTDIR", ENOTDIR),
    ("EISDIR", EISDIR),
    ("EINVAL", EINVAL),
    ("ENFILE", ENFILE),
    ("EMFILE", EMFILE),
    ("ENOTTY", ENOTTY),
    ("ETXTBSY", ETXTBSY),
    ("EFBIG", EFBIG),
    ("ENOSPC", ENOSPC),
    ("ESPIPE", ESPIPE),
    ("EROFS", EROFS),
    ("EMLINK", EMLINK),
    ("EPIPE", EPIPE),
    ("EDOM", EDOM),
    ("ERANGE", ERANGE),
    ("EDEADLK", EDEADLK),
    ("ENAMETOOLONG", ENAMETOOLONG),
    ("ENOLCK", ENOLCK),
    ("ENOSYS", ENOSYS),
    ("ENOTEMPTY", ENOTEMPTY),
    ("ELOOP", ELOOP),
    ("ENOTREADY", ENOTREADY),
    ("EDEADSRCDST", EDEADSRCDST),
    ("EDONTREPLY", EDONTREPLY),
    ("EBADCALL", EBADCALL),
    ("ECALLDENIED", ECALLDENIED),
    ("ETRAPDENIED", ETRAPDENIED),
];

} // verus!
