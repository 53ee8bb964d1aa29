//! The fixed geometry of the root image and the files it is known to hold.
use vstd::prelude::*;

verus! {

/// Blocks in the image, whatever it holds.
pub const ROOTFS_IMAGE_BLOCKS: u32 = 256;

/// Bytes in the image.
pub const ROOTFS_IMAGE_BYTES: usize = 0x10_0000;

/// Inodes in the image.
pub const ROOTFS_NINODES: u32 = 64;

/// The reserved last block, which carries the tail label.
pub const ROOTFS_TAIL_BLOCK: u32 = 255;

/// Bytes of the image header, and of the tail.
pub const IMAGE_HDR_LEN: usize = 32;

/// Bytes of the label a header starts with.
pub const IMAGE_LABEL_LEN: usize = 16;

pub const HDR_LABEL_OFF: usize = 0;

pub const HDR_BLOCKS_OFF: usize = 16;

pub const HDR_BLOCK_SIZE_OFF: usize = 20;

pub const HDR_MFS_MAGIC_OFF: usize = 24;

/// The label of the header: `minix.rs rootfs`, NUL-padded.
pub const IMAGE_LABEL: [u8; 16] = [
    0x6d, 0x69, 0x6e, 0x69, 0x78, 0x2e, 0x72, 0x73, 0x20, 0x72, 0x6f, 0x6f, 0x74, 0x66, 0x73, 0,
];

/// The label of the tail: `minix.rs tail`, NUL-padded.
pub const IMAGE_TAIL_LABEL: [u8; 16] = [
    0x6d, 0x69, 0x6e, 0x69, 0x78, 0x2e, 0x72, 0x73, 0x20, 0x74, 0x61, 0x69, 0x6c, 0, 0, 0,
];

/// Bytes of one directory entry, as the drivers know it.
pub const ROOTFS_DIRENT_SIZE: usize = 64;

/// Files that, with `.` and `..`, fill one directory block exactly.
pub const ROOTFS_FULL_ENTRIES: usize = 62;

pub const ROOTFS_MOTD_PATH: &'static str = "/etc/motd";

pub const ROOTFS_HELLO_PATH: &'static str = "/bin/hello";

pub const ROOTFS_SCRATCH_PATH: &'static str = "/etc/scratch";

/// Bytes the first process writes to the scratch file.
pub const ROOTFS_SCRATCH_LEN: usize = 32768;

/// The scratch pattern repeats after this many bytes.
pub const ROOTFS_SCRATCH_PERIOD: usize = 251;

/// Byte `i` of the scratch pattern.
pub open spec fn scratch_byte(i: int) -> u8 {
    (i % 251) as u8
}

/// Byte `i` of the scratch pattern.
pub fn rootfs_scratch_byte(i: usize) -> (b: u8)
    ensures
        b == scratch_byte(i as int),
{
    (i % ROOTFS_SCRATCH_PERIOD) as u8
}

/// The scratch pattern counts up from zero and starts over after 251 bytes, which no
/// block size divides, so that a piece put in the wrong place shows.
pub proof fn law_pattern_counts_up(i: int, k: int)
    requires
        0 <= i,
        0 <= k < 251,
    ensures
        scratch_byte(k) == k,
        scratch_byte(i + 251) == scratch_byte(i),
        scratch_byte(i) < 251,
        scratch_byte(i) != scratch_byte(i + 4096),
{
}

} // verus!
