//! The on-disk format of the root filesystem: a MINIX v3 superblock, bitmaps, an
//! inode table, and directories of fixed-size entries.
pub mod dirent;
pub mod inode;
pub mod layout;
pub mod read;
pub mod superblock;
