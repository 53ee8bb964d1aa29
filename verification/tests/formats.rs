use minixrs::abi::com::{boot_endpoint, PM_PROC_NR, SYSTEM};
use minixrs::abi::endpoint::{endpoint_gen, endpoint_proc, make_endpoint};
use minixrs::abi::message::{user_range_ok, USER_VA_TOP};
use minixrs::abi::rootfs::rootfs_scratch_byte;
use minixrs::mfs::dirent::{DirEntry, NAME_MAX};
use minixrs::mfs::inode::{Inode, I_DIRECTORY, I_REGULAR, SINGLE_INDIRECT_SLOT};
use minixrs::mfs::layout::{imap_bit, layout, zmap_bit};
use minixrs::mfs::read::{
    inode_at, inode_location, ptrs_per_block, zone_for_offset, zone_from_indirect, ZoneLookup,
};
use minixrs::mfs::superblock::{SuperError, Superblock, SUPER_MAGIC_V3};
use minixrs::mkfs::image::build_image;
use minixrs::mkfs::manifest::Manifest;
use minixrs::mkfs::verify;
use minixrs::text::{chars, concat3, is_whitespace, string_of, to_base, to_decimal, to_lower_hex};

#[test]
fn an_endpoint_packs_a_generation_above_a_process() {
    assert_eq!(make_endpoint(1, 15), 0x8000 + 15);
    assert_eq!(make_endpoint(0, -2), 32766);
    for (g, p) in [(0, -5), (3, 0), (0xffff, 16383), (7, -16384)] {
        let e = make_endpoint(g, p);
        assert_eq!((endpoint_gen(e), endpoint_proc(e)), (g, p));
    }
    assert_eq!(boot_endpoint(PM_PROC_NR), 0);
    assert_eq!(boot_endpoint(SYSTEM), 32766);
}

#[test]
fn a_user_range_starts_above_zero_and_ends_below_the_top() {
    assert!(user_range_ok(0x1000, 8));
    assert!(user_range_ok(USER_VA_TOP - 8, 8));
    assert!(!user_range_ok(USER_VA_TOP - 8, 9));
    assert!(!user_range_ok(0, 8));
    assert!(!user_range_ok(u64::MAX, 8));
    assert!(!user_range_ok(USER_VA_TOP, 0));
}

#[test]
fn the_scratch_pattern_repeats_with_its_period() {
    assert_eq!(rootfs_scratch_byte(0), rootfs_scratch_byte(251));
    assert_ne!(rootfs_scratch_byte(0), rootfs_scratch_byte(1));
}

#[test]
fn a_directory_entry_reads_back() {
    let e = DirEntry::new(7, b"motd").unwrap();
    let back = DirEntry::from_le_bytes(&e.to_le_bytes(), 0);
    assert_eq!(back, e);
    assert_eq!(back.name_len(), 4);
    assert!(DirEntry::new(7, &[b'x'; NAME_MAX]).is_some());
    assert!(DirEntry::new(7, &[b'x'; NAME_MAX + 1]).is_none());
}

#[test]
fn an_inode_reads_back_and_knows_its_kind() {
    let mut n = Inode::empty();
    n.mode = I_REGULAR | 0o755;
    n.size = 12345;
    n.zone[3] = 99;
    let mut block = vec![0u8; 4096];
    block[128..192].copy_from_slice(&n.to_le_bytes());
    assert_eq!(inode_at(&block, 2), Some(n));
    assert!(n.is_reg() && !n.is_dir());
    n.mode = I_DIRECTORY | 0o755;
    assert!(n.is_dir() && !n.is_reg());
    assert_eq!(inode_at(&block, 64), None);
}

#[test]
fn a_superblock_with_the_wrong_magic_is_refused() {
    let img = build_image(&Manifest::new()).unwrap();
    let sb = verify::superblock(&img).unwrap();
    assert_eq!(sb.magic, SUPER_MAGIC_V3);
    assert_eq!(Superblock::from_le_bytes(&sb.to_le_bytes()), Some(sb));
    let bad = Superblock { magic: 0, ..sb };
    assert_eq!(bad.validate(), Err(SuperError::Magic));
    let bad = Superblock { block_size: 1024, ..sb };
    assert_eq!(bad.validate(), Err(SuperError::BlockSize));
    let bad = Superblock { log_zone_size: 1, ..sb };
    assert_eq!(bad.validate(), Err(SuperError::ZoneSize));
    assert_eq!(Superblock::from_le_bytes(&[0; 30]), None);
}

#[test]
fn the_layout_puts_the_data_behind_the_maps_and_the_inodes() {
    let l = layout(64, 256);
    assert_eq!(l.first_data_zone, 5);
    assert_eq!(imap_bit(1), 1);
    assert_eq!(zmap_bit(5, 5), Some(1));
    assert_eq!(zmap_bit(4, 5), None);
    let (block, slot) = inode_location(1, &l).unwrap();
    assert_eq!((block, slot), (4, 0));
    assert_eq!(inode_location(0, &l), None);
}

#[test]
fn an_offset_finds_its_zone_directly_or_through_the_indirect_block() {
    let mut n = Inode::empty();
    n.size = 40 * 4096;
    n.zone[6] = 17;
    n.zone[SINGLE_INDIRECT_SLOT] = 23;
    assert_eq!(zone_for_offset(&n, 6 * 4096 + 1), ZoneLookup::Direct(17));
    assert_eq!(zone_for_offset(&n, 0), ZoneLookup::Hole);
    assert_eq!(zone_for_offset(&n, 8 * 4096), ZoneLookup::Indirect { zone: 23, slot: 1 });
    assert_eq!(zone_for_offset(&n, 1031 * 4096), ZoneLookup::OutOfRange);
    let mut block = vec![0u8; 4096];
    block[4..8].copy_from_slice(&31u32.to_le_bytes());
    assert_eq!(zone_from_indirect(&block, 1), Some(31));
    assert_eq!(zone_from_indirect(&block, ptrs_per_block()), None);
}

#[test]
fn numbers_are_written_out_in_full() {
    assert_eq!(to_base(0, 10), "0");
    assert_eq!(to_base(u64::MAX, 10), u64::MAX.to_string());
    assert_eq!(to_base(0xBEEF, 16), "BEEF");
    assert_eq!(to_decimal(-42), "-42");
    assert_eq!(to_decimal(i64::MIN), i64::MIN.to_string());
    assert_eq!(to_lower_hex(0xBEEF), "beef");
}

#[test]
fn text_is_cut_and_joined_by_characters() {
    let v = chars("h\u{e9}llo");
    assert_eq!(v.len(), 5);
    assert_eq!(string_of(&v, 1, 3), "\u{e9}l");
    assert_eq!(concat3("a", "", "bc"), "abc");
    for c in ['\t', ' ', '\u{a0}', '\u{2003}', '\u{3000}'] {
        assert!(is_whitespace(c) && c.is_whitespace());
    }
    for c in ['a', '\u{200b}', '_'] {
        assert!(!is_whitespace(c) && !c.is_whitespace());
    }
}
