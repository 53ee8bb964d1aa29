use minixrs::abi::rootfs::{
    HDR_BLOCKS_OFF, HDR_BLOCK_SIZE_OFF, HDR_LABEL_OFF, HDR_MFS_MAGIC_OFF, IMAGE_HDR_LEN,
    IMAGE_LABEL, IMAGE_LABEL_LEN, IMAGE_TAIL_LABEL, ROOTFS_IMAGE_BLOCKS, ROOTFS_IMAGE_BYTES,
    ROOTFS_SCRATCH_LEN, ROOTFS_TAIL_BLOCK,
};
use minixrs::mfs::inode::{NR_DIRECT_ZONES, NR_TZONES, SINGLE_INDIRECT_SLOT};
use minixrs::mfs::superblock::{MFS_BLOCK_SIZE, SUPER_OFFSET};
use minixrs::mkfs::error::MkfsError;
use minixrs::mkfs::image::build_image;
use minixrs::mkfs::manifest::Manifest;
use minixrs::mkfs::verify::{
    image_layout, imap_bit_set, lookup, read_dir, read_file, superblock, zmap_bit_set,
};
const BIG_LEN: usize = (NR_DIRECT_ZONES + 2) * MFS_BLOCK_SIZE;

fn big_bytes() -> Vec<u8> {
    (0..BIG_LEN).map(|i| (i % 251) as u8).collect()
}
fn sample() -> Vec<u8> {
    let mut m = Manifest::new();
    m.add("/bin/hello", big_bytes())
        .add("/etc/motd", b"minix.rs rootfs motd\n".to_vec())
        .add("/etc/empty", Vec::new())
        .add("/etc/one", vec![0xA5]);
    build_image(&m).expect("the sample manifest fits the fixed image")
}

#[test]
fn the_image_is_the_fixed_size_and_its_superblock_agrees() {
    let img = sample();
    assert_eq!(img.len(), ROOTFS_IMAGE_BYTES);

    let sb = superblock(&img).expect("the superblock decodes and validates");
    assert_eq!(sb.validate(), Ok(()));
    assert_eq!(sb.zones, ROOTFS_IMAGE_BLOCKS);
    assert_eq!(sb.zones as usize, img.len() / MFS_BLOCK_SIZE);
    assert_eq!(sb.block_size as usize, MFS_BLOCK_SIZE);
    assert_eq!(sb.log_zone_size, 0);
}

#[test]
fn the_root_directory_lists_dot_dotdot_and_every_subdirectory() {
    let img = sample();
    assert_eq!(
        read_dir(&img, "/").unwrap(),
        [".", "..", "bin", "etc"],
        "root's entries, in on-disk order"
    );
    assert_eq!(
        read_dir(&img, "/etc").unwrap(),
        [".", "..", "motd", "empty", "one"],
        "a subdirectory's entries follow manifest order"
    );
    assert_eq!(read_dir(&img, "/bin").unwrap(), [".", "..", "hello"]);
}

#[test]
fn every_directory_is_a_directory_and_every_file_is_a_file() {
    let img = sample();
    for dir in ["/", "/bin", "/etc"] {
        assert!(lookup(&img, dir).unwrap().1.is_dir(), "{dir}");
        assert_eq!(read_file(&img, dir), None, "{dir} is not a regular file");
    }
    for file in ["/bin/hello", "/etc/motd", "/etc/empty", "/etc/one"] {
        assert!(lookup(&img, file).unwrap().1.is_reg(), "{file}");
        assert_eq!(read_dir(&img, file), None, "{file} is not a directory");
    }
}

#[test]
fn a_file_larger_than_seven_zones_uses_the_indirect_block() {
    let img = sample();
    let (_, node) = lookup(&img, "/bin/hello").unwrap();
    assert_eq!(node.size as usize, BIG_LEN);
    assert_ne!(
        node.zone[SINGLE_INDIRECT_SLOT], 0,
        "a nine-block file must have an indirect block"
    );
    for slot in 0..NR_DIRECT_ZONES {
        assert_ne!(
            node.zone[slot], 0,
            "direct zone {slot} must be filled first"
        );
    }
    assert_eq!(read_file(&img, "/bin/hello").unwrap(), big_bytes());
}

#[test]
fn a_small_file_round_trips_byte_for_byte() {
    let img = sample();
    assert_eq!(
        read_file(&img, "/etc/motd").unwrap(),
        b"minix.rs rootfs motd\n"
    );
}

#[test]
fn the_div_ceil_boundary_files_round_trip() {
    let img = sample();
    assert_eq!(read_file(&img, "/etc/one").unwrap(), vec![0xA5]);
    assert_eq!(read_file(&img, "/etc/empty").unwrap(), Vec::<u8>::new());

    let (_, one) = lookup(&img, "/etc/one").unwrap();
    assert_eq!(one.size, 1);
    assert_ne!(one.zone[0], 0, "a one-byte file still needs a zone");

    let (_, empty) = lookup(&img, "/etc/empty").unwrap();
    assert_eq!(empty.size, 0);
    assert_eq!(empty.zone, [0u32; NR_TZONES]);
}

#[test]
fn a_path_that_does_not_exist_resolves_to_nothing() {
    let img = sample();
    for missing in ["/bin/nope", "/nope/hello", "/etc/motd/x"] {
        assert_eq!(lookup(&img, missing), None, "{missing}");
    }
}

#[test]
fn a_path_leads_where_its_components_do() {
    let img = sample();
    let at = |path: &str| lookup(&img, path).map(|(ino, _)| ino);
    for missing in ["/nope", "/bin/nope/x", "/etc/./nope", "/bin/../nope", "/etc/motd/.", "motd"] {
        assert_eq!(at(missing), None, "{missing}");
    }
    for root in ["/", "", "/.", "/..", "/etc/..", "//etc/../."] {
        assert_eq!(at(root), Some(1), "{root}");
    }
    assert!(at("/etc/motd").is_some());
    assert_eq!(at("/bin/../etc/./motd"), at("/etc/motd"));
    assert_eq!(at("etc//motd/"), at("/etc/motd"));
}
#[test]
fn the_image_header_agrees_with_the_real_superblock() {
    let img = sample();
    let sb = superblock(&img).unwrap();

    assert_eq!(
        &img[HDR_LABEL_OFF..HDR_LABEL_OFF + IMAGE_LABEL_LEN],
        &IMAGE_LABEL
    );
    assert_eq!(
        u32::from_le_bytes(img[HDR_BLOCKS_OFF..HDR_BLOCKS_OFF + 4].try_into().unwrap()),
        sb.zones
    );
    assert_eq!(
        u32::from_le_bytes(
            img[HDR_BLOCK_SIZE_OFF..HDR_BLOCK_SIZE_OFF + 4]
                .try_into()
                .unwrap()
        ) as u16,
        sb.block_size
    );
    assert_eq!(
        i32::from_le_bytes(
            img[HDR_MFS_MAGIC_OFF..HDR_MFS_MAGIC_OFF + 4]
                .try_into()
                .unwrap()
        ),
        i32::from(sb.magic)
    );
}

#[test]
fn the_header_sits_in_the_boot_block_and_leaves_the_superblock_alone() {
    assert_eq!(IMAGE_HDR_LEN.min(SUPER_OFFSET), IMAGE_HDR_LEN);
    let img = sample();
    assert!(
        img[IMAGE_HDR_LEN..SUPER_OFFSET].iter().all(|&b| b == 0),
        "the rest of the boot block must stay zero"
    );
}

#[test]
fn the_tail_label_sits_in_the_reserved_last_block() {
    let img = sample();
    let off = ROOTFS_TAIL_BLOCK as usize * MFS_BLOCK_SIZE;
    assert_eq!(off, (ROOTFS_IMAGE_BLOCKS as usize - 1) * 4096);
    assert_eq!(&img[off..off + IMAGE_LABEL_LEN], &IMAGE_TAIL_LABEL);
    assert_ne!(&img[off..off + IMAGE_LABEL_LEN], &IMAGE_LABEL);

    assert_eq!(
        zmap_bit_set(&img, ROOTFS_TAIL_BLOCK),
        Some(true),
        "the tail block must be marked allocated so no file can land on it"
    );
}

#[test]
fn every_allocated_inode_and_zone_is_marked_in_the_bitmaps() {
    let img = sample();
    for ino in 1..=7 {
        assert_eq!(imap_bit_set(&img, ino), Some(true), "inode {ino}");
    }
    assert_eq!(imap_bit_set(&img, 0), Some(true), "inode 0 is reserved");
    assert_eq!(imap_bit_set(&img, 8), Some(false), "inode 8 is free");
    let (_, hello) = lookup(&img, "/bin/hello").unwrap();
    for z in hello.zone.iter().copied().filter(|&z| z != 0) {
        assert_eq!(zmap_bit_set(&img, z), Some(true), "zone {z}");
    }
}

#[test]
fn an_over_large_manifest_is_refused_with_exact_numbers() {
    let mut m = Manifest::new();
    m.add("/bin/a", vec![1u8; 600 * 1024])
        .add("/bin/b", vec![2u8; 600 * 1024]);
    match build_image(&m) {
        Err(MkfsError::TooBig { needed, have }) => {
            assert!(needed > have, "needed {needed} have {have}");
            assert!(
                have < ROOTFS_IMAGE_BLOCKS,
                "the free zones exclude metadata and the reserved tail"
            );
        }
        other => panic!("expected TooBig, got {other:?}"),
    }
}

#[test]
fn the_build_is_deterministic() {
    assert_eq!(sample(), sample());
}

#[test]
fn a_zero_length_file_is_regular_empty_and_costs_no_zones() {
    let mut m = Manifest::new();
    m.add("/etc/motd", b"hi\n".to_vec())
        .add("/etc/scratch", Vec::new());
    let img = build_image(&m).expect("image builds");

    let (_, node) = lookup(&img, "/etc/scratch").expect("scratch resolves");
    assert!(node.is_reg());
    assert_eq!(node.size, 0);
    assert_eq!(node.zone, [0u32; NR_TZONES]);
    assert_eq!(read_file(&img, "/etc/scratch"), Some(Vec::new()));
}

#[test]
fn the_image_leaves_room_for_the_scratch_file_to_grow() {
    let img = sample();
    let l = image_layout(&img).expect("layout");
    let free = (l.first_data_zone..ROOTFS_TAIL_BLOCK)
        .filter(|z| zmap_bit_set(&img, *z) == Some(false))
        .count();
    assert!(
        free > ROOTFS_SCRATCH_LEN / MFS_BLOCK_SIZE,
        "only {free} free zones"
    );
}

#[test]
fn a_file_with_a_hole_reads_back_through_its_indirect_block() {
    let mut bytes = vec![0u8; 10 * MFS_BLOCK_SIZE + 5];
    for (i, b) in bytes.iter_mut().enumerate().skip(3 * MFS_BLOCK_SIZE) {
        *b = (i % 249) as u8;
    }
    let mut m = Manifest::new();
    m.add_sparse("/etc/big", bytes.clone(), 3 * MFS_BLOCK_SIZE);
    let img = build_image(&m).unwrap();
    assert_eq!(read_file(&img, "/etc/big"), Some(bytes));
    let (_, node) = lookup(&img, "/etc/big").unwrap();
    assert_eq!(&node.zone[..3], &[0, 0, 0]);
    assert_ne!(node.zone[SINGLE_INDIRECT_SLOT], 0);
}

#[test]
fn no_zone_serves_two_files() {
    let img = sample();
    let mut zones = Vec::new();
    for path in ["/", "/bin", "/etc", "/bin/hello", "/etc/motd", "/etc/one"] {
        let (_, node) = lookup(&img, path).unwrap();
        zones.extend(node.zone.iter().copied().filter(|z| *z != 0));
        if node.zone[SINGLE_INDIRECT_SLOT] != 0 {
            let at = node.zone[SINGLE_INDIRECT_SLOT] as usize * MFS_BLOCK_SIZE;
            for slot in 0..2 {
                let p = at + 4 * slot;
                zones.push(u32::from_le_bytes(img[p..p + 4].try_into().unwrap()));
            }
        }
    }
    let count = zones.len();
    zones.sort_unstable();
    zones.dedup();
    assert_eq!(zones.len(), count);
    assert!(zones.iter().all(|z| (5..ROOTFS_TAIL_BLOCK).contains(z)));
}

#[test]
fn manifests_with_the_same_files_give_the_same_image() {
    let mut a = Manifest::new();
    a.add("/etc/a", vec![1, 2]).add("/bin/b", vec![3]);
    let mut b = Manifest::default();
    b.add_sparse("/etc/a", vec![1, 2], 0);
    b.add_sparse("/bin/b", vec![3], 0);
    assert_eq!(build_image(&a), build_image(&b));
    let mut c = Manifest::new();
    c.add("/bin/b", vec![3]).add("/etc/a", vec![1, 2]);
    assert_ne!(build_image(&a), build_image(&c), "the order of the files counts");
}

#[test]
fn a_path_through_a_file_leads_nowhere() {
    let img = sample();
    for path in ["/etc/motd/x", "/etc//motd/x/y", "/bin/hello/."] {
        assert_eq!(lookup(&img, path), None, "{path}");
        assert_eq!(read_file(&img, path), None, "{path}");
        assert_eq!(read_dir(&img, path), None, "{path}");
    }
}
