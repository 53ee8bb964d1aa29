use minixrs::abi::rootfs::{ROOTFS_DIRENT_SIZE, ROOTFS_FULL_ENTRIES, ROOTFS_NINODES};
use minixrs::mfs::dirent::DIRENT_SIZE;
use minixrs::mfs::inode::NR_DIRECT_ZONES;
use minixrs::mfs::superblock::MFS_BLOCK_SIZE;
use minixrs::mkfs::error::MkfsError;
use minixrs::mkfs::image::build_image;
use minixrs::mkfs::manifest::Manifest;
use minixrs::mkfs::plan::{blocks_for, max_file_bytes};
use minixrs::mkfs::verify;

#[test]
fn blocks_for_counts_the_indirect_block_only_when_it_is_needed() {
    assert_eq!(blocks_for(0, 0), 0);
    assert_eq!(blocks_for(1, 0), 1);
    assert_eq!(blocks_for(MFS_BLOCK_SIZE, 0), 1);
    assert_eq!(blocks_for(MFS_BLOCK_SIZE + 1, 0), 2);
    assert_eq!(blocks_for(NR_DIRECT_ZONES * MFS_BLOCK_SIZE, 0), 7);
    assert_eq!(blocks_for(NR_DIRECT_ZONES * MFS_BLOCK_SIZE + 1, 0), 9);
}

#[test]
fn blocks_for_excludes_the_hole_but_not_the_indirect_test() {
    assert_eq!(blocks_for(2 * MFS_BLOCK_SIZE, MFS_BLOCK_SIZE), 1);
    let past_seam = (NR_DIRECT_ZONES + 1) * MFS_BLOCK_SIZE;
    assert_eq!(
        blocks_for(past_seam, MFS_BLOCK_SIZE),
        blocks_for(past_seam, 0) - 1,
        "one fewer data zone, same indirect block"
    );
}

#[test]
fn the_maximum_file_is_the_single_indirect_span() {
    assert_eq!(max_file_bytes(), 4_222_976);
    assert_eq!(
        max_file_bytes(),
        (7 + MFS_BLOCK_SIZE / 4) * MFS_BLOCK_SIZE,
        "seven direct zones plus one indirect block of pointers"
    );
}

#[test]
fn a_duplicate_path_is_refused() {
    let mut m = Manifest::new();
    m.add("/etc/motd", b"a".to_vec())
        .add("/etc/motd", b"b".to_vec());
    assert_eq!(
        build_image(&m),
        Err(MkfsError::Duplicate("/etc/motd".to_string()))
    );
}

#[test]
fn a_bad_path_is_refused() {
    let mut m = Manifest::new();
    m.add("/motd", b"a".to_vec());
    assert_eq!(
        build_image(&m),
        Err(MkfsError::BadPath("/motd".to_string()))
    );
}

#[test]
fn too_many_files_exhausts_the_inode_table() {
    let mut m = Manifest::new();
    for i in 0..ROOTFS_NINODES {
        m.add(&format!("/etc/f{i}"), b"x".to_vec());
    }
    match build_image(&m) {
        Err(MkfsError::TooManyInodes { needed, have }) => {
            assert_eq!(have, ROOTFS_NINODES);
            assert_eq!(needed, ROOTFS_NINODES + 2);
        }
        other => panic!("expected TooManyInodes, got {other:?}"),
    }
}

#[test]
fn a_sparse_file_reads_back_whole_but_allocates_only_its_tail() {
    let mut bytes = vec![0u8; 2 * MFS_BLOCK_SIZE];
    for (i, b) in bytes.iter_mut().enumerate().skip(MFS_BLOCK_SIZE) {
        *b = (i % 251) as u8;
    }
    let mut m = Manifest::new();
    m.add_sparse("/etc/holey", bytes.clone(), MFS_BLOCK_SIZE);
    let img = build_image(&m).expect("a one-hole file is buildable");

    assert_eq!(verify::read_file(&img, "/etc/holey"), Some(bytes));
    let (_, node) = verify::lookup(&img, "/etc/holey").expect("it is there");
    assert_eq!(node.zone[0], 0, "the hole must occupy no zone");
    assert_ne!(node.zone[1], 0, "the tail must be allocated");
    assert_eq!(node.size, 2 * MFS_BLOCK_SIZE as i32);
}

#[test]
fn a_hole_that_is_not_whole_blocks_or_not_zero_is_refused() {
    for (bytes, hole) in [
        (vec![0u8; 2 * MFS_BLOCK_SIZE], MFS_BLOCK_SIZE + 1),
        (vec![1u8; 2 * MFS_BLOCK_SIZE], MFS_BLOCK_SIZE),
        (vec![0u8; MFS_BLOCK_SIZE], MFS_BLOCK_SIZE),
    ] {
        let mut m = Manifest::new();
        m.add_sparse("/etc/holey", bytes, hole);
        assert_eq!(
            build_image(&m),
            Err(MkfsError::BadHole("/etc/holey".to_string())),
            "hole {hole}"
        );
    }
}

#[test]
fn the_shared_dirent_size_matches_the_format_crate() {
    assert_eq!(
        ROOTFS_DIRENT_SIZE,
        DIRENT_SIZE
    );
}

#[test]
fn a_directory_of_exactly_sixty_four_entries_fills_one_block() {
    let mut m = Manifest::new();
    for i in 0..ROOTFS_FULL_ENTRIES {
        m.add(&format!("/full/f{i:02}"), Vec::new());
    }
    let img = build_image(&m).expect("62 empty files fit");
    let (_, dir) = verify::lookup(&img, "/full").expect("the directory is there");
    assert_eq!(
        dir.size, MFS_BLOCK_SIZE as i32,
        "exactly full, not one short"
    );
}

#[test]
fn every_refusal_says_what_to_do() {
    let big = MkfsError::TooBig { needed: 300, have: 250 };
    assert_eq!(
        big.message(),
        "root image needs 300 data blocks but only 250 are free; raise ROOTFS_IMAGE_BLOCKS \
         (kernel-shared/src/rootfs.rs) by at least 50"
    );
    assert!(MkfsError::TooBig { needed: 1, have: 250 }.message().ends_with("by at least 0"));
    assert_eq!(
        MkfsError::TooManyInodes { needed: 66, have: 64 }.message(),
        "root image needs 66 inodes but only 64 exist; raise ROOTFS_NINODES \
         (kernel-shared/src/rootfs.rs)"
    );
    assert_eq!(
        MkfsError::BadPath("/a\"b\n".to_string()).message(),
        "\"/a\\\"b\\n\" is not of the form /<dir>/<name>"
    );
    assert_eq!(
        MkfsError::Duplicate("/etc/motd".to_string()).message(),
        "\"/etc/motd\" appears twice in the manifest"
    );
    assert_eq!(
        MkfsError::BadHole("/etc/holey".to_string()).message(),
        "\"/etc/holey\" has a hole that is not whole blocks of zeroes inside the file"
    );
    assert_eq!(
        MkfsError::BadPath(String::new()).line("<none>"),
        "<none> is not of the form /<dir>/<name>"
    );
}
