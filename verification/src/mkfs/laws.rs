//! What a reader gets back from a built image.
use vstd::prelude::*;
use crate::abi::rootfs::{
    HDR_BLOCKS_OFF, HDR_BLOCK_SIZE_OFF, HDR_LABEL_OFF, HDR_MFS_MAGIC_OFF, IMAGE_LABEL,
    IMAGE_LABEL_LEN, IMAGE_TAIL_LABEL, ROOTFS_IMAGE_BLOCKS, ROOTFS_IMAGE_BYTES, ROOTFS_NINODES,
    ROOTFS_TAIL_BLOCK,
};
use crate::bytes;
use crate::mfs::inode;
use crate::mfs::layout;
use crate::mfs::read;
use crate::mfs::superblock;
use crate::mfs::superblock::Superblock;
use crate::mkfs::image;
use crate::mkfs::manifest::Entry;
use crate::mkfs::plan;
use crate::mkfs::verify;

verus! {

/// The image's own superblock is read back, it is one the reader accepts, and it
/// gives the image the layout it was written with.
pub proof fn law_superblock_reads_back(es: Seq<Entry>)
    ensures
        verify::super_of(image::image_spec(es)) == Some(image::root_super()),
        verify::layout_of(image::image_spec(es)) == Some(
            layout::layout_spec(ROOTFS_NINODES, ROOTFS_IMAGE_BLOCKS),
        ),
        layout::layout_spec(ROOTFS_NINODES, ROOTFS_IMAGE_BLOCKS).first_data_zone
            == image::FIRST_DATA_ZONE,
{
    reveal(image::image_spec);
    let img = image::image_spec(es);
    let sb = image::root_super();
    assert forall|i: int| 1024 <= i < 1055 implies img[i] == superblock::super_byte(
        sb,
        i - 1024,
    ) by {
        assert(i / 4096 == 0 && i % 4096 == i);
    }
    superblock::law_superblock_round_trip(sb, img, 1024);
}

/// The 32 bytes from `at` on start with `label` and carry the geometry that the
/// superblock `sb` gives.
pub open spec fn labelled(img: Seq<u8>, at: int, label: Seq<u8>, sb: Superblock) -> bool {
    &&& img.subrange(at + HDR_LABEL_OFF, at + HDR_LABEL_OFF + IMAGE_LABEL_LEN) == label
    &&& bytes::u32_at(img, at + HDR_BLOCKS_OFF) == sb.zones
    &&& bytes::u32_at(img, at + HDR_BLOCK_SIZE_OFF) == sb.block_size
    &&& bytes::u32_at(img, at + HDR_MFS_MAGIC_OFF) == sb.magic
}

/// A header whose bytes stand at `at` is labelled.
proof fn lemma_labelled(img: Seq<u8>, at: int, label: Seq<u8>)
    requires
        0 <= at,
        at + 32 <= img.len(),
        label.len() == 16,
        forall|i: int| at <= i < at + 32 ==> img[i] == image::header_byte(label, i - at),
    ensures
        labelled(img, at, label, image::root_super()),
{
    assert(img.subrange(at, at + 16) =~= label);
    bytes::lemma_u32_is(img, at + 16, ROOTFS_IMAGE_BLOCKS);
    bytes::lemma_u32_is(img, at + 20, 4096);
    bytes::lemma_u32_is(img, at + 24, 0x4D5A);
}

/// Every image has the fixed size, and both its ends describe it: the first and
/// the last block start with labels that differ and agree with the superblock
/// the reader finds.
pub proof fn law_ends_agree_with_the_superblock(es: Seq<Entry>)
    ensures
        ({
            let img = image::image_spec(es);
            &&& img.len() == ROOTFS_IMAGE_BYTES
            &&& verify::super_of(img) matches Some(sb) && {
                &&& labelled(img, 0, IMAGE_LABEL@, sb)
                &&& labelled(img, ROOTFS_TAIL_BLOCK * 4096, IMAGE_TAIL_LABEL@, sb)
                &&& sb.zones * sb.block_size == img.len()
            }
        }),
        IMAGE_LABEL@ != IMAGE_TAIL_LABEL@,
{
    law_superblock_reads_back(es);
    reveal(image::image_spec);
    let img = image::image_spec(es);
    assert forall|i: int| 0 <= i < 32 implies img[i] == image::header_byte(IMAGE_LABEL@, i) by {
        assert(i / 4096 == 0 && i % 4096 == i);
    }
    lemma_labelled(img, 0, IMAGE_LABEL@);
    let at = ROOTFS_TAIL_BLOCK * 4096;
    assert forall|i: int| at <= i < at + 32 implies img[i] == image::header_byte(
        IMAGE_TAIL_LABEL@,
        i - at,
    ) by {
        assert(i / 4096 == 255 && i % 4096 == i - at);
    }
    lemma_labelled(img, at, IMAGE_TAIL_LABEL@);
    assert(exists|i: int| 0 <= i < 16 && IMAGE_LABEL@[i] != IMAGE_TAIL_LABEL@[i]);
}

/// The byte of the image in the table slot of object `k`.
proof fn lemma_image_inode(es: Seq<Entry>, k: int, i: int)
    requires
        0 <= k < plan::object_count(es) <= 64,
        0 <= i < 64,
    ensures
        image::image_spec(es)[4 * 4096 + k * 64 + i] == inode::node_byte(
            image::object_node(es, k),
            i,
        ),
{
    reveal(image::image_spec);
    let p = 4 * 4096 + k * 64 + i;
    assert(p / 4096 == 4 && p % 4096 == k * 64 + i);
    assert((k * 64 + i) / 64 == k && (k * 64 + i) % 64 == i);
}

/// The bytes in the table slot of object `k` are those of its inode.
proof fn lemma_table_slot(es: Seq<Entry>, k: int)
    requires
        0 <= k < plan::object_count(es) <= 64,
    ensures
        inode::node_at(image::image_spec(es), 4 * 4096 + k * 64) == image::object_node(es, k),
{
    let img = image::image_spec(es);
    let node = image::object_node(es, k);
    let at = 4 * 4096 + k * 64;
    assert(img.len() == 0x10_0000) by {
        reveal(image::image_spec);
    }
    assert(node.zone.len() == 10) by {
        reveal(image::object_node);
    }
    assert forall|i: int| at <= i < at + 64 implies img[i] == inode::node_byte(node, i - at) by {
        lemma_image_inode(es, k, i - at);
    }
    inode::law_inode_round_trip(node, img, at);
}

/// Every inode is read back as it was written.
pub proof fn law_inode_reads_back(es: Seq<Entry>, k: int)
    requires
        plan::plan_fault(es) is None,
        0 <= k < plan::object_count(es),
    ensures
        verify::node_of(image::image_spec(es), (k + 1) as u32) == Some(
            image::object_node(es, k),
        ),
{
    assert(plan::object_count(es) <= 64);
    assert(image::image_spec(es).len() == 0x10_0000) by {
        reveal(image::image_spec);
    }
    reveal(verify::node_of);
    law_superblock_reads_back(es);
    lemma_table_slot(es, k);
    let l = layout::layout_spec(ROOTFS_NINODES, ROOTFS_IMAGE_BLOCKS);
    let ino = (k + 1) as u32;
    assert(ino == k + 1);
    assert(l.inode_start == 4 && l.inode_blocks == 1);
    assert(read::location_spec(ino, l) == Some((4u32, k as usize)));
}

/// The byte of the image in a zone of object `k`.
proof fn lemma_image_zone(es: Seq<Entry>, k: int, z: int, o: int)
    requires
        plan::plan_fault(es) is None,
        0 <= k < plan::object_count(es),
        image::start_of(es, k) <= z < image::start_of(es, k + 1),
        0 <= o < 4096,
    ensures
        image::image_spec(es)[z * 4096 + o] == image::stored_byte(
            image::start_of(es, k),
            plan::object_data(es, k),
            image::hole_of(es, k),
            image::chunks_of(es, k),
            z,
            o,
        ),
        verify::has_block(image::image_spec(es), z),
{
    let n = plan::object_count(es);
    reveal(image::image_spec);
    image::lemma_object_fits(es, k);
    image::lemma_owner(es, n, k, z);
    image::lemma_start_grows(es, k + 1, n);
    let p = z * 4096 + o;
    assert(p / 4096 == z && p % 4096 == o);
}

/// The zone of a stored chunk holds the chunk's bytes.
proof fn lemma_zone_holds_chunk(es: Seq<Entry>, k: int, i: int)
    requires
        plan::plan_fault(es) is None,
        0 <= k < plan::object_count(es),
        image::hole_of(es, k) <= i,
        i * 4096 < plan::object_data(es, k).len(),
    ensures
        ({
            let z = image::zone_no(image::start_of(es, k), image::hole_of(es, k), i);
            &&& image::start_of(es, k) <= z < 255
            &&& verify::has_block(image::image_spec(es), z)
            &&& forall|o: int|
                0 <= o < 4096 ==> #[trigger] image::image_spec(es)[z * 4096 + o]
                    == image::data_byte(plan::object_data(es, k), i, o)
        }),
{
    let start = image::start_of(es, k);
    let h = image::hole_of(es, k);
    let z = image::zone_no(start, h, i);
    image::lemma_object_fits(es, k);
    assert(start <= z < image::start_of(es, k + 1));
    assert(z != image::indirect_no(start, h));
    assert(image::chunk_no(start, h, z) == i);
    lemma_image_zone(es, k, z, 0);
    assert forall|o: int| 0 <= o < 4096 implies #[trigger] image::image_spec(es)[z * 4096 + o]
        == image::data_byte(plan::object_data(es, k), i, o) by {
        lemma_image_zone(es, k, z, o);
    }
}

/// The indirect block names the zone of chunk `i`, or none inside the hole.
proof fn lemma_pointer_reads_back(es: Seq<Entry>, k: int, i: int)
    requires
        plan::plan_fault(es) is None,
        0 <= k < plan::object_count(es),
        7 <= i,
        i * 4096 < plan::object_data(es, k).len(),
    ensures
        ({
            let start = image::start_of(es, k);
            let h = image::hole_of(es, k);
            let ind = image::indirect_no(start, h);
            &&& 5 <= ind < 255
            &&& image::object_node(es, k).zone[7] == ind as u32
            &&& verify::has_block(image::image_spec(es), ind)
            &&& bytes::u32_at(image::image_spec(es), ind * 4096 + (i - 7) * 4) == (if h <= i {
                image::zone_no(start, h, i) as u32
            } else {
                0
            })
        }),
{
    let img = image::image_spec(es);
    let start = image::start_of(es, k);
    let h = image::hole_of(es, k);
    let n = image::chunks_of(es, k);
    let ind = image::indirect_no(start, h);
    reveal(image::object_node);
    image::lemma_object_fits(es, k);
    assert(i < n && n <= 7 + 1024);
    assert(n > image::first_indirect(h));
    assert(start <= ind < image::start_of(es, k + 1));
    let at = (i - 7) * 4;
    assert(at / 4 == i - 7 && (at + 1) / 4 == i - 7 && (at + 2) / 4 == i - 7 && (at + 3) / 4 == i
        - 7);
    lemma_image_zone(es, k, ind, at);
    lemma_image_zone(es, k, ind, at + 1);
    lemma_image_zone(es, k, ind, at + 2);
    lemma_image_zone(es, k, ind, at + 3);
    let b = ind * 4096 + at;
    assert(img[b] == image::pointer_byte(start, h, n, at));
    assert(img[b + 1] == image::pointer_byte(start, h, n, at + 1));
    assert(img[b + 2] == image::pointer_byte(start, h, n, at + 2));
    assert(img[b + 3] == image::pointer_byte(start, h, n, at + 3));
    if h <= i {
        bytes::lemma_u32_is(img, b, image::zone_no(start, h, i) as u32);
    }
}

/// Chunk `i` of object `k` is found, and it holds the object's bytes.
proof fn lemma_chunk_reads_back(es: Seq<Entry>, k: int, i: int, o: int)
    requires
        plan::plan_fault(es) is None,
        0 <= k < plan::object_count(es),
        0 <= i,
        0 <= o < 4096,
        i * 4096 + o < plan::object_data(es, k).len(),
    ensures
        verify::chunk_ok(image::image_spec(es), image::object_node(es, k).zone, i),
        verify::chunk_byte(image::image_spec(es), image::object_node(es, k).zone, i, o)
            == plan::object_data(es, k)[i * 4096 + o],
{
    let zone = image::object_node(es, k).zone;
    let h = image::hole_of(es, k);
    let z = image::zone_no(image::start_of(es, k), h, i);
    let data = plan::object_data(es, k);
    reveal(image::object_node);
    image::lemma_object_fits(es, k);
    if h <= i {
        lemma_zone_holds_chunk(es, k, i);
        assert(image::image_spec(es)[z * 4096 + o] == image::data_byte(data, i, o));
    } else {
        assert(i * 4096 + o < plan::object_hole(es, k));
    }
    if i >= 7 {
        lemma_pointer_reads_back(es, k, i);
        assert(((i - 7) as usize) * 4 == (i - 7) * 4);
    }
}

/// Reading back what was written: the contents an object's inode gives are the
/// object's bytes, hole and all.
pub proof fn law_content_reads_back(es: Seq<Entry>, k: int)
    requires
        plan::plan_fault(es) is None,
        0 <= k < plan::object_count(es),
    ensures
        verify::content(image::image_spec(es), image::object_node(es, k)) == Some(
            plan::object_data(es, k),
        ),
{
    let img = image::image_spec(es);
    let data = plan::object_data(es, k);
    let node = image::object_node(es, k);
    image::lemma_object_fits(es, k);
    reveal(verify::content);
    assert(node.size == data.len()) by {
        reveal(image::object_node);
    }
    assert forall|i: int| 0 <= i && i * 4096 < data.len() implies #[trigger] verify::chunk_ok(
        img,
        node.zone,
        i,
    ) by {
        lemma_chunk_reads_back(es, k, i, 0);
    }
    let got = verify::content(img, node)->0;
    assert forall|p: int| 0 <= p < data.len() implies got[p] == data[p] by {
        assert((p / 4096) * 4096 + p % 4096 == p);
        lemma_chunk_reads_back(es, k, p / 4096, p % 4096);
    }
    assert(got =~= data);
}

/// Byte `o` of a bitmap says of each of its bits whether it is set.
proof fn lemma_map_byte(o: int, k: int, count: int, extra: int)
    requires
        0 <= k < 8,
    ensures
        (image::map_byte(o, count, extra) as int / verify::bit_weight(k)) % 2 == (
        if image::marked(8 * o + k, count, extra) {
            1int
        } else {
            0
        }),
{
    let x0 = if image::marked(8 * o + 0, count, extra) {
        1int
    } else {
        0
    };
    let x1 = if image::marked(8 * o + 1, count, extra) {
        1int
    } else {
        0
    };
    let x2 = if image::marked(8 * o + 2, count, extra) {
        1int
    } else {
        0
    };
    let x3 = if image::marked(8 * o + 3, count, extra) {
        1int
    } else {
        0
    };
    let x4 = if image::marked(8 * o + 4, count, extra) {
        1int
    } else {
        0
    };
    let x5 = if image::marked(8 * o + 5, count, extra) {
        1int
    } else {
        0
    };
    let x6 = if image::marked(8 * o + 6, count, extra) {
        1int
    } else {
        0
    };
    let x7 = if image::marked(8 * o + 7, count, extra) {
        1int
    } else {
        0
    };
    let b = x0 + 2 * x1 + 4 * x2 + 8 * x3 + 16 * x4 + 32 * x5 + 64 * x6 + 128 * x7;
    assert(image::map_byte(o, count, extra) == b);
    if k == 0 {
        assert(b / 1 == x0 + 2 * (x1 + 2 * (x2 + 2 * (x3 + 2 * (x4 + 2 * (x5 + 2 * (x6 + 2 * (x7))))))));
        assert((x0 + 2 * (x1 + 2 * (x2 + 2 * (x3 + 2 * (x4 + 2 * (x5 + 2 * (x6 + 2 * (x7)))))))) % 2 == x0);
    } else if k == 1 {
        assert(b / 2 == x1 + 2 * (x2 + 2 * (x3 + 2 * (x4 + 2 * (x5 + 2 * (x6 + 2 * (x7)))))));
        assert((x1 + 2 * (x2 + 2 * (x3 + 2 * (x4 + 2 * (x5 + 2 * (x6 + 2 * (x7))))))) % 2 == x1);
    } else if k == 2 {
        assert(b / 4 == x2 + 2 * (x3 + 2 * (x4 + 2 * (x5 + 2 * (x6 + 2 * (x7))))));
        assert((x2 + 2 * (x3 + 2 * (x4 + 2 * (x5 + 2 * (x6 + 2 * (x7)))))) % 2 == x2);
    } else if k == 3 {
        assert(b / 8 == x3 + 2 * (x4 + 2 * (x5 + 2 * (x6 + 2 * (x7)))));
        assert((x3 + 2 * (x4 + 2 * (x5 + 2 * (x6 + 2 * (x7))))) % 2 == x3);
    } else if k == 4 {
        assert(b / 16 == x4 + 2 * (x5 + 2 * (x6 + 2 * (x7))));
        assert((x4 + 2 * (x5 + 2 * (x6 + 2 * (x7)))) % 2 == x4);
    } else if k == 5 {
        assert(b / 32 == x5 + 2 * (x6 + 2 * (x7)));
        assert((x5 + 2 * (x6 + 2 * (x7))) % 2 == x5);
    } else if k == 6 {
        assert(b / 64 == x6 + 2 * (x7));
        assert((x6 + 2 * (x7)) % 2 == x6);
    } else {
        assert(b / 128 == x7);
    }
}

/// The bitmaps mark exactly what is in use: inode 0, which is no inode, and the
/// inodes of the directories and files; the bit before the first zone, the zones
/// the objects take, and the tail block.
pub proof fn law_bitmaps(es: Seq<Entry>, bit: u32)
    requires
        plan::plan_fault(es) is None,
        bit < 32768,
    ensures
        verify::bit_at(image::image_spec(es), 2, bit) == Some(bit <= plan::object_count(es)),
        verify::bit_at(image::image_spec(es), 3, bit) == Some(
            bit <= plan::used(es, plan::object_count(es)) || bit == image::TAIL_BIT,
        ),
        layout::zmap_bit_spec(255, image::FIRST_DATA_ZONE) == Some(image::TAIL_BIT),
        plan::used(es, plan::object_count(es)) < image::TAIL_BIT,
{
    reveal(image::image_spec);
    let n = plan::object_count(es);
    let o = bit as int / 8;
    let k = bit as int % 8;
    image::lemma_object_fits(es, n - 1);
    assert((2 * 4096 + o) / 4096 == 2 && (2 * 4096 + o) % 4096 == o);
    assert((3 * 4096 + o) / 4096 == 3 && (3 * 4096 + o) % 4096 == o);
    lemma_map_byte(o, k, n + 1, 0);
    lemma_map_byte(o, k, plan::used(es, n) + 1, image::TAIL_BIT as int);
}

/// Every zone an inode names is a data zone of its own object: none lies in the
/// metadata, in the tail block, or among the zones of another object.
pub proof fn law_zones_stay_in_range(es: Seq<Entry>, k: int, s: int)
    requires
        plan::plan_fault(es) is None,
        0 <= k < plan::object_count(es),
        0 <= s < 10,
    ensures
        ({
            let z = image::object_node(es, k).zone[s];
            z != 0 ==> {
                &&& image::start_of(es, k) <= z < image::start_of(es, k + 1)
                &&& image::FIRST_DATA_ZONE <= z < 255
                &&& image::owner(es, plan::object_count(es), z as int) == k
            }
        }),
{
    reveal(image::object_node);
    image::lemma_object_fits(es, k);
    let z = image::object_node(es, k).zone[s];
    if z != 0 {
        image::lemma_owner(es, plan::object_count(es), k, z as int);
    }
}

/// The zone the writer gave chunk `i` of object `k`.
pub open spec fn chunk_zone(es: Seq<Entry>, k: int, i: int) -> int {
    image::zone_no(image::start_of(es, k), image::hole_of(es, k), i)
}

/// Chunk `i` of object `k` is stored: it lies in the object and past its hole.
pub open spec fn stored(es: Seq<Entry>, k: int, i: int) -> bool {
    &&& 0 <= k < plan::object_count(es)
    &&& image::hole_of(es, k) <= i
    &&& i * 4096 < plan::object_data(es, k).len()
}

/// No zone serves twice: two stored chunks lie in different data zones, none of
/// them in the metadata or in the tail block, and none is an indirect block.
pub proof fn law_zones_are_not_shared(es: Seq<Entry>, k: int, i: int, l: int, j: int)
    requires
        plan::plan_fault(es) is None,
        stored(es, k, i),
        stored(es, l, j),
    ensures
        image::FIRST_DATA_ZONE <= chunk_zone(es, k, i) < ROOTFS_TAIL_BLOCK,
        chunk_zone(es, k, i) == chunk_zone(es, l, j) ==> k == l && i == j,
        chunk_zone(es, k, i) != image::object_node(es, l).zone[7],
{
    reveal(image::object_node);
    let n = plan::object_count(es);
    image::lemma_object_fits(es, k);
    image::lemma_object_fits(es, l);
    image::lemma_owner(es, n, k, chunk_zone(es, k, i));
    image::lemma_owner(es, n, l, chunk_zone(es, l, j));
    let ind = image::object_node(es, l).zone[7];
    if ind != 0 {
        image::lemma_owner(es, n, l, ind as int);
    }
}

/// What is marked in an image is what it uses: the inodes of its objects, and of the data
/// zones those the objects take, from the first on, and the tail block. No zone before the
/// data has a mark.
pub proof fn law_marks_are_what_is_used(es: Seq<Entry>, ino: u32, zone: u32)
    requires
        plan::plan_fault(es) is None,
        1 <= ino <= 64,
        zone < 256,
    ensures
        verify::inode_marked(image::image_spec(es), ino) == Some(ino <= plan::object_count(es)),
        zone < 5 ==> verify::zone_marked(image::image_spec(es), zone) is None,
        zone >= 5 ==> verify::zone_marked(image::image_spec(es), zone) == Some(
            zone < 5 + plan::used(es, plan::object_count(es)) || zone == 255,
        ),
{
    law_superblock_reads_back(es);
    law_bitmaps(es, ino);
    if zone >= 5 {
        law_bitmaps(es, (zone - 4) as u32);
    }
}

} // verus!
