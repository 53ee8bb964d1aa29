//! The writer: turn a manifest into a root image of fixed size.
//!
//! ```text
//!   block 0        image header (bytes 0..32), superblock (bytes 1024..1055)
//!   block 1        reserved
//!   block 2        inode bitmap
//!   block 3        zone bitmap
//!   block 4        inode table
//!   blocks 5..255  data zones: root, directories, then files in manifest order
//!   block 255      tail label
//! ```
use vstd::prelude::*;
use vstd::slice::slice_subrange;
use crate::abi::rootfs::{
    IMAGE_LABEL, IMAGE_TAIL_LABEL, ROOTFS_IMAGE_BLOCKS, ROOTFS_IMAGE_BYTES, ROOTFS_NINODES,
    ROOTFS_TAIL_BLOCK,
};
use crate::bytes;
use crate::bytes::{put_bytes, put_u32};
use crate::mfs::inode;
use crate::mfs::inode::{Inode, Node, INODE_SIZE};
use crate::mfs::layout;
use crate::mfs::layout::Layout;
use crate::mfs::read::inode_location;
use crate::mfs::superblock;
use crate::mfs::superblock::{Superblock, MFSFLAG_CLEAN, MFS_BLOCK_SIZE, SUPER_MAGIC_V3, SUPER_OFFSET};
use crate::mkfs::error::MkfsError;
use crate::mkfs::manifest::{Entry, Manifest};
use crate::mkfs::plan;
use crate::mkfs::plan::Tree;
use crate::mkfs::verify;

verus! {

/// Permissions every regular file gets.
pub const FILE_MODE: u16 = 0o100755;

/// Permissions every directory gets.
pub const DIR_MODE: u16 = 0o040755;

/// First zone after the inode table.
pub const FIRST_DATA_ZONE: u32 = 5;

/// The first chunk of a file that goes through the indirect block and is stored:
/// the eighth, or the first past the hole when the hole reaches further.
pub open spec fn first_indirect(h: int) -> int {
    if h > 7 {
        h
    } else {
        7
    }
}

/// Zones the chunks before chunk `n` take, for a file whose first `h` chunks are
/// a hole. The indirect block is taken right after the first chunk it names.
pub open spec fn zones_taken(h: int, n: int) -> int {
    if n <= h {
        0
    } else if n <= first_indirect(h) {
        n - h
    } else {
        n - h + 1
    }
}

/// The zone of chunk `i`, for a file that starts at zone `start`.
pub open spec fn zone_no(start: int, h: int, i: int) -> int {
    if i <= first_indirect(h) {
        start + i - h
    } else {
        start + i - h + 1
    }
}

/// The zone of the indirect block.
pub open spec fn indirect_no(start: int, h: int) -> int {
    start + first_indirect(h) - h + 1
}

/// Which chunk zone `z` holds.
pub open spec fn chunk_no(start: int, h: int, z: int) -> int {
    if z < indirect_no(start, h) {
        h + z - start
    } else {
        h + z - start - 1
    }
}

/// Byte `o` of chunk `i` of `data`; past the end of the data, zero.
pub open spec fn data_byte(data: Seq<u8>, i: int, o: int) -> u8 {
    if i * 4096 + o < data.len() {
        data[i * 4096 + o]
    } else {
        0
    }
}

/// Byte `o` of the indirect block that names the first `n` chunks.
pub open spec fn pointer_byte(start: int, h: int, n: int, o: int) -> u8 {
    let i = 7 + o / 4;
    if h <= i < n {
        bytes::u32_bytes(zone_no(start, h, i) as u32)[o % 4]
    } else {
        0
    }
}

/// Byte `o` of zone `z`, among the zones that hold the first `n` chunks of
/// `data`, which start at zone `start`.
pub open spec fn stored_byte(start: int, data: Seq<u8>, h: int, n: int, z: int, o: int) -> u8 {
    if n > first_indirect(h) && z == indirect_no(start, h) {
        pointer_byte(start, h, n, o)
    } else {
        data_byte(data, chunk_no(start, h, z), o)
    }
}

/// Slot `s` of an inode whose file's first `n` chunks are stored from `start` on.
pub open spec fn zone_slot(start: int, h: int, n: int, s: int) -> u32 {
    if s < 7 {
        if h <= s < n {
            zone_no(start, h, s) as u32
        } else {
            0
        }
    } else if s == 7 && n > first_indirect(h) {
        indirect_no(start, h) as u32
    } else {
        0
    }
}

/// `img` with the first `n` chunks of `data` stored from zone `start` on.
pub open spec fn with_data(img: Seq<u8>, start: int, data: Seq<u8>, h: int, n: int) -> Seq<u8> {
    Seq::new(
        img.len(),
        |p: int|
            if start <= p / 4096 < start + zones_taken(h, n) {
                stored_byte(start, data, h, n, p / 4096, p % 4096)
            } else {
                img[p]
            },
    )
}

/// The zones of a file as its inode lists them.
pub open spec fn zone_list(start: int, h: int, n: int) -> Seq<u32> {
    Seq::new(10, |s: int| zone_slot(start, h, n, s))
}

/// Store `data` in the zones from `start` on, and return the inode's zone list.
/// Blocks inside the hole are not stored: their slots stay 0.
pub fn write_data(img: &mut Vec<u8>, start: u32, data: &Vec<u8>, hole: usize) -> (zone: [u32; 10])
    requires
        hole % 4096 == 0,
        hole == 0 || hole < data@.len(),
        data@.len() <= plan::max_file(),
        FIRST_DATA_ZONE <= start,
        start + plan::cost(data@.len() as int, hole as int) <= ROOTFS_TAIL_BLOCK,
        old(img)@.len() == ROOTFS_IMAGE_BYTES,
        forall|p: int|
            start * 4096 <= p < ROOTFS_TAIL_BLOCK * 4096 ==> (#[trigger] old(img)@[p]) == 0,
    ensures
        final(img)@ == with_data(
            old(img)@,
            start as int,
            data@,
            hole as int / 4096,
            layout::ceil(data@.len() as int, 4096),
        ),
        zone@ == zone_list(
            start as int,
            hole as int / 4096,
            layout::ceil(data@.len() as int, 4096),
        ),
{
    let ghost before = img@;
    let ghost s0 = start as int;
    let h: usize = hole / MFS_BLOCK_SIZE;
    let total: usize = (data.len() + (MFS_BLOCK_SIZE - 1)) / MFS_BLOCK_SIZE;
    assert(total == layout::ceil(data@.len() as int, 4096));
    let mut zone = [0u32; 10];
    let mut i: usize = h;
    let mut next: u32 = start;
    assert(img@ =~= with_data(before, s0, data@, h as int, h as int));
    assert(zone@ =~= zone_list(s0, h as int, h as int));
    while i < total
        invariant
            h <= i <= total,
            h == hole as int / 4096,
            total == layout::ceil(data@.len() as int, 4096),
            s0 == start,
            data@.len() <= plan::max_file(),
            FIRST_DATA_ZONE <= start,
            start + plan::cost(data@.len() as int, hole as int) <= ROOTFS_TAIL_BLOCK,
            next == start + zones_taken(h as int, i as int),
            before.len() == ROOTFS_IMAGE_BYTES,
            forall|p: int|
                start * 4096 <= p < ROOTFS_TAIL_BLOCK * 4096 ==> (#[trigger] before[p]) == 0,
            img@ == with_data(before, s0, data@, h as int, i as int),
            zone@ == zone_list(s0, h as int, i as int),
        decreases total - i,
    {
        let ghost hh = h as int;
        let ghost a = first_indirect(hh);
        assert(zones_taken(hh, i + 1) <= zones_taken(hh, total as int));
        let ghost img_i = img@;
        let from: usize = i * MFS_BLOCK_SIZE;
        let to: usize = if data.len() - from < MFS_BLOCK_SIZE {
            data.len()
        } else {
            from + MFS_BLOCK_SIZE
        };
        let z: u32 = next;
        let ghost zi = z as int;
        assert(zi == zone_no(s0, hh, i as int));
        put_bytes(
            img.as_mut_slice(),
            z as usize * MFS_BLOCK_SIZE,
            slice_subrange(data.as_slice(), from, to),
        );
        let ghost img_d = img@;
        next = next + 1;
        if i < 7 {
            zone[i] = z;
        } else {
            if i == h || i == 7 {
                zone[7] = next;
                next = next + 1;
            }
            let ind: u32 = zone[7];
            assert(ind == indirect_no(s0, hh));
            put_u32(
                img.as_mut_slice(),
                ind as usize * MFS_BLOCK_SIZE + (i - 7) * 4,
                z,
            );
        }
        proof {
            lemma_stored_step(before, img_i, img_d, img@, s0, data@, hh, i as int);
        }
        i = i + 1;
        assert(zone@ =~= zone_list(s0, hh, i as int));
    }
    zone
}

/// Storing one more chunk: what the two writes of a step leave is the image with
/// one more chunk stored.
proof fn lemma_stored_step(
    before: Seq<u8>,
    img_i: Seq<u8>,
    img_d: Seq<u8>,
    img: Seq<u8>,
    start: int,
    data: Seq<u8>,
    h: int,
    i: int,
)
    requires
        before.len() == ROOTFS_IMAGE_BYTES,
        FIRST_DATA_ZONE <= start,
        0 <= h <= i,
        i * 4096 < data.len(),
        i < 7 + 1024,
        start + zones_taken(h, i + 1) <= ROOTFS_TAIL_BLOCK,
        forall|p: int| start * 4096 <= p < ROOTFS_TAIL_BLOCK * 4096 ==> (#[trigger] before[p]) == 0,
        img_i == with_data(before, start, data, h, i),
        img_d == bytes::splice(
            img_i,
            zone_no(start, h, i) * 4096,
            data.subrange(
                i * 4096,
                if data.len() - i * 4096 < 4096 {
                    data.len() as int
                } else {
                    i * 4096 + 4096
                },
            ),
        ),
        i < 7 ==> img == img_d,
        i >= 7 ==> img == bytes::splice(
            img_d,
            indirect_no(start, h) * 4096 + (i - 7) * 4,
            bytes::u32_bytes(zone_no(start, h, i) as u32),
        ),
    ensures
        img == with_data(before, start, data, h, i + 1),
{
    let next = with_data(before, start, data, h, i + 1);
    let z = zone_no(start, h, i);
    let ind = indirect_no(start, h);
    let a = first_indirect(h);
    assert forall|p: int| 0 <= p < img.len() implies img[p] == next[p] by {
        let b = p / 4096;
        let o = p % 4096;
        assert(p == b * 4096 + o);
        if b == z {
            assert(chunk_no(start, h, z) == i);
            assert(!(start <= z < start + zones_taken(h, i)));
            assert(img_i[p] == before[p] && before[p] == 0);
        } else if i >= 7 && b == ind {
            assert(start <= ind < start + zones_taken(h, i + 1));
            let at = ind * 4096 + (i - 7) * 4;
            if i == a {
                assert(img_i[p] == before[p] && before[p] == 0);
            } else {
                assert(img_i[p] == pointer_byte(start, h, i, o));
            }
            if at <= p < at + 4 {
                assert(o / 4 == i - 7 && o % 4 == p - at);
            } else {
                assert(7 + o / 4 != i);
            }
        } else {
            assert(img[p] == img_i[p]);
            if start <= b < start + zones_taken(h, i) {
                assert(b != ind || i <= a);
            } else {
                assert(!(start <= b < start + zones_taken(h, i + 1)));
            }
        }
    }
    assert(img =~= next);
}

/// The zone object `k` starts at.
pub open spec fn start_of(es: Seq<Entry>, k: int) -> int {
    5 + plan::used(es, k)
}

/// Chunks object `k` consists of.
pub open spec fn chunks_of(es: Seq<Entry>, k: int) -> int {
    layout::ceil(plan::object_data(es, k).len() as int, 4096)
}

/// Chunks of object `k` that are a hole.
pub open spec fn hole_of(es: Seq<Entry>, k: int) -> int {
    plan::object_hole(es, k) / 4096
}

/// The inode of object `k`. A directory is linked from itself and its parent,
/// and the root by each directory in it besides.
#[verifier::opaque]
pub open spec fn object_node(es: Seq<Entry>, k: int) -> Node {
    let nd = plan::dirs(es).len();
    Node {
        mode: if k <= nd {
            DIR_MODE
        } else {
            FILE_MODE
        },
        nlinks: if k == 0 {
            (2 + nd) as u16
        } else if k <= nd {
            2
        } else {
            1
        },
        uid: 0,
        gid: 0,
        size: plan::object_data(es, k).len() as i32,
        atime: 0,
        mtime: 0,
        ctime: 0,
        zone: zone_list(start_of(es, k), hole_of(es, k), chunks_of(es, k)),
    }
}

/// Which of the first `n` objects zone `z` belongs to: the last that starts no
/// later.
pub open spec fn owner(es: Seq<Entry>, n: int, z: int) -> int
    decreases n,
{
    if n <= 1 {
        0
    } else if start_of(es, n - 1) <= z {
        n - 1
    } else {
        owner(es, n - 1, z)
    }
}

/// Byte `o` of data zone `z`.
pub open spec fn zone_byte(es: Seq<Entry>, z: int, o: int) -> u8 {
    let k = owner(es, plan::object_count(es), z);
    stored_byte(
        start_of(es, k),
        plan::object_data(es, k),
        hole_of(es, k),
        chunks_of(es, k),
        z,
        o,
    )
}

/// Byte `p` of the image when the first `k` objects are in it and nothing else.
pub open spec fn body_byte(es: Seq<Entry>, k: int, p: int) -> u8 {
    let b = p / 4096;
    let o = p % 4096;
    if b == 4 {
        if o / 64 < k {
            inode::node_byte(object_node(es, o / 64), o % 64)
        } else {
            0
        }
    } else if 5 <= b < start_of(es, k) {
        zone_byte(es, b, o)
    } else {
        0
    }
}

/// The image when the first `k` objects are in it and nothing else.
pub open spec fn body(es: Seq<Entry>, k: int) -> Seq<u8> {
    Seq::new(0x10_0000, |p: int| body_byte(es, k, p))
}

/// Bit `bit` of a bitmap whose first `count` bits and whose bit `extra` are set.
pub open spec fn marked(bit: int, count: int, extra: int) -> bool {
    bit < count || bit == extra
}

/// What bit `k` of byte `o` adds to that byte.
pub open spec fn bit_term(o: int, k: int, count: int, extra: int) -> int {
    if marked(8 * o + k, count, extra) {
        verify::bit_weight(k)
    } else {
        0
    }
}

/// Byte `o` of such a bitmap.
pub open spec fn map_byte(o: int, count: int, extra: int) -> u8 {
    (bit_term(o, 0, count, extra) + bit_term(o, 1, count, extra) + bit_term(o, 2, count, extra)
        + bit_term(o, 3, count, extra) + bit_term(o, 4, count, extra) + bit_term(
        o,
        5,
        count,
        extra,
    ) + bit_term(o, 6, count, extra) + bit_term(o, 7, count, extra)) as u8
}

/// The zone-bitmap bit of the tail block.
pub const TAIL_BIT: u32 = ROOTFS_TAIL_BLOCK - FIRST_DATA_ZONE + 1;

/// The superblock of every image.
pub open spec fn root_super() -> Superblock {
    Superblock {
        ninodes: ROOTFS_NINODES,
        nzones_v1: 256,
        imap_blocks: 1,
        zmap_blocks: 1,
        first_data_zone_old: 5,
        log_zone_size: 0,
        flags: MFSFLAG_CLEAN,
        max_size: 4_222_976,
        zones: ROOTFS_IMAGE_BLOCKS,
        magic: SUPER_MAGIC_V3,
        pad2: 0,
        block_size: 4096,
        disk_version: 0,
    }
}

/// Byte `o` of a header that starts with `label`: the label, the number of
/// blocks, the block size, and the magic number of the filesystem.
pub open spec fn header_byte(label: Seq<u8>, o: int) -> u8 {
    if o < 16 {
        label[o]
    } else if o < 20 {
        bytes::u32_bytes(ROOTFS_IMAGE_BLOCKS)[o - 16]
    } else if o < 24 {
        bytes::u32_bytes(4096)[o - 20]
    } else if o < 28 {
        bytes::u32_bytes(0x4D5A)[o - 24]
    } else {
        0
    }
}

/// Byte `p` of the image of a manifest.
pub open spec fn image_byte(es: Seq<Entry>, p: int) -> u8 {
    let b = p / 4096;
    let o = p % 4096;
    let n = plan::object_count(es);
    if b == 0 {
        if o < 32 {
            header_byte(IMAGE_LABEL@, o)
        } else if 1024 <= o < 1055 {
            superblock::super_byte(root_super(), o - 1024)
        } else {
            0
        }
    } else if b == 2 {
        map_byte(o, n + 1, 0)
    } else if b == 3 {
        map_byte(o, plan::used(es, n) + 1, TAIL_BIT as int)
    } else if b == 255 {
        if o < 32 {
            header_byte(IMAGE_TAIL_LABEL@, o)
        } else {
            0
        }
    } else {
        body_byte(es, n, p)
    }
}

/// The image of a manifest.
#[verifier::opaque]
pub open spec fn image_spec(es: Seq<Entry>) -> Seq<u8> {
    Seq::new(0x10_0000, |p: int| image_byte(es, p))
}

/// Later objects start no earlier.
pub proof fn lemma_start_grows(es: Seq<Entry>, j: int, k: int)
    requires
        0 <= j <= k,
    ensures
        start_of(es, j) <= start_of(es, k),
        start_of(es, 0) == 5,
    decreases k - j,
{
    if j < k {
        lemma_start_grows(es, j, k - 1);
    }
}

/// A zone between the start of an object and the start of the next is that
/// object's.
pub proof fn lemma_owner(es: Seq<Entry>, n: int, k: int, z: int)
    requires
        0 <= k < n,
        start_of(es, k) <= z < start_of(es, k + 1),
    ensures
        owner(es, n, z) == k,
    decreases n,
{
    if n - 1 > k {
        lemma_start_grows(es, k + 1, n - 1);
        lemma_owner(es, n - 1, k, z);
    }
}

/// In a plan without fault every object fits the format, its hole is sound, and
/// it takes as many zones as were budgeted for it.
pub proof fn lemma_object_fits(es: Seq<Entry>, k: int)
    requires
        plan::plan_fault(es) is None,
        0 <= k < plan::object_count(es),
    ensures
        plan::object_data(es, k).len() <= plan::max_file(),
        plan::hole_ok(plan::object_data(es, k), plan::object_hole(es, k)),
        zones_taken(hole_of(es, k), chunks_of(es, k)) == plan::object_cost(es, k),
        start_of(es, k + 1) == start_of(es, k) + plan::object_cost(es, k),
        start_of(es, k + 1) <= 255,
        5 <= start_of(es, k),
        plan::object_count(es) <= 64,
{
    let n = plan::object_count(es);
    lemma_not_oversize(es, n, k);
    lemma_start_grows(es, k + 1, n);
    lemma_start_grows(es, 0, k);
    let nd = plan::dirs(es).len();
    if k > nd {
        plan::lemma_no_fault(es, es.len() as int, k - 1 - nd);
    }
}

/// No object is oversized when none of the first `n` is.
proof fn lemma_not_oversize(es: Seq<Entry>, n: int, k: int)
    requires
        plan::oversize_fault(es, n) is None,
        0 <= k < n,
    ensures
        plan::object_data(es, k).len() <= plan::max_file(),
    decreases n,
{
    if k < n - 1 {
        lemma_not_oversize(es, n - 1, k);
    }
}

/// Storing an object's data and its inode adds that object to the image.
proof fn lemma_body_step(es: Seq<Entry>, k: int, stored: Seq<u8>, img: Seq<u8>)
    requires
        plan::plan_fault(es) is None,
        0 <= k < plan::object_count(es),
        stored == with_data(
            body(es, k),
            start_of(es, k),
            plan::object_data(es, k),
            hole_of(es, k),
            chunks_of(es, k),
        ),
        img == bytes::splice(stored, 4 * 4096 + 64 * k, inode::node_bytes(object_node(es, k))),
    ensures
        img == body(es, k + 1),
{
    lemma_object_fits(es, k);
    let n = plan::object_count(es);
    let next = body(es, k + 1);
    let at = 4 * 4096 + 64 * k;
    assert forall|p: int| 0 <= p < img.len() implies img[p] == next[p] by {
        let b = p / 4096;
        let o = p % 4096;
        assert(p == b * 4096 + o);
        if at <= p < at + 64 {
            assert(b == 4 && o / 64 == k && o % 64 == p - at);
        } else {
            assert(img[p] == stored[p]);
            if b == 4 {
                assert(o / 64 != k);
            } else if start_of(es, k) <= b < start_of(es, k + 1) {
                lemma_owner(es, n, k, b);
            }
        }
    }
    assert(img =~= next);
}

/// Write an inode into the table.
fn write_inode(img: &mut Vec<u8>, l: &Layout, ino: u32, node: &Inode)
    requires
        *l == layout::layout_spec(ROOTFS_NINODES, ROOTFS_IMAGE_BLOCKS),
        1 <= ino <= ROOTFS_NINODES,
        old(img)@.len() == ROOTFS_IMAGE_BYTES,
    ensures
        final(img)@ == bytes::splice(
            old(img)@,
            4 * 4096 + 64 * (ino - 1),
            inode::node_bytes(node@),
        ),
{
    let b = node.to_le_bytes();
    match inode_location(ino, l) {
        Some((block, slot)) => {
            put_bytes(
                img.as_mut_slice(),
                block as usize * MFS_BLOCK_SIZE + slot * INODE_SIZE,
                b.as_slice(),
            );
        },
        None => {},
    }
}

/// What one bit adds to its byte.
fn term(bit: u32, count: u32, extra: u32, weight: u8) -> (t: u8)
    ensures
        t == (if marked(bit as int, count as int, extra as int) {
            weight as int
        } else {
            0
        }),
{
    if bit < count || bit == extra {
        weight
    } else {
        0
    }
}

/// Fill block `b` with a bitmap whose first `count` bits and whose bit `extra`
/// are set.
fn write_map(img: &mut Vec<u8>, b: usize, count: u32, extra: u32)
    requires
        b < 256,
        old(img)@.len() == ROOTFS_IMAGE_BYTES,
    ensures
        final(img)@ == Seq::new(
            0x10_0000,
            |p: int|
                if p / 4096 == b {
                    map_byte(p % 4096, count as int, extra as int)
                } else {
                    old(img)@[p]
                },
        ),
{
    let ghost before = img@;
    let mut o: usize = 0;
    while o < MFS_BLOCK_SIZE
        invariant
            o <= MFS_BLOCK_SIZE,
            b < 256,
            before == old(img)@,
            img@.len() == ROOTFS_IMAGE_BYTES,
            before.len() == ROOTFS_IMAGE_BYTES,
            forall|p: int|
                0 <= p < 0x10_0000 ==> #[trigger] img@[p] == (if p / 4096 == b && p % 4096 < o {
                    map_byte(p % 4096, count as int, extra as int)
                } else {
                    before[p]
                }),
        decreases MFS_BLOCK_SIZE - o,
    {
        let at: u32 = 8 * o as u32;
        let v: u8 = term(at, count, extra, 1) + term(at + 1, count, extra, 2) + term(
            at + 2,
            count,
            extra,
            4,
        ) + term(at + 3, count, extra, 8) + term(at + 4, count, extra, 16) + term(
            at + 5,
            count,
            extra,
            32,
        ) + term(at + 6, count, extra, 64) + term(at + 7, count, extra, 128);
        assert(v == map_byte(o as int, count as int, extra as int));
        let ghost prev = img@;
        img[b * MFS_BLOCK_SIZE + o] = v;
        assert forall|p: int| 0 <= p < 0x10_0000 implies #[trigger] img@[p] == (if p / 4096 == b
            && p % 4096 < o + 1 {
            map_byte(p % 4096, count as int, extra as int)
        } else {
            before[p]
        }) by {
            if p == b * 4096 + o {
            } else {
                assert(img@[p] == prev[p]);
                if p / 4096 == b {
                    assert(p % 4096 != o);
                }
            }
        }
        o = o + 1;
    }
    assert(img@ =~= Seq::new(
        0x10_0000,
        |p: int|
            if p / 4096 == b {
                map_byte(p % 4096, count as int, extra as int)
            } else {
                before[p]
            },
    ));
}

/// A 32-byte header: `label` and the three geometry fields.
fn write_label(label: &[u8; 16]) -> (hdr: [u8; 32])
    ensures
        hdr@ == Seq::new(32, |o: int| header_byte(label@, o)),
{
    let mut hdr = [0u8; 32];
    put_bytes(&mut hdr, 0, label.as_slice());
    put_u32(&mut hdr, 16, ROOTFS_IMAGE_BLOCKS);
    put_u32(&mut hdr, 20, MFS_BLOCK_SIZE as u32);
    put_u32(&mut hdr, 24, SUPER_MAGIC_V3 as u32);
    assert(hdr@ =~= Seq::new(32, |o: int| header_byte(label@, o)));
    hdr
}

/// Write the superblock.
fn write_superblock(img: &mut Vec<u8>, l: &Layout)
    requires
        *l == layout::layout_spec(ROOTFS_NINODES, ROOTFS_IMAGE_BLOCKS),
        old(img)@.len() == ROOTFS_IMAGE_BYTES,
    ensures
        final(img)@ == bytes::splice(old(img)@, 1024, superblock::super_bytes(root_super())),
{
    let sb = Superblock {
        ninodes: ROOTFS_NINODES,
        nzones_v1: ROOTFS_IMAGE_BLOCKS as u16,
        imap_blocks: l.imap_blocks as i16,
        zmap_blocks: l.zmap_blocks as i16,
        first_data_zone_old: l.first_data_zone as u16,
        log_zone_size: 0,
        flags: MFSFLAG_CLEAN,
        max_size: plan::max_file_bytes() as i32,
        zones: ROOTFS_IMAGE_BLOCKS,
        magic: SUPER_MAGIC_V3,
        pad2: 0,
        block_size: MFS_BLOCK_SIZE as u16,
        disk_version: 0,
    };
    let b = sb.to_le_bytes();
    put_bytes(img.as_mut_slice(), SUPER_OFFSET, b.as_slice());
}

/// Write every object, then the bitmaps, the superblock and the two labels.
fn write(tree: &Tree, entries: &Vec<Entry>) -> (img: Vec<u8>)
    requires
        tree.of(entries@),
        plan::plan_fault(entries@) is None,
    ensures
        img@ == image_spec(entries@),
{
    let ghost es = entries@;
    let nd: usize = tree.dir_blocks.len();
    let mut img: Vec<u8> = vec![0u8; ROOTFS_IMAGE_BYTES];
    assert(img@ =~= body(es, 0));
    proof {
        lemma_object_fits(es, 0);
    }
    let n: usize = nd + entries.len();
    let l = layout::layout(ROOTFS_NINODES, ROOTFS_IMAGE_BLOCKS);
    let mut next: u32 = l.first_data_zone;
    let mut k: usize = 0;
    while k < n
        invariant
            k <= n,
            n == plan::object_count(es),
            n <= 64,
            nd == 1 + plan::dirs(es).len(),
            nd == tree.dir_blocks@.len(),
            n == nd + entries@.len(),
            es == entries@,
            tree.of(es),
            plan::plan_fault(es) is None,
            l == layout::layout_spec(ROOTFS_NINODES, ROOTFS_IMAGE_BLOCKS),
            next == start_of(es, k as int),
            img@ == body(es, k as int),
        decreases n - k,
    {
        proof {
            lemma_object_fits(es, k as int);
        }
        let hole: usize = if k < nd {
            0
        } else {
            entries[k - nd].hole
        };
        let data: &Vec<u8> = if k < nd {
            &tree.dir_blocks[k]
        } else {
            &entries[k - nd].bytes
        };
        assert(data@ == plan::object_data(es, k as int));
        assert(hole == plan::object_hole(es, k as int));
        let zone = write_data(&mut img, next, data, hole);
        let ghost stored = img@;
        let node = Inode {
            mode: if k < nd {
                DIR_MODE
            } else {
                FILE_MODE
            },
            nlinks: if k == 0 {
                1 + nd as u16
            } else if k < nd {
                2
            } else {
                1
            },
            uid: 0,
            gid: 0,
            size: data.len() as i32,
            atime: 0,
            mtime: 0,
            ctime: 0,
            zone,
        };
        assert(node@ == object_node(es, k as int)) by {
            reveal(object_node);
        }
        write_inode(&mut img, &l, k as u32 + 1, &node);
        proof {
            lemma_body_step(es, k as int, stored, img@);
        }
        assert(plan::object_cost(es, k as int) <= 250);
        next = next + plan::blocks_for(data.len(), hole);
        k = k + 1;
    }
    let ghost full = img@;
    proof {
        lemma_start_grows(es, 0, n as int);
    }
    write_map(&mut img, l.imap_start as usize, n as u32 + 1, 0);
    write_map(&mut img, l.zmap_start as usize, next - l.first_data_zone + 1, TAIL_BIT);
    write_superblock(&mut img, &l);
    let head = write_label(&IMAGE_LABEL);
    put_bytes(img.as_mut_slice(), 0, head.as_slice());
    let tail = write_label(&IMAGE_TAIL_LABEL);
    put_bytes(img.as_mut_slice(), ROOTFS_TAIL_BLOCK as usize * MFS_BLOCK_SIZE, tail.as_slice());
    proof {
        assert forall|p: int| 0 <= p < 0x10_0000 implies img@[p] == image_byte(es, p) by {
            let b = p / 4096;
            let o = p % 4096;
            assert(p == b * 4096 + o);
            assert(full[p] == body_byte(es, n as int, p));
        }
        reveal(image_spec);
        assert(img@ =~= image_spec(es));
    }
    img
}

/// Build the root filesystem image.
pub fn build_image(manifest: &Manifest) -> (r: Result<Vec<u8>, MkfsError>)
    requires
        plan::inode_count(manifest.entries@) < u32::MAX,
    ensures
        match r {
            Ok(img) => plan::plan_fault(manifest.entries@) is None && img@ == image_spec(
                manifest.entries@,
            ),
            Err(e) => plan::plan_fault(manifest.entries@) == Some(e@),
        },
{
    match plan::plan(&manifest.entries) {
        Ok(tree) => Ok(write(&tree, &manifest.entries)),
        Err(e) => Err(e),
    }
}

} // verus!
