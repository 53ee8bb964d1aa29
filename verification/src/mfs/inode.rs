//! Inodes.
use vstd::prelude::*;
use crate::bytes;
use crate::bytes::{get_u16, get_u32, i32_to_u32, put_u16, put_u32, u32_to_i32};

verus! {

/// Bytes one inode occupies in the table.
pub const INODE_SIZE: usize = 64;

/// Zone slots in an inode.
pub const NR_TZONES: usize = 10;

/// Zone slots that name data zones directly.
pub const NR_DIRECT_ZONES: usize = 7;

/// The slot that names the indirect block.
pub const SINGLE_INDIRECT_SLOT: usize = 7;

/// Inode number of the root directory. There is no inode 0.
pub const ROOT_INODE: u32 = 1;

pub const I_REGULAR: u16 = 0o100000;

pub const I_DIRECTORY: u16 = 0o040000;

/// One inode.
#[derive(Copy, Clone, Debug, PartialEq, Eq)]
pub struct Inode {
    pub mode: u16,
    pub nlinks: u16,
    pub uid: u16,
    pub gid: u16,
    pub size: i32,
    pub atime: u32,
    pub mtime: u32,
    pub ctime: u32,
    pub zone: [u32; 10],
}

/// What an inode says, with its zones as a sequence.
pub struct Node {
    pub mode: u16,
    pub nlinks: u16,
    pub uid: u16,
    pub gid: u16,
    pub size: i32,
    pub atime: u32,
    pub mtime: u32,
    pub ctime: u32,
    pub zone: Seq<u32>,
}

impl View for Inode {
    type V = Node;

    open spec fn view(&self) -> Node {
        Node {
            mode: self.mode,
            nlinks: self.nlinks,
            uid: self.uid,
            gid: self.gid,
            size: self.size,
            atime: self.atime,
            mtime: self.mtime,
            ctime: self.ctime,
            zone: self.zone@,
        }
    }
}

/// Byte `i` of the on-disk inode.
pub open spec fn node_byte(n: Node, i: int) -> u8 {
    if i < 2 {
        bytes::u16_bytes(n.mode)[i]
    } else if i < 4 {
        bytes::u16_bytes(n.nlinks)[i - 2]
    } else if i < 6 {
        bytes::u16_bytes(n.uid)[i - 4]
    } else if i < 8 {
        bytes::u16_bytes(n.gid)[i - 6]
    } else if i < 12 {
        bytes::u32_bytes(bytes::wrap32(n.size))[i - 8]
    } else if i < 16 {
        bytes::u32_bytes(n.atime)[i - 12]
    } else if i < 20 {
        bytes::u32_bytes(n.mtime)[i - 16]
    } else if i < 24 {
        bytes::u32_bytes(n.ctime)[i - 20]
    } else {
        bytes::u32_bytes(n.zone[(i - 24) / 4])[(i - 24) % 4]
    }
}

/// The on-disk form of an inode.
pub open spec fn node_bytes(n: Node) -> Seq<u8> {
    Seq::new(64, |i: int| node_byte(n, i))
}

/// The inode the 64 bytes from `off` on hold.
pub open spec fn node_at(p: Seq<u8>, off: int) -> Node {
    Node {
        mode: bytes::u16_at(p, off),
        nlinks: bytes::u16_at(p, off + 2),
        uid: bytes::u16_at(p, off + 4),
        gid: bytes::u16_at(p, off + 6),
        size: bytes::unwrap32(bytes::u32_at(p, off + 8)),
        atime: bytes::u32_at(p, off + 12),
        mtime: bytes::u32_at(p, off + 16),
        ctime: bytes::u32_at(p, off + 20),
        zone: Seq::new(10, |k: int| bytes::u32_at(p, off + 24 + 4 * k)),
    }
}

/// The mode's type bits say directory.
pub open spec fn mode_is_dir(mode: u16) -> bool {
    (mode / 0x1000) == 4
}

/// The mode's type bits say regular file.
pub open spec fn mode_is_reg(mode: u16) -> bool {
    (mode / 0x1000) == 8
}

impl Inode {
    /// An inode that says nothing: no type, no size, no zones.
    pub fn empty() -> (n: Inode)
        ensures
            n@ == (Node {
                mode: 0,
                nlinks: 0,
                uid: 0,
                gid: 0,
                size: 0,
                atime: 0,
                mtime: 0,
                ctime: 0,
                zone: Seq::new(10, |k: int| 0u32),
            }),
    {
        let n = Inode {
            mode: 0,
            nlinks: 0,
            uid: 0,
            gid: 0,
            size: 0,
            atime: 0,
            mtime: 0,
            ctime: 0,
            zone: [0u32; 10],
        };
        assert(n.zone@ =~= Seq::new(10, |k: int| 0u32));
        n
    }

    /// Encode.
    pub fn to_le_bytes(&self) -> (b: [u8; 64])
        ensures
            b@ == node_bytes(self@),
    {
        let mut b = [0u8; 64];
        put_u16(&mut b, 0, self.mode);
        put_u16(&mut b, 2, self.nlinks);
        put_u16(&mut b, 4, self.uid);
        put_u16(&mut b, 6, self.gid);
        put_u32(&mut b, 8, i32_to_u32(self.size));
        put_u32(&mut b, 12, self.atime);
        put_u32(&mut b, 16, self.mtime);
        put_u32(&mut b, 20, self.ctime);
        let mut k: usize = 0;
        while k < 10
            invariant
                k <= 10,
                forall|i: int| 0 <= i < 24 + 4 * k ==> b@[i] == node_byte(self@, i),
            decreases 10 - k,
        {
            let ghost before = b@;
            put_u32(&mut b, 24 + 4 * k, self.zone[k]);
            assert forall|i: int| 0 <= i < 24 + 4 * (k + 1) implies b@[i] == node_byte(
                self@,
                i,
            ) by {
                if i < 24 + 4 * k {
                    assert(b@[i] == before[i]);
                } else {
                    assert((i - 24) / 4 == k && (i - 24) % 4 == i - (24 + 4 * k));
                }
            }
            k = k + 1;
        }
        assert(b@ =~= node_bytes(self@));
        b
    }

    /// Decode the 64 bytes from `off` on.
    pub fn from_le_bytes(b: &[u8], off: usize) -> (n: Inode)
        requires
            off + 64 <= b@.len(),
        ensures
            n@ == node_at(b@, off as int),
    {
        let len: usize = b.len();
        assert(off + 64 <= len);
        let mut zone = [0u32; 10];
        let mut k: usize = 0;
        while k < 10
            invariant
                k <= 10,
                off + 64 <= len,
                len == b@.len(),
                forall|j: int| 0 <= j < k ==> zone@[j] == bytes::u32_at(b@, off + 24 + 4 * j),
            decreases 10 - k,
        {
            zone[k] = get_u32(b, off + 24 + 4 * k);
            k = k + 1;
        }
        let n = Inode {
            mode: get_u16(b, off),
            nlinks: get_u16(b, off + 2),
            uid: get_u16(b, off + 4),
            gid: get_u16(b, off + 6),
            size: u32_to_i32(get_u32(b, off + 8)),
            atime: get_u32(b, off + 12),
            mtime: get_u32(b, off + 16),
            ctime: get_u32(b, off + 20),
            zone,
        };
        assert(n.zone@ =~= node_at(b@, off as int).zone);
        n
    }

    /// Whether this is a directory.
    pub fn is_dir(&self) -> (r: bool)
        ensures
            r == mode_is_dir(self.mode),
    {
        self.mode / 0x1000 == 4
    }

    /// Whether this is a regular file.
    pub fn is_reg(&self) -> (r: bool)
        ensures
            r == mode_is_reg(self.mode),
    {
        self.mode / 0x1000 == 8
    }
}

/// The zones of an inode written at `off` are read back.
proof fn lemma_zones_round_trip(n: Node, p: Seq<u8>, off: int)
    requires
        0 <= off,
        off + 64 <= p.len(),
        n.zone.len() == 10,
        forall|i: int| off <= i < off + 64 ==> p[i] == node_byte(n, i - off),
    ensures
        node_at(p, off).zone == n.zone,
{
    assert forall|k: int| 0 <= k < 10 implies #[trigger] bytes::u32_at(p, off + 24 + 4 * k)
        == n.zone[k] by {
        let o = off + 24 + 4 * k;
        assert(p[o] == node_byte(n, 24 + 4 * k));
        assert(p[o + 1] == node_byte(n, 24 + 4 * k + 1));
        assert(p[o + 2] == node_byte(n, 24 + 4 * k + 2));
        assert(p[o + 3] == node_byte(n, 24 + 4 * k + 3));
        bytes::lemma_u32_is(p, o, n.zone[k]);
    }
    assert(node_at(p, off).zone =~= n.zone);
}

/// An inode written at `off` is read back field for field.
pub proof fn law_inode_round_trip(n: Node, p: Seq<u8>, off: int)
    requires
        0 <= off,
        off + 64 <= p.len(),
        n.zone.len() == 10,
        forall|i: int| off <= i < off + 64 ==> p[i] == node_byte(n, i - off),
    ensures
        node_at(p, off) == n,
{
    lemma_zones_round_trip(n, p, off);
    assert(forall|i: int| 0 <= i < 64 ==> p[off + i] == node_byte(n, i));
    bytes::lemma_u16_is(p, off, n.mode);
    bytes::lemma_u16_is(p, off + 2, n.nlinks);
    bytes::lemma_u16_is(p, off + 4, n.uid);
    bytes::lemma_u16_is(p, off + 6, n.gid);
    bytes::lemma_u32_is(p, off + 8, bytes::wrap32(n.size));
    bytes::lemma_u32_is(p, off + 12, n.atime);
    bytes::lemma_u32_is(p, off + 16, n.mtime);
    bytes::lemma_u32_is(p, off + 20, n.ctime);
}

/// Where the fields of an inode lie, byte by byte, least significant first: four
/// halves, the size, three times, then ten zones of four bytes each.
pub proof fn law_inode_fields_by_offset(n: Node, k: int)
    requires
        n.zone.len() == 10,
        0 <= k < 10,
    ensures
        node_bytes(n).len() == 64,
        n.mode == node_bytes(n)[0] + 256 * node_bytes(n)[1],
        n.nlinks == node_bytes(n)[2] + 256 * node_bytes(n)[3],
        n.uid == node_bytes(n)[4] + 256 * node_bytes(n)[5],
        n.gid == node_bytes(n)[6] + 256 * node_bytes(n)[7],
        n.size >= 0 ==> n.size == word(node_bytes(n), 8),
        n.atime == word(node_bytes(n), 12),
        n.mtime == word(node_bytes(n), 16),
        n.ctime == word(node_bytes(n), 20),
        n.zone[k] == word(node_bytes(n), 24 + 4 * k),
{
    let o = 24 + 4 * k;
    assert((o - 24) / 4 == k && (o - 24) % 4 == 0);
    assert((o + 1 - 24) / 4 == k && (o + 1 - 24) % 4 == 1);
    assert((o + 2 - 24) / 4 == k && (o + 2 - 24) % 4 == 2);
    assert((o + 3 - 24) / 4 == k && (o + 3 - 24) % 4 == 3);
    bytes::law_bytes_are_weighed_by_place(0, n.zone[k]);
}

/// Four bytes from `off` on, each weighed by its place.
pub open spec fn word(b: Seq<u8>, off: int) -> int {
    b[off] + 256 * b[off + 1] + 65_536 * b[off + 2] + 16_777_216 * b[off + 3]
}

/// What a mode makes of a file is told by its top four bits alone: no mode is both a
/// directory and a regular file, and the permissions do not matter.
pub proof fn law_modes_by_range(mode: u16)
    ensures
        mode_is_dir(mode) <==> 0o040000 <= mode < 0o050000,
        mode_is_reg(mode) <==> 0o100000 <= mode < 0o110000,
{
}

} // verus!
