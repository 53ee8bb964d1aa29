//! Finding inodes and the zones of a file.
use vstd::prelude::*;
use crate::bytes;
use crate::bytes::get_u32;
use crate::mfs::inode;
use crate::mfs::inode::{Inode, INODE_SIZE, SINGLE_INDIRECT_SLOT};
use crate::mfs::layout::Layout;
use crate::mfs::superblock::MFS_BLOCK_SIZE;

verus! {

/// Where the bytes at some offset of a file live.
#[derive(Copy, Clone, Debug, PartialEq, Eq, Structural)]
pub enum ZoneLookup {
    /// In this zone.
    Direct(u32),
    /// In the zone that slot `slot` of the indirect block `zone` names.
    Indirect { zone: u32, slot: usize },
    /// Nowhere: they read as zeroes.
    Hole,
    /// Past what the format addresses.
    OutOfRange,
}

/// Block and slot of inode `ino`: inode 1 is the first of the table.
pub open spec fn location_spec(ino: u32, l: Layout) -> Option<(u32, usize)> {
    if ino == 0 || (ino - 1) / 64 >= l.inode_blocks || l.inode_start + l.inode_blocks
        > u32::MAX {
        None
    } else {
        Some(((l.inode_start + (ino - 1) / 64) as u32, ((ino - 1) % 64) as usize))
    }
}

/// Compute [`location_spec`].
pub fn inode_location(ino: u32, l: &Layout) -> (r: Option<(u32, usize)>)
    ensures
        r == location_spec(ino, *l),
{
    if ino == 0 || (ino - 1) / 64 >= l.inode_blocks {
        return None;
    }
    if l.inode_blocks > u32::MAX - l.inode_start {
        return None;
    }
    Some((l.inode_start + (ino - 1) / 64, ((ino - 1) % 64) as usize))
}

/// The inode in slot `slot` of a block; `None` past its end.
pub fn inode_at(block: &[u8], slot: usize) -> (r: Option<Inode>)
    ensures
        r is Some <==> slot * 64 + 64 <= block@.len(),
        r matches Some(n) ==> n@ == inode::node_at(block@, slot * 64),
{
    if slot >= block.len() / INODE_SIZE {
        return None;
    }
    Some(Inode::from_le_bytes(block, slot * INODE_SIZE))
}

/// Which zone holds chunk `i` of a file, a chunk being one block long.
pub open spec fn zone_lookup(zone: Seq<u32>, i: int) -> ZoneLookup {
    if i < 7 {
        if zone[i] == 0 {
            ZoneLookup::Hole
        } else {
            ZoneLookup::Direct(zone[i])
        }
    } else if i < 7 + 1024 {
        if zone[7] == 0 {
            ZoneLookup::Hole
        } else {
            ZoneLookup::Indirect { zone: zone[7], slot: (i - 7) as usize }
        }
    } else {
        ZoneLookup::OutOfRange
    }
}

/// Which zone holds the byte at `off`.
pub fn zone_for_offset(node: &Inode, off: u64) -> (r: ZoneLookup)
    ensures
        r == zone_lookup(node.zone@, off as int / 4096),
{
    let i: u64 = off / 4096;
    if i < 7 {
        let z: u32 = node.zone[i as usize];
        if z == 0 {
            ZoneLookup::Hole
        } else {
            ZoneLookup::Direct(z)
        }
    } else if i < 7 + 1024 {
        let z: u32 = node.zone[SINGLE_INDIRECT_SLOT];
        if z == 0 {
            ZoneLookup::Hole
        } else {
            ZoneLookup::Indirect { zone: z, slot: (i - 7) as usize }
        }
    } else {
        ZoneLookup::OutOfRange
    }
}

/// The zone that slot `slot` of an indirect block names; `None` past its end.
pub fn zone_from_indirect(block: &[u8], slot: usize) -> (r: Option<u32>)
    ensures
        r == (if slot * 4 + 4 <= block@.len() {
            Some(bytes::u32_at(block@, slot * 4))
        } else {
            None
        }),
{
    if slot >= block.len() / 4 {
        return None;
    }
    Some(get_u32(block, slot * 4))
}

/// Zone pointers that fit one block.
pub fn ptrs_per_block() -> (n: usize)
    ensures
        n == 1024,
{
    MFS_BLOCK_SIZE / 4
}

/// Inodes lie one after the other in the table, 64 to a block, from inode 1 on: where
/// an inode is found tells its number, and every number the table has room for is
/// found.
pub proof fn law_inodes_lie_in_order(ino: u32, l: Layout)
    requires
        l.inode_start + l.inode_blocks <= u32::MAX,
    ensures
        location_spec(ino, l) is Some <==> 1 <= ino <= 64 * l.inode_blocks,
        location_spec(ino, l) matches Some((block, slot)) ==> {
            &&& l.inode_start <= block < l.inode_start + l.inode_blocks
            &&& slot < 64
            &&& 64 * (block - l.inode_start) + slot + 1 == ino
        },
{
}

/// Which byte of a file lies where: the first 28672 in the seven zones the inode names
/// itself, the next four megabytes in those the indirect block names, in order, and no
/// others anywhere. A slot that is zero names no zone.
pub proof fn law_bytes_lie_in_order(zone: Seq<u32>, off: u64)
    requires
        zone.len() == 10,
    ensures
        ({
            let r = zone_lookup(zone, off as int / 4096);
            &&& r is OutOfRange <==> off >= 4_222_976
            &&& r matches ZoneLookup::Direct(z) ==> off < 28_672 && z != 0 && exists|s: int|
                0 <= s < 7 && s * 4096 <= off < s * 4096 + 4096 && z == #[trigger] zone[s]
            &&& r matches ZoneLookup::Indirect { zone: z, slot } ==> {
                &&& off >= 28_672
                &&& z == zone[7] && z != 0
                &&& 28_672 + slot * 4096 <= off < 28_672 + slot * 4096 + 4096
            }
            &&& r is Hole ==> off < 4_222_976 && (off >= 28_672 ==> zone[7] == 0)
            &&& r is Hole && off < 28_672 ==> exists|s: int|
                0 <= s < 7 && s * 4096 <= off < s * 4096 + 4096 && #[trigger] zone[s] == 0
        }),
{
    let i = off as int / 4096;
    if i < 7 {
        assert(i * 4096 <= off < i * 4096 + 4096);
        assert(zone[i] == zone[i]);
    }
}

} // verus!
