//! Where the parts of an image lie.
use vstd::prelude::*;

verus! {

/// First block after the boot block and the block kept in reserve.
pub const START_BLOCK: u32 = 2;

/// Block numbers and lengths of an image's parts.
#[derive(Copy, Clone, Debug, PartialEq, Eq, Structural)]
pub struct Layout {
    pub imap_start: u32,
    pub imap_blocks: u32,
    pub zmap_start: u32,
    pub zmap_blocks: u32,
    pub inode_start: u32,
    pub inode_blocks: u32,
    pub first_data_zone: u32,
}

/// `n / d`, rounded up.
pub open spec fn ceil(n: int, d: int) -> int {
    (n + d - 1) / d
}

/// The layout of an image of `ninodes` inodes and `zones` zones of 4096 bytes:
/// the two bitmaps, which each keep one bit in reserve, then the inode table,
/// then the data.
pub open spec fn layout_spec(ninodes: u32, zones: u32) -> Layout {
    let imap = ceil(ninodes + 1, 32768);
    let zmap = ceil(zones + 1, 32768);
    let table = ceil(ninodes as int, 64);
    Layout {
        imap_start: 2,
        imap_blocks: imap as u32,
        zmap_start: (2 + imap) as u32,
        zmap_blocks: zmap as u32,
        inode_start: (2 + imap + zmap) as u32,
        inode_blocks: table as u32,
        first_data_zone: (2 + imap + zmap + table) as u32,
    }
}

/// Compute the layout of an image.
pub fn layout(ninodes: u32, zones: u32) -> (l: Layout)
    ensures
        l == layout_spec(ninodes, zones),
{
    let imap: u32 = ((ninodes as u64 + 32768) / 32768) as u32;
    let zmap: u32 = ((zones as u64 + 32768) / 32768) as u32;
    let table: u32 = ((ninodes as u64 + 63) / 64) as u32;
    Layout {
        imap_start: START_BLOCK,
        imap_blocks: imap,
        zmap_start: START_BLOCK + imap,
        zmap_blocks: zmap,
        inode_start: START_BLOCK + imap + zmap,
        inode_blocks: table,
        first_data_zone: START_BLOCK + imap + zmap + table,
    }
}

/// The inode-bitmap bit of inode `ino`. Bit 0 stands for no inode.
pub fn imap_bit(ino: u32) -> (bit: u32)
    ensures
        bit == ino,
{
    ino
}

/// The zone-bitmap bit of `zone`, which only data zones have. Bit 0 stands for
/// the zone before the first.
pub open spec fn zmap_bit_spec(zone: u32, first_data_zone: u32) -> Option<u32> {
    if zone < first_data_zone {
        None
    } else {
        Some((zone - first_data_zone + 1) as u32)
    }
}

/// Compute [`zmap_bit_spec`].
pub fn zmap_bit(zone: u32, first_data_zone: u32) -> (bit: Option<u32>)
    requires
        first_data_zone > 0,
    ensures
        bit == zmap_bit_spec(zone, first_data_zone),
{
    if zone < first_data_zone {
        None
    } else {
        Some(zone - first_data_zone + 1)
    }
}

/// The parts of an image follow one another without a gap, from block 2 on, and each
/// is as long as it must be and no longer: one bit per inode and one to spare, one bit
/// per zone and one to spare, 64 inodes to a block.
pub proof fn law_parts_follow_each_other(ninodes: u32, zones: u32)
    ensures
        ({
            let l = layout_spec(ninodes, zones);
            &&& l.imap_start == 2
            &&& l.zmap_start == l.imap_start + l.imap_blocks
            &&& l.inode_start == l.zmap_start + l.zmap_blocks
            &&& l.first_data_zone == l.inode_start + l.inode_blocks
            &&& (l.imap_blocks - 1) * 32_768 <= ninodes < l.imap_blocks * 32_768
            &&& (l.zmap_blocks - 1) * 32_768 <= zones < l.zmap_blocks * 32_768
            &&& (l.inode_blocks - 1) * 64 < ninodes <= l.inode_blocks * 64
        }),
{
}

/// Data zones are numbered from 1 on in the zone bitmap, one after the other; no zone
/// before them has a bit.
pub proof fn law_zone_bits_count_up(zone: u32, first: u32)
    requires
        first > 0,
    ensures
        zmap_bit_spec(first, first) == Some(1u32),
        zone < first <==> zmap_bit_spec(zone, first) is None,
        first <= zone < u32::MAX ==> zmap_bit_spec((zone + 1) as u32, first)->0 == zmap_bit_spec(
            zone,
            first,
        )->0 + 1,
{
}

} // verus!
