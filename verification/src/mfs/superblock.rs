//! The superblock.
use vstd::prelude::*;
use crate::bytes;
use crate::bytes::{get_u16, get_u32, i16_to_u16, i32_to_u32, put_u16, put_u32, u16_to_i16, u32_to_i32};
use crate::mfs::inode;

verus! {

/// Where the superblock starts in the image.
pub const SUPER_OFFSET: usize = 1024;

/// Bytes the superblock occupies.
pub const SUPER_ON_DISK_LEN: usize = 31;

/// Magic number of the v3 format.
pub const SUPER_MAGIC_V3: i16 = 0x4D5A;

/// The filesystem was unmounted cleanly.
pub const MFSFLAG_CLEAN: u16 = 1;

/// Bytes in one block, and in one zone.
pub const MFS_BLOCK_SIZE: usize = 4096;

/// The superblock's fields.
#[derive(Copy, Clone, Debug, PartialEq, Eq, Structural)]
pub struct Superblock {
    pub ninodes: u32,
    pub nzones_v1: u16,
    pub imap_blocks: i16,
    pub zmap_blocks: i16,
    pub first_data_zone_old: u16,
    pub log_zone_size: u16,
    pub flags: u16,
    pub max_size: i32,
    pub zones: u32,
    pub magic: i16,
    pub pad2: i16,
    pub block_size: u16,
    pub disk_version: u8,
}

/// Why a superblock is not one this code reads.
#[derive(Copy, Clone, Debug, PartialEq, Eq, Structural)]
pub enum SuperError {
    Magic,
    BlockSize,
    ZoneSize,
}

/// Byte `i` of the on-disk superblock.
pub open spec fn super_byte(sb: Superblock, i: int) -> u8 {
    if i < 4 {
        bytes::u32_bytes(sb.ninodes)[i]
    } else if i < 6 {
        bytes::u16_bytes(sb.nzones_v1)[i - 4]
    } else if i < 8 {
        bytes::u16_bytes(bytes::wrap16(sb.imap_blocks))[i - 6]
    } else if i < 10 {
        bytes::u16_bytes(bytes::wrap16(sb.zmap_blocks))[i - 8]
    } else if i < 12 {
        bytes::u16_bytes(sb.first_data_zone_old)[i - 10]
    } else if i < 14 {
        bytes::u16_bytes(sb.log_zone_size)[i - 12]
    } else if i < 16 {
        bytes::u16_bytes(sb.flags)[i - 14]
    } else if i < 20 {
        bytes::u32_bytes(bytes::wrap32(sb.max_size))[i - 16]
    } else if i < 24 {
        bytes::u32_bytes(sb.zones)[i - 20]
    } else if i < 26 {
        bytes::u16_bytes(bytes::wrap16(sb.magic))[i - 24]
    } else if i < 28 {
        bytes::u16_bytes(bytes::wrap16(sb.pad2))[i - 26]
    } else if i < 30 {
        bytes::u16_bytes(sb.block_size)[i - 28]
    } else {
        sb.disk_version
    }
}

/// The on-disk form of a superblock.
pub open spec fn super_bytes(sb: Superblock) -> Seq<u8> {
    Seq::new(31, |i: int| super_byte(sb, i))
}

/// The superblock the bytes from `off` on hold.
pub open spec fn super_at(p: Seq<u8>, off: int) -> Superblock {
    Superblock {
        ninodes: bytes::u32_at(p, off),
        nzones_v1: bytes::u16_at(p, off + 4),
        imap_blocks: bytes::unwrap16(bytes::u16_at(p, off + 6)),
        zmap_blocks: bytes::unwrap16(bytes::u16_at(p, off + 8)),
        first_data_zone_old: bytes::u16_at(p, off + 10),
        log_zone_size: bytes::u16_at(p, off + 12),
        flags: bytes::u16_at(p, off + 14),
        max_size: bytes::unwrap32(bytes::u32_at(p, off + 16)),
        zones: bytes::u32_at(p, off + 20),
        magic: bytes::unwrap16(bytes::u16_at(p, off + 24)),
        pad2: bytes::unwrap16(bytes::u16_at(p, off + 26)),
        block_size: bytes::u16_at(p, off + 28),
        disk_version: p[off + 30],
    }
}

/// What keeps a superblock from being read: first its magic, then its block
/// size, then its zone size.
pub open spec fn super_fault(sb: Superblock) -> Option<SuperError> {
    if sb.magic != SUPER_MAGIC_V3 {
        Some(SuperError::Magic)
    } else if sb.block_size != 4096 {
        Some(SuperError::BlockSize)
    } else if sb.log_zone_size != 0 {
        Some(SuperError::ZoneSize)
    } else {
        None
    }
}

impl Superblock {
    /// Encode.
    pub fn to_le_bytes(&self) -> (b: [u8; 31])
        ensures
            b@ == super_bytes(*self),
    {
        let mut b = [0u8; 31];
        put_u32(&mut b, 0, self.ninodes);
        put_u16(&mut b, 4, self.nzones_v1);
        put_u16(&mut b, 6, i16_to_u16(self.imap_blocks));
        put_u16(&mut b, 8, i16_to_u16(self.zmap_blocks));
        put_u16(&mut b, 10, self.first_data_zone_old);
        put_u16(&mut b, 12, self.log_zone_size);
        put_u16(&mut b, 14, self.flags);
        put_u32(&mut b, 16, i32_to_u32(self.max_size));
        put_u32(&mut b, 20, self.zones);
        put_u16(&mut b, 24, i16_to_u16(self.magic));
        put_u16(&mut b, 26, i16_to_u16(self.pad2));
        put_u16(&mut b, 28, self.block_size);
        b[30] = self.disk_version;
        assert(b@ =~= super_bytes(*self));
        b
    }

    /// Decode the first bytes of `b`; `None` when there are too few.
    pub fn from_le_bytes(b: &[u8]) -> (r: Option<Superblock>)
        ensures
            r == (if b@.len() < 31 {
                None
            } else {
                Some(super_at(b@, 0))
            }),
    {
        if b.len() < SUPER_ON_DISK_LEN {
            return None;
        }
        Some(
            Superblock {
                ninodes: get_u32(b, 0),
                nzones_v1: get_u16(b, 4),
                imap_blocks: u16_to_i16(get_u16(b, 6)),
                zmap_blocks: u16_to_i16(get_u16(b, 8)),
                first_data_zone_old: get_u16(b, 10),
                log_zone_size: get_u16(b, 12),
                flags: get_u16(b, 14),
                max_size: u32_to_i32(get_u32(b, 16)),
                zones: get_u32(b, 20),
                magic: u16_to_i16(get_u16(b, 24)),
                pad2: u16_to_i16(get_u16(b, 26)),
                block_size: get_u16(b, 28),
                disk_version: b[30],
            },
        )
    }

    /// Whether this is a v3 filesystem of the block and zone size this code
    /// reads.
    pub fn validate(&self) -> (r: Result<(), SuperError>)
        ensures
            r == (match super_fault(*self) {
                None => Ok::<(), SuperError>(()),
                Some(e) => Err(e),
            }),
    {
        if self.magic != SUPER_MAGIC_V3 {
            return Err(SuperError::Magic);
        }
        if self.block_size != 4096 {
            return Err(SuperError::BlockSize);
        }
        if self.log_zone_size != 0 {
            return Err(SuperError::ZoneSize);
        }
        Ok(())
    }
}

proof fn lemma_words(sb: Superblock, p: Seq<u8>, off: int)
    requires
        forall|i: int| off <= i < off + 31 ==> p[i] == super_byte(sb, i - off),
    ensures
        bytes::u32_at(p, off) == sb.ninodes,
        bytes::u32_at(p, off + 16) == bytes::wrap32(sb.max_size),
        bytes::u32_at(p, off + 20) == sb.zones,
        p[off + 30] == sb.disk_version,
{
    bytes::lemma_u32_is(p, off, sb.ninodes);
    bytes::lemma_u32_is(p, off + 16, bytes::wrap32(sb.max_size));
    bytes::lemma_u32_is(p, off + 20, sb.zones);
}

proof fn lemma_front_halves(sb: Superblock, p: Seq<u8>, off: int)
    requires
        forall|i: int| off <= i < off + 31 ==> p[i] == super_byte(sb, i - off),
    ensures
        bytes::u16_at(p, off + 4) == sb.nzones_v1,
        bytes::u16_at(p, off + 6) == bytes::wrap16(sb.imap_blocks),
        bytes::u16_at(p, off + 8) == bytes::wrap16(sb.zmap_blocks),
        bytes::u16_at(p, off + 10) == sb.first_data_zone_old,
        bytes::u16_at(p, off + 12) == sb.log_zone_size,
        bytes::u16_at(p, off + 14) == sb.flags,
{
    bytes::lemma_u16_is(p, off + 4, sb.nzones_v1);
    bytes::lemma_u16_is(p, off + 6, bytes::wrap16(sb.imap_blocks));
    bytes::lemma_u16_is(p, off + 8, bytes::wrap16(sb.zmap_blocks));
    bytes::lemma_u16_is(p, off + 10, sb.first_data_zone_old);
    bytes::lemma_u16_is(p, off + 12, sb.log_zone_size);
    bytes::lemma_u16_is(p, off + 14, sb.flags);
}

proof fn lemma_back_halves(sb: Superblock, p: Seq<u8>, off: int)
    requires
        forall|i: int| off <= i < off + 31 ==> p[i] == super_byte(sb, i - off),
    ensures
        bytes::u16_at(p, off + 24) == bytes::wrap16(sb.magic),
        bytes::u16_at(p, off + 26) == bytes::wrap16(sb.pad2),
        bytes::u16_at(p, off + 28) == sb.block_size,
{
    bytes::lemma_u16_is(p, off + 24, bytes::wrap16(sb.magic));
    bytes::lemma_u16_is(p, off + 26, bytes::wrap16(sb.pad2));
    bytes::lemma_u16_is(p, off + 28, sb.block_size);
}

/// A superblock written at `off` is read back field for field.
pub proof fn law_superblock_round_trip(sb: Superblock, p: Seq<u8>, off: int)
    requires
        0 <= off,
        off + 31 <= p.len(),
        forall|i: int| off <= i < off + 31 ==> p[i] == super_byte(sb, i - off),
    ensures
        super_at(p, off) == sb,
{
    lemma_words(sb, p, off);
    lemma_front_halves(sb, p, off);
    lemma_back_halves(sb, p, off);
    bytes::lemma_wrap_round_trip(sb.max_size, sb.imap_blocks);
    bytes::lemma_wrap_round_trip(0, sb.zmap_blocks);
    bytes::lemma_wrap_round_trip(0, sb.magic);
    bytes::lemma_wrap_round_trip(0, sb.pad2);
    let r = super_at(p, off);
    assert(r.ninodes == sb.ninodes && r.zones == sb.zones && r.max_size == sb.max_size);
    assert(r.imap_blocks == sb.imap_blocks && r.zmap_blocks == sb.zmap_blocks);
    assert(r.magic == sb.magic && r.pad2 == sb.pad2 && r.block_size == sb.block_size);
}

/// Where the fields of a superblock lie, byte by byte, least significant first.
pub proof fn law_superblock_fields_by_offset(sb: Superblock)
    ensures
        super_bytes(sb).len() == 31,
        sb.ninodes == inode::word(super_bytes(sb), 0),
        sb.nzones_v1 == super_bytes(sb)[4] + 256 * super_bytes(sb)[5],
        sb.imap_blocks >= 0 ==> sb.imap_blocks == super_bytes(sb)[6] + 256 * super_bytes(sb)[7],
        sb.zmap_blocks >= 0 ==> sb.zmap_blocks == super_bytes(sb)[8] + 256 * super_bytes(sb)[9],
        sb.first_data_zone_old == super_bytes(sb)[10] + 256 * super_bytes(sb)[11],
        sb.log_zone_size == super_bytes(sb)[12] + 256 * super_bytes(sb)[13],
        sb.flags == super_bytes(sb)[14] + 256 * super_bytes(sb)[15],
        sb.max_size >= 0 ==> sb.max_size == inode::word(super_bytes(sb), 16),
        sb.zones == inode::word(super_bytes(sb), 20),
        sb.magic >= 0 ==> sb.magic == super_bytes(sb)[24] + 256 * super_bytes(sb)[25],
        sb.pad2 >= 0 ==> sb.pad2 == super_bytes(sb)[26] + 256 * super_bytes(sb)[27],
        sb.block_size == super_bytes(sb)[28] + 256 * super_bytes(sb)[29],
        sb.disk_version == super_bytes(sb)[30],
{
    bytes::law_bytes_are_weighed_by_place(sb.nzones_v1, sb.ninodes);
    bytes::law_bytes_are_weighed_by_place(bytes::wrap16(sb.imap_blocks), sb.zones);
    bytes::law_bytes_are_weighed_by_place(
        bytes::wrap16(sb.zmap_blocks),
        bytes::wrap32(sb.max_size),
    );
}

/// A superblock is one this code reads exactly when its magic, block size and zone
/// size are those of a v3 filesystem of 4096-byte blocks, one to a zone; nothing else
/// in it matters. The first of the three that is not is the one reported.
pub proof fn law_superblock_is_refused_only_for_cause(sb: Superblock)
    ensures
        super_fault(sb) is None <==> sb.magic == 0x4D5A && sb.block_size == 4096
            && sb.log_zone_size == 0,
        sb.magic != 0x4D5A ==> super_fault(sb) == Some(SuperError::Magic),
        super_fault(sb) == Some(SuperError::BlockSize) ==> sb.magic == 0x4D5A && sb.block_size
            != 4096,
        super_fault(sb) == Some(SuperError::ZoneSize) ==> sb.magic == 0x4D5A && sb.block_size
            == 4096 && sb.log_zone_size != 0,
{
}

} // verus!
