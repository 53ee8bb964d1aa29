//! Grant entries and the packing of grant ids.
use vstd::prelude::*;
use crate::abi::endpoint::{Endpoint, NONE};

verus! {

pub const CPF_READ: u32 = 0x1;

pub const CPF_WRITE: u32 = 0x2;

pub const CPF_TRY: u32 = 0x10;

pub const CPF_USED: u32 = 0x100;

pub const CPF_DIRECT: u32 = 0x200;

pub const CPF_INDIRECT: u32 = 0x400;

pub const CPF_MAGIC: u32 = 0x800;

pub const CPF_VALID: u32 = 0x1000;

/// The access rights a grant can carry.
pub const CPF_ACCESS_MASK: u32 = 0x3;

/// Bits the index field of a grant id occupies.
pub const GRANT_SHIFT: u32 = 20;

pub const GRANT_MAX_IDX: u32 = 0xF_FFFF;

pub const GRANT_MAX_SEQ: u32 = 0x7FF;

pub const GRANT_INVALID: i32 = -1;

/// One slot of a grant table, as the kernel reads it.
#[derive(Copy, Clone, Debug, PartialEq, Eq, Structural)]
pub struct GrantEntry {
    pub flags: u32,
    pub seq: u32,
    pub who_to: Endpoint,
    pub who_from: Endpoint,
    pub addr: u64,
    pub len: u64,
}

impl GrantEntry {
    /// A free slot.
    pub open spec fn empty_spec() -> GrantEntry {
        GrantEntry { flags: 0, seq: 0, who_to: NONE, who_from: NONE, addr: 0, len: 0 }
    }

    /// A free slot.
    #[verifier::when_used_as_spec(empty_spec)]
    pub fn empty() -> (e: GrantEntry)
        ensures
            e == GrantEntry::empty_spec(),
    {
        GrantEntry { flags: 0, seq: 0, who_to: NONE, who_from: NONE, addr: 0, len: 0 }
    }
}

/// The id of slot `idx` at sequence `seq`, each kept to its field.
pub open spec fn grant_id_spec(idx: int, seq: int) -> int {
    (seq % 0x800) * 0x10_0000 + idx % 0x10_0000
}

/// The slot an id names. For an id below zero the number is that of its
/// two's-complement bits.
pub open spec fn grant_idx_spec(gid: int) -> int {
    gid % 0x10_0000
}

/// The sequence number an id carries.
pub open spec fn grant_seq_spec(gid: int) -> int {
    (gid / 0x10_0000) % 0x800
}

/// Pack a slot index and a sequence number.
pub fn grant_id(idx: u32, seq: u32) -> (gid: i32)
    ensures
        gid == grant_id_spec(idx as int, seq as int),
        gid >= 0,
{
    let i: u32 = idx & 0xF_FFFF;
    let s: u32 = seq & 0x7FF;
    assert(i == idx % 0x10_0000 && i < 0x10_0000) by (bit_vector)
        requires
            i == idx & 0xF_FFFF,
    ;
    assert(s == seq % 0x800 && s < 0x800) by (bit_vector)
        requires
            s == seq & 0x7FF,
    ;
    (s * 0x10_0000 + i) as i32
}

/// The slot index in `gid`.
pub fn grant_idx(gid: i32) -> (idx: u32)
    ensures
        idx == grant_idx_spec(gid as int),
{
    let i: i32 = gid & 0xF_FFFF;
    assert(0 <= i < 0x10_0000 && i == gid % 0x10_0000) by (bit_vector)
        requires
            i == gid & 0xF_FFFF,
    ;
    i as u32
}

/// The sequence number in `gid`.
pub fn grant_seq(gid: i32) -> (seq: u32)
    ensures
        seq == grant_seq_spec(gid as int),
{
    let s: i32 = (gid >> 20) & 0x7FF;
    assert(0 <= s < 0x800 && s == (gid / 0x10_0000) % 0x800) by (bit_vector)
        requires
            s == (gid >> 20) & 0x7FF,
    ;
    s as u32
}

/// Whether `gid` can name a grant at all.
pub fn grant_valid(gid: i32) -> (ok: bool)
    ensures
        ok == (gid >= 0),
{
    gid >= 0
}

/// Packing an index and a sequence that fit their fields loses neither, and no
/// two such pairs share an id.
pub proof fn law_grant_id_round_trip(idx: int, seq: int)
    requires
        0 <= idx <= GRANT_MAX_IDX,
        0 <= seq <= GRANT_MAX_SEQ,
    ensures
        0 <= grant_id_spec(idx, seq) <= i32::MAX,
        grant_idx_spec(grant_id_spec(idx, seq)) == idx,
        grant_seq_spec(grant_id_spec(idx, seq)) == seq,
{
}

/// An id is its sequence number and its slot side by side: the slot in the low twenty
/// bits, the sequence number above it. Ids of one slot differ exactly by their sequence
/// numbers.
pub proof fn law_grant_id_is_its_two_fields(gid: int, idx: int, a: int, b: int)
    requires
        0 <= gid <= i32::MAX,
        0 <= idx < 0x10_0000,
        0 <= a < 0x800,
        0 <= b < 0x800,
    ensures
        gid == grant_seq_spec(gid) * 1_048_576 + grant_idx_spec(gid),
        0 <= grant_idx_spec(gid) < 1_048_576,
        grant_id_spec(idx, a) - grant_id_spec(idx, b) == (a - b) * 1_048_576,
        grant_id_spec(idx, 0) == idx,
{
}

} // verus!
