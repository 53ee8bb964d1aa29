//! Directory entries.
use vstd::prelude::*;
use crate::bytes;
use crate::bytes::{get_u32, put_bytes, put_u32};
use crate::text;

verus! {

/// Bytes one directory entry occupies.
pub const DIRENT_SIZE: usize = 64;

/// Longest name an entry can hold. The field is padded, not terminated.
pub const NAME_MAX: usize = 60;

/// One directory entry: an inode number and a NUL-padded name.
#[derive(Copy, Clone, Debug, PartialEq, Eq)]
pub struct DirEntry {
    pub ino: u32,
    pub name: [u8; 60],
}

/// Byte `i` of the on-disk entry for `ino` under `name`.
pub open spec fn dirent_byte(ino: u32, name: Seq<u8>, i: int) -> u8 {
    if i < 4 {
        bytes::u32_bytes(ino)[i]
    } else if i - 4 < name.len() {
        name[i - 4]
    } else {
        0
    }
}

/// The inode number of the entry at `off`; 0 is a free entry.
pub open spec fn ino_at(p: Seq<u8>, off: int) -> u32 {
    bytes::u32_at(p, off)
}

/// The name of the entry at `off`.
pub open spec fn name_at(p: Seq<u8>, off: int) -> Seq<u8> {
    text::until_nul(p.subrange(off + 4, off + 64))
}

impl DirEntry {
    /// An entry for `ino` under `name`; `None` when the name is empty or does
    /// not fit.
    pub fn new(ino: u32, name: &[u8]) -> (r: Option<DirEntry>)
        ensures
            r is Some <==> 0 < name@.len() <= 60,
            r matches Some(e) ==> e.ino == ino && e.name@ == Seq::new(
                60,
                |i: int|
                    if i < name@.len() {
                        name@[i]
                    } else {
                        0u8
                    },
            ),
    {
        if name.len() == 0 || name.len() > NAME_MAX {
            return None;
        }
        let mut field = [0u8; 60];
        put_bytes(&mut field, 0, name);
        let e = DirEntry { ino, name: field };
        assert(e.name@ =~= Seq::new(
            60,
            |i: int|
                if i < name@.len() {
                    name@[i]
                } else {
                    0u8
                },
        ));
        Some(e)
    }

    /// Encode.
    pub fn to_le_bytes(&self) -> (b: [u8; 64])
        ensures
            b@ == Seq::new(64, |i: int| dirent_byte(self.ino, self.name@, i)),
    {
        let mut b = [0u8; 64];
        put_u32(&mut b, 0, self.ino);
        put_bytes(&mut b, 4, self.name.as_slice());
        assert(b@ =~= Seq::new(64, |i: int| dirent_byte(self.ino, self.name@, i)));
        b
    }

    /// Decode the entry at `off`.
    pub fn from_le_bytes(b: &[u8], off: usize) -> (e: DirEntry)
        requires
            off + 64 <= b@.len(),
        ensures
            e.ino == ino_at(b@, off as int),
            e.name@ == b@.subrange(off + 4, off + 64),
    {
        let len: usize = b.len();
        let mut name = [0u8; 60];
        let mut i: usize = 0;
        while i < 60
            invariant
                i <= 60,
                off + 64 <= len,
                len == b@.len(),
                forall|j: int| 0 <= j < i ==> name@[j] == b@[off + 4 + j],
            decreases 60 - i,
        {
            name[i] = b[off + 4 + i];
            i = i + 1;
        }
        let e = DirEntry { ino: get_u32(b, off), name };
        assert(e.name@ =~= b@.subrange(off + 4, off + 64));
        e
    }

    /// How long the name is.
    pub fn name_len(&self) -> (n: usize)
        ensures
            n <= 60,
            text::until_nul(self.name@) == self.name@.take(n as int),
    {
        text::nul_len(self.name.as_slice())
    }
}

/// An entry written at `off` is read back: its inode number always, and its name
/// whenever the name holds no NUL and fits.
pub proof fn law_dirent_round_trip(ino: u32, name: Seq<u8>, p: Seq<u8>, off: int)
    requires
        0 <= off,
        off + 64 <= p.len(),
        name.len() <= 60,
        forall|i: int| 0 <= i < name.len() ==> name[i] != 0,
        forall|i: int| off <= i < off + 64 ==> p[i] == dirent_byte(ino, name, i - off),
    ensures
        ino_at(p, off) == ino,
        name_at(p, off) == name,
{
    let field = p.subrange(off + 4, off + 64);
    text::lemma_until_nul(field, name.len() as int);
    assert(field.take(name.len() as int) =~= name);
}

/// Where the parts of an entry lie: the inode number in the first four bytes, least
/// significant first, then the name, then zeroes to the end.
pub proof fn law_entry_is_number_and_name(ino: u32, name: Seq<u8>, i: int)
    requires
        name.len() <= 60,
    ensures
        ino == dirent_byte(ino, name, 0) + 256 * dirent_byte(ino, name, 1) + 65_536 * dirent_byte(
            ino,
            name,
            2,
        ) + 16_777_216 * dirent_byte(ino, name, 3),
        0 <= i < name.len() ==> dirent_byte(ino, name, 4 + i) == name[i],
        name.len() <= i < 60 ==> dirent_byte(ino, name, 4 + i) == 0,
{
}

/// An entry's name is what its field starts with: no longer than the field, without a
/// NUL, and followed by one where the field goes on.
pub proof fn law_name_ends_at_the_first_nul(p: Seq<u8>, off: int)
    requires
        0 <= off,
        off + 64 <= p.len(),
    ensures
        name_at(p, off).len() <= 60,
        forall|i: int|
            0 <= i < name_at(p, off).len() ==> (#[trigger] name_at(p, off)[i]) == p[off + 4 + i]
                && p[off + 4 + i] != 0,
        name_at(p, off).len() < 60 ==> p[off + 4 + name_at(p, off).len()] == 0,
{
    let field = p.subrange(off + 4, off + 64);
    text::law_until_nul_stops_at_the_first(field);
    let name = name_at(p, off);
    assert forall|i: int| 0 <= i < name.len() implies (#[trigger] name[i]) == p[off + 4 + i]
        && p[off + 4 + i] != 0 by {
        assert(text::until_nul(field)[i] == field[i]);
    }
}

} // verus!
