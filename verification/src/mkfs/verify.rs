//! Reading an image back.
use vstd::prelude::*;
use vstd::slice::slice_subrange;
use vstd::string::*;
use crate::bytes;
use crate::mfs::dirent;
use crate::mfs::dirent::{DirEntry, DIRENT_SIZE};
use crate::mfs::inode;
use crate::mfs::inode::{Inode, Node, ROOT_INODE};
use crate::mfs::layout;
use crate::mfs::layout::{imap_bit, Layout};
use crate::mfs::read;
use crate::mfs::read::{
    inode_at, inode_location, zone_for_offset, zone_from_indirect, ZoneLookup,
};
use crate::mfs::superblock;
use crate::mfs::superblock::{Superblock, MFS_BLOCK_SIZE, SUPER_OFFSET, SUPER_ON_DISK_LEN};
use crate::text;

verus! {

/// Block `b` lies wholly inside the image.
pub open spec fn has_block(img: Seq<u8>, b: int) -> bool {
    0 <= b && b * 4096 + 4096 <= img.len()
}

/// Borrow block `b`; `None` past the end of the image.
pub fn block(img: &[u8], b: u32) -> (r: Option<&[u8]>)
    ensures
        r is Some <==> has_block(img@, b as int),
        r matches Some(s) ==> s@ == img@.subrange(b * 4096, b * 4096 + 4096),
{
    let start: usize = match (b as usize).checked_mul(MFS_BLOCK_SIZE) {
        Some(start) => start,
        None => {
            assert(img@.len() == img.len());
            return None;
        },
    };
    if start > img.len() || img.len() - start < MFS_BLOCK_SIZE {
        return None;
    }
    Some(slice_subrange(img, start, start + MFS_BLOCK_SIZE))
}

/// The superblock of an image, when it has one this code reads.
pub open spec fn super_of(img: Seq<u8>) -> Option<Superblock> {
    if img.len() < 1055 {
        None
    } else {
        let sb = superblock::super_at(img, 1024);
        if superblock::super_fault(sb) is Some {
            None
        } else {
            Some(sb)
        }
    }
}

/// Decode the superblock. `None` when the image is too short or the superblock
/// is not one this code reads.
pub fn superblock(img: &[u8]) -> (r: Option<Superblock>)
    ensures
        r == super_of(img@),
{
    if img.len() < SUPER_OFFSET + SUPER_ON_DISK_LEN {
        return None;
    }
    let field = slice_subrange(img, SUPER_OFFSET, SUPER_OFFSET + SUPER_ON_DISK_LEN);
    assert(superblock::super_at(field@, 0) == superblock::super_at(img@, 1024));
    match Superblock::from_le_bytes(field) {
        Some(sb) => match sb.validate() {
            Ok(()) => Some(sb),
            Err(_) => None,
        },
        None => None,
    }
}

/// The layout an image's own superblock gives it.
pub open spec fn layout_of(img: Seq<u8>) -> Option<Layout> {
    match super_of(img) {
        Some(sb) => Some(layout::layout_spec(sb.ninodes, sb.zones)),
        None => None,
    }
}

/// The image's layout, derived from its own superblock.
pub fn image_layout(img: &[u8]) -> (r: Option<Layout>)
    ensures
        r == layout_of(img@),
{
    match superblock(img) {
        Some(sb) => Some(layout::layout(sb.ninodes, sb.zones)),
        None => None,
    }
}

/// The inode `ino` of an image, when the image has it.
#[verifier::opaque]
pub open spec fn node_of(img: Seq<u8>, ino: u32) -> Option<Node> {
    match layout_of(img) {
        Some(l) => match read::location_spec(ino, l) {
            Some((b, slot)) => if has_block(img, b as int) {
                Some(inode::node_at(img, b * 4096 + slot * 64))
            } else {
                None
            },
            None => None,
        },
        None => None,
    }
}

/// Fetch inode `ino`.
pub fn inode(img: &[u8], ino: u32) -> (r: Option<Inode>)
    ensures
        r is Some <==> node_of(img@, ino) is Some,
        r matches Some(n) ==> node_of(img@, ino) == Some(n@),
{
    proof {
        reveal(node_of);
    }
    let l = match image_layout(img) {
        Some(l) => l,
        None => return None,
    };
    let (b, slot) = match inode_location(ino, &l) {
        Some(at) => at,
        None => return None,
    };
    let blk = match block(img, b) {
        Some(blk) => blk,
        None => return None,
    };
    assert(inode::node_at(blk@, slot * 64) == inode::node_at(img@, b * 4096 + slot * 64)) by {
        let o = slot * 64;
        assert(forall|i: int|
            0 <= i < 4096 ==> #[trigger] blk@[i] == img@[b * 4096 + i]);
        assert(inode::node_at(blk@, o).zone =~= inode::node_at(img@, b * 4096 + o).zone);
    }
    inode_at(blk, slot)
}

/// Whether chunk `i` of a file with these zones can be read at all.
pub open spec fn chunk_ok(img: Seq<u8>, zone: Seq<u32>, i: int) -> bool {
    match read::zone_lookup(zone, i) {
        ZoneLookup::Direct(z) => has_block(img, z as int),
        ZoneLookup::Indirect { zone: ind, slot } => has_block(img, ind as int) && {
            let z = bytes::u32_at(img, ind * 4096 + slot * 4);
            z == 0 || has_block(img, z as int)
        },
        ZoneLookup::Hole => true,
        ZoneLookup::OutOfRange => false,
    }
}

/// Byte `o` of chunk `i` of a file with these zones. Where no zone is named, the
/// byte is zero.
pub open spec fn chunk_byte(img: Seq<u8>, zone: Seq<u32>, i: int, o: int) -> u8 {
    match read::zone_lookup(zone, i) {
        ZoneLookup::Direct(z) => img[z * 4096 + o],
        ZoneLookup::Indirect { zone: ind, slot } => {
            let z = bytes::u32_at(img, ind * 4096 + slot * 4);
            if z == 0 {
                0
            } else {
                img[z * 4096 + o]
            }
        },
        _ => 0,
    }
}

/// Every chunk below `size` can be read.
pub open spec fn readable(img: Seq<u8>, zone: Seq<u32>, size: int) -> bool {
    forall|i: int| 0 <= i && i * 4096 < size ==> #[trigger] chunk_ok(img, zone, i)
}

/// The contents an inode gives its file: as many bytes as its size says, each
/// from the zone of its chunk. There are none when the size is negative or some
/// chunk cannot be read.
#[verifier::opaque]
pub open spec fn content(img: Seq<u8>, node: Node) -> Option<Seq<u8>> {
    if node.size < 0 || !readable(img, node.zone, node.size as int) {
        None
    } else {
        Some(Seq::new(node.size as nat, |p: int| chunk_byte(img, node.zone, p / 4096, p % 4096)))
    }
}

/// Append the first `want` bytes of chunk `i`; `false`, appending nothing, when
/// the chunk cannot be read.
fn append_chunk(out: &mut Vec<u8>, img: &[u8], ino: &Inode, off: u64, want: usize) -> (ok: bool)
    requires
        want <= 4096,
    ensures
        ok == chunk_ok(img@, ino.zone@, off as int / 4096),
        !ok ==> final(out)@ == old(out)@,
        ok ==> final(out)@ == old(out)@ + Seq::new(
            want as nat,
            |o: int| chunk_byte(img@, ino.zone@, off as int / 4096, o),
        ),
{
    let ghost i = off as int / 4096;
    let ghost part = Seq::new(want as nat, |o: int| chunk_byte(img@, ino.zone@, i, o));
    let z: u32 = match zone_for_offset(ino, off) {
        ZoneLookup::Direct(z) => z,
        ZoneLookup::Indirect { zone, slot } => {
            let ind = match block(img, zone) {
                Some(ind) => ind,
                None => return false,
            };
            match zone_from_indirect(ind, slot) {
                Some(z) => {
                    assert(z == bytes::u32_at(img@, zone * 4096 + slot * 4));
                    z
                },
                None => return false,
            }
        },
        ZoneLookup::Hole => 0,
        ZoneLookup::OutOfRange => return false,
    };
    if z == 0 {
        let ghost before = out@;
        let mut k: usize = 0;
        while k < want
            invariant
                k <= want,
                out@ == before + Seq::new(k as nat, |o: int| 0u8),
            decreases want - k,
        {
            out.push(0);
            k = k + 1;
            assert(out@ =~= before + Seq::new(k as nat, |o: int| 0u8));
        }
        assert(part =~= Seq::new(want as nat, |o: int| 0u8));
        return true;
    }
    let blk = match block(img, z) {
        Some(blk) => blk,
        None => return false,
    };
    text::append_bytes(out, slice_subrange(blk, 0, want));
    assert(blk@.subrange(0, want as int) =~= part);
    true
}

/// Read a file's (or directory's) contents, honouring holes. A chunk past what
/// the format addresses, or in a zone outside the image, makes the whole file
/// unreadable rather than reading as zeroes.
pub fn read_inode_bytes(img: &[u8], ino: &Inode) -> (r: Option<Vec<u8>>)
    ensures
        r is Some <==> content(img@, ino@) is Some,
        r matches Some(v) ==> content(img@, ino@) == Some(v@),
{
    proof {
        reveal(content);
    }
    if ino.size < 0 {
        return None;
    }
    let size: usize = ino.size as usize;
    let mut out: Vec<u8> = Vec::new();
    let mut off: usize = 0;
    while off < size
        invariant
            size == ino.size,
            ino.size >= 0,
            off <= size,
            off == size || off % 4096 == 0,
            readable(img@, ino.zone@, off as int),
            out@ == Seq::new(
                off as nat,
                |p: int| chunk_byte(img@, ino.zone@, p / 4096, p % 4096),
            ),
        decreases size - off,
    {
        let want: usize = if size - off < MFS_BLOCK_SIZE {
            size - off
        } else {
            MFS_BLOCK_SIZE
        };
        let ghost i = off as int / 4096;
        let ghost before = out@;
        if !append_chunk(&mut out, img, ino, off as u64, want) {
            assert(!chunk_ok(img@, ino.zone@, i));
            assert(!readable(img@, ino.zone@, size as int));
            proof {
                reveal(content);
            }
            return None;
        }
        off = off + want;
        assert forall|j: int| 0 <= j && j * 4096 < off implies #[trigger] chunk_ok(
            img@,
            ino.zone@,
            j,
        ) by {
            if j * 4096 >= off - want {
                assert(j == i);
            }
        }
        assert(out@ =~= Seq::new(
            off as nat,
            |p: int| chunk_byte(img@, ino.zone@, p / 4096, p % 4096),
        )) by {
            assert forall|p: int| off - want <= p < off implies out@[p] == chunk_byte(
                img@,
                ino.zone@,
                p / 4096,
                p % 4096,
            ) by {
                assert(p / 4096 == i && p % 4096 == p - (off - want));
            }
        }
    }
    Some(out)
}

/// How many whole entries a directory's bytes hold.
pub open spec fn entry_count(dir: Seq<u8>) -> int {
    dir.len() as int / 64
}

/// Entry `k` names an inode.
pub open spec fn entry_live(dir: Seq<u8>, k: int) -> bool {
    dirent::ino_at(dir, 64 * k) != 0
}

/// The inode of the first live entry from `k` on that carries `name`.
pub open spec fn find_from(dir: Seq<u8>, name: Seq<u8>, k: int) -> Option<u32>
    decreases entry_count(dir) - k,
{
    if k >= entry_count(dir) {
        None
    } else if entry_live(dir, k) && dirent::name_at(dir, 64 * k) == name {
        Some(dirent::ino_at(dir, 64 * k))
    } else {
        find_from(dir, name, k + 1)
    }
}

/// Look a name up in a directory's bytes.
pub fn find_entry(dir: &[u8], name: &[u8]) -> (r: Option<u32>)
    ensures
        r == find_from(dir@, name@, 0),
{
    let n: usize = dir.len() / DIRENT_SIZE;
    let mut k: usize = 0;
    while k < n
        invariant
            k <= n,
            n == entry_count(dir@),
            n * 64 <= dir@.len(),
            dir@.len() <= usize::MAX,
            find_from(dir@, name@, 0) == find_from(dir@, name@, k as int),
        decreases n - k,
    {
        let e = DirEntry::from_le_bytes(dir, DIRENT_SIZE * k);
        let len: usize = e.name_len();
        if e.ino != 0 && text::bytes_eq(slice_subrange(e.name.as_slice(), 0, len), name) {
            assert(e.name@.take(len as int) =~= e.name@.subrange(0, len as int));
            return Some(e.ino);
        }
        assert(e.name@.take(len as int) =~= e.name@.subrange(0, len as int));
        k = k + 1;
    }
    None
}

/// The components of a path from `i` on: the runs of characters between slashes.
pub open spec fn parts_from(p: Seq<char>, i: int) -> Seq<Seq<char>>
    decreases p.len() - i,
{
    if i < 0 || i >= p.len() {
        Seq::empty()
    } else if p[i] == '/' {
        parts_from(p, i + 1)
    } else {
        proof {
            text::lemma_end_of(p, i);
        }
        seq![p.subrange(i, text::end_of(p, i))] + parts_from(p, text::end_of(p, i))
    }
}

/// Follow the components from inode `ino`, whose contents are `node`: each must
/// be found in the directory reached so far.
pub open spec fn walk(img: Seq<u8>, ino: u32, node: Node, comps: Seq<Seq<char>>) -> Option<
    (u32, Node),
>
    decreases comps.len(),
{
    if comps.len() == 0 {
        Some((ino, node))
    } else if !inode::mode_is_dir(node.mode) {
        None
    } else {
        match content(img, node) {
            Some(dir) => match find_from(dir, vstd::utf8::encode_utf8(comps[0]), 0) {
                Some(next) => match node_of(img, next) {
                    Some(n) => walk(img, next, n, comps.skip(1)),
                    None => None,
                },
                None => None,
            },
            None => None,
        }
    }
}

/// What an absolute path resolves to, from the root directory down.
pub open spec fn resolve(img: Seq<u8>, path: Seq<char>) -> Option<(u32, Node)> {
    match node_of(img, 1) {
        Some(root) => walk(img, 1, root, parts_from(path, 0)),
        None => None,
    }
}

/// One step of a lookup: the inode `name` leads to from the directory `node`.
fn step(img: &[u8], node: &Inode, name: &str) -> (r: Option<(u32, Inode)>)
    ensures
        r is Some <==> walk(img@, 0, node@, seq![name@]) is Some,
        r matches Some((i, n)) ==> walk(img@, 0, node@, seq![name@]) == Some((i, n@)),
{
    proof {
        reveal_with_fuel(walk, 2);
    }
    if !node.is_dir() {
        return None;
    }
    let dir = match read_inode_bytes(img, node) {
        Some(dir) => dir,
        None => return None,
    };
    let ino: u32 = match find_entry(dir.as_slice(), name.as_bytes()) {
        Some(ino) => ino,
        None => return None,
    };
    match inode(img, ino) {
        Some(n) => Some((ino, n)),
        None => None,
    }
}

/// Resolve an absolute path to its inode number and inode. `"/"` is the root. A
/// path that goes through a file resolves to nothing.
pub fn lookup(img: &[u8], path: &str) -> (r: Option<(u32, Inode)>)
    ensures
        r is Some <==> resolve(img@, path@) is Some,
        r matches Some((i, n)) ==> resolve(img@, path@) == Some((i, n@)),
{
    let p = text::chars(path);
    let mut ino: u32 = ROOT_INODE;
    let mut node: Inode = match inode(img, ino) {
        Some(n) => n,
        None => return None,
    };
    let mut i: usize = 0;
    while i < p.len()
        invariant
            i <= p@.len(),
            p@ == path@,
            resolve(img@, path@) == walk(img@, ino, node@, parts_from(p@, i as int)),
        decreases p@.len() - i,
    {
        if p[i] == '/' {
            i = i + 1;
        } else {
            let start: usize = i;
            proof {
                text::lemma_end_of(p@, start as int);
            }
            while i < p.len() && p[i] != '/'
                invariant
                    start <= i <= p@.len(),
                    text::end_of(p@, start as int) == text::end_of(p@, i as int),
                decreases p@.len() - i,
            {
                i = i + 1;
            }
            let name = path.substring_char(start, i);
            let ghost rest = parts_from(p@, i as int);
            proof {
                reveal_with_fuel(walk, 2);
                let all = parts_from(p@, start as int);
                assert(all =~= seq![name@] + rest);
                assert(all[0] == name@);
                assert(all.skip(1) =~= rest);
                assert(seq![name@][0] == name@);
                assert(seq![name@].skip(1) =~= Seq::<Seq<char>>::empty());
            }
            match step(img, &node, name) {
                Some((next, n)) => {
                    ino = next;
                    node = n;
                },
                None => return None,
            }
        }
    }
    Some((ino, node))
}

/// The contents of the regular file a path names.
pub open spec fn file_at(img: Seq<u8>, path: Seq<char>) -> Option<Seq<u8>> {
    match resolve(img, path) {
        Some((_, node)) => if inode::mode_is_reg(node.mode) {
            content(img, node)
        } else {
            None
        },
        None => None,
    }
}

/// Read a regular file's contents by path.
pub fn read_file(img: &[u8], path: &str) -> (r: Option<Vec<u8>>)
    ensures
        r is Some <==> file_at(img@, path@) is Some,
        r matches Some(v) ==> file_at(img@, path@) == Some(v@),
{
    match lookup(img, path) {
        Some((_, node)) => {
            if !node.is_reg() {
                return None;
            }
            read_inode_bytes(img, &node)
        },
        None => None,
    }
}

/// The names of the live entries before entry `k`, in order.
pub open spec fn names_to(dir: Seq<u8>, k: int) -> Seq<Seq<char>>
    decreases k,
{
    if k <= 0 {
        Seq::empty()
    } else if entry_live(dir, k - 1) {
        names_to(dir, k - 1).push(text::text_of(dirent::name_at(dir, 64 * (k - 1))))
    } else {
        names_to(dir, k - 1)
    }
}

/// The entry names of the directory a path names, in on-disk order.
pub open spec fn dir_at(img: Seq<u8>, path: Seq<char>) -> Option<Seq<Seq<char>>> {
    match resolve(img, path) {
        Some((_, node)) => if inode::mode_is_dir(node.mode) {
            match content(img, node) {
                Some(dir) => Some(names_to(dir, entry_count(dir))),
                None => None,
            }
        } else {
            None
        },
        None => None,
    }
}

/// The text of each string.
pub open spec fn texts(v: Seq<String>) -> Seq<Seq<char>> {
    Seq::new(v.len(), |i: int| v[i]@)
}

/// List a directory's entry names by path, in on-disk order (so `.` and `..`
/// come first). A name that is not UTF-8 reads as empty.
pub fn read_dir(img: &[u8], path: &str) -> (r: Option<Vec<String>>)
    ensures
        r is Some <==> dir_at(img@, path@) is Some,
        r matches Some(v) ==> dir_at(img@, path@) == Some(texts(v@)),
{
    let node = match lookup(img, path) {
        Some((_, node)) => node,
        None => return None,
    };
    if !node.is_dir() {
        return None;
    }
    let dir = match read_inode_bytes(img, &node) {
        Some(dir) => dir,
        None => return None,
    };
    let n: usize = dir.len() / DIRENT_SIZE;
    let mut out: Vec<String> = Vec::new();
    let mut k: usize = 0;
    assert(texts(out@) =~= names_to(dir@, 0));
    while k < n
        invariant
            k <= n,
            n == entry_count(dir@),
            n * 64 <= dir@.len(),
            dir@.len() <= usize::MAX,
            texts(out@) == names_to(dir@, k as int),
        decreases n - k,
    {
        let e = DirEntry::from_le_bytes(dir.as_slice(), DIRENT_SIZE * k);
        if e.ino != 0 {
            let len: usize = e.name_len();
            let name = slice_subrange(e.name.as_slice(), 0, len);
            assert(e.name@.take(len as int) =~= e.name@.subrange(0, len as int));
            let s: String = match text::from_utf8(name) {
                Some(s) => {
                    proof {
                        vstd::utf8::encode_utf8_decode_utf8(s@);
                    }
                    s.to_owned()
                },
                None => String::new(),
            };
            assert(s@ =~= text::text_of(name@));
            let ghost before = out@;
            out.push(s);
            assert(texts(out@) =~= texts(before).push(s@));
        }
        k = k + 1;
    }
    Some(out)
}

/// The weight of bit `k` in its byte.
pub open spec fn bit_weight(k: int) -> int {
    if k == 0 {
        1
    } else if k == 1 {
        2
    } else if k == 2 {
        4
    } else if k == 3 {
        8
    } else if k == 4 {
        16
    } else if k == 5 {
        32
    } else if k == 6 {
        64
    } else {
        128
    }
}

/// Bit `bit` of the bitmap that starts at block `start`; `None` past the end of
/// the image.
pub open spec fn bit_at(img: Seq<u8>, start: u32, bit: u32) -> Option<bool> {
    let at = start * 4096 + bit / 8;
    if at < img.len() {
        Some((img[at] as int / bit_weight((bit % 8) as int)) % 2 == 1)
    } else {
        None
    }
}

/// Read one bitmap bit.
fn bit_set(img: &[u8], start: u32, bit: u32) -> (r: Option<bool>)
    ensures
        r == bit_at(img@, start, bit),
{
    let at: u64 = start as u64 * 4096 + (bit / 8) as u64;
    if at >= img.len() as u64 {
        return None;
    }
    let b: u8 = img[at as usize];
    let k: u32 = bit % 8;
    let w: u8 = if k == 0 {
        1
    } else if k == 1 {
        2
    } else if k == 2 {
        4
    } else if k == 3 {
        8
    } else if k == 4 {
        16
    } else if k == 5 {
        32
    } else if k == 6 {
        64
    } else {
        128
    };
    Some((b / w) % 2 == 1)
}

/// Whether inode `ino` is marked in the inode bitmap of an image.
pub open spec fn inode_marked(img: Seq<u8>, ino: u32) -> Option<bool> {
    match layout_of(img) {
        Some(l) => bit_at(img, l.imap_start, ino),
        None => None,
    }
}

/// Whether zone `zone` is marked in the zone bitmap of an image; only data zones can be.
pub open spec fn zone_marked(img: Seq<u8>, zone: u32) -> Option<bool> {
    match layout_of(img) {
        Some(l) => match layout::zmap_bit_spec(zone, l.first_data_zone) {
            Some(bit) => bit_at(img, l.zmap_start, bit),
            None => None,
        },
        None => None,
    }
}

/// Is inode `ino` marked allocated in the inode bitmap?
pub fn imap_bit_set(img: &[u8], ino: u32) -> (r: Option<bool>)
    ensures
        r == inode_marked(img@, ino),
{
    match image_layout(img) {
        Some(l) => bit_set(img, l.imap_start, imap_bit(ino)),
        None => None,
    }
}

/// Is zone `zone` marked allocated in the zone bitmap? `None` for a zone below
/// the first data zone, which has no bit.
pub fn zmap_bit_set(img: &[u8], zone: u32) -> (r: Option<bool>)
    ensures
        r == zone_marked(img@, zone),
{
    match image_layout(img) {
        Some(l) => match layout::zmap_bit(zone, l.first_data_zone) {
            Some(bit) => bit_set(img, l.zmap_start, bit),
            None => None,
        },
        None => None,
    }
}

} // verus!
