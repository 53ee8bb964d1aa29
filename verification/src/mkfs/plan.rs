//! Planning an image: every inode number assigned and every directory's bytes
//! built before a single block is written, so that a manifest that does not fit
//! is refused with exact numbers.
use vstd::prelude::*;
use vstd::string::*;
use crate::abi::rootfs::{ROOTFS_NINODES, ROOTFS_TAIL_BLOCK};
use crate::mfs::dirent;
use crate::mfs::dirent::DirEntry;
use crate::mfs::inode::NR_DIRECT_ZONES;
use crate::mfs::layout;
use crate::mfs::read::ptrs_per_block;
use crate::mfs::superblock::MFS_BLOCK_SIZE;
use crate::mkfs::error::{Fault, MkfsError};
use crate::mkfs::image::FIRST_DATA_ZONE;
use crate::mkfs::manifest;
use crate::mkfs::manifest::{split_path, Entry};
use crate::mkfs::verify;
use crate::text;

verus! {

/// Blocks available for data: those between the inode table and the tail.
pub const AVAILABLE_ZONES: u32 = ROOTFS_TAIL_BLOCK - FIRST_DATA_ZONE;

/// The directory an entry lies in.
pub open spec fn dir_name(e: Entry) -> Seq<char> {
    (manifest::split_spec(e.path@)->0).0
}

/// The name an entry has in its directory.
pub open spec fn file_name(e: Entry) -> Seq<char> {
    (manifest::split_spec(e.path@)->0).1
}

/// A hole is whole blocks of zeroes that end before the file does.
pub open spec fn hole_ok(bytes: Seq<u8>, hole: int) -> bool {
    hole == 0 || (hole % 4096 == 0 && 0 < hole < bytes.len() && forall|i: int|
        0 <= i < hole ==> bytes[i] == 0)
}

/// What is wrong with entry `i`: its path, else its hole, else that an earlier
/// entry has its path.
pub open spec fn entry_fault(es: Seq<Entry>, i: int) -> Option<Fault> {
    let e = es[i];
    if manifest::split_spec(e.path@) is None {
        Some(Fault::BadPath(e.path@))
    } else if !hole_ok(e.bytes@, e.hole as int) {
        Some(Fault::BadHole(e.path@))
    } else if exists|j: int| 0 <= j < i && es[j].path@ == e.path@ {
        Some(Fault::Duplicate(e.path@))
    } else {
        None
    }
}

/// What is wrong with the first bad entry among the first `n`.
pub open spec fn first_fault(es: Seq<Entry>, n: int) -> Option<Fault>
    decreases n,
{
    if n <= 0 {
        None
    } else if first_fault(es, n - 1) is Some {
        first_fault(es, n - 1)
    } else {
        entry_fault(es, n - 1)
    }
}

/// The directories of the first `n` entries, each once, in first-seen order.
pub open spec fn dirs_to(es: Seq<Entry>, n: int) -> Seq<Seq<char>>
    decreases n,
{
    if n <= 0 {
        Seq::empty()
    } else {
        let before = dirs_to(es, n - 1);
        if before.contains(dir_name(es[n - 1])) {
            before
        } else {
            before.push(dir_name(es[n - 1]))
        }
    }
}

/// The directories of a manifest.
pub open spec fn dirs(es: Seq<Entry>) -> Seq<Seq<char>> {
    dirs_to(es, es.len() as int)
}

/// Which of the first `n` entries lie in `dir`, in order.
pub open spec fn files_in(es: Seq<Entry>, n: int, dir: Seq<char>) -> Seq<int>
    decreases n,
{
    if n <= 0 {
        Seq::empty()
    } else if dir_name(es[n - 1]) == dir {
        files_in(es, n - 1, dir).push(n - 1)
    } else {
        files_in(es, n - 1, dir)
    }
}

/// Inodes a manifest needs: the root, its directories, and its files.
pub open spec fn inode_count(es: Seq<Entry>) -> int {
    (1 + dirs(es).len() + es.len()) as int
}

/// A directory as the list of its entries: inode numbers and names.
pub type Listing = Seq<(u32, Seq<u8>)>;

/// The bytes of a directory.
pub open spec fn listing_bytes(l: Listing) -> Seq<u8> {
    Seq::new(64 * l.len(), |p: int| dirent::dirent_byte(l[p / 64].0, l[p / 64].1, p % 64))
}

/// The two entries every directory starts with.
pub open spec fn dots(own: u32) -> Listing {
    seq![(own, seq![0x2eu8]), (1u32, seq![0x2eu8, 0x2eu8])]
}

/// The inode number of directory `d`: those of the directories follow the root's.
pub open spec fn dir_ino(d: int) -> u32 {
    (2 + d) as u32
}

/// The inode number of file `i`: those of the files follow the directories'.
pub open spec fn file_ino(es: Seq<Entry>, i: int) -> u32 {
    (2 + dirs(es).len() + i) as u32
}

/// The root directory: one entry per directory.
pub open spec fn root_listing(es: Seq<Entry>, n: int) -> Listing {
    dots(1) + Seq::new(
        n as nat,
        |d: int| (dir_ino(d), vstd::utf8::encode_utf8(dirs(es)[d])),
    )
}

/// The entries of directory `d` for its first `n` files.
pub open spec fn dir_listing(es: Seq<Entry>, d: int, n: int) -> Listing {
    let files = files_in(es, n, dirs(es)[d]);
    dots(dir_ino(d)) + Seq::new(
        files.len(),
        |j: int|
            (file_ino(es, files[j]), vstd::utf8::encode_utf8(file_name(es[files[j]]))),
    )
}

/// How many objects are written: directories and files, which are as many as
/// there are inodes. Object `k` has inode number `k + 1`.
pub open spec fn object_count(es: Seq<Entry>) -> int {
    inode_count(es)
}

/// The contents of object `k`: the root, then the directories, then the files.
pub open spec fn object_data(es: Seq<Entry>, k: int) -> Seq<u8> {
    let nd = dirs(es).len();
    if k == 0 {
        listing_bytes(root_listing(es, nd as int))
    } else if k <= nd {
        listing_bytes(dir_listing(es, k - 1, es.len() as int))
    } else {
        es[k - 1 - nd].bytes@
    }
}

/// The hole object `k` starts with; only files have one.
pub open spec fn object_hole(es: Seq<Entry>, k: int) -> int {
    let nd = dirs(es).len();
    if k <= nd {
        0
    } else {
        es[k - 1 - nd].hole as int
    }
}

/// Blocks a file occupies: one for each block of its length past the hole, and
/// one for the indirect block when there are more than seven blocks in all,
/// holes included.
pub open spec fn cost(len: int, hole: int) -> int {
    let total = layout::ceil(len, 4096);
    let kept = if total >= hole / 4096 {
        total - hole / 4096
    } else {
        0
    };
    if total > 7 {
        kept + 1
    } else {
        kept
    }
}

/// Blocks object `k` occupies.
pub open spec fn object_cost(es: Seq<Entry>, k: int) -> int {
    cost(object_data(es, k).len() as int, object_hole(es, k))
}

/// Blocks the first `k` objects occupy.
pub open spec fn used(es: Seq<Entry>, k: int) -> int
    decreases k,
{
    if k <= 0 {
        0
    } else {
        used(es, k - 1) + object_cost(es, k - 1)
    }
}

/// Largest file the format addresses: seven direct zones and one indirect block
/// of pointers.
pub open spec fn max_file() -> int {
    4_222_976
}

/// The first of the first `k` objects that is larger than the format addresses
/// needs too many blocks by itself.
pub open spec fn oversize_fault(es: Seq<Entry>, k: int) -> Option<Fault>
    decreases k,
{
    if k <= 0 {
        None
    } else if oversize_fault(es, k - 1) is Some {
        oversize_fault(es, k - 1)
    } else if object_data(es, k - 1).len() > max_file() {
        Some(Fault::TooBig { needed: object_cost(es, k - 1) as u32, have: AVAILABLE_ZONES })
    } else {
        None
    }
}

/// Why a manifest cannot be written, if it cannot: a bad entry, else too many
/// inodes, else too many blocks.
pub open spec fn plan_fault(es: Seq<Entry>) -> Option<Fault> {
    let n = object_count(es);
    if first_fault(es, es.len() as int) is Some {
        first_fault(es, es.len() as int)
    } else if inode_count(es) > ROOTFS_NINODES {
        Some(Fault::TooManyInodes { needed: inode_count(es) as u32, have: ROOTFS_NINODES })
    } else if oversize_fault(es, n) is Some {
        oversize_fault(es, n)
    } else if used(es, n) > AVAILABLE_ZONES {
        Some(Fault::TooBig { needed: used(es, n) as u32, have: AVAILABLE_ZONES })
    } else {
        None
    }
}

/// Largest file this format addresses.
pub fn max_file_bytes() -> (n: usize)
    ensures
        n == max_file(),
{
    (NR_DIRECT_ZONES + ptrs_per_block()) * MFS_BLOCK_SIZE
}

/// Blocks a file occupies, including its indirect block if it needs one and
/// excluding any leading hole.
///
/// The indirect test is on the total block count, not the allocated one: a hole
/// does not renumber the zones after it.
pub fn blocks_for(len: usize, hole: usize) -> (n: u32)
    ensures
        n == cost(len as int, hole as int) as u32,
        cost(len as int, hole as int) >= 0,
{
    let whole: usize = len / MFS_BLOCK_SIZE;
    let total: usize = if len % MFS_BLOCK_SIZE == 0 {
        whole
    } else {
        whole + 1
    };
    let kept: usize = total.saturating_sub(hole / MFS_BLOCK_SIZE);
    if total > NR_DIRECT_ZONES {
        (kept + 1) as u32
    } else {
        kept as u32
    }
}

/// No entry of a manifest without a fault is at fault.
pub proof fn lemma_no_fault(es: Seq<Entry>, n: int, i: int)
    requires
        first_fault(es, n) is None,
        0 <= i < n,
    ensures
        entry_fault(es, i) is None,
    decreases n,
{
    if i < n - 1 {
        lemma_no_fault(es, n - 1, i);
    }
}

/// Directories are listed once each, and every entry's directory is listed.
pub proof fn lemma_dirs(es: Seq<Entry>, n: int)
    requires
        0 <= n <= es.len(),
    ensures
        forall|a: int, b: int|
            0 <= a < b < dirs_to(es, n).len() ==> dirs_to(es, n)[a] != dirs_to(es, n)[b],
        forall|i: int| 0 <= i < n ==> dirs_to(es, n).contains(#[trigger] dir_name(es[i])),
        dirs_to(es, n).len() <= n,
    decreases n,
{
    if n > 0 {
        lemma_dirs(es, n - 1);
        let before = dirs_to(es, n - 1);
        let name = dir_name(es[n - 1]);
        assert forall|i: int| 0 <= i < n implies dirs_to(es, n).contains(
            #[trigger] dir_name(es[i]),
        ) by {
            if before.contains(name) {
                if i == n - 1 {
                    assert(dirs_to(es, n).contains(name));
                }
            } else if i < n - 1 {
                let a = choose|a: int| 0 <= a < before.len() && before[a] == dir_name(es[i]);
                assert(dirs_to(es, n)[a] == dir_name(es[i]));
            } else {
                assert(dirs_to(es, n)[before.len() as int] == name);
            }
        }
    }
}

/// The directories seen early stay where they are.
pub proof fn lemma_dirs_prefix(es: Seq<Entry>, m: int, n: int)
    requires
        0 <= m <= n <= es.len(),
    ensures
        dirs_to(es, m).len() <= dirs_to(es, n).len(),
        forall|d: int| 0 <= d < dirs_to(es, m).len() ==> dirs_to(es, n)[d] == dirs_to(es, m)[d],
    decreases n - m,
{
    if m < n {
        lemma_dirs_prefix(es, m, n - 1);
    }
}

/// Adding an entry to a listing appends its 64 bytes.
pub proof fn lemma_listing_push(l: Listing, ino: u32, name: Seq<u8>)
    ensures
        listing_bytes(l.push((ino, name))) == listing_bytes(l) + Seq::new(
            64,
            |i: int| dirent::dirent_byte(ino, name, i),
        ),
{
    let next = l.push((ino, name));
    assert forall|p: int| 0 <= p < 64 * next.len() implies listing_bytes(next)[p] == (
    listing_bytes(l) + Seq::new(64, |i: int| dirent::dirent_byte(ino, name, i)))[p] by {
        if p < 64 * l.len() {
            assert(p / 64 < l.len());
        } else {
            assert(p / 64 == l.len() && p % 64 == p - 64 * l.len());
        }
    }
    assert(listing_bytes(next) =~= listing_bytes(l) + Seq::new(
        64,
        |i: int| dirent::dirent_byte(ino, name, i),
    ));
}

/// Append one entry to a directory's bytes.
fn push_entry(bytes: &mut Vec<u8>, ino: u32, name: &[u8])
    requires
        0 < name@.len() <= 60,
    ensures
        final(bytes)@ == old(bytes)@ + Seq::new(
            64,
            |i: int| dirent::dirent_byte(ino, name@, i),
        ),
{
    match DirEntry::new(ino, name) {
        Some(e) => {
            let b = e.to_le_bytes();
            text::append_bytes(bytes, b.as_slice());
            assert(b@ =~= Seq::new(64, |i: int| dirent::dirent_byte(ino, name@, i)));
        },
        None => {},
    }
}

/// The bytes of a directory that holds only `.` and `..`.
fn new_dir(own: u32) -> (bytes: Vec<u8>)
    ensures
        bytes@ == listing_bytes(dots(own)),
{
    let mut bytes: Vec<u8> = Vec::new();
    let dot: [u8; 1] = [0x2eu8];
    let dotdot: [u8; 2] = [0x2eu8, 0x2eu8];
    assert(dot@ =~= seq![0x2eu8]);
    assert(dotdot@ =~= seq![0x2eu8, 0x2eu8]);
    assert(bytes@ =~= listing_bytes(Seq::empty()));
    push_entry(&mut bytes, own, dot.as_slice());
    push_entry(&mut bytes, 1, dotdot.as_slice());
    proof {
        let none: Listing = Seq::empty();
        lemma_listing_push(none, own, dot@);
        lemma_listing_push(none.push((own, dot@)), 1, dotdot@);
        assert(none.push((own, dot@)).push((1u32, dotdot@)) =~= dots(own));
    }
    bytes
}

/// Whether a hole is whole blocks of zeroes that end before the file does.
fn check_hole(bytes: &Vec<u8>, hole: usize) -> (ok: bool)
    ensures
        ok == hole_ok(bytes@, hole as int),
{
    if hole == 0 {
        return true;
    }
    if hole % MFS_BLOCK_SIZE != 0 || hole >= bytes.len() {
        return false;
    }
    let mut i: usize = 0;
    while i < hole
        invariant
            i <= hole < bytes@.len(),
            forall|j: int| 0 <= j < i ==> bytes@[j] == 0,
        decreases hole - i,
    {
        if bytes[i] != 0 {
            return false;
        }
        i = i + 1;
    }
    true
}

/// Whether one of the first `n` entries already has this path.
fn seen_before(entries: &Vec<Entry>, n: usize, path: &String) -> (r: bool)
    requires
        n <= entries@.len(),
    ensures
        r == exists|j: int| 0 <= j < n && entries@[j].path@ == path@,
{
    let mut j: usize = 0;
    while j < n
        invariant
            j <= n <= entries@.len(),
            forall|k: int| 0 <= k < j ==> entries@[k].path@ != path@,
        decreases n - j,
    {
        if entries[j].path == *path {
            return true;
        }
        j = j + 1;
    }
    false
}

/// The place of `dir` in a list of names; its length when it is not there.
fn dir_index(names: &Vec<String>, dir: &str) -> (d: usize)
    ensures
        d <= names@.len(),
        d < names@.len() ==> names@[d as int]@ == dir@,
        forall|k: int| 0 <= k < d ==> names@[k]@ != dir@,
{
    let wanted: String = dir.to_owned();
    let mut d: usize = 0;
    while d < names.len()
        invariant
            d <= names@.len(),
            wanted@ == dir@,
            forall|k: int| 0 <= k < d ==> names@[k]@ != dir@,
        decreases names@.len() - d,
    {
        if names[d] == wanted {
            return d;
        }
        d = d + 1;
    }
    d
}

/// The paths of a manifest, taken apart.
pub struct Paths {
    /// The directories, in first-seen order.
    pub dirs: Vec<String>,
    /// For each entry, the place of its directory in `dirs`.
    pub dir_of: Vec<usize>,
    /// For each entry, its name.
    pub names: Vec<String>,
}

impl Paths {
    /// These are the parts of the first `n` paths.
    pub open spec fn of(self, es: Seq<Entry>, n: int) -> bool {
        &&& verify::texts(self.dirs@) == dirs_to(es, n)
        &&& self.dir_of@.len() == n
        &&& self.names@.len() == n
        &&& forall|i: int| 0 <= i < n ==> (#[trigger] self.names@[i])@ == file_name(es[i])
        &&& forall|i: int|
            0 <= i < n ==> {
                &&& #[trigger] self.dir_of@[i] < self.dirs@.len()
                &&& dirs_to(es, n)[self.dir_of@[i] as int] == dir_name(es[i])
            }
    }
}

/// Validate every entry, and take its path apart.
fn take_apart(entries: &Vec<Entry>) -> (r: Result<Paths, MkfsError>)
    ensures
        match r {
            Ok(p) => first_fault(entries@, entries@.len() as int) is None && p.of(
                entries@,
                entries@.len() as int,
            ),
            Err(e) => first_fault(entries@, entries@.len() as int) == Some(e@),
        },
{
    let ghost es = entries@;
    let mut dirs: Vec<String> = Vec::new();
    let mut dir_of: Vec<usize> = Vec::new();
    let mut names: Vec<String> = Vec::new();
    let mut i: usize = 0;
    assert(verify::texts(dirs@) =~= dirs_to(es, 0));
    while i < entries.len()
        invariant
            i <= entries@.len(),
            es == entries@,
            first_fault(es, i as int) is None,
            (Paths { dirs, dir_of, names }).of(es, i as int),
        decreases entries@.len() - i,
    {
        let e = &entries[i];
        let (dir, name) = match split_path(e.path.as_str()) {
            Ok(parts) => parts,
            Err(err) => {
                assert(entry_fault(es, i as int) == Some(err@));
                proof {
                    lemma_fault_stays(es, i as int, es.len() as int);
                }
                return Err(err);
            },
        };
        if !check_hole(&e.bytes, e.hole) {
            proof {
                lemma_fault_stays(es, i as int, es.len() as int);
            }
            return Err(MkfsError::BadHole(e.path.clone()));
        }
        if seen_before(entries, i, &e.path) {
            proof {
                lemma_fault_stays(es, i as int, es.len() as int);
            }
            return Err(MkfsError::Duplicate(e.path.clone()));
        }
        let ghost before = dirs@;
        let ghost names_before = names@;
        let ghost dir_of_before = dir_of@;
        let d: usize = dir_index(&dirs, dir);
        if d == dirs.len() {
            dirs.push(dir.to_owned());
            assert(!verify::texts(before).contains(dir@)) by {
                if verify::texts(before).contains(dir@) {
                    let k = choose|k: int|
                        0 <= k < verify::texts(before).len() && verify::texts(before)[k] == dir@;
                    assert(before[k]@ == dir@);
                }
            }
            assert(verify::texts(dirs@) =~= verify::texts(before).push(dir@));
        } else {
            assert(verify::texts(before)[d as int] == dir@);
        }
        assert(verify::texts(dirs@) == dirs_to(es, i + 1));
        dir_of.push(d);
        names.push(name.to_owned());
        assert(dirs_to(es, i + 1)[d as int] == dir_name(es[i as int])) by {
            assert(verify::texts(dirs@)[d as int] == dirs@[d as int]@);
        }
        proof {
            lemma_dirs_prefix(es, i as int, i + 1);
            let p = Paths { dirs, dir_of, names };
            assert forall|k: int| 0 <= k < i + 1 implies {
                &&& #[trigger] p.dir_of@[k] < p.dirs@.len()
                &&& dirs_to(es, i + 1)[p.dir_of@[k] as int] == dir_name(es[k])
            } by {
                if k < i {
                    assert(dir_of@[k] == dir_of_before[k]);
                }
            }
            assert forall|k: int| 0 <= k < i + 1 implies (#[trigger] p.names@[k])@ == file_name(
                es[k],
            ) by {
                if k < i {
                    assert(names@[k] == names_before[k]);
                }
            }
            assert(p.of(es, i + 1));
        }
        i = i + 1;
    }
    Ok(Paths { dirs, dir_of, names })
}

/// The first fault of a prefix is the first fault of the whole.
proof fn lemma_fault_stays(es: Seq<Entry>, i: int, n: int)
    requires
        0 <= i < n <= es.len(),
        first_fault(es, i) is None,
        entry_fault(es, i) is Some,
    ensures
        first_fault(es, n) == entry_fault(es, i),
    decreases n - i,
{
    if n > i + 1 {
        lemma_fault_stays(es, i, n - 1);
    }
}

/// The root directory's bytes.
fn build_root(p: &Paths, Ghost(es): Ghost<Seq<Entry>>) -> (bytes: Vec<u8>)
    requires
        p.of(es, es.len() as int),
        first_fault(es, es.len() as int) is None,
        inode_count(es) < u32::MAX,
    ensures
        bytes@ == object_data(es, 0),
{
    let mut bytes = new_dir(1);
    let mut d: usize = 0;
    assert(root_listing(es, 0) =~= dots(1));
    while d < p.dirs.len()
        invariant
            d <= p.dirs@.len(),
            p.of(es, es.len() as int),
            first_fault(es, es.len() as int) is None,
            inode_count(es) < u32::MAX,
            bytes@ == listing_bytes(root_listing(es, d as int)),
        decreases p.dirs@.len() - d,
    {
        let name = p.dirs[d].as_str();
        proof {
            assert(verify::texts(p.dirs@)[d as int] == name@);
            lemma_dir_name_ok(es, d as int);
            lemma_listing_push(
                root_listing(es, d as int),
                dir_ino(d as int),
                vstd::utf8::encode_utf8(name@),
            );
            assert(root_listing(es, d + 1) =~= root_listing(es, d as int).push(
                (dir_ino(d as int), vstd::utf8::encode_utf8(name@)),
            ));
        }
        push_entry(&mut bytes, 2 + d as u32, name.as_bytes());
        d = d + 1;
    }
    bytes
}

/// Every directory's name passed the path rule.
pub proof fn lemma_dir_name_ok(es: Seq<Entry>, d: int)
    requires
        first_fault(es, es.len() as int) is None,
        0 <= d < dirs(es).len(),
    ensures
        manifest::component_ok(dirs(es)[d]),
        vstd::utf8::encode_utf8(dirs(es)[d]).len() > 0,
        exists|i: int| 0 <= i < es.len() && dir_name(es[i]) == dirs(es)[d],
{
    let i = lemma_dir_has_entry(es, es.len() as int, d);
    lemma_no_fault(es, es.len() as int, i);
    lemma_encode_nonempty(dirs(es)[d]);
}

/// Some entry lies in each directory.
proof fn lemma_dir_has_entry(es: Seq<Entry>, n: int, d: int) -> (i: int)
    requires
        0 <= n <= es.len(),
        0 <= d < dirs_to(es, n).len(),
    ensures
        0 <= i < n,
        dir_name(es[i]) == dirs_to(es, n)[d],
    decreases n,
{
    if d < dirs_to(es, n - 1).len() {
        lemma_dir_has_entry(es, n - 1, d)
    } else {
        n - 1
    }
}

/// Text that is not empty has bytes.
pub proof fn lemma_encode_nonempty(s: Seq<char>)
    requires
        s.len() > 0,
    ensures
        vstd::utf8::encode_utf8(s).len() > 0,
{
    if vstd::utf8::encode_utf8(s).len() == 0 {
        vstd::utf8::encode_utf8_decode_utf8(s);
        vstd::utf8::encode_utf8_decode_utf8(Seq::<char>::empty());
        assert(vstd::utf8::encode_utf8(s) =~= vstd::utf8::encode_utf8(Seq::<char>::empty()));
    }
}

/// The bytes of directory `d`.
fn build_dir(p: &Paths, d: usize, Ghost(es): Ghost<Seq<Entry>>) -> (bytes: Vec<u8>)
    requires
        p.of(es, es.len() as int),
        first_fault(es, es.len() as int) is None,
        inode_count(es) < u32::MAX,
        d < p.dirs@.len(),
    ensures
        bytes@ == object_data(es, d + 1),
{
    let ghost n = es.len() as int;
    let nd: usize = p.dirs.len();
    let mut bytes = new_dir(2 + d as u32);
    let mut i: usize = 0;
    assert(dir_listing(es, d as int, 0) =~= dots(dir_ino(d as int)));
    while i < p.names.len()
        invariant
            i <= p.names@.len(),
            n == es.len(),
            nd == p.dirs@.len(),
            d < nd,
            p.of(es, n),
            first_fault(es, n) is None,
            inode_count(es) < u32::MAX,
            bytes@ == listing_bytes(dir_listing(es, d as int, i as int)),
        decreases p.names@.len() - i,
    {
        let ghost dir = dirs(es)[d as int];
        proof {
            lemma_dirs(es, n);
        }
        if p.dir_of[i] == d {
            let name = p.names[i].as_str();
            proof {
                lemma_no_fault(es, n, i as int);
                lemma_encode_nonempty(name@);
                lemma_listing_push(
                    dir_listing(es, d as int, i as int),
                    file_ino(es, i as int),
                    vstd::utf8::encode_utf8(name@),
                );
                assert(files_in(es, i + 1, dir) == files_in(es, i as int, dir).push(i as int));
                assert(dir_listing(es, d as int, i + 1) =~= dir_listing(
                    es,
                    d as int,
                    i as int,
                ).push((file_ino(es, i as int), vstd::utf8::encode_utf8(name@))));
            }
            push_entry(&mut bytes, 2 + nd as u32 + i as u32, name.as_bytes());
        } else {
            assert(dirs(es)[p.dir_of@[i as int] as int] != dir);
            assert(files_in(es, i + 1, dir) == files_in(es, i as int, dir));
        }
        i = i + 1;
    }
    bytes
}

/// A whole image, resolved: the contents of the root and of every directory.
pub struct Tree {
    /// Directory contents, in the order they are written: root first.
    pub dir_blocks: Vec<Vec<u8>>,
}

impl Tree {
    /// These are the directories the manifest implies.
    pub open spec fn of(self, es: Seq<Entry>) -> bool {
        &&& self.dir_blocks@.len() == 1 + dirs(es).len()
        &&& forall|k: int|
            0 <= k < self.dir_blocks@.len() ==> (#[trigger] self.dir_blocks@[k])@
                == object_data(es, k)
    }
}

/// Resolve a manifest. The errors come in this order: the first bad entry, too
/// many inodes, too many blocks.
pub fn plan(entries: &Vec<Entry>) -> (r: Result<Tree, MkfsError>)
    requires
        inode_count(entries@) < u32::MAX,
    ensures
        match r {
            Ok(t) => plan_fault(entries@) is None && t.of(entries@),
            Err(e) => plan_fault(entries@) == Some(e@),
        },
{
    let ghost es = entries@;
    let p = match take_apart(entries) {
        Ok(p) => p,
        Err(e) => return Err(e),
    };
    let needed: u32 = 1 + p.dirs.len() as u32 + entries.len() as u32;
    if needed > ROOTFS_NINODES {
        return Err(MkfsError::TooManyInodes { needed, have: ROOTFS_NINODES });
    }
    let mut dir_blocks: Vec<Vec<u8>> = Vec::new();
    dir_blocks.push(build_root(&p, Ghost(es)));
    let mut d: usize = 0;
    while d < p.dirs.len()
        invariant
            d <= p.dirs@.len(),
            es == entries@,
            p.of(es, es.len() as int),
            first_fault(es, es.len() as int) is None,
            inode_count(es) < u32::MAX,
            dir_blocks@.len() == 1 + d,
            forall|k: int|
                0 <= k < dir_blocks@.len() ==> (#[trigger] dir_blocks@[k])@ == object_data(es, k),
        decreases p.dirs@.len() - d,
    {
        dir_blocks.push(build_dir(&p, d, Ghost(es)));
        d = d + 1;
    }
    let tree = Tree { dir_blocks };
    match check_block_budget(&tree, entries) {
        Ok(()) => Ok(tree),
        Err(e) => Err(e),
    }
}

/// Sum the blocks every directory and file needs, and refuse what does not fit.
fn check_block_budget(tree: &Tree, entries: &Vec<Entry>) -> (r: Result<(), MkfsError>)
    requires
        tree.of(entries@),
        inode_count(entries@) <= ROOTFS_NINODES,
        first_fault(entries@, entries@.len() as int) is None,
    ensures
        match r {
            Ok(()) => plan_fault(entries@) is None,
            Err(e) => plan_fault(entries@) == Some(e@),
        },
{
    let ghost es = entries@;
    let nd: usize = tree.dir_blocks.len();
    let n: usize = nd + entries.len();
    let mut needed: u32 = 0;
    let mut k: usize = 0;
    while k < n
        invariant
            k <= n,
            n == object_count(es),
            n <= 64,
            nd == 1 + dirs(es).len(),
            nd == tree.dir_blocks@.len(),
            n == nd + entries@.len(),
            es == entries@,
            tree.of(es),
            inode_count(es) <= ROOTFS_NINODES,
            first_fault(es, es.len() as int) is None,
            oversize_fault(es, k as int) is None,
            needed == used(es, k as int),
            needed <= 1040 * k,
        decreases n - k,
    {
        let (len, hole): (usize, usize) = if k < nd {
            (tree.dir_blocks[k].len(), 0)
        } else {
            (entries[k - nd].bytes.len(), entries[k - nd].hole)
        };
        assert(len == object_data(es, k as int).len());
        assert(hole == object_hole(es, k as int));
        let blocks: u32 = blocks_for(len, hole);
        if len > max_file_bytes() {
            let ghost fault = Fault::TooBig { needed: blocks, have: AVAILABLE_ZONES };
            assert(oversize_fault(es, k + 1) == Some(fault));
            proof {
                lemma_oversize_stays(es, k + 1, n as int);
            }
            return Err(MkfsError::TooBig { needed: blocks, have: AVAILABLE_ZONES });
        }
        assert(0 <= cost(len as int, hole as int) <= 1032);
        needed = needed + blocks;
        k = k + 1;
    }
    if needed > AVAILABLE_ZONES {
        return Err(MkfsError::TooBig { needed, have: AVAILABLE_ZONES });
    }
    Ok(())
}

/// An oversized object stays the first one.
proof fn lemma_oversize_stays(es: Seq<Entry>, k: int, n: int)
    requires
        k <= n,
        oversize_fault(es, k) is Some,
    ensures
        oversize_fault(es, n) == oversize_fault(es, k),
    decreases n - k,
{
    if k < n {
        lemma_oversize_stays(es, k, n - 1);
    }
}

} // verus!
