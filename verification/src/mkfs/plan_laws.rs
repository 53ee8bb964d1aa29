//! What a manifest may hold, what it costs, and which fault is reported.
use vstd::prelude::*;
use crate::mfs::inode;
use crate::mkfs::error::Fault;
use crate::mkfs::image;
use crate::mkfs::manifest;
use crate::mkfs::manifest::Entry;
use crate::mkfs::plan;
use crate::text;

verus! {

/// A component without a slash ends where the path does, or at the slash behind it.
proof fn lemma_component_end(p: Seq<char>, i: int, j: int)
    requires
        0 <= i <= j <= p.len(),
        forall|k: int| i <= k < j ==> p[k] != '/',
        j < p.len() ==> p[j] == '/',
    ensures
        text::end_of(p, i) == j,
    decreases j - i,
{
    if i < j {
        lemma_component_end(p, i + 1, j);
    }
}

/// A name a manifest path may use: some text, no slash in it, neither of the two names
/// every directory has already, and at most sixty bytes.
pub open spec fn usable(c: Seq<char>) -> bool {
    &&& c.len() > 0
    &&& !c.contains('/')
    &&& !(c.len() == 1 && c[0] == '.')
    &&& !(c.len() == 2 && c[0] == '.' && c[1] == '.')
    &&& vstd::utf8::encode_utf8(c).len() <= 60
}

/// A path is accepted exactly when it is a slash, a usable name, a slash, and another:
/// those two are the directory and the file it names.
pub proof fn law_path_is_two_names(p: Seq<char>, dir: Seq<char>, name: Seq<char>)
    ensures
        manifest::split_spec(p) == Some((dir, name)) <==> p == seq!['/'] + dir + seq!['/'] + name
            && usable(dir) && usable(name),
{
    if manifest::split_spec(p) == Some((dir, name)) {
        let j = text::end_of(p, 1);
        text::lemma_end_of(p, 1);
        text::lemma_end_of(p, j + 1);
        assert(p =~= seq!['/'] + dir + seq!['/'] + name);
        assert(!dir.contains('/')) by {
            assert forall|i: int| 0 <= i < dir.len() implies dir[i] != '/' by {
                assert(dir[i] == p[1 + i]);
            }
        }
        assert(!name.contains('/')) by {
            assert forall|i: int| 0 <= i < name.len() implies name[i] != '/' by {
                assert(name[i] == p[j + 1 + i]);
            }
        }
        lemma_not_dots(dir);
        lemma_not_dots(name);
    }
    if p == seq!['/'] + dir + seq!['/'] + name && usable(dir) && usable(name) {
        let j = 1 + dir.len() as int;
        assert forall|k: int| 1 <= k < j implies p[k] != '/' by {
            assert(p[k] == dir[k - 1]);
        }
        assert(p[j] == '/');
        lemma_component_end(p, 1, j);
        assert forall|k: int| j + 1 <= k < p.len() implies p[k] != '/' by {
            assert(p[k] == name[k - j - 1]);
        }
        lemma_component_end(p, j + 1, p.len() as int);
        assert(p.subrange(1, j) =~= dir);
        assert(p.subrange(j + 1, p.len() as int) =~= name);
        lemma_not_dots(dir);
        lemma_not_dots(name);
    }
}

/// The two names every directory has, letter by letter.
proof fn lemma_not_dots(c: Seq<char>)
    ensures
        c == seq!['.'] <==> c.len() == 1 && c[0] == '.',
        c == seq!['.', '.'] <==> c.len() == 2 && c[0] == '.' && c[1] == '.',
{
    if c.len() == 1 && c[0] == '.' {
        assert(c =~= seq!['.']);
    }
    if c.len() == 2 && c[0] == '.' && c[1] == '.' {
        assert(c =~= seq!['.', '.']);
    }
}

/// A file takes the fewest blocks that hold what follows its hole, and one more for the
/// indirect block exactly when it is longer than seven blocks, hole included. An empty
/// file takes none.
pub proof fn law_blocks_are_just_enough(len: int, hole: int)
    requires
        0 <= hole <= len,
        hole % 4096 == 0,
    ensures
        ({
            let n = plan::cost(len, hole) - (if len > 28_672 {
                1int
            } else {
                0
            });
            &&& n * 4096 >= len - hole
            &&& n > 0 ==> (n - 1) * 4096 < len - hole
            &&& n >= 0
        }),
{
}

/// Longer files take no fewer blocks, and a longer hole saves exactly its blocks.
pub proof fn law_holes_save_their_blocks(len: int, more: int, hole: int)
    requires
        0 <= hole <= len <= more,
        hole % 4096 == 0,
    ensures
        plan::cost(len, hole) <= plan::cost(more, hole),
        plan::cost(len, 0) - plan::cost(len, hole) == hole / 4096,
        plan::max_file() == 4096 * (7 + 1024),
{
}

/// A hole is refused for one of three reasons, and only then: it is not whole blocks,
/// it leaves nothing of the file, or a byte in it is not zero.
pub proof fn law_hole_is_refused_only_for_cause(bytes: Seq<u8>, hole: int)
    requires
        hole > 0,
    ensures
        !plan::hole_ok(bytes, hole) <==> hole % 4096 != 0 || hole >= bytes.len() || exists|i: int|
            0 <= i < hole && #[trigger] bytes[i] != 0,
        plan::hole_ok(bytes, 0),
{
    if hole % 4096 == 0 && hole < bytes.len() && !(exists|i: int|
        0 <= i < hole && #[trigger] bytes[i] != 0) {
        assert forall|i: int| 0 <= i < hole implies bytes[i] == 0 by {}
    }
}

/// What is wrong with an entry, told from its path, its hole and the entries before it.
/// A path is refused before a hole, and a hole before a path that came before.
pub proof fn law_entry_is_refused_only_for_cause(es: Seq<Entry>, i: int)
    requires
        0 <= i < es.len(),
    ensures
        ({
            let path = es[i].path@;
            let bad_path = !exists|dir: Seq<char>, name: Seq<char>|
                usable(dir) && usable(name) && path == #[trigger] (seq!['/'] + dir + seq!['/']
                    + name);
            let bad_hole = !plan::hole_ok(es[i].bytes@, es[i].hole as int);
            let repeated = exists|j: int| 0 <= j < i && (#[trigger] es[j]).path@ == path;
            &&& bad_path ==> plan::entry_fault(es, i) == Some(Fault::BadPath(path))
            &&& !bad_path && bad_hole ==> plan::entry_fault(es, i) == Some(Fault::BadHole(path))
            &&& !bad_path && !bad_hole && repeated ==> plan::entry_fault(es, i) == Some(
                Fault::Duplicate(path),
            )
            &&& !bad_path && !bad_hole && !repeated ==> plan::entry_fault(es, i) is None
        }),
{
    let path = es[i].path@;
    if manifest::split_spec(path) is Some {
        let (dir, name) = manifest::split_spec(path)->0;
        law_path_is_two_names(path, dir, name);
        assert(path == seq!['/'] + dir + seq!['/'] + name);
    }
    if exists|dir: Seq<char>, name: Seq<char>|
        usable(dir) && usable(name) && path == #[trigger] (seq!['/'] + dir + seq!['/'] + name) {
        let (dir, name) = choose|dir: Seq<char>, name: Seq<char>|
            usable(dir) && usable(name) && path == #[trigger] (seq!['/'] + dir + seq!['/'] + name);
        law_path_is_two_names(path, dir, name);
    }
}

/// The first bad entry decides: its fault is reported, whatever follows it and however
/// large the manifest is.
pub proof fn law_first_bad_entry_is_reported(es: Seq<Entry>, i: int)
    requires
        0 <= i < es.len(),
        plan::entry_fault(es, i) is Some,
        forall|j: int| 0 <= j < i ==> plan::entry_fault(es, j) is None,
    ensures
        plan::plan_fault(es) == plan::entry_fault(es, i),
{
    lemma_clean(es, i);
    lemma_stays(es, i, es.len() as int);
}

/// No entry at fault, no first fault.
proof fn lemma_clean(es: Seq<Entry>, n: int)
    requires
        forall|j: int| 0 <= j < n ==> plan::entry_fault(es, j) is None,
    ensures
        plan::first_fault(es, n) is None,
    decreases n,
{
    if n > 0 {
        lemma_clean(es, n - 1);
    }
}

/// The first fault stays the first.
proof fn lemma_stays(es: Seq<Entry>, i: int, n: int)
    requires
        0 <= i < n,
        plan::first_fault(es, i) is None,
        plan::entry_fault(es, i) is Some,
    ensures
        plan::first_fault(es, n) == plan::entry_fault(es, i),
    decreases n,
{
    if n > i + 1 {
        lemma_stays(es, i, n - 1);
    }
}

/// No object is longer than the format addresses.
proof fn lemma_sizes(es: Seq<Entry>, n: int)
    ensures
        plan::oversize_fault(es, n) is None <==> forall|k: int|
            0 <= k < n ==> (#[trigger] plan::object_data(es, k)).len() <= 4_222_976,
    decreases n,
{
    if n > 0 {
        lemma_sizes(es, n - 1);
        if plan::oversize_fault(es, n) is None {
            assert forall|k: int| 0 <= k < n implies (#[trigger] plan::object_data(es, k)).len()
                <= 4_222_976 by {}
        }
    }
}

/// A manifest is written exactly when every entry is in order, there are inodes for the
/// root, its directories and its files, no file is longer than the format addresses,
/// and the blocks suffice. The fault names both numbers: what was needed, and what there
/// is, which is 64 inodes or 250 blocks.
pub proof fn law_manifest_is_refused_only_for_cause(es: Seq<Entry>)
    requires
        forall|i: int| 0 <= i < es.len() ==> plan::entry_fault(es, i) is None,
        1 + plan::dirs(es).len() + es.len() <= u32::MAX,
    ensures
        ({
            let n = 1 + plan::dirs(es).len() + es.len();
            let long = exists|k: int|
                0 <= k < n && (#[trigger] plan::object_data(es, k)).len() > 4_222_976;
            &&& n > 64 ==> plan::plan_fault(es) == Some(
                Fault::TooManyInodes { needed: n as u32, have: 64 },
            )
            &&& n <= 64 && !long && plan::used(es, n as int) <= 250 ==> plan::plan_fault(es) is None
            &&& n <= 64 && !long && plan::used(es, n as int) > 250 ==> plan::plan_fault(es) == Some(
                Fault::TooBig { needed: plan::used(es, n as int) as u32, have: 250 },
            )
            &&& n <= 64 && long ==> plan::plan_fault(es) is Some
        }),
{
    lemma_clean(es, es.len() as int);
    lemma_sizes(es, plan::object_count(es));
}

/// An object that is too long by itself is reported with the blocks it alone would take.
pub proof fn law_first_long_object_is_reported(es: Seq<Entry>, k: int)
    requires
        forall|i: int| 0 <= i < es.len() ==> plan::entry_fault(es, i) is None,
        1 + plan::dirs(es).len() + es.len() <= 64,
        0 <= k < 1 + plan::dirs(es).len() + es.len(),
        plan::object_data(es, k).len() > 4_222_976,
        forall|j: int| 0 <= j < k ==> (#[trigger] plan::object_data(es, j)).len() <= 4_222_976,
    ensures
        plan::plan_fault(es) == Some(
            Fault::TooBig {
                needed: plan::cost(
                    plan::object_data(es, k).len() as int,
                    plan::object_hole(es, k),
                ) as u32,
                have: 250,
            },
        ),
{
    lemma_clean(es, es.len() as int);
    lemma_sizes(es, k);
    assert(plan::oversize_fault(es, k + 1) is Some);
    lemma_long_stays(es, k + 1, plan::object_count(es));
}

/// The first long object stays the first.
proof fn lemma_long_stays(es: Seq<Entry>, k: int, n: int)
    requires
        k <= n,
        plan::oversize_fault(es, k) is Some,
    ensures
        plan::oversize_fault(es, n) == plan::oversize_fault(es, k),
    decreases n - k,
{
    if k < n {
        lemma_long_stays(es, k, n - 1);
    }
}

/// One more file costs what its own blocks cost, and nothing else changes for the
/// objects before it.
pub proof fn law_blocks_add_up(es: Seq<Entry>, k: int)
    requires
        0 <= k,
    ensures
        plan::used(es, 0) == 0,
        plan::used(es, k + 1) - plan::used(es, k) == plan::cost(
            plan::object_data(es, k).len() as int,
            plan::object_hole(es, k),
        ),
{
}

/// A manifest's size is the sum of its files' sizes: one more file adds its own bytes,
/// whatever its path and hole.
pub proof fn law_total_adds_up(
    es: Seq<Entry>,
    before: Seq<Entry>,
    path: Seq<char>,
    bytes: Seq<u8>,
    hole: usize,
)
    requires
        manifest::appended(es, before, path, bytes, hole),
    ensures
        manifest::sum_bytes(Seq::empty(), 0) == 0,
        manifest::sum_bytes(es, es.len() as int) == manifest::sum_bytes(
            before,
            before.len() as int,
        ) + bytes.len(),
{
    lemma_same_sum(es, before, before.len() as int);
    assert(es[es.len() - 1] == es.last());
}

proof fn lemma_same_sum(a: Seq<Entry>, b: Seq<Entry>, n: int)
    requires
        n <= b.len() < a.len(),
        a.drop_last() == b,
    ensures
        manifest::sum_bytes(a, n) == manifest::sum_bytes(b, n),
    decreases n,
{
    if n > 0 {
        lemma_same_sum(a, b, n - 1);
        assert(a.drop_last()[n - 1] == a[n - 1]);
    }
}

/// What every inode of an image says: directories and files tell themselves apart, all
/// belong to user and group 0, carry no times, and are as long as what they hold. A
/// directory has a link from its parent and one from itself, the root one more from each
/// directory in it, and a file just one.
pub proof fn law_inodes_describe_their_objects(es: Seq<Entry>, k: int)
    requires
        plan::plan_fault(es) is None,
        0 <= k < plan::object_count(es),
    ensures
        ({
            let n = image::object_node(es, k);
            let nd = plan::dirs(es).len();
            &&& inode::mode_is_dir(n.mode) <==> k <= nd
            &&& inode::mode_is_reg(n.mode) <==> k > nd
            &&& n.mode % 0o1000 == 0o755
            &&& n.nlinks == (if k == 0 {
                2 + nd
            } else if k <= nd {
                2
            } else {
                1
            })
            &&& n.uid == 0 && n.gid == 0
            &&& n.atime == 0 && n.mtime == 0 && n.ctime == 0
            &&& n.size == plan::object_data(es, k).len()
        }),
{
    reveal(image::object_node);
    image::lemma_object_fits(es, k);
}

/// What the superblock of every image says, number by number.
pub proof fn law_superblock_numbers()
    ensures
        ({
            let sb = image::root_super();
            &&& sb.ninodes == 64
            &&& sb.zones == 256 && sb.nzones_v1 == 256
            &&& sb.imap_blocks == 1 && sb.zmap_blocks == 1
            &&& sb.first_data_zone_old == 5
            &&& sb.log_zone_size == 0
            &&& sb.flags == 1
            &&& sb.max_size == 4096 * (7 + 1024)
            &&& sb.magic == 0x4D5A
            &&& sb.block_size == 4096
        }),
{
}

/// Directories are created in first-seen order, each once: directory `d` is that of some
/// entry, and the entries before the first such one lie in the directories before it.
pub proof fn law_directories_in_first_seen_order(es: Seq<Entry>, d: int)
    requires
        0 <= d < plan::dirs(es).len(),
    ensures
        exists|i: int|
            0 <= i < es.len() && plan::dir_name(#[trigger] es[i]) == plan::dirs(es)[d]
                && forall|j: int| 0 <= j < i ==> plan::dirs(es).take(d).contains(
                plan::dir_name(#[trigger] es[j]),
            ),
        forall|a: int, b: int|
            0 <= a < b < plan::dirs(es).len() ==> plan::dirs(es)[a] != plan::dirs(es)[b],
        forall|i: int| 0 <= i < es.len() ==> plan::dirs(es).contains(#[trigger] plan::dir_name(es[i])),
{
    let i = lemma_first_entry(es, es.len() as int, d);
    plan::lemma_dirs(es, es.len() as int);
    assert(plan::dir_name(es[i]) == plan::dirs(es)[d]);
}

/// The first entry of directory `d`.
proof fn lemma_first_entry(es: Seq<Entry>, n: int, d: int) -> (i: int)
    requires
        0 <= n <= es.len(),
        0 <= d < plan::dirs_to(es, n).len(),
    ensures
        0 <= i < n,
        plan::dir_name(es[i]) == plan::dirs_to(es, n)[d],
        forall|j: int| 0 <= j < i ==> plan::dirs_to(es, n).take(d).contains(
            plan::dir_name(#[trigger] es[j]),
        ),
    decreases n,
{
    let before = plan::dirs_to(es, n - 1);
    if d < before.len() {
        let i = lemma_first_entry(es, n - 1, d);
        assert(plan::dirs_to(es, n).take(d) =~= before.take(d));
        i
    } else {
        plan::lemma_dirs(es, n - 1);
        assert(plan::dirs_to(es, n).take(d) =~= before);
        n - 1
    }
}

} // verus!
