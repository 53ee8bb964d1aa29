//! What paths lead to in a built image.
use vstd::prelude::*;
use crate::mfs::dirent;
use crate::mfs::inode;
use crate::mfs::inode::Node;
use crate::mkfs::image;
use crate::mkfs::laws;
use crate::mkfs::manifest;
use crate::mkfs::manifest::Entry;
use crate::mkfs::plan;
use crate::mkfs::plan::Listing;
use crate::mkfs::verify;
use crate::text;

verus! {

/// No path of the manifest holds a NUL character. (A name field is NUL-padded,
/// so a name that holds one is cut there when it is read.)
pub open spec fn nul_free(es: Seq<Entry>) -> bool {
    forall|i: int, c: int|
        0 <= i < es.len() && 0 <= c < es[i].path@.len() ==> es[i].path@[c] != '\0'
}

/// A listing whose names can all be read back.
spec fn listing_ok(l: Listing) -> bool {
    forall|j: int|
        0 <= j < l.len() ==> {
            &&& (#[trigger] l[j]).0 != 0
            &&& l[j].1.len() <= 60
            &&& forall|i: int| 0 <= i < l[j].1.len() ==> l[j].1[i] != 0
        }
}

/// Text without a NUL has no zero byte.
proof fn lemma_encode_no_nul(s: Seq<char>)
    requires
        forall|c: int| 0 <= c < s.len() ==> s[c] != '\0',
    ensures
        forall|i: int|
            0 <= i < vstd::utf8::encode_utf8(s).len() ==> vstd::utf8::encode_utf8(s)[i] != 0,
    decreases s.len(),
{
    if s.len() > 0 {
        let v = s[0] as u32;
        vstd::utf8::char_is_scalar(s[0]);
        vstd::utf8::char_u32_cast(s[0], v);
        assert(v != 0) by {
            if v == 0 {
                assert(s[0] == '\0');
            }
        }
        assert(v <= 0x7F ==> ((v & 0x7F) as u8) != 0) by (bit_vector)
            requires
                v != 0,
        ;
        assert((0xC0u8 | ((v >> 6) & 0x1F) as u8) != 0 && (0xE0u8 | ((v >> 12) & 0x0F) as u8) != 0
            && (0xF0u8 | ((v >> 18) & 0x7) as u8) != 0 && (0x80u8 | (v & 0x3F) as u8) != 0 && (
        0x80u8 | ((v >> 6) & 0x3F) as u8) != 0 && (0x80u8 | ((v >> 12) & 0x3F) as u8) != 0)
            by (bit_vector);
        lemma_encode_no_nul(s.drop_first());
        let head = vstd::utf8::encode_scalar(v);
        assert(forall|i: int| 0 <= i < head.len() ==> head[i] != 0);
        let rest = vstd::utf8::encode_utf8(s.drop_first());
        let all = vstd::utf8::encode_utf8(s);
        assert(all == head + rest);
        assert forall|i: int| 0 <= i < all.len() implies all[i] != 0 by {
            if i >= head.len() {
                assert(all[i] == rest[i - head.len()]);
            } else {
                assert(all[i] == head[i]);
            }
        }
    }
}

/// Distinct texts have distinct encodings.
proof fn lemma_encode_distinct(a: Seq<char>, b: Seq<char>)
    requires
        vstd::utf8::encode_utf8(a) == vstd::utf8::encode_utf8(b),
    ensures
        a == b,
{
    vstd::utf8::encode_utf8_decode_utf8(a);
    vstd::utf8::encode_utf8_decode_utf8(b);
}

/// The encodings of `.` and `..`.
proof fn lemma_encode_dots()
    ensures
        vstd::utf8::encode_utf8(seq!['.']) == seq![0x2eu8],
        vstd::utf8::encode_utf8(seq!['.', '.']) == seq![0x2eu8, 0x2eu8],
{
    vstd::utf8::is_ascii_chars_encode_utf8(seq!['.']);
    vstd::utf8::is_ascii_chars_encode_utf8(seq!['.', '.']);
    assert(vstd::utf8::encode_utf8(seq!['.']) =~= seq![0x2eu8]);
    assert(vstd::utf8::encode_utf8(seq!['.', '.']) =~= seq![0x2eu8, 0x2eu8]);
}

/// Entry `j` of a directory is entry `j` of its listing.
proof fn lemma_listing_entry(l: Listing, j: int)
    requires
        listing_ok(l),
        0 <= j < l.len(),
    ensures
        verify::entry_count(plan::listing_bytes(l)) == l.len(),
        verify::entry_live(plan::listing_bytes(l), j),
        dirent::ino_at(plan::listing_bytes(l), 64 * j) == l[j].0,
        dirent::name_at(plan::listing_bytes(l), 64 * j) == l[j].1,
{
    let dir = plan::listing_bytes(l);
    let off = 64 * j;
    assert forall|i: int| off <= i < off + 64 implies dir[i] == dirent::dirent_byte(
        l[j].0,
        l[j].1,
        i - off,
    ) by {
        assert(i / 64 == j && i % 64 == i - off);
    }
    dirent::law_dirent_round_trip(l[j].0, l[j].1, dir, off);
}

/// Searching a directory from entry `k` on finds entry `j`, the first of that
/// name.
proof fn lemma_find(l: Listing, name: Seq<u8>, k: int, j: int)
    requires
        listing_ok(l),
        0 <= k <= j < l.len(),
        l[j].1 == name,
        forall|i: int| k <= i < j ==> (#[trigger] l[i]).1 != name,
    ensures
        verify::find_from(plan::listing_bytes(l), name, k) == Some(l[j].0),
    decreases j - k,
{
    lemma_listing_entry(l, k);
    if k < j {
        assert(l[k].1 != name);
        lemma_find(l, name, k + 1, j);
    }
}

/// Searching a directory for a name it does not list finds nothing.
proof fn lemma_find_none(l: Listing, name: Seq<u8>, k: int)
    requires
        listing_ok(l),
        0 <= k <= l.len(),
        forall|i: int| 0 <= i < l.len() ==> (#[trigger] l[i]).1 != name,
    ensures
        verify::find_from(plan::listing_bytes(l), name, k) is None,
    decreases l.len() - k,
{
    if k < l.len() {
        lemma_listing_entry(l, k);
        assert(l[k].1 != name);
        lemma_find_none(l, name, k + 1);
    }
}

/// A path of two components is those two between slashes.
proof fn lemma_split(p: Seq<char>)
    requires
        manifest::split_spec(p) is Some,
    ensures
        ({
            let (dir, name) = manifest::split_spec(p)->0;
            &&& p == seq!['/'] + dir + seq!['/'] + name
            &&& verify::parts_from(p, 0) == seq![dir, name]
            &&& forall|c: int| 0 <= c < dir.len() ==> p.contains(#[trigger] dir[c])
            &&& forall|c: int| 0 <= c < name.len() ==> p.contains(#[trigger] name[c])
        }),
{
    let (dir, name) = manifest::split_spec(p)->0;
    let j = text::end_of(p, 1);
    text::lemma_end_of(p, 1);
    text::lemma_end_of(p, j + 1);
    assert(p =~= seq!['/'] + dir + seq!['/'] + name);
    assert(dir.len() > 0 && name.len() > 0);
    assert(p[1] == dir[0] && p[1] != '/');
    assert(p[j + 1] == name[0] && p[j + 1] != '/');
    reveal_with_fuel(verify::parts_from, 6);
    assert(verify::parts_from(p, j + 1) =~= seq![name]);
    assert(verify::parts_from(p, 0) =~= seq![dir, name]);
    assert forall|c: int| 0 <= c < dir.len() implies p.contains(#[trigger] dir[c]) by {
        assert(p[1 + c] == dir[c]);
    }
    assert forall|c: int| 0 <= c < name.len() implies p.contains(#[trigger] name[c]) by {
        assert(p[j + 1 + c] == name[c]);
    }
}

/// The name parts of an entry hold no NUL when its path holds none.
proof fn lemma_parts_nul_free(es: Seq<Entry>, i: int)
    requires
        plan::plan_fault(es) is None,
        nul_free(es),
        0 <= i < es.len(),
    ensures
        manifest::split_spec(es[i].path@) is Some,
        manifest::component_ok(plan::dir_name(es[i])),
        manifest::component_ok(plan::file_name(es[i])),
        forall|c: int|
            0 <= c < plan::dir_name(es[i]).len() ==> plan::dir_name(es[i])[c] != '\0',
        forall|c: int|
            0 <= c < plan::file_name(es[i]).len() ==> plan::file_name(es[i])[c] != '\0',
{
    plan::lemma_no_fault(es, es.len() as int, i);
    lemma_split(es[i].path@);
}

/// The root's listing can be read back, and lists each directory once.
proof fn lemma_root_ok(es: Seq<Entry>)
    requires
        plan::plan_fault(es) is None,
        nul_free(es),
    ensures
        listing_ok(plan::root_listing(es, plan::dirs(es).len() as int)),
        forall|d: int, i: int|
            0 <= d < plan::dirs(es).len() && 0 <= i < 2 + d ==> (
            #[trigger] plan::root_listing(es, plan::dirs(es).len() as int)[i]).1
                != vstd::utf8::encode_utf8(#[trigger] plan::dirs(es)[d]),
{
    let nd = plan::dirs(es).len() as int;
    let l = plan::root_listing(es, nd);
    lemma_encode_dots();
    plan::lemma_dirs(es, es.len() as int);
    assert forall|j: int| 0 <= j < l.len() implies {
        &&& (#[trigger] l[j]).0 != 0
        &&& l[j].1.len() <= 60
        &&& forall|i: int| 0 <= i < l[j].1.len() ==> l[j].1[i] != 0
    } by {
        if j >= 2 {
            let d = j - 2;
            plan::lemma_dir_name_ok(es, d);
            let i = choose|i: int|
                0 <= i < es.len() && plan::dir_name(es[i]) == plan::dirs(es)[d];
            lemma_parts_nul_free(es, i);
            lemma_encode_no_nul(plan::dirs(es)[d]);
        }
    }
    assert forall|d: int, i: int| 0 <= d < nd && 0 <= i < 2 + d implies (#[trigger] l[i]).1
        != vstd::utf8::encode_utf8(#[trigger] plan::dirs(es)[d]) by {
        let name = plan::dirs(es)[d];
        plan::lemma_dir_name_ok(es, d);
        if l[i].1 == vstd::utf8::encode_utf8(name) {
            if i == 0 {
                lemma_encode_distinct(seq!['.'], name);
            } else if i == 1 {
                lemma_encode_distinct(seq!['.', '.'], name);
            } else {
                lemma_encode_distinct(plan::dirs(es)[i - 2], name);
            }
        }
    }
}

/// Which place an entry has among the files of its directory.
pub proof fn lemma_files_in(es: Seq<Entry>, n: int, dir: Seq<char>)
    requires
        0 <= n <= es.len(),
    ensures
        forall|j: int|
            0 <= j < plan::files_in(es, n, dir).len() ==> {
                &&& 0 <= #[trigger] plan::files_in(es, n, dir)[j] < n
                &&& plan::dir_name(es[plan::files_in(es, n, dir)[j]]) == dir
            },
        forall|i: int|
            0 <= i < n && plan::dir_name(#[trigger] es[i]) == dir ==> plan::files_in(
                es,
                n,
                dir,
            ).contains(i),
        forall|a: int, b: int|
            0 <= a < b < plan::files_in(es, n, dir).len() ==> plan::files_in(es, n, dir)[a]
                < plan::files_in(es, n, dir)[b],
    decreases n,
{
    if n > 0 {
        lemma_files_in(es, n - 1, dir);
        let before = plan::files_in(es, n - 1, dir);
        let now = plan::files_in(es, n, dir);
        assert forall|i: int| 0 <= i < n && plan::dir_name(#[trigger] es[i]) == dir implies now
            .contains(i) by {
            if i == n - 1 {
                assert(now[before.len() as int] == i);
            } else {
                let a = choose|a: int| 0 <= a < before.len() && before[a] == i;
                assert(now[a] == i);
            }
        }
    }
}

/// Two entries in one directory with one name are one entry.
proof fn lemma_same_path(es: Seq<Entry>, i: int, j: int)
    requires
        plan::plan_fault(es) is None,
        0 <= i < es.len(),
        0 <= j < es.len(),
        plan::dir_name(es[i]) == plan::dir_name(es[j]),
        plan::file_name(es[i]) == plan::file_name(es[j]),
    ensures
        i == j,
{
    plan::lemma_no_fault(es, es.len() as int, i);
    plan::lemma_no_fault(es, es.len() as int, j);
    lemma_split(es[i].path@);
    lemma_split(es[j].path@);
    assert(es[i].path@ == es[j].path@);
}

/// A directory's listing can be read back, and lists each of its files once.
proof fn lemma_dir_ok(es: Seq<Entry>, d: int)
    requires
        plan::plan_fault(es) is None,
        nul_free(es),
        0 <= d < plan::dirs(es).len(),
    ensures
        listing_ok(plan::dir_listing(es, d, es.len() as int)),
        ({
            let l = plan::dir_listing(es, d, es.len() as int);
            let files = plan::files_in(es, es.len() as int, plan::dirs(es)[d]);
            forall|j: int, i: int|
                0 <= j < files.len() && 0 <= i < 2 + j ==> (#[trigger] l[i]).1
                    != vstd::utf8::encode_utf8(plan::file_name(es[#[trigger] files[j]]))
        }),
{
    let n = es.len() as int;
    let l = plan::dir_listing(es, d, n);
    let files = plan::files_in(es, n, plan::dirs(es)[d]);
    lemma_encode_dots();
    lemma_files_in(es, n, plan::dirs(es)[d]);
    assert forall|j: int| 0 <= j < l.len() implies {
        &&& (#[trigger] l[j]).0 != 0
        &&& l[j].1.len() <= 60
        &&& forall|i: int| 0 <= i < l[j].1.len() ==> l[j].1[i] != 0
    } by {
        if j >= 2 {
            let i = files[j - 2];
            lemma_parts_nul_free(es, i);
            lemma_encode_no_nul(plan::file_name(es[i]));
        }
    }
    assert forall|j: int, i: int| 0 <= j < files.len() && 0 <= i < 2 + j implies (
    #[trigger] l[i]).1 != vstd::utf8::encode_utf8(plan::file_name(es[#[trigger] files[j]])) by {
        let name = plan::file_name(es[files[j]]);
        lemma_parts_nul_free(es, files[j]);
        if l[i].1 == vstd::utf8::encode_utf8(name) {
            if i == 0 {
                lemma_encode_distinct(seq!['.'], name);
            } else if i == 1 {
                lemma_encode_distinct(seq!['.', '.'], name);
            } else {
                lemma_encode_distinct(plan::file_name(es[files[i - 2]]), name);
                lemma_same_path(es, files[i - 2], files[j]);
            }
        }
    }
}

/// Directories have directory modes, and files have file modes.
proof fn lemma_modes(es: Seq<Entry>, k: int)
    ensures
        k <= plan::dirs(es).len() ==> inode::mode_is_dir(image::object_node(es, k).mode)
            && !inode::mode_is_reg(image::object_node(es, k).mode),
        k > plan::dirs(es).len() ==> inode::mode_is_reg(image::object_node(es, k).mode)
            && !inode::mode_is_dir(image::object_node(es, k).mode),
{
    reveal(image::object_node);
}

/// From the root, the name of directory `d` leads to that directory.
proof fn lemma_walk_dir(es: Seq<Entry>, d: int, rest: Seq<Seq<char>>)
    requires
        plan::plan_fault(es) is None,
        nul_free(es),
        0 <= d < plan::dirs(es).len(),
    ensures
        verify::walk(
            image::image_spec(es),
            1,
            image::object_node(es, 0),
            seq![plan::dirs(es)[d]] + rest,
        ) == verify::walk(
            image::image_spec(es),
            plan::dir_ino(d),
            image::object_node(es, d + 1),
            rest,
        ),
{
    let nd = plan::dirs(es).len() as int;
    let dir = plan::dirs(es)[d];
    laws::law_content_reads_back(es, 0);
    laws::law_inode_reads_back(es, d + 1);
    let root = plan::root_listing(es, nd);
    lemma_root_ok(es);
    assert(root[2 + d] == (plan::dir_ino(d), vstd::utf8::encode_utf8(dir)));
    assert(forall|i: int| 0 <= i < 2 + d ==> (#[trigger] root[i]).1 != vstd::utf8::encode_utf8(
        plan::dirs(es)[d],
    ));
    lemma_find(root, vstd::utf8::encode_utf8(dir), 0, 2 + d);
    let comps = seq![dir] + rest;
    assert(comps[0] == dir);
    assert(comps.skip(1) =~= rest);
    lemma_modes(es, 0);
}

/// From a directory, the name of its `j`-th file leads to that file.
proof fn lemma_walk_file(es: Seq<Entry>, d: int, j: int)
    requires
        plan::plan_fault(es) is None,
        nul_free(es),
        0 <= d < plan::dirs(es).len(),
        0 <= j < plan::files_in(es, es.len() as int, plan::dirs(es)[d]).len(),
    ensures
        ({
            let i = plan::files_in(es, es.len() as int, plan::dirs(es)[d])[j];
            verify::walk(
                image::image_spec(es),
                plan::dir_ino(d),
                image::object_node(es, d + 1),
                seq![plan::file_name(es[i])],
            ) == Some(
                (plan::file_ino(es, i), image::object_node(es, 1 + plan::dirs(es).len() + i)),
            )
        }),
{
    let n = es.len() as int;
    let nd = plan::dirs(es).len() as int;
    let files = plan::files_in(es, n, plan::dirs(es)[d]);
    let i = files[j];
    lemma_files_in(es, n, plan::dirs(es)[d]);
    let name = plan::file_name(es[i]);
    laws::law_content_reads_back(es, d + 1);
    laws::law_inode_reads_back(es, 1 + nd + i);
    let listing = plan::dir_listing(es, d, n);
    lemma_dir_ok(es, d);
    assert(listing[2 + j] == (plan::file_ino(es, i), vstd::utf8::encode_utf8(name)));
    assert(forall|a: int| 0 <= a < 2 + j ==> (#[trigger] listing[a]).1
        != vstd::utf8::encode_utf8(plan::file_name(es[files[j]])));
    lemma_find(listing, vstd::utf8::encode_utf8(name), 0, 2 + j);
    reveal_with_fuel(verify::walk, 2);
    let comps = seq![name];
    assert(comps[0] == name);
    assert(comps.skip(1) =~= Seq::<Seq<char>>::empty());
    lemma_modes(es, d + 1);
}

/// Every file of the manifest is found by its path, under the inode number its
/// place in the manifest gives it, and its contents are read back byte for byte.
/// It is no directory.
pub proof fn law_file_round_trip(es: Seq<Entry>, i: int)
    requires
        plan::plan_fault(es) is None,
        nul_free(es),
        0 <= i < es.len(),
    ensures
        verify::resolve(image::image_spec(es), es[i].path@) == Some(
            (plan::file_ino(es, i), image::object_node(es, 1 + plan::dirs(es).len() + i)),
        ),
        verify::file_at(image::image_spec(es), es[i].path@) == Some(es[i].bytes@),
        verify::dir_at(image::image_spec(es), es[i].path@) is None,
{
    let n = es.len() as int;
    let nd = plan::dirs(es).len() as int;
    let dir = plan::dir_name(es[i]);
    let name = plan::file_name(es[i]);
    lemma_parts_nul_free(es, i);
    lemma_split(es[i].path@);
    plan::lemma_dirs(es, n);
    assert(plan::dirs(es).contains(dir));
    let d = choose|d: int| 0 <= d < nd && plan::dirs(es)[d] == dir;
    lemma_files_in(es, n, dir);
    let files = plan::files_in(es, n, dir);
    assert(files.contains(i)) by {
        assert(plan::dir_name(es[i]) == dir);
    }
    let j = choose|j: int| 0 <= j < files.len() && files[j] == i;
    laws::law_inode_reads_back(es, 0);
    lemma_walk_dir(es, d, seq![name]);
    lemma_walk_file(es, d, j);
    assert(seq![dir] + seq![name] =~= seq![dir, name]);
    laws::law_content_reads_back(es, 1 + nd + i);
    lemma_modes(es, 1 + nd + i);
}

/// A path that goes through a file leads to nothing.
pub proof fn law_no_path_through_a_file(es: Seq<Entry>, i: int, p: Seq<char>)
    requires
        plan::plan_fault(es) is None,
        nul_free(es),
        0 <= i < es.len(),
        verify::parts_from(es[i].path@, 0).is_prefix_of(verify::parts_from(p, 0)),
        verify::parts_from(p, 0).len() > verify::parts_from(es[i].path@, 0).len(),
    ensures
        verify::resolve(image::image_spec(es), p) is None,
        verify::file_at(image::image_spec(es), p) is None,
        verify::dir_at(image::image_spec(es), p) is None,
{
    let img = image::image_spec(es);
    let root = image::object_node(es, 0);
    let parts = verify::parts_from(p, 0);
    let front = verify::parts_from(es[i].path@, 0);
    laws::law_inode_reads_back(es, 0);
    law_file_round_trip(es, i);
    lemma_walk_on(img, 1, root, front, parts.skip(front.len() as int));
    assert(front + parts.skip(front.len() as int) =~= parts);
    lemma_modes(es, 1 + plan::dirs(es).len() + i);
}

/// Following more components goes on from where the first ones led.
pub proof fn lemma_walk_on(
    img: Seq<u8>,
    ino: u32,
    node: Node,
    front: Seq<Seq<char>>,
    rest: Seq<Seq<char>>,
)
    ensures
        verify::walk(img, ino, node, front + rest) == match verify::walk(img, ino, node, front) {
            Some((i, n)) => verify::walk(img, i, n, rest),
            None => None,
        },
    decreases front.len(),
{
    let all = front + rest;
    if front.len() == 0 {
        assert(all =~= rest);
    } else if inode::mode_is_dir(node.mode) {
        assert(all[0] == front[0]);
        assert(all.skip(1) =~= front.skip(1) + rest);
        if let Some(dir) = verify::content(img, node) {
            if let Some(next) = verify::find_from(dir, vstd::utf8::encode_utf8(front[0]), 0) {
                if let Some(n) = verify::node_of(img, next) {
                    lemma_walk_on(img, next, n, front.skip(1), rest);
                }
            }
        }
    }
}

/// Entry `i` of the manifest is the file `name` of the directory `dir`.
pub open spec fn names_file(es: Seq<Entry>, dir: Seq<char>, name: Seq<char>, i: int) -> bool {
    &&& 0 <= i < es.len()
    &&& plan::dir_name(es[i]) == dir
    &&& plan::file_name(es[i]) == name
}

/// The object that one component leads to from object `k`, by the manifest alone:
/// `.` stays, `..` goes to the root, the root leads to its directories, and a
/// directory to its files. From a file nothing leads on.
pub open spec fn child(es: Seq<Entry>, k: int, name: Seq<char>) -> Option<int> {
    let nd = plan::dirs(es).len() as int;
    if k > nd {
        None
    } else if name == seq!['.'] {
        Some(k)
    } else if name == seq!['.', '.'] {
        Some(0)
    } else if k == 0 {
        if plan::dirs(es).contains(name) {
            Some(1 + plan::dirs(es).index_of(name))
        } else {
            None
        }
    } else {
        let dir = plan::dirs(es)[k - 1];
        if exists|i: int| names_file(es, dir, name, i) {
            Some(1 + nd + choose|i: int| names_file(es, dir, name, i))
        } else {
            None
        }
    }
}

/// The object that the components lead to from object `k`.
pub open spec fn leads_to(es: Seq<Entry>, k: int, comps: Seq<Seq<char>>) -> Option<int>
    decreases comps.len(),
{
    if comps.len() == 0 {
        Some(k)
    } else {
        match child(es, k, comps[0]) {
            Some(c) => leads_to(es, c, comps.skip(1)),
            None => None,
        }
    }
}

/// Searching the root finds what the manifest says.
proof fn lemma_root_child(es: Seq<Entry>, name: Seq<char>)
    requires
        plan::plan_fault(es) is None,
        nul_free(es),
    ensures
        verify::find_from(plan::object_data(es, 0), vstd::utf8::encode_utf8(name), 0) == match child(
            es,
            0,
            name,
        ) {
            Some(c) => Some((c + 1) as u32),
            None => None::<u32>,
        },
        child(es, 0, name) matches Some(c) ==> 0 <= c < plan::object_count(es),
{
    let nd = plan::dirs(es).len() as int;
    let l = plan::root_listing(es, nd);
    let enc = vstd::utf8::encode_utf8(name);
    lemma_encode_dots();
    lemma_root_ok(es);
    assert(l[0].1 == seq![0x2eu8] && l[1].1 == seq![0x2eu8, 0x2eu8]);
    assert(l[0].1.len() != l[1].1.len());
    if name == seq!['.'] {
        lemma_find(l, enc, 0, 0);
    } else if name == seq!['.', '.'] {
        lemma_find(l, enc, 0, 1);
    } else if plan::dirs(es).contains(name) {
        let d = plan::dirs(es).index_of(name);
        assert(0 <= d < nd && plan::dirs(es)[d] == name);
        assert(l[2 + d] == (plan::dir_ino(d), vstd::utf8::encode_utf8(plan::dirs(es)[d])));
        lemma_find(l, enc, 0, 2 + d);
    } else {
        assert forall|a: int| 0 <= a < l.len() implies (#[trigger] l[a]).1 != enc by {
            if l[a].1 == enc {
                if a == 0 {
                    lemma_encode_distinct(seq!['.'], name);
                } else if a == 1 {
                    lemma_encode_distinct(seq!['.', '.'], name);
                } else {
                    lemma_encode_distinct(plan::dirs(es)[a - 2], name);
                    assert(plan::dirs(es).contains(plan::dirs(es)[a - 2]));
                }
            }
        }
        lemma_find_none(l, enc, 0);
    }
}

/// Searching a directory finds what the manifest says.
proof fn lemma_dir_child(es: Seq<Entry>, d: int, name: Seq<char>)
    requires
        plan::plan_fault(es) is None,
        nul_free(es),
        0 <= d < plan::dirs(es).len(),
    ensures
        verify::find_from(plan::object_data(es, d + 1), vstd::utf8::encode_utf8(name), 0)
            == match child(es, d + 1, name) {
            Some(c) => Some((c + 1) as u32),
            None => None::<u32>,
        },
        child(es, d + 1, name) matches Some(c) ==> 0 <= c < plan::object_count(es),
{
    let n = es.len() as int;
    let dir = plan::dirs(es)[d];
    let l = plan::dir_listing(es, d, n);
    let files = plan::files_in(es, n, dir);
    let enc = vstd::utf8::encode_utf8(name);
    lemma_encode_dots();
    lemma_dir_ok(es, d);
    lemma_files_in(es, n, dir);
    assert(l[0].1 == seq![0x2eu8] && l[1].1 == seq![0x2eu8, 0x2eu8]);
    assert(l[0].1.len() != l[1].1.len());
    if name == seq!['.'] {
        lemma_find(l, enc, 0, 0);
    } else if name == seq!['.', '.'] {
        lemma_find(l, enc, 0, 1);
    } else if exists|i: int| names_file(es, dir, name, i) {
        let i = choose|i: int| names_file(es, dir, name, i);
        assert(plan::dir_name(es[i]) == dir);
        assert(files.contains(i));
        let j = choose|j: int| 0 <= j < files.len() && files[j] == i;
        assert(l[2 + j] == (
            plan::file_ino(es, files[j]),
            vstd::utf8::encode_utf8(plan::file_name(es[files[j]])),
        ));
        lemma_find(l, enc, 0, 2 + j);
    } else {
        assert forall|a: int| 0 <= a < l.len() implies (#[trigger] l[a]).1 != enc by {
            if l[a].1 == enc {
                if a == 0 {
                    lemma_encode_distinct(seq!['.'], name);
                } else if a == 1 {
                    lemma_encode_distinct(seq!['.', '.'], name);
                } else {
                    let i = files[a - 2];
                    lemma_encode_distinct(plan::file_name(es[i]), name);
                    assert(names_file(es, dir, name, i));
                }
            }
        }
        lemma_find_none(l, enc, 0);
    }
}

/// Following components in the image goes as the manifest says.
proof fn lemma_leads(es: Seq<Entry>, k: int, comps: Seq<Seq<char>>)
    requires
        plan::plan_fault(es) is None,
        nul_free(es),
        0 <= k < plan::object_count(es),
    ensures
        verify::walk(image::image_spec(es), (k + 1) as u32, image::object_node(es, k), comps)
            == match leads_to(es, k, comps) {
            Some(c) => Some(((c + 1) as u32, image::object_node(es, c))),
            None => None::<(u32, Node)>,
        },
        leads_to(es, k, comps) matches Some(c) ==> 0 <= c < plan::object_count(es),
    decreases comps.len(),
{
    lemma_modes(es, k);
    if comps.len() > 0 && k <= plan::dirs(es).len() {
        laws::law_content_reads_back(es, k);
        if k == 0 {
            lemma_root_child(es, comps[0]);
        } else {
            lemma_dir_child(es, k - 1, comps[0]);
        }
        if let Some(c) = child(es, k, comps[0]) {
            laws::law_inode_reads_back(es, c);
            lemma_leads(es, c, comps.skip(1));
        }
    }
}

/// What a path resolves to in the image is the object that its components lead to
/// in the manifest, whatever the path.
pub proof fn law_paths_lead_as_in_the_manifest(es: Seq<Entry>, p: Seq<char>)
    requires
        plan::plan_fault(es) is None,
        nul_free(es),
    ensures
        verify::resolve(image::image_spec(es), p) == match leads_to(
            es,
            0,
            verify::parts_from(p, 0),
        ) {
            Some(c) => Some(((c + 1) as u32, image::object_node(es, c))),
            None => None::<(u32, Node)>,
        },
{
    laws::law_inode_reads_back(es, 0);
    lemma_leads(es, 0, verify::parts_from(p, 0));
}

/// A path whose components lead to no entry of the manifest leads to nothing in the
/// image: no file and no directory.
pub proof fn law_missing_path(es: Seq<Entry>, p: Seq<char>)
    requires
        plan::plan_fault(es) is None,
        nul_free(es),
        leads_to(es, 0, verify::parts_from(p, 0)) is None,
    ensures
        verify::resolve(image::image_spec(es), p) is None,
        verify::file_at(image::image_spec(es), p) is None,
        verify::dir_at(image::image_spec(es), p) is None,
{
    law_paths_lead_as_in_the_manifest(es, p);
}

/// Of the paths that a manifest could hold, those it does not hold lead to nothing.
pub proof fn law_unlisted_path(es: Seq<Entry>, p: Seq<char>)
    requires
        plan::plan_fault(es) is None,
        nul_free(es),
        manifest::split_spec(p) is Some,
        forall|i: int| 0 <= i < es.len() ==> es[i].path@ != p,
    ensures
        verify::resolve(image::image_spec(es), p) is None,
        verify::file_at(image::image_spec(es), p) is None,
        verify::dir_at(image::image_spec(es), p) is None,
{
    let (dir, name) = manifest::split_spec(p)->0;
    let comps = seq![dir, name];
    lemma_split(p);
    reveal_with_fuel(leads_to, 3);
    assert(comps[0] == dir);
    assert(comps.skip(1) =~= seq![name]);
    if let Some(k) = child(es, 0, dir) {
        assert(plan::dirs(es).contains(dir));
        assert(plan::dirs(es)[k - 1] == dir);
        assert forall|i: int| !names_file(es, dir, name, i) by {
            if names_file(es, dir, name, i) {
                lemma_parts_nul_free(es, i);
                lemma_split(es[i].path@);
                assert(es[i].path@ == p);
            }
        }
    }
    law_missing_path(es, p);
}

/// The names a listing reads back as.
proof fn lemma_names(l: Listing, k: int, want: Seq<Seq<char>>)
    requires
        listing_ok(l),
        want.len() == l.len(),
        0 <= k <= l.len(),
        forall|j: int|
            0 <= j < l.len() ==> (#[trigger] l[j]).1 == vstd::utf8::encode_utf8(want[j]),
    ensures
        verify::names_to(plan::listing_bytes(l), k) == want.take(k),
        verify::entry_count(plan::listing_bytes(l)) == l.len(),
    decreases k,
{
    if k > 0 {
        lemma_names(l, k - 1, want);
        lemma_listing_entry(l, k - 1);
        vstd::utf8::encode_utf8_decode_utf8(want[k - 1]);
        vstd::utf8::encode_utf8_valid_utf8(want[k - 1]);
        assert(want.take(k) =~= want.take(k - 1).push(want[k - 1]));
    } else {
        assert(want.take(0) =~= Seq::<Seq<char>>::empty());
    }
}

/// The names every directory lists first.
pub open spec fn dot_names() -> Seq<Seq<char>> {
    seq![seq!['.'], seq!['.', '.']]
}

/// The root lists `.`, `..`, and every directory in first-seen order. It is no
/// file.
pub proof fn law_root_lists_directories(es: Seq<Entry>)
    requires
        plan::plan_fault(es) is None,
        nul_free(es),
    ensures
        verify::dir_at(image::image_spec(es), seq!['/']) == Some(dot_names() + plan::dirs(es)),
        verify::file_at(image::image_spec(es), seq!['/']) is None,
{
    let nd = plan::dirs(es).len() as int;
    let l = plan::root_listing(es, nd);
    let want = dot_names() + plan::dirs(es);
    laws::law_inode_reads_back(es, 0);
    laws::law_content_reads_back(es, 0);
    lemma_root_ok(es);
    lemma_encode_dots();
    lemma_names(l, l.len() as int, want);
    assert(want.take(l.len() as int) =~= want);
    reveal_with_fuel(verify::parts_from, 3);
    assert(verify::parts_from(seq!['/'], 0) =~= Seq::<Seq<char>>::empty());
    lemma_modes(es, 0);
}

/// A directory lists `.`, `..`, and its files in manifest order. It is no file.
pub proof fn law_directory_lists_files(es: Seq<Entry>, d: int)
    requires
        plan::plan_fault(es) is None,
        nul_free(es),
        0 <= d < plan::dirs(es).len(),
    ensures
        ({
            let files = plan::files_in(es, es.len() as int, plan::dirs(es)[d]);
            verify::dir_at(image::image_spec(es), seq!['/'] + plan::dirs(es)[d]) == Some(
                dot_names() + Seq::new(files.len(), |j: int| plan::file_name(es[files[j]])),
            )
        }),
        verify::file_at(image::image_spec(es), seq!['/'] + plan::dirs(es)[d]) is None,
{
    let n = es.len() as int;
    let dir = plan::dirs(es)[d];
    let files = plan::files_in(es, n, dir);
    let l = plan::dir_listing(es, d, n);
    let want = dot_names() + Seq::new(files.len(), |j: int| plan::file_name(es[files[j]]));
    laws::law_inode_reads_back(es, 0);
    laws::law_content_reads_back(es, d + 1);
    lemma_dir_ok(es, d);
    lemma_encode_dots();
    lemma_names(l, l.len() as int, want);
    assert(want.take(l.len() as int) =~= want);
    let none = Seq::<Seq<char>>::empty();
    lemma_walk_dir(es, d, none);
    assert(seq![dir] + none =~= seq![dir]);
    plan::lemma_dir_name_ok(es, d);
    let i = choose|i: int| 0 <= i < es.len() && plan::dir_name(es[i]) == dir;
    lemma_parts_nul_free(es, i);
    let full = es[i].path@;
    text::lemma_end_of(full, 1);
    let p = seq!['/'] + dir;
    assert forall|c: int| 1 <= c < p.len() implies p[c] != '/' by {
        assert(p[c] == full[c]);
    }
    lemma_one_part(p);
    assert(p.subrange(1, p.len() as int) =~= dir);
    lemma_modes(es, d + 1);
}

/// A slash and a name without slashes have one component.
proof fn lemma_one_part(p: Seq<char>)
    requires
        p.len() > 1,
        p[0] == '/',
        forall|c: int| 1 <= c < p.len() ==> p[c] != '/',
    ensures
        verify::parts_from(p, 0) == seq![p.subrange(1, p.len() as int)],
{
    text::lemma_end_of(p, 1);
    assert(text::end_of(p, 1) == p.len());
    reveal_with_fuel(verify::parts_from, 4);
    assert(verify::parts_from(p, p.len() as int) =~= Seq::<Seq<char>>::empty());
    assert(verify::parts_from(p, 0) =~= seq![p.subrange(1, p.len() as int)]);
}

} // verus!
